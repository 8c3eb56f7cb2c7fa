//! Initializer helpers for heap-owned values.
//!
//! The crate provides extra construction entry points for `Box`:
//!
//! * [`BoxExt::new_with`] places the result of a zero-argument producer into
//!   freshly allocated heap storage;
//! * [`BoxExt::new_zeroed`] yields a heap value equal to the type's zero
//!   value, gated by the [`Zero`] capability;
//! * [`BoxExt::try_new`], [`BoxExt::try_new_with`] and
//!   [`BoxExt::try_new_zeroed`] are the fallible forms, which report
//!   allocation failure as an empty result instead of terminating. Their
//!   contracts say when success is owed: always for a zero-sized type, and
//!   always for an implementation, like the one for `Box` here, whose
//!   placement path terminates on allocator failure instead of reporting it.
//!
//! The [`allocation`] module models the raw allocation protocol these entry
//! points rest on: the (size, alignment) descriptor of a request, the
//! zero-sized fast path that never reaches the platform allocator, the
//! failure signal carrying the descriptor of the failed request, and the
//! fate decision of the infallible entry points.

pub mod allocation;
pub mod box_ext;
pub mod zero;

pub use zero::Zero;
pub use allocation::AllocDescriptor;
pub use allocation::AllocFailure;
pub use allocation::AllocPlan;
pub use box_ext::BoxExt;
