//! Construction entry points for heap-owned values.
//!
//! [`BoxExt`] adds initializer methods to an owning container: construct
//! from a zero-argument producer, construct the zero value (gated by the
//! [`Zero`] capability), and construct from an already-made value; each in an
//! infallible form and in a fallible form whose failure case is an empty
//! result. Every contract pins the observable contents of the returned
//! value: a caller never sees a partially constructed one.
//!
//! The implementation for `Box` places values through safe, infallible heap
//! placement, whose failure path is the platform allocator's own
//! failure-reporting path. A raw-allocator implementation that writes the
//! produced value in place and can report failure as a value needs raw
//! pointer writes, which the verifier refuses; its decisions — the
//! zero-size sentinel, the failure signal, the fate of the infallible entry
//! points — are the verified functions of [`crate::allocation`], and its
//! entry points answer to the same contracts as the ones here.

use crate::zero::Zero;
use vstd::prelude::*;

verus! {

/// Extensions to the `Box` type.
pub trait BoxExt: Sized {
    /// Type contained inside the `Box`.
    type Inner;

    /// The value held inside.
    spec fn contents(&self) -> Self::Inner;

    /// Whether the fallible entry points of this implementation succeed on
    /// every input. An implementation whose placement path terminates the
    /// process on allocator failure instead of reporting it as a value never
    /// returns the empty result; one that reports failure as a value does
    /// not promise success here, and its empty result stands for exactly the
    /// allocation-failure signal of [`crate::allocation`].
    spec fn always_succeeds() -> bool;

    /// Allocates memory on the heap and then places the result of `f` into it.
    ///
    /// The contents of the result are a value the producer `f` can return:
    /// calling `f` directly and moving its result would yield the same value.
    /// A zero-sized `Self::Inner` needs no real allocation (see
    /// [`crate::allocation`]).
    fn new_with<F: FnOnce() -> Self::Inner>(f: F) -> (r: Self)
        requires
            call_requires(f, ()),
        ensures
            call_ensures(f, (), r.contents()),
    ;

    /// Allocates zeroed memory on the heap.
    ///
    /// The contents of the result are the zero value of `Self::Inner`, which
    /// the [`Zero`] capability states is valid for that type. A zero-sized
    /// `Self::Inner` needs no real allocation (see [`crate::allocation`]).
    fn new_zeroed() -> (r: Self) where Self::Inner: Zero
        ensures
            r.contents().is_zero(),
    ;

    /// Fallible construction from a value.
    ///
    /// A successful result holds exactly `x`; the empty result stands for
    /// allocation failure, and nothing half-constructed is ever returned.
    /// A zero-sized `Self::Inner` never reaches the platform allocator, so
    /// for it success is owed; so it is whenever the implementation never
    /// reports failure as a value.
    fn try_new(x: Self::Inner) -> (r: Option<Self>)
        ensures
            r matches Some(b) ==> b.contents() == x,
            vstd::layout::size_of::<Self::Inner>() == 0 ==> r is Some,
            Self::always_succeeds() ==> r is Some,
    ;

    /// Fallible [`BoxExt::new_with`].
    ///
    /// A successful result holds a value the producer `f` can return; the
    /// empty result stands for allocation failure. Success is owed for a
    /// zero-sized `Self::Inner`, and whenever the implementation never
    /// reports failure as a value.
    fn try_new_with<F: FnOnce() -> Self::Inner>(f: F) -> (r: Option<Self>)
        requires
            call_requires(f, ()),
        ensures
            r matches Some(b) ==> call_ensures(f, (), b.contents()),
            vstd::layout::size_of::<Self::Inner>() == 0 ==> r is Some,
            Self::always_succeeds() ==> r is Some,
    ;

    /// Fallible [`BoxExt::new_zeroed`].
    ///
    /// A successful result holds the zero value of `Self::Inner`; the empty
    /// result stands for allocation failure. Success is owed for a
    /// zero-sized `Self::Inner`, and whenever the implementation never
    /// reports failure as a value.
    fn try_new_zeroed() -> (r: Option<Self>) where Self::Inner: Zero
        ensures
            r matches Some(b) ==> b.contents().is_zero(),
            vstd::layout::size_of::<Self::Inner>() == 0 ==> r is Some,
            Self::always_succeeds() ==> r is Some,
    ;
}

impl<T> BoxExt for Box<T> {
    type Inner = T;

    open spec fn contents(&self) -> T {
        **self
    }

    /// Placement through safe `Box::new` terminates on allocator failure
    /// instead of reporting it, so the fallible entry points always succeed.
    open spec fn always_succeeds() -> bool {
        true
    }

    fn new_with<F: FnOnce() -> T>(f: F) -> Self {
        Box::new(f())
    }

    fn new_zeroed() -> Self where T: Zero {
        Box::new(T::zero_value())
    }

    fn try_new(x: T) -> Option<Self> {
        Some(Box::new(x))
    }

    fn try_new_with<F: FnOnce() -> T>(f: F) -> Option<Self> {
        Some(Box::new(f()))
    }

    fn try_new_zeroed() -> Option<Self> where T: Zero {
        Some(Box::new(T::zero_value()))
    }
}

/// Law: constructing from an already-made value is observably equivalent to
/// constructing with a producer that yields exactly that value. If every
/// value the producer can return equals `v`, then any successful
/// construction from `v` and any successful construction with the producer
/// hold the same contents; and where success is owed — a zero-sized inner
/// type, or an implementation that never reports failure as a value — both
/// constructions succeed.
pub proof fn lemma_from_value_matches_producer<B: BoxExt, F: FnOnce() -> B::Inner>(
    v: B::Inner,
    f: F,
    from_value: Option<B>,
    from_producer: Option<B>,
)
    requires
        forall|y: B::Inner| call_ensures(f, (), y) ==> y == v,
        from_value matches Some(b) ==> b.contents() == v,
        from_producer matches Some(b) ==> call_ensures(f, (), b.contents()),
        vstd::layout::size_of::<B::Inner>() == 0 ==> from_value is Some && from_producer is Some,
        B::always_succeeds() ==> from_value is Some && from_producer is Some,
    ensures
        from_value matches Some(b1) ==> (from_producer matches Some(b2) ==> b1.contents()
            == b2.contents()),
        vstd::layout::size_of::<B::Inner>() == 0 || B::always_succeeds() ==> (
        from_value matches Some(b1) && from_producer matches Some(b2) && b1.contents()
            == b2.contents()),
{
}

} // verus!
