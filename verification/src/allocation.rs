//! Model of the raw allocation primitive.
//!
//! A construction entry point first computes the [`AllocDescriptor`] of the
//! target type, then plans the request: a zero-sized type never reaches the
//! platform allocator and is served by a sentinel address instead, while any
//! other type becomes an [`AllocPlan::Request`], zero-filled or uninitialized.
//! The allocator's raw answer (an address, with null meaning failure) is
//! turned into a `Result` by [`resolve_outcome`]; a failure carries the
//! descriptor of the request that failed, and nothing else. The infallible
//! entry points convert a failure into a process-termination demand with
//! [`decide_infallible`].

use vstd::prelude::*;

verus! {

/// A (size, alignment) pair describing a type's storage requirement.
#[derive(Clone, Copy, Debug, PartialEq, Eq, Structural)]
pub struct AllocDescriptor {
    /// Requested size in bytes.
    pub size: usize,
    /// Requested alignment in bytes.
    pub align: usize,
}

impl AllocDescriptor {
    /// A descriptor the platform allocator accepts: the alignment is a power
    /// of two and the size stays within the allocator's layout rules.
    pub open spec fn wf(&self) -> bool {
        vstd::layout::valid_layout(self.size, self.align) && self.align >= 1
    }

    /// The descriptor of a type, derived purely from its layout.
    pub fn for_type<T>() -> (d: Self)
        ensures
            d.size as nat == vstd::layout::size_of::<T>(),
            d.align as nat == vstd::layout::align_of::<T>(),
            d.wf(),
    {
        vstd::layout::layout_for_type_is_valid::<T>();
        AllocDescriptor { size: core::mem::size_of::<T>(), align: core::mem::align_of::<T>() }
    }
}

/// The allocation failure signal: it carries the descriptor of the failed
/// request, for diagnostics, and nothing else.
#[derive(Clone, Copy, Debug, PartialEq, Eq, Structural)]
pub struct AllocFailure {
    /// The descriptor of the request the platform allocator rejected.
    pub descriptor: AllocDescriptor,
}

/// How a request is to be served.
#[derive(Clone, Copy, Debug, PartialEq, Eq, Structural)]
pub enum AllocPlan {
    /// Zero-sized request: hand back a non-null sentinel address for this
    /// alignment; the platform allocator is never called.
    Sentinel {
        /// Alignment the sentinel address must satisfy.
        align: usize,
    },
    /// Call the platform allocator, in zero-filled or uninitialized mode.
    Request {
        /// The descriptor of the request.
        descriptor: AllocDescriptor,
        /// Whether the allocator's dedicated zero-fill entry point is asked for.
        zeroed: bool,
    },
}

impl AllocPlan {
    /// Whether this plan reaches the platform allocator at all.
    pub open spec fn calls_allocator(&self) -> bool {
        self is Request
    }
}

/// The plan for a request: zero-sized requests are served by a sentinel,
/// everything else goes to the platform allocator with the requested mode.
pub open spec fn planned(descriptor: AllocDescriptor, zeroed: bool) -> AllocPlan {
    if descriptor.size == 0 {
        AllocPlan::Sentinel { align: descriptor.align }
    } else {
        AllocPlan::Request { descriptor, zeroed }
    }
}

/// Plan a request of the given descriptor, zero-filled if `zeroed` is set.
pub fn plan_allocation(descriptor: AllocDescriptor, zeroed: bool) -> (p: AllocPlan)
    ensures
        p == planned(descriptor, zeroed),
{
    if descriptor.size == 0 {
        AllocPlan::Sentinel { align: descriptor.align }
    } else {
        AllocPlan::Request { descriptor, zeroed }
    }
}

/// The sentinel address for a zero-sized request: non-null and aligned for
/// the given alignment. The alignment itself is both.
pub fn sentinel_address(align: usize) -> (addr: usize)
    requires
        align >= 1,
    ensures
        addr == align,
        addr != 0,
        addr % align == 0,
{
    proof {
        assert(align % align == 0) by (nonlinear_arith)
            requires
                align >= 1,
        ;
    }
    align
}

/// The outcome of a raw allocator answer: null (address zero) means the
/// request failed and yields the failure signal carrying its descriptor; any
/// other address is handed through unchanged.
pub open spec fn resolved(descriptor: AllocDescriptor, addr: usize) -> Result<usize, AllocFailure> {
    if addr == 0 {
        Err(AllocFailure { descriptor })
    } else {
        Ok(addr)
    }
}

/// Turn the platform allocator's raw answer for a request into an owned
/// address or the failure signal. This never terminates the process: failure
/// handling belongs to the caller.
pub fn resolve_outcome(descriptor: AllocDescriptor, addr: usize) -> (r: Result<usize, AllocFailure>)
    ensures
        r == resolved(descriptor, addr),
{
    if addr == 0 {
        Err(AllocFailure { descriptor })
    } else {
        Ok(addr)
    }
}

/// What an infallible entry point does with an outcome.
#[derive(Clone, Copy, Debug, PartialEq, Eq, Structural)]
pub enum InfallibleStep {
    /// The request succeeded: construction proceeds at this address.
    Proceed {
        /// The owned address the allocator handed back.
        addr: usize,
    },
    /// The request failed: terminate the process, reporting this descriptor
    /// through the platform allocator's own failure-reporting path.
    Terminate {
        /// The descriptor of the failed request.
        descriptor: AllocDescriptor,
    },
}

/// The fate an infallible entry point assigns to an outcome.
pub open spec fn infallible_fate(outcome: Result<usize, AllocFailure>) -> InfallibleStep {
    match outcome {
        Ok(addr) => InfallibleStep::Proceed { addr },
        Err(failure) => InfallibleStep::Terminate { descriptor: failure.descriptor },
    }
}

/// Decide the fate of an outcome for an infallible entry point: proceed on
/// success, terminate on failure, reporting exactly the failed descriptor.
pub fn decide_infallible(outcome: Result<usize, AllocFailure>) -> (step: InfallibleStep)
    ensures
        step == infallible_fate(outcome),
{
    match outcome {
        Ok(addr) => InfallibleStep::Proceed { addr },
        Err(failure) => InfallibleStep::Terminate { descriptor: failure.descriptor },
    }
}

/// Law: a zero-sized request is never sent to the platform allocator; it is
/// served by the sentinel plan for its alignment, whichever fill mode was
/// asked for.
pub proof fn lemma_zero_sized_skips_allocator(descriptor: AllocDescriptor, zeroed: bool)
    requires
        descriptor.size == 0,
    ensures
        !planned(descriptor, zeroed).calls_allocator(),
        planned(descriptor, zeroed) == (AllocPlan::Sentinel { align: descriptor.align }),
{
}

/// Law: an outcome is a failure exactly when the allocator answered null,
/// the failure carries the descriptor of the failed request, and a success
/// hands the non-null address through unchanged.
pub proof fn lemma_failure_exactly_on_null(descriptor: AllocDescriptor, addr: usize)
    ensures
        resolved(descriptor, addr) is Err <==> addr == 0,
        resolved(descriptor, addr) matches Err(failure) ==> failure.descriptor == descriptor,
        resolved(descriptor, addr) matches Ok(a) ==> a == addr && a != 0,
{
}

/// Law: an infallible entry point terminates exactly on a failed outcome,
/// and reports exactly the descriptor that failed.
pub proof fn lemma_infallible_terminates_exactly_on_failure(
    outcome: Result<usize, AllocFailure>,
)
    ensures
        infallible_fate(outcome) is Terminate <==> outcome is Err,
        infallible_fate(outcome) matches InfallibleStep::Terminate { descriptor } ==> (
        outcome matches Err(failure) && failure.descriptor == descriptor),
{
}

} // verus!
