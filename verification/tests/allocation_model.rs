use boxext::allocation::decide_infallible;
use boxext::allocation::plan_allocation;
use boxext::allocation::resolve_outcome;
use boxext::allocation::sentinel_address;
use boxext::allocation::InfallibleStep;
use boxext::AllocDescriptor;
use boxext::AllocFailure;
use boxext::AllocPlan;

#[test]
fn descriptor_follows_the_type_layout() {
    let d = AllocDescriptor::for_type::<u64>();
    assert_eq!(d.size, core::mem::size_of::<u64>());
    assert_eq!(d.align, core::mem::align_of::<u64>());
    assert_eq!(d.size, 8);

    let d = AllocDescriptor::for_type::<[u8; 4096]>();
    assert_eq!(d.size, 4096);
    assert_eq!(d.align, 1);
}

#[test]
fn zero_sized_request_is_served_by_a_sentinel() {
    let d = AllocDescriptor::for_type::<[u64; 0]>();
    assert_eq!(d.size, 0);
    assert_eq!(plan_allocation(d, false), AllocPlan::Sentinel { align: d.align });
    assert_eq!(plan_allocation(d, true), AllocPlan::Sentinel { align: d.align });

    let addr = sentinel_address(d.align);
    assert_ne!(addr, 0);
    assert_eq!(addr % d.align, 0);
}

#[test]
fn sized_request_keeps_descriptor_and_fill_mode() {
    let d = AllocDescriptor { size: 64, align: 16 };
    assert_eq!(
        plan_allocation(d, false),
        AllocPlan::Request {
            descriptor: d,
            zeroed: false
        }
    );
    assert_eq!(
        plan_allocation(d, true),
        AllocPlan::Request {
            descriptor: d,
            zeroed: true
        }
    );
}

#[test]
fn null_answer_becomes_the_failure_signal() {
    let d = AllocDescriptor { size: 32, align: 8 };
    assert_eq!(resolve_outcome(d, 0), Err(AllocFailure { descriptor: d }));
}

#[test]
fn non_null_answer_is_handed_through() {
    let d = AllocDescriptor { size: 32, align: 8 };
    assert_eq!(resolve_outcome(d, 0x1000), Ok(0x1000));
}

#[test]
fn infallible_path_terminates_with_the_failed_descriptor() {
    let d = AllocDescriptor { size: 32, align: 8 };
    assert_eq!(
        decide_infallible(Err(AllocFailure { descriptor: d })),
        InfallibleStep::Terminate { descriptor: d }
    );
    assert_eq!(
        decide_infallible(Ok(0x2000)),
        InfallibleStep::Proceed { addr: 0x2000 }
    );
}
