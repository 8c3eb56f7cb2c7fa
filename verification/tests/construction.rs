use boxext::BoxExt;
use boxext::Zero;

#[derive(Debug, PartialEq)]
struct Pair(usize, usize);

impl Pair {
    fn build(a: usize, b: usize) -> Self {
        Pair(a, b)
    }
}

#[derive(Debug, PartialEq)]
struct Marker;

#[test]
fn new_with_places_producer_result() {
    let buf = <Box<Pair> as BoxExt>::new_with(|| Pair(1, 2));
    assert_eq!(*buf, Pair(1, 2));

    let buf = <Box<Pair> as BoxExt>::new_with(|| Pair::build(2, 3));
    assert_eq!(*buf, Pair(2, 3));
}

#[test]
fn try_new_holds_exactly_the_value() {
    let five = <Box<i32> as BoxExt>::try_new(5).unwrap();
    assert_eq!(*five, 5);
}

#[test]
fn try_new_with_places_producer_result() {
    let buf = <Box<Pair> as BoxExt>::try_new_with(|| Pair(1, 2)).unwrap();
    assert_eq!(*buf, Pair(1, 2));

    let buf = <Box<Pair> as BoxExt>::try_new_with(|| Pair::build(2, 3)).unwrap();
    assert_eq!(*buf, Pair(2, 3));
}

#[test]
fn new_zeroed_yields_the_zero_value() {
    let buf: Box<[usize; 32]> = <Box<[usize; 32]> as BoxExt>::new_zeroed();
    assert_eq!(*buf, [0usize; 32]);
}

#[test]
fn try_new_zeroed_yields_the_zero_value() {
    let buf: Box<[usize; 32]> = <Box<[usize; 32]> as BoxExt>::try_new_zeroed().unwrap();
    assert_eq!(*buf, [0usize; 32]);
}

#[test]
fn zero_filled_page_is_all_zero_bytes() {
    let buf: Box<[u8; 4096]> = <Box<[u8; 4096]> as BoxExt>::new_zeroed();
    for i in 0..4096 {
        assert_eq!(buf[i], 0u8);
    }
}

#[test]
fn zero_sized_construction_succeeds_without_allocator() {
    // The plan for a zero-sized type never reaches the platform allocator.
    let descriptor = boxext::AllocDescriptor::for_type::<Marker>();
    assert_eq!(descriptor.size, 0);
    let plan = boxext::allocation::plan_allocation(descriptor, false);
    assert_eq!(
        plan,
        boxext::AllocPlan::Sentinel {
            align: descriptor.align
        }
    );

    // And construction hands back a valid owned reference.
    let buf = <Box<Marker> as BoxExt>::new_with(|| Marker);
    assert_eq!(*buf, Marker);
    let buf: Box<[u8; 0]> = <Box<[u8; 0]> as BoxExt>::new_zeroed();
    assert_eq!(*buf, [0u8; 0]);

    // The fallible forms owe success to a zero-sized type.
    assert_eq!(
        <Box<Marker> as BoxExt>::try_new(Marker),
        Some(Box::new(Marker))
    );
    assert!(<Box<Marker> as BoxExt>::try_new_with(|| Marker).is_some());
    assert!(<Box<[u8; 0]> as BoxExt>::try_new_zeroed().is_some());
}

#[test]
fn from_value_matches_producer_of_same_value() {
    let v: u32 = 9;
    let from_value = <Box<u32> as BoxExt>::try_new(v).unwrap();
    let from_producer = <Box<u32> as BoxExt>::try_new_with(|| 9u32).unwrap();
    assert_eq!(*from_value, *from_producer);

    let direct = <Box<Pair> as BoxExt>::try_new(Pair(4, 7)).unwrap();
    let produced = <Box<Pair> as BoxExt>::try_new_with(|| Pair(4, 7)).unwrap();
    assert_eq!(*direct, *produced);
}

#[test]
fn zero_capability_for_primitive_tuples() {
    let z: (u8, u16, u32, u64, usize) = Zero::zero_value();
    assert_eq!(z, (0u8, 0u16, 0u32, 0u64, 0usize));
    let z: (i8, i16, i32, i64, isize) = Zero::zero_value();
    assert_eq!(z, (0i8, 0i16, 0i32, 0i64, 0isize));
}

#[test]
fn zero_capability_for_arrays_and_nested_tuples() {
    let z: [u32; 7] = Zero::zero_value();
    assert_eq!(z, [0u32; 7]);
    let z: ([u8; 3], u64) = Zero::zero_value();
    assert_eq!(z, ([0u8; 3], 0u64));
    let b: Box<(u8, u32)> = <Box<(u8, u32)> as BoxExt>::new_zeroed();
    assert_eq!(*b, (0u8, 0u32));
}
