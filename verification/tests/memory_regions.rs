use rusted_nes::memory::MemoryRegion;

fn test_intersection(addr1: usize, addr2: usize, size1: usize, size2: usize, expected_result: bool) {
    let a: MemoryRegion = MemoryRegion { region_address: addr1, region_size: size1 };
    let b: MemoryRegion = MemoryRegion { region_address: addr2, region_size: size2 };

    assert_eq!(a.intersects_region(&b), expected_result);
}

#[test]
fn not_intersects_on_left() {
    test_intersection(0x0000, 0x0004, 2, 4, false);
}

#[test]
fn not_intersects_on_left_touches() {
    test_intersection(0x0000, 0x0004, 4, 4, false);
}

#[test]
fn intersects_on_left() {
    test_intersection(0x0002, 0x0004, 4, 4, true);
}

#[test]
fn intersects_same() {
    test_intersection(0x0004, 0x0004, 4, 4, true);
}

#[test]
fn intersects_smaller() {
    test_intersection(0x0005, 0x0004, 2, 4, true);
}

#[test]
fn intersects_bigger() {
    test_intersection(0x0003, 0x0004, 6, 4, true);
}

#[test]
fn intersects_on_right() {
    test_intersection(0x0006, 0x0004, 4, 4, true);
}

#[test]
fn not_intersects_on_right_touches() {
    test_intersection(0x0008, 0x0004, 4, 4, false);
}

#[test]
fn not_intersects_on_right() {
    test_intersection(0x000A, 0x0004, 2, 4, false);
}

#[test]
fn intersection_is_symmetric() {
    let a = MemoryRegion { region_address: 0x0002, region_size: 4 };
    let b = MemoryRegion { region_address: 0x0004, region_size: 4 };
    assert_eq!(a.intersects_region(&b), b.intersects_region(&a));
    assert_eq!(a.intersects_region(&a), true);
}

#[test]
fn intersection_at_the_top_of_the_address_range() {
    let a = MemoryRegion { region_address: usize::MAX - 1, region_size: 1 };
    let b = MemoryRegion { region_address: usize::MAX, region_size: 1 };
    assert_eq!(a.intersects_region(&b), false);
    assert_eq!(b.inside_region(usize::MAX), true);
    assert_eq!(a.inside_region(usize::MAX), false);
}

#[test]
fn not_inside_on_left() {
    let a: MemoryRegion = MemoryRegion { region_address: 0x0004, region_size: 4 };
    assert_eq!(a.inside_region(0x0002), false);
}

#[test]
fn not_inside_on_left_touches() {
    let a: MemoryRegion = MemoryRegion { region_address: 0x0004, region_size: 4 };
    assert_eq!(a.inside_region(0x0003), false);
}

#[test]
fn inside() {
    let a: MemoryRegion = MemoryRegion { region_address: 0x0004, region_size: 4 };
    assert_eq!(a.inside_region(0x0004), true);
    assert_eq!(a.inside_region(0x0005), true);
    assert_eq!(a.inside_region(0x0006), true);
    assert_eq!(a.inside_region(0x0007), true);
}

#[test]
fn not_inside_on_right_touches() {
    let a: MemoryRegion = MemoryRegion { region_address: 0x0004, region_size: 4 };
    assert_eq!(a.inside_region(0x0008), false);
}

#[test]
fn not_inside_on_right() {
    let a: MemoryRegion = MemoryRegion { region_address: 0x0004, region_size: 4 };
    assert_eq!(a.inside_region(0x0009), false);
}
