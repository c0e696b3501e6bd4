use sbt_probe::layout::LayoutError;
use sbt_probe::layout::SbtLayout;
use sbt_probe::layout::table_base_aligned;

#[test]
fn layout_accepts_observed_good_offset() {
    let l = SbtLayout::new(64, 96, 32, 64).unwrap();
    assert_eq!(l.base_offset, 64);
    assert_eq!(l.group_stride, 96);
    assert_eq!(l.handle_size, 32);
    assert_eq!(l.data_size, 64);
    assert_eq!(l.group_offset(0), 64);
    assert_eq!(l.group_offset(1), 160);
    assert_eq!(l.group_offset(2), 256);
    assert_eq!(l.total_size(), 352);
}

#[test]
fn layout_regions_match_dispatch_arguments() {
    let l = SbtLayout::new(64, 96, 32, 64).unwrap();
    let raygen = l.region(0);
    let miss = l.region(1);
    let hit = l.region(2);
    assert_eq!(raygen.offset, 64);
    assert_eq!(miss.offset, 160);
    assert_eq!(hit.offset, 256);
    for r in [raygen, miss, hit] {
        assert_eq!(r.stride, 96);
        assert_eq!(r.size, 96);
    }
}

#[test]
fn layout_rejects_reproduction_offset() {
    assert_eq!(SbtLayout::new(32, 96, 32, 64), Err(LayoutError::MisalignedBase));
}

#[test]
fn layout_rejects_offset_96() {
    assert_eq!(SbtLayout::new(96, 96, 32, 64), Err(LayoutError::MisalignedBase));
}

#[test]
fn layout_rejects_unaligned_offset() {
    assert_eq!(SbtLayout::new(40, 96, 32, 64), Err(LayoutError::MisalignedBase));
    assert_eq!(SbtLayout::new(1, 96, 32, 64), Err(LayoutError::MisalignedBase));
    assert_eq!(SbtLayout::new(63, 96, 32, 64), Err(LayoutError::MisalignedBase));
}

#[test]
fn layout_accepts_every_aligned_offset_tried() {
    for base in [0usize, 64, 128, 192, 4096] {
        let l = SbtLayout::new(base, 96, 32, 64).unwrap();
        assert_eq!(l.base_offset, base);
        assert_eq!(l.group_offset(0), base);
        assert_eq!(l.group_offset(1), base + 96);
        assert_eq!(l.group_offset(2), base + 192);
    }
}

#[test]
fn layout_rejects_misaligned_stride() {
    assert_eq!(SbtLayout::new(64, 90, 32, 16), Err(LayoutError::MisalignedStride));
}

#[test]
fn layout_rejects_zero_handle_size() {
    assert_eq!(SbtLayout::new(64, 96, 0, 64), Err(LayoutError::ZeroHandleSize));
}

#[test]
fn layout_rejects_record_overflow() {
    assert_eq!(SbtLayout::new(64, 96, 32, 65), Err(LayoutError::RecordOverflow));
    assert!(SbtLayout::new(64, 96, 32, 64).is_ok());
}

#[test]
fn layout_rejects_oversized_table() {
    let huge: usize = usize::MAX / 2 + 1;
    assert_eq!(huge % 32, 0);
    assert_eq!(SbtLayout::new(0, huge, 32, 0), Err(LayoutError::TableTooLarge));
}

#[test]
fn base_address_alignment_check() {
    assert!(table_base_aligned(0));
    assert!(table_base_aligned(4096));
    assert!(!table_base_aligned(4128));
    assert!(!table_base_aligned(1));
}
