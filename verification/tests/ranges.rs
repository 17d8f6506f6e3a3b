use metagoblin::MRange;

#[test]
fn range_len_normal() {
    let r = MRange::from((0x1000u64, 0x2000u64));
    assert_eq!(r.min, 0x1000);
    assert_eq!(r.max, 0x2000);
    assert_eq!(r.len(), 0x1000);
}

#[test]
fn range_len_empty() {
    let r = MRange::from((0x40u64, 0x40u64));
    assert_eq!(r.len(), 0);
}

#[test]
fn range_len_saturates_when_degenerate() {
    let r = MRange::from((10u64, 5u64));
    assert_eq!(r.len(), 0);
    let r = MRange::from((u64::MAX, 0u64));
    assert_eq!(r.len(), 0);
}

#[test]
fn range_contains_is_half_open() {
    let r = MRange::from((0x10u64, 0x20u64));
    assert!(!r.contains(0x0F));
    assert!(r.contains(0x10));
    assert!(r.contains(0x1F));
    assert!(!r.contains(0x20));
}

#[test]
fn range_overlap_queries() {
    let a = MRange::from((0x10u64, 0x20u64));
    let b = MRange::from((0x18u64, 0x30u64));
    let c = MRange::from((0x20u64, 0x30u64));
    let empty = MRange::from((0x18u64, 0x18u64));
    assert!(a.overlaps(&b));
    assert!(b.overlaps(&a));
    // Half-open ranges that only touch do not overlap.
    assert!(!a.overlaps(&c));
    // An empty range overlaps nothing, even inside another range.
    assert!(!empty.overlaps(&a));
    // A range nested inside another overlaps it.
    let inner = MRange::from((0x14u64, 0x16u64));
    assert!(a.overlaps(&inner));
    assert!(inner.overlaps(&a));
}

#[test]
fn range_equality_and_order() {
    let a = MRange::from((1u64, 4u64));
    let b = MRange::from((1u64, 4u64));
    let c = MRange::from((1u64, 5u64));
    let d = MRange::from((2u64, 3u64));
    assert_eq!(a, b);
    assert_ne!(a, c);
    assert!(a < c);
    assert!(c < d);
}
