//! The probe extension.

use subinterp::probe::{
    abi3t, inner, make_raw_type, rawrow_dealloc, Counter, DeallocStep, InnerItem, ProbeItem,
    RawTypeSlot,
};

#[test]
fn a_counter_multiplies_by_its_seed() {
    let mut counter = Counter::new(3);
    assert_eq!(counter.bump(2), 6);
    assert_eq!(counter.bump(-5), -9);
    assert_eq!(counter.bump(0), -9);
    assert_eq!(counter.bump(10), 21);
    let mut other = Counter::new(7);
    assert_eq!(other.bump(1), 7);
    assert_eq!(counter.bump(1), 24);
}

#[test]
fn raw_types_differ_in_tracking_only() {
    let plain = make_raw_type(0x4a, 32, 0b0100, 0b1000, false);
    assert_eq!((plain.name, plain.basicsize, plain.itemsize, plain.flags), (0x4a, 32, 0, 0b0100));
    assert_eq!(plain.slots, vec![RawTypeSlot::New, RawTypeSlot::Dealloc, RawTypeSlot::End]);
    let with_gc = make_raw_type(0x4a, 32, 0b0100, 0b1000, true);
    assert_eq!(with_gc.flags, 0b1100);
    assert_eq!(
        with_gc.slots,
        vec![RawTypeSlot::New, RawTypeSlot::Dealloc, RawTypeSlot::Traverse, RawTypeSlot::End]
    );
    assert_eq!(
        rawrow_dealloc(plain.flags, 0b1000),
        vec![DeallocStep::Free, DeallocStep::ReleaseType]
    );
    assert_eq!(
        rawrow_dealloc(with_gc.flags, 0b1000),
        vec![DeallocStep::Untrack, DeallocStep::Free, DeallocStep::ReleaseType]
    );
}

#[test]
fn what_the_probe_registers() {
    assert_eq!(
        abi3t(true, false),
        vec![
            ProbeItem::Inner,
            ProbeItem::RawNoop,
            ProbeItem::InterpIdNs,
            ProbeItem::TypeLookupNs,
            ProbeItem::Noop,
            ProbeItem::SumBuf,
            ProbeItem::Row,
            ProbeItem::Counter,
            ProbeItem::RawRowNoGc,
            ProbeItem::RawRowGc,
        ]
    );
    assert_eq!(abi3t(false, true).len(), 8);
    assert!(!abi3t(false, true).contains(&ProbeItem::SumBuf));
}

#[test]
fn what_the_submodule_registers() {
    assert_eq!(inner(), vec![InnerItem::Answer(42), InnerItem::Row]);
}
