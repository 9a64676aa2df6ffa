use can_types::constants::IdentifierFlags;
use can_types::constants::EFF_MASK;
use can_types::constants::SFF_MASK;
use can_types::identifier::ExtendedId;
use can_types::identifier::Id;
use can_types::identifier::StandardId;
use std::cmp::Ordering;

#[test]
fn standard_id_range() {
    for v in 0u16..=0x7FF {
        let id = StandardId::new(v).unwrap();
        assert_eq!(id.as_raw(), v);
        assert!(id.flags().is_empty());
    }
    assert!(StandardId::new(0x800).is_none());
    assert!(StandardId::new(0xFFFF).is_none());
    assert_eq!(StandardId::zero().as_raw(), 0);
    assert_eq!(StandardId::max().as_raw(), 0x7FF);
    assert_eq!(SFF_MASK, 0x7FF);
}

#[test]
fn extended_id_range() {
    for v in [0u32, 1, 0x7FF, 0x800, 0x18DA_F100, 0x1FFF_FFFE, 0x1FFF_FFFF] {
        let id = ExtendedId::new(v).unwrap();
        assert_eq!(id.as_raw(), v);
        assert_eq!(id.flags(), IdentifierFlags::extended());
    }
    assert!(ExtendedId::new(0x2000_0000).is_none());
    assert!(ExtendedId::new(0xFFFF_FFFF).is_none());
    assert_eq!(ExtendedId::zero().as_raw(), 0);
    assert_eq!(ExtendedId::max().as_raw(), 0x1FFF_FFFF);
    assert_eq!(EFF_MASK, 0x1FFF_FFFF);
}

#[test]
fn standard_flags_never_hold_extended() {
    let id = StandardId::with_flags(0x123, IdentifierFlags::all()).unwrap();
    assert_eq!(id.flags().bits(), 0x6000_0000);
    assert!(StandardId::with_flags(0x800, IdentifierFlags::empty()).is_none());
    let id = id.set_flags(IdentifierFlags::extended());
    assert!(id.flags().is_empty());
    assert_eq!(id.as_raw(), 0x123);
    let id = id.map_flags(|flags| flags.union(IdentifierFlags::all()));
    assert_eq!(id.flags().bits(), 0x6000_0000);
}

#[test]
fn extended_flags_always_hold_extended() {
    let id = ExtendedId::with_flags(0x123, IdentifierFlags::remote()).unwrap();
    assert_eq!(id.flags().bits(), 0xC000_0000);
    assert!(ExtendedId::with_flags(0x2000_0000, IdentifierFlags::empty()).is_none());
    let id = id.set_flags(IdentifierFlags::empty());
    assert_eq!(id.flags().bits(), 0x8000_0000);
    let id = id.map_flags(|_| IdentifierFlags::error());
    assert_eq!(id.flags().bits(), 0xA000_0000);
    assert_eq!(id.as_raw(), 0x123);
}

#[test]
fn remote_and_error_may_stand_together() {
    let both = IdentifierFlags::remote().union(IdentifierFlags::error());
    let id = StandardId::with_flags(1, both).unwrap();
    assert_eq!(id.flags(), both);
}

#[test]
fn base_of_extended() {
    let id = ExtendedId::new(0x1FFF_FFFF).unwrap();
    assert_eq!(id.as_standard_id().as_raw(), 0x7FF);
    let id = ExtendedId::with_flags(0x18DA_F100, IdentifierFlags::remote()).unwrap();
    assert_eq!(id.as_standard_id().as_raw(), 0x636);
    assert_eq!(id.as_standard_id().flags(), IdentifierFlags::remote());
    assert_eq!(ExtendedId::new(0x3_FFFF).unwrap().as_standard_id(), StandardId::zero());
}

#[test]
fn id_dispatches_to_its_variant() {
    let standard = Id::Standard(StandardId::with_flags(0x7FF, IdentifierFlags::error()).unwrap());
    assert_eq!(standard.as_raw(), 0x7FF);
    assert_eq!(standard.flags(), IdentifierFlags::error());
    let extended = Id::Extended(ExtendedId::new(0x1234_5678).unwrap());
    assert_eq!(extended.as_raw(), 0x1234_5678);
    assert_eq!(extended.flags(), IdentifierFlags::extended());
    assert_eq!(standard.set_flags(IdentifierFlags::all()).flags().bits(), 0x6000_0000);
    assert_eq!(extended.set_flags(IdentifierFlags::empty()).flags().bits(), 0x8000_0000);
    assert_eq!(extended.map_flags(|f| f.union(IdentifierFlags::remote())).flags().bits(), 0xC000_0000);
    assert_eq!(standard.map_flags(|_| IdentifierFlags::extended()).flags().bits(), 0);
    let from: Id = StandardId::new(3).unwrap().into();
    assert_eq!(from, Id::Standard(StandardId::new(3).unwrap()));
    let from: Id = ExtendedId::new(3).unwrap().into();
    assert_eq!(from, Id::Extended(ExtendedId::new(3).unwrap()));
}

#[test]
fn standard_comes_before_extended() {
    let standards = [0u16, 1, 0x400, 0x7FF];
    let extendeds = [0u32, 1, 0x7FF, 0x1FFF_FFFF];
    for s in standards {
        for e in extendeds {
            let a = Id::Standard(StandardId::new(s).unwrap());
            let b = Id::Extended(ExtendedId::new(e).unwrap());
            assert!(a < b);
            assert!(b > a);
            assert_eq!(a.partial_cmp(&b), Some(Ordering::Less));
            assert_eq!(b.partial_cmp(&a), Some(Ordering::Greater));
        }
    }
}

#[test]
fn same_kind_orders_by_value_alone() {
    let low = Id::Standard(StandardId::new(0x100).unwrap());
    let high = Id::Standard(StandardId::new(0x101).unwrap());
    assert!(low < high);
    assert!(high >= low);
    let flagged = Id::Standard(StandardId::with_flags(0x100, IdentifierFlags::remote()).unwrap());
    assert_eq!(low.partial_cmp(&flagged), Some(Ordering::Equal));
    assert_ne!(low, flagged);
    let low = ExtendedId::new(0x100).unwrap();
    let high = ExtendedId::new(0x1000_0000).unwrap();
    assert!(low < high);
    assert!(Id::Extended(low) < Id::Extended(high));
    assert!(StandardId::new(2).unwrap() > StandardId::new(1).unwrap());
}

#[test]
fn flags_as_a_set() {
    assert_eq!(IdentifierFlags::extended().bits(), 0x8000_0000);
    assert_eq!(IdentifierFlags::remote().bits(), 0x4000_0000);
    assert_eq!(IdentifierFlags::error().bits(), 0x2000_0000);
    assert_eq!(IdentifierFlags::all().bits(), 0xE000_0000);
    assert_eq!(IdentifierFlags::empty().bits(), 0);
    assert!(IdentifierFlags::empty().is_empty());
    assert!(!IdentifierFlags::error().is_empty());
    assert_eq!(IdentifierFlags::from_bits(0xC000_0000).unwrap().bits(), 0xC000_0000);
    assert!(IdentifierFlags::from_bits(0x8000_0001).is_none());
    assert_eq!(IdentifierFlags::from_bits_truncate(0x8000_0001), IdentifierFlags::extended());
    let both = IdentifierFlags::remote().union(IdentifierFlags::error());
    assert!(both.contains(IdentifierFlags::remote()));
    assert!(!both.contains(IdentifierFlags::all()));
    assert!(both.intersects(IdentifierFlags::all()));
    assert!(!both.intersects(IdentifierFlags::extended()));
    assert_eq!(both.intersection(IdentifierFlags::remote()), IdentifierFlags::remote());
    assert_eq!(both.difference(IdentifierFlags::remote()), IdentifierFlags::error());
    assert_eq!(IdentifierFlags::all().difference(both), IdentifierFlags::extended());
}

#[test]
fn into_embedded_keeps_the_value() {
    let standard = StandardId::with_flags(0x7E8, IdentifierFlags::remote()).unwrap();
    assert_eq!(standard.into_embedded(), embedded_can::StandardId::new(0x7E8).unwrap());
    assert_eq!(standard.into_embedded().as_raw(), 0x7E8);
    let extended = ExtendedId::new(0x18DA_F100).unwrap();
    assert_eq!(extended.into_embedded().as_raw(), 0x18DA_F100);
    assert_eq!(
        Id::Standard(standard).into_embedded(),
        embedded_can::Id::Standard(embedded_can::StandardId::new(0x7E8).unwrap())
    );
    assert_eq!(
        Id::Extended(extended).into_embedded(),
        embedded_can::Id::Extended(embedded_can::ExtendedId::new(0x18DA_F100).unwrap())
    );
}
