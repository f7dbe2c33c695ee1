use pcan::bootloader::protocol_filters;
use pcan::filter::negotiate;
use pcan::{Error, Filter, FilterPlan, Id};

#[test]
fn accept_all_filter() {
    let f = Filter::accept_all();
    assert!(f.is_accept_all());
    assert!(f.is_extended());
    assert_eq!(f.id(), 0);
    assert_eq!(f.mask(), 0);
}

#[test]
fn exact_filters_take_the_width_of_their_tag() {
    let s = Filter::new(Id::Standard(0x123));
    assert!(!s.is_accept_all());
    assert!(!s.is_extended());
    assert_eq!((s.id(), s.mask()), (0x123, 0x7FF));
    let e = Filter::new(Id::Extended(0x152));
    assert!(e.is_extended());
    assert_eq!((e.id(), e.mask()), (0x152, 0x1FFF_FFFF));
}

#[test]
fn with_mask_replaces_the_mask() {
    let mut f = Filter::new_extended(0x152);
    f.with_mask(0x0F0).with_mask(0x0FF);
    assert_eq!(f.mask(), 0x0FF);
    assert_eq!(f.id(), 0x152);
    assert!(f.is_extended());
}

#[test]
fn negotiation_lists_filters_when_slots_suffice() {
    match protocol_filters(4, false) {
        Ok(FilterPlan::List(v)) => {
            let ids: Vec<u32> = v.iter().map(|f| f.id()).collect();
            assert_eq!(ids, vec![0x79, 0x43, 0x31, 0x21]);
            assert!(v.iter().all(|f| f.mask() == 0x7FF && !f.is_extended() && !f.is_accept_all()));
        }
        other => panic!("expected a list, got {:?}", other),
    }
}

#[test]
fn negotiation_combines_into_one_masked_filter() {
    match protocol_filters(1, true) {
        Ok(FilterPlan::Masked(f)) => {
            assert_eq!(f.mask(), 0x7B);
            assert_eq!(f.id(), 0x01);
            assert!(!f.is_extended());
        }
        other => panic!("expected a masked filter, got {:?}", other),
    }
}

#[test]
fn negotiation_fails_without_capacity() {
    assert!(matches!(protocol_filters(1, false), Err(Error::InsufficientFilterCapacity)));
    assert!(matches!(protocol_filters(0, false), Err(Error::InsufficientFilterCapacity)));
}

#[test]
fn negotiation_of_no_identifiers_is_an_empty_list() {
    match negotiate(&[], 0, false) {
        Ok(FilterPlan::List(v)) => assert!(v.is_empty()),
        other => panic!("expected an empty list, got {:?}", other),
    }
}

#[test]
fn negotiation_prefers_the_list_over_the_mask() {
    assert!(matches!(negotiate(&[1, 2], 2, true), Ok(FilterPlan::List(_))));
    match negotiate(&[0x6, 0x3], 1, true) {
        Ok(FilterPlan::Masked(f)) => assert_eq!((f.id(), f.mask()), (0x2, 0x7)),
        other => panic!("expected a masked filter, got {:?}", other),
    }
}
