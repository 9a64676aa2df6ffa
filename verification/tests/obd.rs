use can_types::constants::IdentifierFlags;
use can_types::identifier::obd::extended_id;
use can_types::identifier::obd::standard_id;
use can_types::identifier::obd::swap_eid_target_source;
use can_types::identifier::obd::DiagnosticBroadcastAddress;
use can_types::identifier::obd::DiagnosticRequestAddress;
use can_types::identifier::obd::DiagnosticResponseAddress;
use can_types::identifier::ExtendedId;
use can_types::identifier::Id;
use can_types::identifier::StandardId;

#[test]
fn test_swap_eid_target_source() {
    let input = 0x18DAF142;
    let expected = 0x18DA42F1;

    assert_eq!(expected, swap_eid_target_source(input));
}

#[test]
fn swap_is_its_own_inverse() {
    assert_eq!(swap_eid_target_source(swap_eid_target_source(0x18DAF142)), 0x18DAF142);
    for v in [0u32, 1, 0xFF, 0xFF00, 0x1234_5678, 0x1FFF_FFFF, 0xFFFF_FFFF, 0x18DA_00F1] {
        assert_eq!(swap_eid_target_source(swap_eid_target_source(v)), v);
        assert_eq!(swap_eid_target_source(v) & 0xFFFF_0000, v & 0xFFFF_0000);
    }
    assert_eq!(swap_eid_target_source(0x1234_5678), 0x1234_7856);
}

#[test]
fn broadcast_addresses() {
    let standard = DiagnosticBroadcastAddress::standard();
    assert_eq!(standard.id(), Id::Standard(StandardId::new(0x7DF).unwrap()));
    let extended = DiagnosticBroadcastAddress::extended();
    assert_eq!(extended.id(), Id::Extended(ExtendedId::new(0x18DB_33F1).unwrap()));
    let id: Id = standard.into();
    assert_eq!(id.as_raw(), 0x7DF);
}

#[test]
fn request_band_standard() {
    for raw in 0u16..=0x7FF {
        let id = Id::Standard(StandardId::new(raw).unwrap());
        let address = DiagnosticRequestAddress::from_id(id);
        assert_eq!(address.is_some(), (0x7E0..=0x7E7).contains(&raw));
        if let Some(address) = address {
            assert_eq!(address.id(), id);
        }
    }
}

#[test]
fn request_band_extended() {
    for (raw, inside) in [
        (0x18DA_00F0u32, false),
        (0x18DA_00F1, true),
        (0x18DA_10F1, true),
        (0x18DA_01F0, true),
        (0x18DA_FFF1, true),
        (0x18DA_FFF2, false),
        (0x7E0, false),
        (0, false),
        (0x1FFF_FFFF, false),
    ] {
        let id = Id::Extended(ExtendedId::new(raw).unwrap());
        assert_eq!(DiagnosticRequestAddress::from_id(id).is_some(), inside);
    }
}

#[test]
fn response_band_standard() {
    for raw in 0u16..=0x7FF {
        let id = Id::Standard(StandardId::new(raw).unwrap());
        let address = DiagnosticResponseAddress::from_id(id);
        assert_eq!(address.is_some(), (0x7E8..=0x7EF).contains(&raw));
    }
}

#[test]
fn response_band_extended() {
    for (raw, inside) in [
        (0x18DA_F0FFu32, false),
        (0x18DA_F100, true),
        (0x18DA_F142, true),
        (0x18DA_F1FF, true),
        (0x18DA_F200, false),
        (0x7E8, false),
    ] {
        let id = Id::Extended(ExtendedId::new(raw).unwrap());
        assert_eq!(DiagnosticResponseAddress::from_id(id).is_some(), inside);
    }
}

#[test]
fn bands_ignore_flags() {
    let id = Id::Standard(StandardId::with_flags(0x7E0, IdentifierFlags::remote()).unwrap());
    let address = DiagnosticRequestAddress::from_id(id).unwrap();
    assert_eq!(address.id(), id);
    // The paired address is made anew and carries no flag.
    let response = address.into_response_address();
    assert_eq!(response.id(), Id::Standard(StandardId::new(0x7E8).unwrap()));
}

#[test]
fn standard_pairing() {
    let request = DiagnosticRequestAddress::from_id(Id::Standard(StandardId::new(0x7E0).unwrap()));
    let request = request.unwrap();
    let response = request.into_response_address();
    assert_eq!(response.id(), Id::Standard(StandardId::new(0x7E8).unwrap()));

    let response = DiagnosticResponseAddress::from_id(Id::Standard(StandardId::new(0x7E8).unwrap()));
    let back = response.unwrap().into_request_address();
    assert_eq!(back.id(), Id::Standard(StandardId::new(0x7E0).unwrap()));
    assert_eq!(back, request);

    for raw in 0x7E0u16..=0x7E7 {
        let request =
            DiagnosticRequestAddress::from_id(Id::Standard(StandardId::new(raw).unwrap())).unwrap();
        let response = request.into_response_address();
        assert_eq!(response.id().as_raw(), u32::from(raw) + 8);
        assert_eq!(response.into_request_address(), request);
    }
}

#[test]
fn extended_pairing() {
    let request = Id::Extended(ExtendedId::new(0x18DA_42F1).unwrap());
    let request = DiagnosticRequestAddress::from_id(request).unwrap();
    let response = request.into_response_address();
    assert_eq!(response.id(), Id::Extended(ExtendedId::new(0x18DA_F142).unwrap()));
    assert!(DiagnosticResponseAddress::from_id(response.id()).is_some());
    assert_eq!(response.into_request_address(), request);

    let response = Id::Extended(ExtendedId::new(0x18DA_F142).unwrap());
    let response = DiagnosticResponseAddress::from_id(response).unwrap();
    let request = response.into_request_address();
    assert_eq!(request.id(), Id::Extended(ExtendedId::new(0x18DA_42F1).unwrap()));
}

#[test]
fn extended_pairing_outside_the_response_band() {
    // A request address whose low byte is not 0xF1 is paired with an
    // address outside the band of the response addresses.
    let request = Id::Extended(ExtendedId::new(0x18DA_01F0).unwrap());
    let request = DiagnosticRequestAddress::from_id(request).unwrap();
    let response = request.into_response_address();
    assert_eq!(response.id().as_raw(), 0x18DA_F001);
    assert!(DiagnosticResponseAddress::from_id(response.id()).is_none());
    assert_eq!(response.into_request_address(), request);
}

#[test]
fn checked_constructors() {
    assert_eq!(standard_id(0x7FF), StandardId::max());
    assert_eq!(standard_id(0), StandardId::zero());
    assert_eq!(extended_id(0x1FFF_FFFF), ExtendedId::max());
    assert_eq!(extended_id(0x18DA_F100).as_raw(), 0x18DA_F100);
}
