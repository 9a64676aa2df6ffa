use can_types::constants::IdentifierFlags;
use can_types::identifier::obd::DiagnosticBroadcastAddress;
use can_types::identifier::obd::DiagnosticRequestAddress;
use can_types::identifier::obd::DiagnosticResponseAddress;
use can_types::identifier::ExtendedId;
use can_types::identifier::Id;
use can_types::identifier::StandardId;
use can_types::text::hex_string;

#[test]
fn hex_string_writes_capital_digits() {
    assert_eq!(hex_string(0), "0x0");
    assert_eq!(hex_string(9), "0x9");
    assert_eq!(hex_string(10), "0xA");
    assert_eq!(hex_string(15), "0xF");
    assert_eq!(hex_string(16), "0x10");
    assert_eq!(hex_string(0x7E8), "0x7E8");
    assert_eq!(hex_string(0x18DA_F100), "0x18DAF100");
    assert_eq!(hex_string(0xFFFF_FFFF), "0xFFFFFFFF");
    for v in [0u32, 1, 0xABC, 0x1000, 0xDEAD_BEEF, 0x1FFF_FFFF] {
        assert_eq!(hex_string(v), format!("{:#X}", v));
    }
}

#[test]
fn standard_id_as_text() {
    assert_eq!(StandardId::new(0x7E8).unwrap().to_string(), "0x7E8");
    let remote = StandardId::with_flags(0x7E8, IdentifierFlags::remote()).unwrap();
    assert_eq!(remote.to_string(), "0x7E8 REMOTE");
    let both = IdentifierFlags::remote().union(IdentifierFlags::error());
    assert_eq!(StandardId::with_flags(0, both).unwrap().to_string(), "0x0 REMOTE ERROR");
}

#[test]
fn extended_id_as_text() {
    assert_eq!(ExtendedId::new(0x18DA_F100).unwrap().to_string(), "0x18DAF100 EXTENDED");
    let all = ExtendedId::with_flags(0x1FFF_FFFF, IdentifierFlags::all()).unwrap();
    assert_eq!(all.to_string(), "0x1FFFFFFF EXTENDED REMOTE ERROR");
}

#[test]
fn id_and_addresses_as_text() {
    let id = Id::Standard(StandardId::with_flags(0x7E0, IdentifierFlags::error()).unwrap());
    assert_eq!(id.to_string(), "0x7E0 ERROR");
    assert_eq!(DiagnosticBroadcastAddress::standard().to_string(), "0x7DF");
    assert_eq!(DiagnosticBroadcastAddress::extended().to_string(), "0x18DB33F1 EXTENDED");
    let request = Id::Standard(StandardId::new(0x7E1).unwrap());
    let request = DiagnosticRequestAddress::from_id(request).unwrap();
    assert_eq!(request.to_string(), "0x7E1");
    assert_eq!(request.into_response_address().to_string(), "0x7E9");
    let response = Id::Extended(ExtendedId::new(0x18DA_F142).unwrap());
    let response = DiagnosticResponseAddress::from_id(response).unwrap();
    assert_eq!(response.to_string(), "0x18DAF142 EXTENDED");
}
