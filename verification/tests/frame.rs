use bytes::Bytes;
use can_types::constants::IdentifierFlags;
use can_types::frame::Frame;
use can_types::identifier::ExtendedId;
use can_types::identifier::Id;
use can_types::identifier::StandardId;

#[test]
fn frame_holds_identifier_and_data() {
    let id = Id::Standard(StandardId::new(0x7E0).unwrap());
    let frame = Frame::new(id, Bytes::from(vec![1u8, 2, 3]));
    assert_eq!(frame.id(), id);
    assert_eq!(frame.data(), &[1u8, 2, 3][..]);
    assert!(frame.flags().is_empty());
    let frame = Frame::from_static(id, b"abc");
    assert_eq!(frame.data(), &b"abc"[..]);
}

#[test]
fn frame_types_follow_the_flags() {
    let data = Frame::from_static(Id::Extended(ExtendedId::new(1).unwrap()), b"");
    assert!(data.is_data_frame());
    assert!(!data.is_remote_frame());
    assert!(!data.is_error_frame());
    assert_eq!(data.flags(), IdentifierFlags::extended());

    let remote = StandardId::with_flags(1, IdentifierFlags::remote()).unwrap();
    let remote = Frame::from_static(Id::Standard(remote), b"");
    assert!(!remote.is_data_frame());
    assert!(remote.is_remote_frame());
    assert!(!remote.is_error_frame());

    let error = StandardId::with_flags(1, IdentifierFlags::error()).unwrap();
    let error = Frame::from_static(Id::Standard(error), b"");
    assert!(!error.is_data_frame());
    assert!(!error.is_remote_frame());
    assert!(error.is_error_frame());
}

#[test]
fn isotp_single_frame_puts_the_length_in_front() {
    let id = Id::Standard(StandardId::new(0x7DF).unwrap());
    let frame = Frame::from_static(id, &[0x01, 0x0C]);
    let single = frame.as_isotp_frame().unwrap();
    assert_eq!(single.id(), id);
    assert_eq!(single.data(), &[0x02u8, 0x01, 0x0C][..]);

    let empty = Frame::from_static(id, b"").as_isotp_frame().unwrap();
    assert_eq!(empty.data(), &[0u8][..]);

    let seven = Frame::from_static(id, &[1, 2, 3, 4, 5, 6, 7]).as_isotp_frame().unwrap();
    assert_eq!(seven.data(), &[7u8, 1, 2, 3, 4, 5, 6, 7][..]);
}

#[test]
fn isotp_single_frame_takes_seven_bytes_at_most() {
    let id = Id::Standard(StandardId::new(0x7DF).unwrap());
    assert!(Frame::from_static(id, &[0; 8]).as_isotp_frame().is_none());
    assert!(Frame::from_static(id, &[0; 64]).as_isotp_frame().is_none());
}
