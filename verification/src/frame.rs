//! CAN frame.

use crate::constants::IdentifierFlags;
use crate::constants::ERROR_BIT;
use crate::constants::REMOTE_BIT;
use crate::identifier::id::Id;
use bytes::BufMut;
use bytes::Bytes;
use bytes::BytesMut;
use vstd::prelude::*;

verus! {

/// `bytes::Bytes`, which Verus does not look into.
#[verifier::external_type_specification]
#[verifier::external_body]
pub struct ExBytes(Bytes);

/// `bytes::BytesMut`, which Verus does not look into.
#[verifier::external_type_specification]
#[verifier::external_body]
pub struct ExBytesMut(BytesMut);

/// The bytes that a `bytes::Bytes` holds, in order.
pub uninterp spec fn bytes_content(bytes: Bytes) -> Seq<u8>;

/// The bytes that a `bytes::BytesMut` holds, in order.
pub uninterp spec fn bytes_mut_content(bytes: BytesMut) -> Seq<u8>;

/// `Bytes::from_static` holds the bytes of the slice it is given.
pub assume_specification[ Bytes::from_static ](bytes: &'static [u8]) -> (r: Bytes)
    ensures
        bytes_content(r) == bytes@,
;

/// `Bytes::len` is the number of bytes held.
pub assume_specification[ Bytes::len ](bytes: &Bytes) -> (r: usize)
    ensures
        r == bytes_content(*bytes).len(),
;

/// `BytesMut::with_capacity` returns a buffer that holds no bytes yet. A
/// capacity that no allocation can have is left out.
pub assume_specification[ BytesMut::with_capacity ](capacity: usize) -> (r: BytesMut)
    requires
        capacity <= isize::MAX,
    ensures
        bytes_mut_content(r) == Seq::<u8>::empty(),
;

/// `BytesMut::extend_from_slice` appends the bytes of the slice to those
/// that the buffer holds, growing the buffer as needed. A length that no
/// allocation can have is left out.
pub assume_specification[ BytesMut::extend_from_slice ](bytes: &mut BytesMut, extend: &[u8])
    requires
        bytes_mut_content(*old(bytes)).len() + extend@.len() <= isize::MAX,
    ensures
        bytes_mut_content(*final(bytes)) == bytes_mut_content(*old(bytes)) + extend@,
;

/// `BytesMut::freeze` turns the buffer into a `Bytes` that holds the same
/// bytes.
pub assume_specification[ BytesMut::freeze ](bytes: BytesMut) -> (r: Bytes)
    ensures
        bytes_content(r) == bytes_mut_content(bytes),
;

/// `BufMut::put_u8` on a `BytesMut` appends the one byte to those that the
/// buffer holds, growing the buffer as needed. A length that no allocation
/// can have is left out.
#[verifier::external_body]
fn bytes_mut_put_u8(bytes: &mut BytesMut, n: u8)
    requires
        bytes_mut_content(*old(bytes)).len() < isize::MAX,
    ensures
        bytes_mut_content(*final(bytes)) == bytes_mut_content(*old(bytes)).push(n),
{
    bytes.put_u8(n);
}

/// A `Bytes` read as a slice, through its `Deref`: the bytes that it holds.
#[verifier::external_body]
fn bytes_as_slice(bytes: &Bytes) -> (r: &[u8])
    ensures
        r@ == bytes_content(*bytes),
{
    &bytes[..]
}

/// What a frame is: its identifier and the bytes of its payload.
pub struct FrameView {
    /// The identifier, which holds the frame type in its flags.
    pub id: Id,
    /// The payload.
    pub data: Seq<u8>,
}

/// The payload of an ISO-TP "Single Frame" that carries `data`: one byte
/// with the length of `data`, then `data`.
pub open spec fn isotp_single_frame(data: Seq<u8>) -> Seq<u8> {
    seq![data.len() as u8] + data
}

/// A CAN frame.
///
/// ## High-level structure
///
/// A CAN frame holds an identifier and a payload. The identifier carries
/// three of the four frame types in its flags: data, remote and error.
///
/// On the bus a CAN frame is limited to eight bytes of data. A `Frame` may
/// hold more: it stands for the logical frame, which a transport layer on
/// top of CAN, such as ISO-TP, may carry in several frames of the bus.
pub struct Frame {
    id: Id,
    data: Bytes,
}

impl View for Frame {
    type V = FrameView;

    closed spec fn view(&self) -> FrameView {
        FrameView { id: self.id, data: bytes_content(self.data) }
    }
}

impl Frame {
    /// Creates a frame from an identifier and data.
    pub fn new(id: Id, data: Bytes) -> (r: Frame)
        ensures
            r@ == (FrameView { id, data: bytes_content(data) }),
    {
        Frame { id, data }
    }

    /// Creates a frame from an identifier and static byte slice.
    pub fn from_static(id: Id, data: &'static [u8]) -> (r: Frame)
        ensures
            r@ == (FrameView { id, data: data@ }),
    {
        Frame { id, data: Bytes::from_static(data) }
    }

    /// Gets the identifier of this frame.
    pub fn id(&self) -> (r: Id)
        ensures
            r == self@.id,
            r.wf(),
    {
        let _ = self.id.as_raw();
        self.id
    }

    /// Gets the flags of the identifier in this frame.
    pub fn flags(&self) -> (r: IdentifierFlags)
        ensures
            r == self@.id.flags(),
            r.wf(),
    {
        self.id.flags()
    }

    /// Gets the data of this frame.
    pub fn data(&self) -> (r: &[u8])
        ensures
            r@ == self@.data,
    {
        bytes_as_slice(&self.data)
    }

    /// Whether or not this is a data frame: neither a remote frame nor an
    /// error frame.
    pub fn is_data_frame(&self) -> (r: bool)
        ensures
            r <==> (self@.id.flags().bits() & REMOTE_BIT == 0 && self@.id.flags().bits()
                & ERROR_BIT == 0),
    {
        let flags = self.id.flags();
        let either = IdentifierFlags::error().union(IdentifierFlags::remote());
        let ghost f = flags.bits();
        assert((f & (0x2000_0000u32 | 0x4000_0000u32) != 0) <==> !(f & 0x4000_0000u32 == 0 && f
            & 0x2000_0000u32 == 0)) by (bit_vector);
        !flags.intersects(either)
    }

    /// Whether or not this is a remote frame.
    pub fn is_remote_frame(&self) -> (r: bool)
        ensures
            r <==> self@.id.flags().bits() & REMOTE_BIT == REMOTE_BIT,
    {
        self.id.flags().contains(IdentifierFlags::remote())
    }

    /// Whether or not this is an error frame.
    pub fn is_error_frame(&self) -> (r: bool)
        ensures
            r <==> self@.id.flags().bits() & ERROR_BIT == ERROR_BIT,
    {
        self.id.flags().contains(IdentifierFlags::error())
    }

    /// Creates a new `Frame` that is compliant as an ISO-TP "Single Frame".
    ///
    /// The new frame has the identifier of this frame, and its data is the
    /// data of this frame with its length put in front as a single byte.
    ///
    /// If the data of this frame is too large to fit in an ISO-TP "Single
    /// Frame", that is more than seven bytes, `None` is returned.
    pub fn as_isotp_frame(&self) -> (r: Option<Frame>)
        ensures
            r.is_some() <==> self@.data.len() <= 7,
            r.is_some() ==> r.unwrap()@ == (FrameView {
                id: self@.id,
                data: isotp_single_frame(self@.data),
            }),
    {
        let len: usize = self.data.len();
        if len > 7 {
            return None;
        }
        let data_len: u8 = len as u8;
        let mut new_data = BytesMut::with_capacity(1 + len);
        bytes_mut_put_u8(&mut new_data, data_len);
        new_data.extend_from_slice(bytes_as_slice(&self.data));
        proof {
            assert(Seq::<u8>::empty().push(data_len) =~= seq![data_len]);
        }
        Some(Frame { id: self.id, data: new_data.freeze() })
    }
}

} // verus!
