//! The growable byte buffer of the `bytes` crate, into which payloads are written.
use bytes::BytesMut;
use vstd::prelude::*;

verus! {

#[verifier::external_type_specification]
#[verifier::external_body]
pub struct ExBytesMut(bytes::BytesMut);

/// The bytes that a `BytesMut` holds, first to last.
pub uninterp spec fn buffer_bytes(buf: BytesMut) -> Seq<u8>;

/// `BytesMut::with_capacity` gives a buffer that holds no bytes, whatever the
/// capacity. A capacity beyond `isize::MAX` cannot be allocated and is left out.
pub assume_specification[ BytesMut::with_capacity ](capacity: usize) -> (buf: BytesMut)
    requires
        capacity <= isize::MAX,
    ensures
        buffer_bytes(buf) == Seq::<u8>::empty(),
;

/// `BytesMut::len` is the number of bytes held.
pub assume_specification[ BytesMut::len ](buf: &BytesMut) -> (len: usize)
    ensures
        len == buffer_bytes(*buf).len(),
;

/// `BytesMut::extend_from_slice` appends the slice to the bytes held, growing
/// the buffer as needed. It asks only that the two lengths together fit in
/// `usize`, which holds of any two things that lie in memory side by side.
pub assume_specification[ BytesMut::extend_from_slice ](buf: &mut BytesMut, extend: &[u8])
    ensures
        buffer_bytes(*final(buf)) == buffer_bytes(*old(buf)) + extend@,
;

/// The bytes held, as a slice: `AsRef<[u8]>::as_ref` of `BytesMut`.
#[verifier::external_body]
pub(crate) fn buffer_slice(buf: &BytesMut) -> (bytes: &[u8])
    ensures
        bytes@ == buffer_bytes(*buf),
{
    buf.as_ref()
}

} // verus!
