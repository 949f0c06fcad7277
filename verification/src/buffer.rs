//! The scratch buffers of the two session state machines are `bytes::BytesMut`
//! values, as in any reactor-style proxy. Verus does not read the `bytes`
//! crate, so the buffer type is declared opaque, its contents are named by
//! `bytes_of`, and each operation the sessions use is a trusted wrapper whose
//! contract states what the crate's documentation promises of it.

use bytes::BufMut;
use vstd::prelude::*;

verus! {

#[verifier::external_type_specification]
#[verifier::external_body]
pub struct ExBytesMut(bytes::BytesMut);

/// The bytes a `BytesMut` holds, in order.
pub uninterp spec fn bytes_of(b: bytes::BytesMut) -> Seq<u8>;

/// Keeps every wrapped operation far from any capacity overflow.
pub const BUF_LIMIT: usize = 0x7fff_ffff;

/// What `BytesMut::resize` leaves in the buffer: a prefix, or the old
/// contents padded with `value`.
pub open spec fn resize_seq(s: Seq<u8>, n: nat, value: u8) -> Seq<u8> {
    if n <= s.len() {
        s.take(n as int)
    } else {
        s + Seq::new((n - s.len()) as nat, |i: int| value)
    }
}

/// Relies on `bytes::BytesMut::with_capacity`: the new buffer is empty.
#[verifier::external_body]
pub fn buf_with_capacity(capacity: usize) -> (r: bytes::BytesMut)
    requires
        capacity <= BUF_LIMIT,
    ensures
        bytes_of(r) == Seq::<u8>::empty(),
{
    bytes::BytesMut::with_capacity(capacity)
}

/// Relies on `bytes::BytesMut::len`: the number of bytes held.
#[verifier::external_body]
pub fn buf_len(b: &bytes::BytesMut) -> (r: usize)
    ensures
        r == bytes_of(*b).len(),
{
    b.len()
}

/// Relies on `bytes::BytesMut::clear`: removes every byte.
#[verifier::external_body]
pub fn buf_clear(b: &mut bytes::BytesMut)
    ensures
        bytes_of(*final(b)) == Seq::<u8>::empty(),
{
    b.clear()
}

/// Relies on `bytes::BytesMut::resize`: truncates to `new_len`, or pads
/// with `value` up to it.
#[verifier::external_body]
pub fn buf_resize(b: &mut bytes::BytesMut, new_len: usize, value: u8)
    requires
        new_len <= BUF_LIMIT,
    ensures
        bytes_of(*final(b)) == resize_seq(bytes_of(*old(b)), new_len as nat, value),
{
    b.resize(new_len, value)
}

/// Relies on `bytes::BufMut::put_u8` for `BytesMut`: appends one byte.
#[verifier::external_body]
pub fn buf_put_u8(b: &mut bytes::BytesMut, value: u8)
    requires
        bytes_of(*old(b)).len() < BUF_LIMIT,
    ensures
        bytes_of(*final(b)) == bytes_of(*old(b)).push(value),
{
    b.put_u8(value)
}

/// Relies on `bytes::BytesMut::extend_from_slice`: appends the slice.
#[verifier::external_body]
pub fn buf_extend(b: &mut bytes::BytesMut, value: &[u8])
    requires
        bytes_of(*old(b)).len() + value@.len() <= BUF_LIMIT,
    ensures
        bytes_of(*final(b)) == bytes_of(*old(b)) + value@,
{
    b.extend_from_slice(value)
}

/// Relies on `BytesMut`'s `Deref` to `[u8]` and slice indexing: the byte
/// at `i`.
#[verifier::external_body]
pub fn buf_at(b: &bytes::BytesMut, i: usize) -> (r: u8)
    requires
        i < bytes_of(*b).len(),
    ensures
        r == bytes_of(*b)[i as int],
{
    b[i]
}

/// Relies on `BytesMut`'s `Deref` to `[u8]` and `slice::to_vec`: copies the
/// contents out.
#[verifier::external_body]
pub fn buf_to_vec(b: &bytes::BytesMut) -> (r: Vec<u8>)
    ensures
        r@ == bytes_of(*b),
{
    b.as_ref().to_vec()
}

/// Relies on `Clone for BytesMut`: the copy holds the same bytes.
#[verifier::external_body]
pub fn buf_clone_from(dst: &mut bytes::BytesMut, src: &bytes::BytesMut)
    ensures
        bytes_of(*final(dst)) == bytes_of(*src),
{
    *dst = src.clone()
}

} // verus!
