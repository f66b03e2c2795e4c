//! What the library takes on trust of the `bytes` crate: the two buffer types, the bytes that a
//! value of each holds, and the methods that the session calls.

use bytes::{Bytes, BytesMut};
use vstd::prelude::*;

verus! {

/// `bytes::BytesMut`, a growable buffer of bytes.
#[verifier::external_type_specification]
#[verifier::external_body]
pub struct ExBytesMut(BytesMut);

/// `bytes::Bytes`, an immutable buffer of bytes.
#[verifier::external_type_specification]
#[verifier::external_body]
pub struct ExBytes(Bytes);

/// The bytes that a `BytesMut` holds, in order.
pub uninterp spec fn buffered(buffer: BytesMut) -> Seq<u8>;

/// The bytes that a `Bytes` holds, in order.
pub uninterp spec fn frozen(bytes: Bytes) -> Seq<u8>;

/// `BytesMut::with_capacity` makes a buffer that holds nothing. A capacity beyond `isize::MAX` is
/// more than the allocator admits.
pub assume_specification[ BytesMut::with_capacity ](capacity: usize) -> (buffer: BytesMut)
    requires
        capacity <= isize::MAX,
    ensures
        buffered(buffer) == Seq::<u8>::empty(),
;

/// `BytesMut::is_empty` tells whether the buffer holds no byte.
pub assume_specification[ BytesMut::is_empty ](buffer: &BytesMut) -> (empty: bool)
    ensures
        empty == (buffered(*buffer).len() == 0),
;

/// `BytesMut::clear` removes every byte.
pub assume_specification[ BytesMut::clear ](buffer: &mut BytesMut)
    ensures
        buffered(*final(buffer)) == Seq::<u8>::empty(),
;

/// `BytesMut::extend_from_slice` appends the bytes of the slice and keeps those that were there.
/// A buffer of more than `isize::MAX` bytes is more than the allocator admits. Nothing is said of
/// what happens when memory runs out before that.
pub assume_specification[ BytesMut::extend_from_slice ](buffer: &mut BytesMut, extend: &[u8])
    requires
        buffered(*old(buffer)).len() + extend@.len() <= isize::MAX,
    ensures
        buffered(*final(buffer)) == buffered(*old(buffer)) + extend@,
;

/// `BytesMut::clone` makes a second buffer that holds the same bytes.
pub assume_specification[ <BytesMut as Clone>::clone ](buffer: &BytesMut) -> (copy: BytesMut)
    ensures
        buffered(copy) == buffered(*buffer),
;

/// `BytesMut::freeze` turns the buffer into an immutable one that holds the same bytes.
pub assume_specification[ BytesMut::freeze ](buffer: BytesMut) -> (bytes: Bytes)
    ensures
        frozen(bytes) == buffered(buffer),
;

} // verus!
