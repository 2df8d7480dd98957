//! The byte buffers of the `bytes` crate, as `actix_web` hands them on.

use actix_web::web::{Bytes, BytesMut};
use vstd::prelude::*;

verus! {

/// A frozen run of bytes.
#[verifier::external_type_specification]
#[verifier::external_body]
pub struct ExBytes(actix_web::web::Bytes);

/// A growing run of bytes.
#[verifier::external_type_specification]
#[verifier::external_body]
pub struct ExBytesMut(actix_web::web::BytesMut);

/// The bytes that `chunk` holds.
pub uninterp spec fn bytes_of(chunk: Bytes) -> Seq<u8>;

/// The bytes that `buffer` holds.
pub uninterp spec fn buffer_of(buffer: BytesMut) -> Seq<u8>;

/// `BytesMut::new`: an empty buffer.
pub assume_specification[ BytesMut::new ]() -> (buffer: BytesMut)
    ensures
        buffer_of(buffer) == Seq::<u8>::empty(),
;

/// `BytesMut::extend_from_slice`: appends the slice. It panics where the total passes
/// what an allocation can hold.
pub assume_specification[ BytesMut::extend_from_slice ](buffer: &mut BytesMut, extend: &[u8])
    requires
        buffer_of(*old(buffer)).len() + extend@.len() <= isize::MAX,
    ensures
        buffer_of(*final(buffer)) == buffer_of(*old(buffer)) + extend@,
;

/// `BytesMut::freeze`: the same bytes, frozen.
pub assume_specification[ BytesMut::freeze ](buffer: BytesMut) -> (chunk: Bytes)
    ensures
        bytes_of(chunk) == buffer_of(buffer),
;

/// `BytesMut` read as a slice, through its `AsRef`.
#[verifier::external_body]
pub(crate) fn buffer_slice(buffer: &BytesMut) -> (slice: &[u8])
    ensures
        slice@ == buffer_of(*buffer),
{
    buffer.as_ref()
}

/// `Bytes` read as a slice, through its `AsRef`.
#[verifier::external_body]
pub(crate) fn chunk_slice(chunk: &Bytes) -> (slice: &[u8])
    ensures
        slice@ == bytes_of(*chunk),
{
    chunk.as_ref()
}

} // verus!
