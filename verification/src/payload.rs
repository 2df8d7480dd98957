//! Reading a request's payload to its end.

use actix_web::web::{Bytes, BytesMut};
use vstd::prelude::*;

use crate::foreign::bytes::{buffer_of, bytes_of, chunk_slice};

verus! {

/// What one item of a payload stream adds to the body: its bytes, and nothing where the
/// stream reports an error.
pub open spec fn item_bytes<E>(item: Result<Bytes, E>) -> Seq<u8> {
    match item {
        Ok(chunk) => bytes_of(chunk),
        Err(_) => Seq::empty(),
    }
}

/// What a whole payload stream adds up to.
pub open spec fn stream_bytes<E>(items: Seq<Result<Bytes, E>>) -> Seq<u8>
    decreases items.len(),
{
    if items.len() == 0 {
        Seq::empty()
    } else {
        stream_bytes(items.drop_last()) + item_bytes(items.last())
    }
}

/// The part of a request's payload that has arrived.
pub struct PayloadReader {
    /// The bytes of the chunks so far
    pub body: BytesMut,
}

impl PayloadReader {
    /// The bytes that have arrived.
    pub open spec fn bytes(&self) -> Seq<u8> {
        buffer_of(self.body)
    }

    /// A reader before the first chunk.
    pub fn new() -> (reader: Self)
        ensures
            reader.bytes() == Seq::<u8>::empty(),
    {
        PayloadReader { body: BytesMut::new() }
    }

    /// Takes the next item of the payload stream: a chunk is appended, an error is passed
    /// over.
    pub fn take_item<E>(&mut self, item: Result<Bytes, E>)
        requires
            old(self).bytes().len() + item_bytes(item).len() <= isize::MAX,
        ensures
            final(self).bytes() == old(self).bytes() + item_bytes(item),
            item matches Ok(chunk) ==> final(self).bytes() == old(self).bytes() + bytes_of(chunk),
            item is Err ==> final(self).bytes() == old(self).bytes(),
    {
        assert(item is Err ==> self.bytes() + item_bytes(item) =~= self.bytes());
        if let Ok(chunk) = item {
            self.body.extend_from_slice(chunk_slice(&chunk));
        }
    }
}

} // verus!
