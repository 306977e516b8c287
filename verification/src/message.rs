//! Message digests.

use vstd::prelude::*;
use crate::bytes::{prefix_array, same_bytes};
use crate::constants::MESSAGE_SIZE;
use crate::error::Error;

verus! {

/// A hashed message, the input to an ECDSA signature: `MESSAGE_SIZE` bytes
/// with no further meaning.
#[derive(Copy, Clone, Debug)]
pub struct Message {
    data: [u8; MESSAGE_SIZE],
}

impl View for Message {
    type V = Seq<u8>;

    closed spec fn view(&self) -> Seq<u8> {
        self.data@
    }
}

impl Message {
    /// Converts a `MESSAGE_SIZE`-byte slice to a digest, by copying it. A
    /// slice of any other length is refused.
    pub fn from_slice(data: &[u8]) -> (res: Result<Message, Error>)
        ensures
            data@.len() == MESSAGE_SIZE ==> res is Ok && res->Ok_0@ == data@,
            data@.len() != MESSAGE_SIZE ==> res == Err::<Message, Error>(Error::InvalidMessage),
    {
        if data.len() == MESSAGE_SIZE {
            let ret: [u8; MESSAGE_SIZE] = prefix_array(data);
            assert(data@.subrange(0, MESSAGE_SIZE as int) =~= data@);
            Ok(Message { data: ret })
        } else {
            Err(Error::InvalidMessage)
        }
    }

    /// The length of a digest.
    pub fn len(&self) -> (n: usize)
        ensures
            n == MESSAGE_SIZE,
            n == self@.len(),
    {
        MESSAGE_SIZE
    }

    /// The digest's bytes.
    pub fn as_bytes(&self) -> (bytes: &[u8; MESSAGE_SIZE])
        ensures
            bytes@ == self@,
    {
        &self.data
    }

    /// The digest's bytes, as a slice.
    pub fn as_slice(&self) -> (bytes: &[u8])
        ensures
            bytes@ == self@,
    {
        self.data.as_slice()
    }
}

impl PartialEq for Message {
    fn eq(&self, other: &Message) -> (same: bool) {
        same_bytes(&self.data, &other.data)
    }
}

impl Eq for Message {

}

impl vstd::std_specs::cmp::PartialEqSpecImpl for Message {
    open spec fn obeys_eq_spec() -> bool {
        true
    }

    open spec fn eq_spec(&self, other: &Message) -> bool {
        self@ == other@
    }
}

} // verus!
