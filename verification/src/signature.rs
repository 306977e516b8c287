//! Signatures and recovery identifiers.

use vstd::prelude::*;
use crate::constants::MAX_SIGNATURE_SIZE;
use crate::error::Error;

verus! {

/// An ECDSA signature: a buffer of `MAX_SIGNATURE_SIZE` bytes of which the
/// first `len` are the encoding. The bytes behind them carry no meaning.
#[derive(Copy, Clone, Debug)]
pub struct Signature {
    len: usize,
    data: [u8; MAX_SIGNATURE_SIZE],
}

/// Hands a buffer on as it is.
fn whole(buf: &mut [u8; MAX_SIGNATURE_SIZE]) -> (out: &mut [u8; MAX_SIGNATURE_SIZE])
    ensures
        *out == *old(buf),
        *final(buf) == *final(out),
    no_unwind
{
    buf
}

impl View for Signature {
    type V = Seq<u8>;

    /// The encoding: the first `len` bytes of the buffer.
    closed spec fn view(&self) -> Seq<u8> {
        self.data@.subrange(0, self.len as int)
    }
}

impl Signature {
    /// The length never exceeds the buffer.
    #[verifier::type_invariant]
    spec fn wf(self) -> bool {
        self.len <= MAX_SIGNATURE_SIZE
    }

    /// The whole buffer, meaningful bytes and the rest.
    pub closed spec fn buffer(self) -> Seq<u8> {
        self.data@
    }

    /// Returns the length of the signature.
    pub fn len(&self) -> (n: usize)
        ensures
            n == self@.len(),
            n <= MAX_SIGNATURE_SIZE,
    {
        proof {
            use_type_invariant(self);
        }
        self.len
    }

    /// The whole buffer, for handing to the provider. Only the first
    /// `len()` bytes of it are the signature.
    pub fn as_ptr(&self) -> (buf: &[u8; MAX_SIGNATURE_SIZE])
        ensures
            buf@ == self.buffer(),
    {
        &self.data
    }

    /// The whole buffer, for the provider to write into. The length stays
    /// as it was.
    pub fn as_mut_ptr(&mut self) -> (buf: &mut [u8; MAX_SIGNATURE_SIZE])
        ensures
            buf@ == old(self).buffer(),
            final(self).buffer() == final(buf)@,
            final(self)@.len() == old(self)@.len(),
    {
        proof {
            use_type_invariant(&*self);
        }
        whole(&mut self.data)
    }

    /// The signature that a buffer holds in its first `len` bytes.
    pub(crate) fn from_buffer(data: [u8; MAX_SIGNATURE_SIZE], len: usize) -> (sig: Signature)
        requires
            len <= MAX_SIGNATURE_SIZE,
        ensures
            sig@ == data@.subrange(0, len as int),
            sig.buffer() == data@,
    {
        Signature { len, data }
    }

    /// Converts a byte slice to a signature. A slice of up to
    /// `MAX_SIGNATURE_SIZE` bytes is copied; the rest of the buffer is
    /// zero. A longer one is refused.
    pub fn from_slice(data: &[u8]) -> (res: Result<Signature, Error>)
        ensures
            data@.len() <= MAX_SIGNATURE_SIZE ==> res is Ok,
            data@.len() > MAX_SIGNATURE_SIZE ==> res == Err::<Signature, Error>(
                Error::InvalidSignature,
            ),
            res is Ok ==> res->Ok_0@ == data@,
            res is Ok ==> res->Ok_0.buffer() == data@ + Seq::new(
                (MAX_SIGNATURE_SIZE - data@.len()) as nat,
                |i: int| 0u8,
            ),
    {
        if data.len() <= MAX_SIGNATURE_SIZE {
            let mut ret: [u8; MAX_SIGNATURE_SIZE] = [0u8; MAX_SIGNATURE_SIZE];
            let mut i: usize = 0;
            while i < data.len()
                invariant
                    i <= data@.len() <= MAX_SIGNATURE_SIZE,
                    forall|k: int| 0 <= k < i ==> ret@[k] == data@[k],
                    forall|k: int| i <= k < MAX_SIGNATURE_SIZE ==> ret@[k] == 0u8,
                decreases data@.len() - i,
            {
                ret[i] = data[i];
                i += 1;
            }
            let sig = Signature { len: data.len(), data: ret };
            assert(sig@ =~= data@);
            assert(sig.buffer() =~= data@ + Seq::new(
                (MAX_SIGNATURE_SIZE - data@.len()) as nat,
                |i: int| 0u8,
            ));
            Ok(sig)
        } else {
            Err(Error::InvalidSignature)
        }
    }

    /// The signature's bytes.
    pub fn as_slice(&self) -> (bytes: &[u8])
        ensures
            bytes@ == self@,
    {
        proof {
            use_type_invariant(self);
        }
        vstd::slice::slice_subrange(self.data.as_slice(), 0, self.len)
    }

    /// The byte at `index`, which lies within the signature.
    pub fn index(&self, index: usize) -> (byte: u8)
        requires
            index < self@.len(),
        ensures
            byte == self@[index as int],
    {
        proof {
            use_type_invariant(self);
        }
        self.data[index]
    }

    /// The bytes from `start` up to `end`, which lie within the signature.
    pub fn range(&self, start: usize, end: usize) -> (bytes: &[u8])
        requires
            start <= end <= self@.len(),
        ensures
            bytes@ == self@.subrange(start as int, end as int),
    {
        proof {
            use_type_invariant(self);
        }
        let bytes = vstd::slice::slice_subrange(self.data.as_slice(), start, end);
        assert(bytes@ =~= self@.subrange(start as int, end as int));
        bytes
    }

    /// The bytes from `start` to the signature's end.
    pub fn range_from(&self, start: usize) -> (bytes: &[u8])
        requires
            start <= self@.len(),
        ensures
            bytes@ == self@.subrange(start as int, self@.len() as int),
    {
        proof {
            use_type_invariant(self);
        }
        let bytes = vstd::slice::slice_subrange(self.data.as_slice(), start, self.len);
        assert(bytes@ =~= self@.subrange(start as int, self@.len() as int));
        bytes
    }
}

/// Two signatures are equal when their encodings are: the bytes behind the
/// length are not compared.
impl PartialEq for Signature {
    fn eq(&self, other: &Signature) -> (same: bool) {
        proof {
            use_type_invariant(self);
            use_type_invariant(other);
        }
        if self.len != other.len {
            assert(self@.len() != other@.len());
            return false;
        }
        let mut i: usize = 0;
        while i < self.len
            invariant
                i <= self.len == other.len <= MAX_SIGNATURE_SIZE,
                forall|k: int| 0 <= k < i ==> self.data@[k] == other.data@[k],
            decreases self.len - i,
        {
            if self.data[i] != other.data[i] {
                assert(self@[i as int] != other@[i as int]);
                return false;
            }
            i += 1;
        }
        assert(self@ =~= other@);
        true
    }
}

impl Eq for Signature {

}

impl vstd::std_specs::cmp::PartialEqSpecImpl for Signature {
    open spec fn obeys_eq_spec() -> bool {
        true
    }

    open spec fn eq_spec(&self, other: &Signature) -> bool {
        self@ == other@
    }
}

/// A tag for recovering the public key from a compact signature: one of
/// 0, 1, 2, 3.
#[derive(Copy, Clone, Debug, PartialEq, Eq, Structural)]
pub struct RecoveryId {
    id: i32,
}

impl View for RecoveryId {
    type V = int;

    closed spec fn view(&self) -> int {
        self.id as int
    }
}

impl RecoveryId {
    /// The tag lies in `0..=3`.
    #[verifier::type_invariant]
    spec fn wf(self) -> bool {
        0 <= self.id <= 3
    }

    /// Makes a tag from its number; `None` for a number outside `0..=3`.
    pub fn from_i32(id: i32) -> (res: Option<RecoveryId>)
        ensures
            0 <= id <= 3 <==> res is Some,
            res is Some ==> res->Some_0@ == id,
    {
        if 0 <= id && id <= 3 {
            Some(RecoveryId { id })
        } else {
            None
        }
    }

    /// The tag's number.
    pub fn to_i32(&self) -> (id: i32)
        ensures
            id == self@,
            0 <= id <= 3,
    {
        proof {
            use_type_invariant(self);
        }
        self.id
    }
}

} // verus!
