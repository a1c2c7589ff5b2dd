//! Null-terminated byte strings, as many kernel interfaces take them.

use vstd::prelude::*;
use vstd::slice::{slice_subrange, slice_to_vec};

verus! {

/// Whether `bs` ends in a zero byte.
pub open spec fn null_terminated(bs: Seq<u8>) -> bool {
    bs.len() > 0 && bs.last() == 0
}

/// A byte string that ends in a zero byte. Zero bytes before the last one are
/// not excluded.
#[derive(Debug)]
pub struct OsStr {
    bytes: Vec<u8>,
}

impl View for OsStr {
    type V = Seq<u8>;

    /// The bytes before the terminating zero.
    closed spec fn view(&self) -> Seq<u8> {
        self.bytes@.drop_last()
    }
}

impl OsStr {
    #[verifier::type_invariant]
    spec fn terminated(self) -> bool {
        null_terminated(self.bytes@)
    }

    /// All the bytes, the terminating zero included.
    pub closed spec fn with_nul(self) -> Seq<u8> {
        self.bytes@
    }

    /// The bytes before the terminating zero, followed by it, are all the
    /// bytes.
    pub broadcast proof fn lemma_with_nul(self)
        requires
            null_terminated(self.with_nul()),
        ensures
            #[trigger] self.with_nul() == self@.push(0),
    {
        assert(self.bytes@ =~= self.bytes@.drop_last().push(0));
    }

    /// Take `bs` as a null-terminated string. `bs` must end in a zero byte.
    pub fn from_bytes(bs: &[u8]) -> (s: OsStr)
        requires
            null_terminated(bs@),
        ensures
            s.with_nul() == bs@,
            s@ == bs@.drop_last(),
    {
        OsStr { bytes: slice_to_vec(bs) }
    }

    /// Take the buffer `bs` as a null-terminated string, without copying it.
    /// `bs` must end in a zero byte.
    pub fn from_mut_bytes(bs: Vec<u8>) -> (s: OsStr)
        requires
            null_terminated(bs@),
        ensures
            s.with_nul() == bs@,
            s@ == bs@.drop_last(),
    {
        OsStr { bytes: bs }
    }

    /// Take `bs` as a null-terminated string if it ends in a zero byte.
    pub fn try_from_bytes(bs: &[u8]) -> (r: Option<OsStr>)
        ensures
            r is Some <==> null_terminated(bs@),
            r matches Some(s) ==> s.with_nul() == bs@ && s@ == bs@.drop_last(),
    {
        let n = bs.len();
        if n == 0 || bs[n - 1] != 0 {
            None
        } else {
            Some(OsStr { bytes: slice_to_vec(bs) })
        }
    }

    /// Take the buffer `bs` as a null-terminated string if it ends in a zero
    /// byte; otherwise hand it back.
    pub fn try_from_mut_bytes(bs: Vec<u8>) -> (r: Result<OsStr, Vec<u8>>)
        ensures
            r is Ok <==> null_terminated(bs@),
            r matches Ok(s) ==> s.with_nul() == bs@ && s@ == bs@.drop_last(),
            r matches Err(v) ==> v@ == bs@,
    {
        let n = bs.len();
        if n == 0 || bs[n - 1] != 0 {
            Err(bs)
        } else {
            Ok(OsStr { bytes: bs })
        }
    }

    /// All the bytes, the terminating zero included: what a kernel interface
    /// is handed.
    pub fn as_bytes_with_nul(&self) -> (bs: &[u8])
        ensures
            bs@ == self.with_nul(),
            null_terminated(bs@),
            bs@ == self@.push(0),
    {
        proof {
            use_type_invariant(self);
            self.lemma_with_nul();
        }
        self.bytes.as_slice()
    }

    /// The bytes before the terminating zero.
    pub fn as_bytes(&self) -> (bs: &[u8])
        ensures
            bs@ == self@,
    {
        proof {
            use_type_invariant(self);
        }
        let all = self.bytes.as_slice();
        let bs = slice_subrange(all, 0, all.len() - 1);
        assert(bs@ =~= self.bytes@.drop_last());
        bs
    }

    /// The number of bytes before the terminating zero.
    pub fn len(&self) -> (n: usize)
        ensures
            n == self@.len(),
    {
        proof {
            use_type_invariant(self);
        }
        self.bytes.len() - 1
    }

    /// The byte at index `i`, counted from the start.
    pub fn byte(&self, i: usize) -> (b: u8)
        requires
            i < self@.len(),
        ensures
            b == self@[i as int],
    {
        proof {
            use_type_invariant(self);
        }
        self.bytes[i]
    }

    /// Give the buffer back, the terminating zero included.
    pub fn into_bytes_with_nul(self) -> (bs: Vec<u8>)
        ensures
            bs@ == self.with_nul(),
            null_terminated(bs@),
    {
        proof {
            use_type_invariant(&self);
        }
        self.bytes
    }
}

} // verus!
