//! The environment of a process.

use vstd::prelude::*;
use vstd::slice::slice_subrange;

verus! {

/// The byte that parts the key of an entry from its value.
pub const EQUALS: u8 = 0x3d;

/// The index of the first `=` of `x`; the length of `x` where it has none.
pub open spec fn key_len(x: Seq<u8>) -> int
    decreases x.len(),
{
    if x.len() == 0 || x[0] == EQUALS {
        0
    } else {
        1 + key_len(x.drop_first())
    }
}

/// The key of the entry `x`: what stands before its first `=`, or all of it
/// where it has none.
pub open spec fn key_of(x: Seq<u8>) -> Seq<u8> {
    x.subrange(0, key_len(x))
}

/// The value of the entry `x`: what stands after its first `=`, or `None`
/// where it has none.
pub open spec fn value_of(x: Seq<u8>) -> Option<Seq<u8>> {
    if key_len(x) < x.len() {
        Some(x.subrange(key_len(x) + 1, x.len() as int))
    } else {
        None
    }
}

/// The value of the first of `entries` whose key is `s`; `None` where no
/// entry has that key.
pub open spec fn lookup(entries: Seq<Seq<u8>>, s: Seq<u8>) -> Option<Option<Seq<u8>>>
    decreases entries.len(),
{
    if entries.len() == 0 {
        None
    } else if key_of(entries[0]) == s {
        Some(value_of(entries[0]))
    } else {
        lookup(entries.drop_first(), s)
    }
}

/// The index of the first `=` is within the entry, no byte before it is a
/// `=`, and the byte at it is one where it is not the end.
pub proof fn lemma_key_len(x: Seq<u8>)
    ensures
        0 <= key_len(x) <= x.len(),
        forall|i: int| 0 <= i < key_len(x) ==> x[i] != EQUALS,
        key_len(x) < x.len() ==> x[key_len(x)] == EQUALS,
    decreases x.len(),
{
    if x.len() == 0 || x[0] == EQUALS {
    } else {
        lemma_key_len(x.drop_first());
        assert forall|i: int| 0 <= i < key_len(x) implies x[i] != EQUALS by {
            if i > 0 {
                assert(x.drop_first()[i - 1] == x[i]);
            }
        }
    }
}

/// The first index `i` of `x` with a `=` at it and none before it is the
/// length of the key; so is the length of `x` where it holds no `=`.
pub proof fn lemma_key_len_is(x: Seq<u8>, i: int)
    requires
        0 <= i <= x.len(),
        forall|j: int| 0 <= j < i ==> x[j] != EQUALS,
        i < x.len() ==> x[i] == EQUALS,
    ensures
        key_len(x) == i,
    decreases x.len(),
{
    if x.len() == 0 || x[0] == EQUALS {
    } else {
        assert forall|j: int| 0 <= j < i - 1 implies x.drop_first()[j] != EQUALS by {
            assert(x.drop_first()[j] == x[j + 1]);
        }
        lemma_key_len_is(x.drop_first(), i - 1);
    }
}

/// Process environment, conventionally strings of form "key=value"
#[derive(Debug)]
pub struct Environ {
    entries: Vec<Vec<u8>>,
}

impl View for Environ {
    type V = Seq<Seq<u8>>;

    /// The entries, in their order.
    closed spec fn view(&self) -> Seq<Seq<u8>> {
        Seq::new(self.entries@.len(), |i: int| self.entries@[i]@)
    }
}

/// Split the entry `x` at its first `=`.
fn split_entry(x: &[u8]) -> (r: (&[u8], Option<&[u8]>))
    ensures
        r.0@ == key_of(x@),
        r.1 is Some <==> value_of(x@) is Some,
        r.1 matches Some(v) ==> Some(v@) == value_of(x@),
{
    let mut i: usize = 0;
    while i < x.len() && x[i] != EQUALS
        invariant
            i <= x.len(),
            forall|j: int| 0 <= j < i ==> x@[j] != EQUALS,
        decreases x.len() - i,
    {
        i = i + 1;
    }
    proof {
        lemma_key_len_is(x@, i as int);
    }
    let key = slice_subrange(x, 0, i);
    if i < x.len() {
        (key, Some(slice_subrange(x, i + 1, x.len())))
    } else {
        (key, None)
    }
}

/// Whether `a` and `b` hold the same bytes.
fn same_bytes(a: &[u8], b: &[u8]) -> (same: bool)
    ensures
        same == (a@ == b@),
{
    if a.len() != b.len() {
        return false;
    }
    let mut i: usize = 0;
    while i < a.len()
        invariant
            i <= a.len() == b.len(),
            forall|j: int| 0 <= j < i ==> a@[j] == b@[j],
        decreases a.len() - i,
    {
        if a[i] != b[i] {
            return false;
        }
        i = i + 1;
    }
    assert(a@ =~= b@);
    true
}

impl Environ {
    /// The environment with the entries `entries`, none of which holds its
    /// terminating zero.
    pub fn new(entries: Vec<Vec<u8>>) -> (env: Environ)
        ensures
            env@.len() == entries@.len(),
            forall|i: int| 0 <= i < entries@.len() ==> env@[i] == (#[trigger] entries@[i])@,
    {
        Environ { entries }
    }

    /// Get the value of the given environment variable.
    /// Returns `None` if the variable isn't.
    /// Returns `Some(None)` if the variable is, but the entry contains no '=' character.
    /// Of several entries with the key `s`, the first one counts.
    pub fn get(&self, s: &[u8]) -> (r: Option<Option<&[u8]>>)
        ensures
            r is Some <==> lookup(self@, s@) is Some,
            r matches Some(v) ==> {
                &&& v is Some <==> lookup(self@, s@)->Some_0 is Some
                &&& v matches Some(bytes) ==> lookup(self@, s@) == Some(Some(bytes@))
            },
    {
        let mut i: usize = 0;
        assert(self@.skip(0) =~= self@);
        while i < self.entries.len()
            invariant
                i <= self.entries.len(),
                lookup(self@, s@) == lookup(self@.skip(i as int), s@),
            decreases self.entries.len() - i,
        {
            let (k, v) = split_entry(self.entries[i].as_slice());
            proof {
                assert(self@.skip(i as int)[0] == self.entries@[i as int]@);
                assert(self@.skip(i as int).drop_first() =~= self@.skip(i + 1));
            }
            if same_bytes(s, k) {
                return Some(v);
            }
            i = i + 1;
        }
        None
    }
}

} // verus!
