//! Directory operations: the entries of a directory, as the kernel packs
//! them into a buffer.
//!
//! A record starts with a header of eighteen bytes, each number in
//! little-endian order: the inode number (eight bytes), the offset from this
//! record to the next one (eight bytes), and the record's length (two bytes).
//! The name follows the header; the last byte of the record is the file type,
//! and the byte before it closes the name.

use vstd::prelude::*;
use vstd::slice::slice_subrange;
use crate::err::EIO;
use crate::err_::Error;
use crate::file::File;

verus! {

/// Bytes in the buffer of a directory reader.
pub const BUF_LEN: usize = 0xFF8;

/// Bytes in the header of a record.
pub const HDR_LEN: usize = 18;

/// Bytes of a record that belong neither to its header nor to its name.
pub const TAIL_LEN: usize = 2;

/// The number whose little-endian bytes are the two bytes of `b` from index
/// `at` on.
pub open spec fn le_u16_at(b: Seq<u8>, at: int) -> int {
    b[at] + 0x100 * b[at + 1]
}

/// The number whose little-endian bytes are the eight bytes of `b` from
/// index `at` on.
pub open spec fn le_u64_at(b: Seq<u8>, at: int) -> int {
    b[at] + 0x100 * (b[at + 1] + 0x100 * (b[at + 2] + 0x100 * (b[at + 3] + 0x100 * (b[at + 4]
        + 0x100 * (b[at + 5] + 0x100 * (b[at + 6] + 0x100 * b[at + 7]))))))
}

/// The inode number of the record of `b` at `k`.
pub open spec fn record_ino(b: Seq<u8>, k: int) -> int {
    le_u64_at(b, k)
}

/// The offset of the record that follows the record of `b` at `k`, counted
/// from `k`.
pub open spec fn record_off(b: Seq<u8>, k: int) -> int {
    le_u64_at(b, k + 8)
}

/// The length of the record of `b` at `k`.
pub open spec fn record_len(b: Seq<u8>, k: int) -> int {
    le_u16_at(b, k + 16)
}

/// Whether the bytes of `b` from `k` up to `end` start with a whole record
/// whose successor starts after `k` and not after `end`.
pub open spec fn well_formed_at(b: Seq<u8>, k: int, end: int) -> bool {
    &&& 0 <= k
    &&& end <= b.len()
    &&& k + HDR_LEN <= end
    &&& HDR_LEN + TAIL_LEN <= record_len(b, k)
    &&& k + record_len(b, k) <= end
    &&& 0 < record_off(b, k)
    &&& k + record_off(b, k) <= end
}

/// A directory entry, as a value of its own.
pub struct EntryView {
    /// Inode number
    pub ino: u64,
    /// File type
    pub typ: u8,
    /// File name
    pub name: Seq<u8>,
}

/// The entry that the record of `b` at `k` holds.
pub open spec fn entry_at(b: Seq<u8>, k: int) -> EntryView {
    EntryView {
        ino: record_ino(b, k) as u64,
        typ: b[k + record_len(b, k) - 1],
        name: b.subrange(k + HDR_LEN, k + record_len(b, k) - TAIL_LEN),
    }
}

/// Directory entry
#[derive(Debug)]
pub struct Entry<'a> {
    /// Inode number
    pub ino: u64,
    /// File type
    pub typ: u8,
    /// File name
    pub name: &'a [u8],
}

impl<'a> View for Entry<'a> {
    type V = EntryView;

    open spec fn view(&self) -> EntryView {
        EntryView { ino: self.ino, typ: self.typ, name: self.name@ }
    }
}

/// Read the two bytes of `b` at `at` as a little-endian number.
fn read_u16(b: &[u8], at: usize) -> (n: u16)
    requires
        at + 2 <= b.len(),
    ensures
        n == le_u16_at(b@, at as int),
{
    b[at] as u16 + 0x100 * (b[at + 1] as u16)
}

/// Read the eight bytes of `b` at `at` as a little-endian number.
fn read_u64(b: &[u8], at: usize) -> (n: u64)
    requires
        at + 8 <= b.len(),
    ensures
        n == le_u64_at(b@, at as int),
{
    b[at] as u64 + 0x100 * (b[at + 1] as u64 + 0x100 * (b[at + 2] as u64 + 0x100 * (b[at
        + 3] as u64 + 0x100 * (b[at + 4] as u64 + 0x100 * (b[at + 5] as u64 + 0x100 * (b[at
        + 6] as u64 + 0x100 * (b[at + 7] as u64)))))))
}

/// Read the record of `b` at `k`, where the bytes up to `end` are valid:
/// the entry that it holds and the index of the record that follows, or
/// `EIO` where the bytes from `k` on do not start with a well-formed record.
pub fn parse_record<'a>(b: &'a [u8], k: usize, end: usize) -> (r: Result<(Entry<'a>, usize), Error>)
    ensures
        well_formed_at(b@, k as int, end as int) <==> r is Ok,
        r matches Ok((entry, next)) ==> entry@ == entry_at(b@, k as int) && next == k
            + record_off(b@, k as int),
        r matches Err(e) ==> e@ == EIO,
{
    if end > b.len() || end < HDR_LEN || k > end - HDR_LEN {
        return Err(Error::known(EIO));
    }
    let ino = read_u64(b, k);
    let off = read_u64(b, k + 8);
    let len = read_u16(b, k + 16) as usize;
    if len < HDR_LEN + TAIL_LEN || len > end - k || off == 0 || off > (end - k) as u64 {
        return Err(Error::known(EIO));
    }
    let typ = b[k + len - 1];
    let name = slice_subrange(b, k + HDR_LEN, k + len - TAIL_LEN);
    Ok((Entry { ino, typ, name }, k + off as usize))
}

/// The entries that the records of `b` from `k` up to `end` hold, in their
/// order; `None` where one of them is not well formed.
pub open spec fn entries_from(b: Seq<u8>, k: int, end: int) -> Option<Seq<EntryView>>
    decreases end - k,
{
    if k >= end {
        Some(Seq::empty())
    } else if !well_formed_at(b, k, end) {
        None
    } else {
        match entries_from(b, k + record_off(b, k), end) {
            Some(rest) => Some(seq![entry_at(b, k)] + rest),
            None => None,
        }
    }
}

/// The state of a directory reader: its buffer, how many of its bytes are
/// valid, and the index of the next record.
pub struct EntriesView {
    /// The buffer.
    pub buf: Seq<u8>,
    /// How many bytes of the buffer are valid.
    pub end: int,
    /// The index of the next unread record.
    pub k: int,
}

/// Directory entry reader
#[derive(Debug)]
pub struct Entries {
    file: File,
    buf: Vec<u8>,
    end: usize,
    k: usize,
}

impl View for Entries {
    type V = EntriesView;

    closed spec fn view(&self) -> EntriesView {
        EntriesView { buf: self.buf@, end: self.end as int, k: self.k as int }
    }
}

impl EntriesView {
    /// Whether every buffered entry was read: the buffer is to be filled
    /// again before another entry can be had.
    pub open spec fn exhausted(self) -> bool {
        self.k == self.end
    }

    /// What holds of every reader.
    pub open spec fn wf(self) -> bool {
        0 <= self.k <= self.end <= self.buf.len() == BUF_LEN
    }
}

impl Entries {
    #[verifier::type_invariant]
    spec fn inv(self) -> bool {
        self.k <= self.end <= self.buf.len() == BUF_LEN
    }

    /// The descriptor of the directory.
    pub closed spec fn spec_fd(self) -> isize {
        self.file@
    }

    /// Make a reader of the entries of the open directory `file`. Nothing is
    /// buffered yet.
    pub fn try_from(file: File) -> (r: Result<Entries, Error>)
        ensures
            r is Ok,
            r->Ok_0@.wf(),
            r->Ok_0@.exhausted(),
            r->Ok_0.spec_fd() == file@,
    {
        let mut buf: Vec<u8> = Vec::new();
        let mut i: usize = 0;
        while i < BUF_LEN
            invariant
                i <= BUF_LEN,
                buf.len() == i,
            decreases BUF_LEN - i,
        {
            buf.push(0);
            i = i + 1;
        }
        Ok(Entries { file, buf, end: 0, k: 0 })
    }

    /// The open directory.
    pub fn file(&self) -> (f: &File)
        ensures
            f@ == self.spec_fd(),
    {
        &self.file
    }

    /// Whether every buffered entry was read.
    pub fn exhausted(&self) -> (b: bool)
        ensures
            b == self@.exhausted(),
            self@.wf(),
    {
        proof {
            use_type_invariant(self);
        }
        self.k >= self.end
    }

    /// Take what the kernel's directory-read call gave. `ret` is the word
    /// that the call returned, `data` the buffer that it wrote to.
    ///
    /// A negative word is an error, and is returned. Zero is the end of the
    /// directory: `Ok(false)`. A count of bytes makes that many bytes of
    /// `data` the buffered records, to be read from the first on: `Ok(true)`.
    /// A count that exceeds `data` or the reader's buffer is refused with
    /// `EIO`. Unless the answer is `Ok(true)`, the reader stays as it was.
    pub fn refill(&mut self, ret: isize, data: &[u8]) -> (r: Result<bool, Error>)
        ensures
            final(self)@.wf(),
            final(self).spec_fd() == old(self).spec_fd(),
            ret < 0 ==> r == Err::<bool, Error>(Error::of((-ret) as usize)),
            ret == 0 ==> r == Ok::<bool, Error>(false),
            ret > 0 && (ret > data.len() || ret > BUF_LEN) ==> r == Err::<bool, Error>(
                Error::of(EIO),
            ),
            0 < ret <= data.len() && ret <= BUF_LEN ==> r == Ok::<bool, Error>(true),
            r == Ok::<bool, Error>(true) ==> {
                &&& final(self)@.k == 0
                &&& final(self)@.end == ret
                &&& final(self)@.buf.subrange(0, ret as int) == data@.subrange(0, ret as int)
            },
            r != Ok::<bool, Error>(true) ==> final(self)@ == old(self)@,
    {
        proof {
            use_type_invariant(&*self);
        }
        let n = match Error::from_sysret(ret) {
            Err(e) => {
                return Err(e);
            },
            Ok(n) => n,
        };
        if n == 0 {
            return Ok(false);
        }
        if n > data.len() || n > BUF_LEN {
            return Err(Error::known(EIO));
        }
        let mut buf: Vec<u8> = Vec::new();
        let mut i: usize = 0;
        while i < BUF_LEN
            invariant
                i <= BUF_LEN,
                n <= data.len(),
                n <= BUF_LEN,
                buf.len() == i,
                forall|j: int| 0 <= j < i && j < n ==> buf@[j] == data@[j],
            decreases BUF_LEN - i,
        {
            buf.push(if i < n { data[i] } else { 0 });
            i = i + 1;
        }
        self.buf = buf;
        self.k = 0;
        self.end = n;
        assert(self.buf@.subrange(0, ret as int) =~= data@.subrange(0, ret as int));
        Ok(true)
    }

    /// Next entry of those that are buffered.
    ///
    /// `Ok(None)` where every buffered entry was read: the buffer is to be
    /// filled again. `EIO` where the bytes at the cursor are no well-formed
    /// record; the reader stays as it was then. Else the entry of the record
    /// at the cursor, and the cursor moves on by the offset that the record
    /// declares. The name of the entry is borrowed from the buffer.
    pub fn next(&mut self) -> (r: Result<Option<Entry<'_>>, Error>)
        ensures
            final(self)@.wf(),
            final(self).spec_fd() == old(self).spec_fd(),
            final(self)@.buf == old(self)@.buf,
            final(self)@.end == old(self)@.end,
            old(self)@.exhausted() ==> r is Ok && r->Ok_0 is None && final(self)@ == old(self)@,
            !old(self)@.exhausted() && !well_formed_at(
                old(self)@.buf,
                old(self)@.k,
                old(self)@.end,
            ) ==> r is Err && r->Err_0@ == EIO && final(self)@ == old(self)@,
            !old(self)@.exhausted() && well_formed_at(old(self)@.buf, old(self)@.k, old(self)@.end)
                ==> {
                &&& r is Ok
                &&& r->Ok_0 is Some
                &&& r->Ok_0->Some_0@ == entry_at(old(self)@.buf, old(self)@.k)
                &&& final(self)@.k == old(self)@.k + record_off(old(self)@.buf, old(self)@.k)
            },
    {
        proof {
            use_type_invariant(&*self);
        }
        if self.k >= self.end {
            return Ok(None);
        }
        let k = self.k;
        match parse_record(self.buf.as_slice(), k, self.end) {
            Err(e) => Err(e),
            Ok((entry, next)) => {
                self.k = next;
                Ok(Some(entry))
            },
        }
    }

    /// All the entries that are buffered and not read yet, in the order of
    /// their records. The reader is exhausted then. Where one of the records
    /// is not well formed, the answer is `EIO` and the reader stays as it
    /// was.
    pub fn drain(&mut self) -> (r: Result<Vec<Entry<'_>>, Error>)
        ensures
            final(self)@.wf(),
            final(self).spec_fd() == old(self).spec_fd(),
            final(self)@.buf == old(self)@.buf,
            final(self)@.end == old(self)@.end,
            entries_from(old(self)@.buf, old(self)@.k, old(self)@.end) matches Some(es) ==> {
                &&& r is Ok
                &&& r->Ok_0@.len() == es.len()
                &&& forall|i: int| 0 <= i < es.len() ==> (#[trigger] r->Ok_0@[i])@ == es[i]
                &&& final(self)@.exhausted()
            },
            entries_from(old(self)@.buf, old(self)@.k, old(self)@.end) is None ==> {
                &&& r is Err
                &&& r->Err_0@ == EIO
                &&& final(self)@ == old(self)@
            },
    {
        proof {
            use_type_invariant(&*self);
        }
        let end = self.end;
        let ghost start = self.k as int;
        let ghost bytes = self.buf@;
        let mut k = self.k;
        let mut entries: Vec<Entry<'_>> = Vec::new();
        while k < end
            invariant
                start <= k <= end <= BUF_LEN,
                end == self.end,
                start == self.k,
                bytes == self.buf@,
                self.buf.len() == BUF_LEN,
                self.file == old(self).file,
                self@ == old(self)@,
                match entries_from(bytes, k as int, end as int) {
                    Some(rest) => {
                        &&& entries_from(bytes, start, end as int) is Some
                        &&& entries_from(bytes, start, end as int)->Some_0 =~= entries@.map_values(
                            |e: Entry| e@,
                        ) + rest
                    },
                    None => entries_from(bytes, start, end as int) is None,
                },
            decreases end - k,
        {
            match parse_record(self.buf.as_slice(), k, end) {
                Err(e) => {
                    return Err(e);
                },
                Ok((entry, next)) => {
                    proof {
                        let ghost before = entries@.map_values(|e: Entry| e@);
                        let ghost after = entries@.push(entry).map_values(|e: Entry| e@);
                        assert(after =~= before.push(entry@));
                        match entries_from(bytes, next as int, end as int) {
                            Some(rest) => {
                                assert(before + (seq![entry@] + rest) =~= after + rest);
                            },
                            None => {},
                        }
                    }
                    entries.push(entry);
                    k = next;
                },
            }
        }
        proof {
            let ghost es = entries_from(bytes, start, end as int)->Some_0;
            assert(es =~= entries@.map_values(|e: Entry| e@));
            assert forall|i: int| 0 <= i < es.len() implies (#[trigger] entries@[i])@ == es[i] by {
                assert(entries@.map_values(|e: Entry| e@)[i] == entries@[i]@);
            }
        }
        self.k = end;
        Ok(entries)
    }
}

/// The cursor of a reader after `i` entries were read from the records of
/// `b`, starting at `k`.
pub open spec fn cursor_after(b: Seq<u8>, k: int, i: nat) -> int
    decreases i,
{
    if i == 0 {
        k
    } else {
        cursor_after(b, k + record_off(b, k), (i - 1) as nat)
    }
}

/// A buffer that holds `es.len()` well-formed records gives exactly that many
/// entries, in the order of the records: before entry `i` is read the cursor
/// stands before a well-formed record that holds `es[i]`, and once all are
/// read the cursor has reached the end of the valid bytes, so that the
/// reader is exhausted.
pub proof fn lemma_enumeration(b: Seq<u8>, k: int, end: int, es: Seq<EntryView>, i: nat)
    requires
        0 <= k <= end <= b.len(),
        entries_from(b, k, end) == Some(es),
        i <= es.len(),
    ensures
        k <= cursor_after(b, k, i) <= end,
        entries_from(b, cursor_after(b, k, i), end) == Some(es.skip(i as int)),
        i < es.len() ==> {
            &&& cursor_after(b, k, i) < end
            &&& well_formed_at(b, cursor_after(b, k, i), end)
            &&& entry_at(b, cursor_after(b, k, i)) == es[i as int]
        },
        i == es.len() ==> cursor_after(b, k, i) == end,
    decreases i,
{
    if i == 0 {
        assert(es.skip(0) =~= es);
        if k < end {
            assert(es.len() > 0);
        }
    } else {
        let next = k + record_off(b, k);
        let rest = entries_from(b, next, end)->Some_0;
        assert(es =~= seq![entry_at(b, k)] + rest);
        lemma_enumeration(b, next, end, rest, (i - 1) as nat);
        assert(rest.skip(i - 1) =~= es.skip(i as int));
        if i < es.len() {
            assert(rest[i - 1] == es[i as int]);
        }
    }
}

} // verus!
