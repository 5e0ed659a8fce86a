//! The reader-name sequence: a borrowing, zero-copy decoder of the
//! NUL-separated, double-NUL-terminated byte buffer in which the native
//! service returns the connected reader names.
//!
//! The buffer holds each name as a run of non-NUL bytes followed by a NUL;
//! an empty name (a second NUL in a row) or the end of the buffer ends the
//! sequence.  The decoder yields each name once, as a sub-slice of the
//! buffer, and can be restarted by cloning the cursor.

use vstd::prelude::*;
use vstd::slice::slice_index_get;
use vstd::slice::slice_subrange;

verus! {

/// The index of the first NUL byte of `buf`, or `buf.len()` when `buf`
/// holds none.
pub open spec fn first_nul(buf: Seq<u8>) -> int
    decreases buf.len(),
{
    if buf.len() == 0 {
        0
    } else if buf[0] == 0 {
        0
    } else {
        1 + first_nul(buf.drop_first())
    }
}

/// The first NUL lies within the buffer, every byte before it is
/// non-NUL, and it marks a NUL byte unless the buffer holds none.
pub proof fn lemma_first_nul(buf: Seq<u8>)
    ensures
        0 <= first_nul(buf) <= buf.len(),
        forall |j: int| 0 <= j < first_nul(buf) ==> buf[j] != 0,
        first_nul(buf) < buf.len() ==> buf[first_nul(buf)] == 0,
    decreases buf.len(),
{
    if buf.len() != 0 && buf[0] != 0 {
        lemma_first_nul(buf.drop_first());
        assert forall |j: int| 0 <= j < first_nul(buf) implies buf[j] != 0 by {
            if j > 0 {
                assert(buf.drop_first()[j - 1] != 0);
            }
        }
    }
}

/// The names encoded in `buf`: each name is the run of bytes up to the
/// next NUL, and an empty name or a missing terminator ends the sequence.
pub open spec fn parse_names(buf: Seq<u8>) -> Seq<Seq<u8>>
    decreases buf.len()
        via parse_names_decreases
{
    if buf.len() == 0 {
        seq![]
    } else {
        let n = first_nul(buf);
        if n == 0 || n >= buf.len() {
            seq![]
        } else {
            seq![buf.take(n)] + parse_names(buf.skip(n + 1))
        }
    }
}

#[via_fn]
proof fn parse_names_decreases(buf: Seq<u8>) {
    lemma_first_nul(buf);
}

/// An iterator over the reader names held in a borrowed byte buffer.
///
/// Yields values directly from the buffer, without copying; cloning the
/// iterator restarts nothing but preserves the cursor, so a fresh pass
/// needs a clone taken before the first step.
#[derive(Clone, Copy, Debug)]
pub struct ReaderNames<'buf> {
    buf: &'buf [u8],
    pos: usize,
}

impl<'buf> View for ReaderNames<'buf> {
    type V = Seq<Seq<u8>>;

    /// The names not yet yielded.
    closed spec fn view(&self) -> Seq<Seq<u8>> {
        parse_names(self.buf@.skip(self.pos as int))
    }
}

impl<'buf> ReaderNames<'buf> {
    /// Whether the cursor lies within the buffer.
    pub closed spec fn wf(&self) -> bool {
        self.pos <= self.buf@.len()
    }

    /// Start decoding `buf` from its first byte.
    pub fn over(buf: &'buf [u8]) -> (r: ReaderNames<'buf>)
        ensures
            r.wf(),
            r@ == parse_names(buf@),
    {
        let r = ReaderNames { buf, pos: 0 };
        proof {
            assert(buf@.skip(0) =~= buf@);
        }
        r
    }

    /// Yield the next name, or `None` at the end of the sequence.
    pub fn next(&mut self) -> (r: Option<&'buf [u8]>)
        requires
            old(self).wf(),
        ensures
            final(self).wf(),
            old(self)@.len() == 0 ==> r is None && final(self)@ == old(self)@,
            old(self)@.len() > 0 ==> (r matches Some(name)
                && name@ == old(self)@[0]
                && final(self)@ == old(self)@.drop_first()),
    {
        proof {
            lemma_first_nul(self.buf@.skip(self.pos as int));
        }
        let ghost suffix = self.buf@.skip(self.pos as int);
        let mut i: usize = self.pos;
        while i < self.buf.len() && *slice_index_get(self.buf, i) != 0
            invariant
                self.pos <= i <= self.buf@.len(),
                forall |j: int| self.pos <= j < i ==> self.buf@[j] != 0,
            decreases self.buf@.len() - i,
        {
            i = i + 1;
        }
        proof {
            // i is the first NUL at or after the cursor, or the buffer end.
            assert forall |j: int| 0 <= j < i - self.pos implies suffix[j] != 0 by {
                assert(suffix[j] == self.buf@[self.pos + j]);
            }
            if first_nul(suffix) < i - self.pos {
                assert(suffix[first_nul(suffix)] != 0);
            }
            if i < self.buf@.len() {
                assert(suffix[i - self.pos] == self.buf@[i as int]);
                assert(first_nul(suffix) <= i - self.pos);
            }
            assert(first_nul(suffix) == if i < self.buf@.len() { i - self.pos } else { suffix.len() as int });
        }
        if i >= self.buf.len() {
            // No terminator after the cursor: the sequence is over.
            return None;
        }
        if i == self.pos {
            // An empty name ends the sequence.
            return None;
        }
        let name = slice_subrange(self.buf, self.pos, i);
        let ghost old_pos = self.pos as int;
        self.pos = i + 1;
        proof {
            assert(name@ =~= suffix.take(i - old_pos));
            assert(self.buf@.skip(self.pos as int) =~= suffix.skip(i - old_pos + 1));
        }
        Some(name)
    }
}

/// The bytes of the reserved pseudo-reader name that asks the wait call
/// to report card-reader insertions and removals, as opposed to state
/// changes of one physical reader.
pub open spec fn pnp_notification_name() -> Seq<u8> {
    seq![
        92u8, 92u8, 63u8, 80u8, 110u8, 80u8, 63u8, 92u8, 78u8, 111u8, 116u8, 105u8, 102u8,
        105u8, 99u8, 97u8, 116u8, 105u8, 111u8, 110u8,
    ]
}

/// A special reader name for detecting card-reader insertions and
/// removals when submitted to the wait call.
#[allow(non_snake_case)]
pub fn PNP_NOTIFICATION() -> (r: Vec<u8>)
    ensures
        r@ == pnp_notification_name(),
{
    let mut v: Vec<u8> = Vec::new();
    v.push(92);
    v.push(92);
    v.push(63);
    v.push(80);
    v.push(110);
    v.push(80);
    v.push(63);
    v.push(92);
    v.push(78);
    v.push(111);
    v.push(116);
    v.push(105);
    v.push(102);
    v.push(105);
    v.push(99);
    v.push(97);
    v.push(116);
    v.push(105);
    v.push(111);
    v.push(110);
    proof {
        assert(v@ =~= pnp_notification_name());
    }
    v
}

/// A set of names laid out as the native service lays them out: each name
/// followed by a NUL, the whole list closed by one more NUL.
pub open spec fn encode_names(names: Seq<Seq<u8>>) -> Seq<u8>
    decreases names.len(),
{
    if names.len() == 0 {
        seq![0u8]
    } else {
        names[0] + seq![0u8] + encode_names(names.drop_first())
    }
}

/// Law: encoding non-empty, NUL-free names and decoding the buffer yields
/// exactly the original names in order; in particular an empty set encodes
/// to a single NUL, which decodes to no names.
pub proof fn lemma_names_round_trip(names: Seq<Seq<u8>>)
    requires
        forall |i: int| 0 <= i < names.len() ==> #[trigger] names[i].len() > 0,
        forall |i: int| 0 <= i < names.len() ==> !(#[trigger] names[i]).contains(0u8),
    ensures
        parse_names(encode_names(names)) == names,
    decreases names.len(),
{
    let buf = encode_names(names);
    lemma_first_nul(buf);
    if names.len() == 0 {
        assert(buf =~= seq![0u8]);
        assert(parse_names(buf) =~= Seq::<Seq<u8>>::empty());
    } else {
        let head = names[0];
        let rest = encode_names(names.drop_first());
        let k = head.len() as int;
        assert(buf =~= head + seq![0u8] + rest);
        // The first NUL stands exactly where the first name ends.
        assert forall |j: int| 0 <= j < k implies buf[j] != 0 by {
            assert(buf[j] == head[j]);
            assert(!head.contains(0u8));
            assert(head[j] != 0);
        }
        assert(buf[k] == 0);
        if first_nul(buf) < k {
            assert(buf[first_nul(buf)] != 0);
        }
        assert(first_nul(buf) == k);
        assert(buf.take(k) =~= head);
        assert(buf.skip(k + 1) =~= rest);
        lemma_names_round_trip(names.drop_first());
        assert(parse_names(buf) =~= seq![head] + names.drop_first());
        assert(seq![head] + names.drop_first() =~= names);
    }
}

} // verus!
