//! The running chi-square tracker over a byte stream: bytes are buffered until
//! a full chunk is available, each chunk's statistic is recorded, and only the
//! most recent statistics are kept.
use std::collections::VecDeque;
use vstd::prelude::*;

use crate::chi_square::{byte_frequency_chi_square, chi_square_scaled, lemma_chi_square_scaled_bounds};

verus! {

/// The number of bytes in each chunk whose statistic is recorded.
pub const CHI_SQUARE_CHUNK_SIZE: usize = 4096;

/// The number of recorded statistics kept; older ones are dropped first.
pub const CHI_SQUARE_HISTORY_LIMIT: usize = 256;

/// The statistics (`chi_square_scaled`) of the consecutive full chunks of `s`,
/// in order; a final partial chunk has none.
pub open spec fn chunk_statistics(s: Seq<u8>) -> Seq<u128>
    decreases s.len(),
{
    if s.len() < CHI_SQUARE_CHUNK_SIZE {
        seq![]
    } else {
        seq![chi_square_scaled(s.take(CHI_SQUARE_CHUNK_SIZE as int)) as u128] + chunk_statistics(
            s.skip(CHI_SQUARE_CHUNK_SIZE as int),
        )
    }
}

/// What is left of `s` after its full chunks: the final partial chunk.
pub open spec fn unchunked_tail(s: Seq<u8>) -> Seq<u8>
    decreases s.len(),
{
    if s.len() < CHI_SQUARE_CHUNK_SIZE {
        s
    } else {
        unchunked_tail(s.skip(CHI_SQUARE_CHUNK_SIZE as int))
    }
}

/// The last `n` elements of `h`, or all of them if there are fewer.
pub open spec fn keep_last(h: Seq<u128>, n: nat) -> Seq<u128> {
    if h.len() <= n {
        h
    } else {
        h.skip(h.len() - n)
    }
}

/// The buffered bytes and the kept statistics after `bytes` are pushed onto a
/// tracker holding `pending` and `history`.
pub open spec fn pushed(pending: Seq<u8>, history: Seq<u128>, bytes: Seq<u8>) -> (
    Seq<u8>,
    Seq<u128>,
) {
    (
        unchunked_tail(pending + bytes),
        keep_last(history + chunk_statistics(pending + bytes), CHI_SQUARE_HISTORY_LIMIT as nat),
    )
}

/// Tracks the chi-square statistic of consecutive fixed-size chunks of a byte
/// stream.
pub struct ChiSquareTracker {
    /// Bytes received that do not yet fill a chunk.
    pub pending: Vec<u8>,
    /// The statistic of each recent chunk, oldest first.
    pub history: VecDeque<u128>,
}

impl ChiSquareTracker {
    /// Less than a chunk is buffered and at most the limit of statistics is kept.
    pub open spec fn well_formed(&self) -> bool {
        &&& self.pending@.len() < CHI_SQUARE_CHUNK_SIZE
        &&& self.history@.len() <= CHI_SQUARE_HISTORY_LIMIT
    }

    /// An empty tracker.
    pub fn new() -> (t: Self)
        ensures
            t.well_formed(),
            t.pending@ == Seq::<u8>::empty(),
            t.history@ == Seq::<u128>::empty(),
    {
        ChiSquareTracker { pending: Vec::new(), history: VecDeque::new() }
    }

    /// Drops the buffered bytes and all statistics.
    pub fn clear(&mut self)
        ensures
            final(self).well_formed(),
            final(self).pending@ == Seq::<u8>::empty(),
            final(self).history@ == Seq::<u128>::empty(),
    {
        self.pending.clear();
        self.history.clear();
    }

    /// Appends `bytes` to the stream: every chunk that fills up is measured,
    /// its statistic appended to the history, the oldest one dropped when the
    /// history is full.
    pub fn push_bytes(&mut self, bytes: &[u8])
        requires
            old(self).well_formed(),
        ensures
            final(self).well_formed(),
            (final(self).pending@, final(self).history@) == pushed(
                old(self).pending@,
                old(self).history@,
                bytes@,
            ),
    {
        self.pending.extend_from_slice(bytes);
        let ghost all = old(self).pending@ + bytes@;
        assert(self.pending@ =~= all);
        let ghost h0 = old(self).history@;
        let ghost mut emitted: Seq<u128> = seq![];
        assert(h0 + emitted =~= h0);
        while self.pending.len() >= CHI_SQUARE_CHUNK_SIZE
            invariant
                chunk_statistics(all) == emitted + chunk_statistics(self.pending@),
                unchunked_tail(all) == unchunked_tail(self.pending@),
                self.history@ == keep_last(h0 + emitted, CHI_SQUARE_HISTORY_LIMIT as nat),
                self.history@.len() <= CHI_SQUARE_HISTORY_LIMIT,
            decreases self.pending@.len(),
        {
            let ghost cur = self.pending@;
            let rest = self.pending.split_off(CHI_SQUARE_CHUNK_SIZE);
            let stat = byte_frequency_chi_square(self.pending.as_slice());
            self.pending = rest;
            proof {
                assert(cur.take(CHI_SQUARE_CHUNK_SIZE as int) =~= cur.subrange(
                    0,
                    CHI_SQUARE_CHUNK_SIZE as int,
                ));
                assert(self.pending@ =~= cur.skip(CHI_SQUARE_CHUNK_SIZE as int));
                assert(chi_square_scaled(cur.take(CHI_SQUARE_CHUNK_SIZE as int)) as u128 == stat);
                assert(emitted + chunk_statistics(cur) =~= emitted.push(stat) + chunk_statistics(
                    self.pending@,
                ));
                lemma_keep_last_push(h0 + emitted, stat, CHI_SQUARE_HISTORY_LIMIT as nat);
                assert((h0 + emitted).push(stat) =~= h0 + emitted.push(stat));
                emitted = emitted.push(stat);
            }
            if self.history.len() == CHI_SQUARE_HISTORY_LIMIT {
                self.history.pop_front();
            }
            self.history.push_back(stat);
        }
    }

    /// The number of buffered bytes.
    pub fn pending_len(&self) -> (n: usize)
        ensures
            n == self.pending@.len(),
    {
        self.pending.len()
    }

    /// The newest kept statistic, if any.
    pub fn latest_statistic(&self) -> (r: Option<u128>)
        ensures
            r == if self.history@.len() == 0 {
                None
            } else {
                Some(self.history@.last())
            },
    {
        let n = self.history.len();
        if n == 0 {
            None
        } else {
            Some(self.history[n - 1])
        }
    }

    /// The smallest and the largest kept statistic, if any are kept.
    pub fn statistic_range(&self) -> (r: Option<(u128, u128)>)
        ensures
            match r {
                None => self.history@.len() == 0,
                Some((lo, hi)) => {
                    &&& self.history@.len() > 0
                    &&& self.history@.contains(lo)
                    &&& self.history@.contains(hi)
                    &&& forall|i: int|
                        0 <= i < self.history@.len() ==> lo <= #[trigger] self.history@[i] <= hi
                },
            },
    {
        let n = self.history.len();
        if n == 0 {
            return None;
        }
        let mut lo = self.history[0];
        let mut hi = self.history[0];
        let mut i: usize = 1;
        assert(self.history@.subrange(0, 1)[0] == lo);
        while i < n
            invariant
                n == self.history@.len(),
                1 <= i <= n,
                self.history@.subrange(0, i as int).contains(lo),
                self.history@.subrange(0, i as int).contains(hi),
                forall|j: int| 0 <= j < i ==> lo <= #[trigger] self.history@[j] <= hi,
            decreases n - i,
        {
            let x = self.history[i];
            proof {
                let w = choose|j: int| 0 <= j < i && self.history@.subrange(0, i as int)[j] == lo;
                let z = choose|j: int| 0 <= j < i && self.history@.subrange(0, i as int)[j] == hi;
                assert(self.history@.subrange(0, i + 1)[w] == lo);
                assert(self.history@.subrange(0, i + 1)[z] == hi);
                assert(self.history@.subrange(0, i + 1)[i as int] == x);
            }
            if x < lo {
                lo = x;
            }
            if x > hi {
                hi = x;
            }
            i = i + 1;
        }
        assert(self.history@.subrange(0, n as int) =~= self.history@);
        Some((lo, hi))
    }

    /// The number of kept statistics.
    pub fn sample_count(&self) -> (n: usize)
        ensures
            n == self.history@.len(),
    {
        self.history.len()
    }
}

/// Appending one element and keeping the last `n` drops the oldest kept
/// element exactly when `n` were already kept.
pub proof fn lemma_keep_last_push(s: Seq<u128>, x: u128, n: nat)
    requires
        n > 0,
    ensures
        keep_last(s.push(x), n) == if keep_last(s, n).len() == n {
            keep_last(s, n).subrange(1, n as int).push(x)
        } else {
            keep_last(s, n).push(x)
        },
{
    if s.len() < n {
        assert(keep_last(s.push(x), n) =~= s.push(x));
    } else {
        assert(keep_last(s.push(x), n) =~= keep_last(s, n).subrange(1, n as int).push(x));
    }
}

/// The full chunks of `x + y` are those of `x` followed by those of what `x`
/// leaves over, continued by `y`; so is what remains.
pub proof fn lemma_chunks_of_concat(x: Seq<u8>, y: Seq<u8>)
    ensures
        chunk_statistics(x + y) == chunk_statistics(x) + chunk_statistics(unchunked_tail(x) + y),
        unchunked_tail(x + y) == unchunked_tail(unchunked_tail(x) + y),
    decreases x.len(),
{
    if x.len() >= CHI_SQUARE_CHUNK_SIZE {
        let k = CHI_SQUARE_CHUNK_SIZE as int;
        assert((x + y).take(k) =~= x.take(k));
        assert((x + y).skip(k) =~= x.skip(k) + y);
        lemma_chunks_of_concat(x.skip(k), y);
        assert(chunk_statistics(x + y) =~= chunk_statistics(x) + chunk_statistics(
            unchunked_tail(x) + y,
        ));
    }
}

/// Keeping the last `n` of a suffix of `z` that is at least that long gives
/// the last `n` of `z`.
proof fn lemma_keep_last_of_suffix(w: Seq<u128>, z: Seq<u128>, n: nat)
    requires
        w.len() <= z.len(),
        w =~= z.skip(z.len() - w.len()),
        w.len() >= n || w.len() == z.len(),
    ensures
        keep_last(w, n) == keep_last(z, n),
{
    if w.len() == z.len() {
        assert(w =~= z);
    } else {
        assert(keep_last(w, n) =~= keep_last(z, n));
    }
}

/// Keeping the last `n` after each of two appends keeps what keeping the
/// last `n` once after both appends keeps.
pub proof fn lemma_keep_last_twice(h: Seq<u128>, a: Seq<u128>, b: Seq<u128>, n: nat)
    ensures
        keep_last(keep_last(h + a, n) + b, n) == keep_last(h + a + b, n),
{
    let u = h + a;
    let k = keep_last(u, n);
    let z = u + b;
    assert(k + b =~= z.skip(z.len() - (k + b).len()));
    lemma_keep_last_of_suffix(k + b, z, n);
}

/// Pushing `a` and then `b` onto a tracker leaves it as pushing `a + b` at
/// once does: how the stream is split into calls does not matter.
pub proof fn lemma_push_bytes_composes(
    pending: Seq<u8>,
    history: Seq<u128>,
    a: Seq<u8>,
    b: Seq<u8>,
)
    ensures
        pushed(pushed(pending, history, a).0, pushed(pending, history, a).1, b) == pushed(
            pending,
            history,
            a + b,
        ),
{
    let x = pending + a;
    assert(pending + (a + b) =~= x + b);
    lemma_chunks_of_concat(x, b);
    lemma_keep_last_twice(
        history,
        chunk_statistics(x),
        chunk_statistics(unchunked_tail(x) + b),
        CHI_SQUARE_HISTORY_LIMIT as nat,
    );
    assert(history + chunk_statistics(x) + chunk_statistics(unchunked_tail(x) + b) =~= history
        + chunk_statistics(x + b));
}

/// A stream has one statistic per full chunk, and statistic `i` is that of
/// all 4096 bytes of chunk `i`, the bytes from `4096 * i` to `4096 * (i + 1)`.
pub proof fn lemma_chunk_statistics_are_whole_chunks(s: Seq<u8>)
    ensures
        chunk_statistics(s).len() == s.len() / 4096,
        forall|i: int|
            0 <= i < chunk_statistics(s).len() ==> #[trigger] chunk_statistics(s)[i] as int
                == chi_square_scaled(s.subrange(4096 * i, 4096 * i + 4096)),
    decreases s.len(),
{
    if s.len() >= CHI_SQUARE_CHUNK_SIZE {
        let k = CHI_SQUARE_CHUNK_SIZE as int;
        let c = s.take(k);
        let r = s.skip(k);
        lemma_chi_square_scaled_bounds(c);
        assert(255 * c.len() * c.len() == 255 * 4096 * 4096);
        lemma_chunk_statistics_are_whole_chunks(r);
        let rest = chunk_statistics(r);
        assert forall|i: int| 0 <= i < chunk_statistics(s).len() implies #[trigger] chunk_statistics(
            s,
        )[i] as int == chi_square_scaled(s.subrange(4096 * i, 4096 * i + 4096)) by {
            if i == 0 {
                assert(s.subrange(0, 4096) =~= c);
            } else {
                assert(chunk_statistics(s)[i] == rest[i - 1]);
                assert(r.subrange(4096 * (i - 1), 4096 * (i - 1) + 4096) =~= s.subrange(
                    4096 * i,
                    4096 * i + 4096,
                ));
            }
        }
    }
}

/// Pushed onto an empty tracker, a stream leaves the unchunked tail buffered
/// and the statistics of its last full chunks, up to the limit, kept.
pub proof fn lemma_empty_tracker_push(s: Seq<u8>)
    ensures
        pushed(Seq::empty(), Seq::empty(), s) == (
            unchunked_tail(s),
            keep_last(chunk_statistics(s), CHI_SQUARE_HISTORY_LIMIT as nat),
        ),
{
    assert(Seq::<u8>::empty() + s =~= s);
    assert(Seq::<u128>::empty() + chunk_statistics(s) =~= chunk_statistics(s));
}

/// Every chunk statistic lies between 0 (all byte values equally frequent)
/// and `255 * 4096^2` (a single byte value).
pub proof fn lemma_chunk_statistics_bounded(s: Seq<u8>)
    ensures
        forall|i: int|
            0 <= i < chunk_statistics(s).len() ==> #[trigger] chunk_statistics(s)[i] <= 255
                * 4096 * 4096,
    decreases s.len(),
{
    if s.len() >= CHI_SQUARE_CHUNK_SIZE {
        let k = CHI_SQUARE_CHUNK_SIZE as int;
        let c = s.take(k);
        lemma_chi_square_scaled_bounds(c);
        assert(255 * c.len() * c.len() == 255 * 4096 * 4096);
        lemma_chunk_statistics_bounded(s.skip(k));
        let rest = chunk_statistics(s.skip(k));
        assert forall|i: int| 0 <= i < chunk_statistics(s).len() implies #[trigger] chunk_statistics(
            s,
        )[i] <= 255 * 4096 * 4096 by {
            if i > 0 {
                assert(chunk_statistics(s)[i] == rest[i - 1]);
            }
        }
    }
}

} // verus!
