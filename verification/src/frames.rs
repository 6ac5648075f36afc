//! Frames and the per-byte absolute difference between consecutive frames.
use rayon::iter::{IndexedParallelIterator, IntoParallelRefIterator, ParallelIterator};
use vstd::prelude::*;

verus! {

/// `|a - b|` for bytes.
pub open spec fn abs_diff(a: u8, b: u8) -> u8 {
    if a >= b {
        (a - b) as u8
    } else {
        (b - a) as u8
    }
}

/// The byte-wise absolute difference of two byte sequences, over the
/// positions they have in common.
pub open spec fn frame_difference(current: Seq<u8>, previous: Seq<u8>) -> Seq<u8> {
    let n = if current.len() <= previous.len() {
        current.len()
    } else {
        previous.len()
    };
    Seq::new(n, |i: int| abs_diff(current[i], previous[i]))
}

/// `|a - b|` for bytes, as `u8::abs_diff` computes it.
pub fn byte_abs_diff(a: u8, b: u8) -> (r: u8)
    ensures
        r == abs_diff(a, b),
{
    if a >= b {
        a - b
    } else {
        b - a
    }
}

/// Calls rayon's `par_iter` on both slices, `zip`s them, `map`s each pair
/// through `byte_abs_diff` and `collect`s into a `Vec`. Rayon documents that
/// `zip` yields the pairs the two iterators have in common, in order, and an
/// indexed parallel iterator collects into a `Vec` in iteration order; the
/// contract states exactly that result.
#[verifier::external_body]
fn parallel_abs_diff(current: &[u8], previous: &[u8]) -> (r: Vec<u8>)
    ensures
        r@ == frame_difference(current@, previous@),
{
    current.par_iter().zip(previous.par_iter()).map(|(c, p)| byte_abs_diff(*c, *p)).collect()
}

/// The difference does not depend on which frame comes first, and a frame
/// differs from itself by zero everywhere.
pub proof fn lemma_frame_difference_symmetric(a: Seq<u8>, b: Seq<u8>)
    ensures
        frame_difference(a, b) == frame_difference(b, a),
        frame_difference(a, a) == Seq::new(a.len(), |i: int| 0u8),
{
    assert(frame_difference(a, b) =~= frame_difference(b, a));
    assert(frame_difference(a, a) =~= Seq::new(a.len(), |i: int| 0u8));
}

/// The byte-wise absolute difference of two frames' pixel bytes, computed
/// in parallel.
pub fn absolute_frame_difference(current: &[u8], previous: &[u8]) -> (r: Vec<u8>)
    ensures
        r@ == frame_difference(current@, previous@),
{
    parallel_abs_diff(current, previous)
}

/// A decoded RGB frame: its size in pixels and its pixel bytes.
pub struct RgbFrame {
    pub width: usize,
    pub height: usize,
    pub pixels: Vec<u8>,
}

/// A frame as sent to the viewer: the frame, and its difference to the
/// previous frame when that one had the same size.
pub struct ProcessedFrame {
    pub width: usize,
    pub height: usize,
    pub pixels: Vec<u8>,
    pub diff_pixels: Option<Vec<u8>>,
}

/// A copy of `v`.
pub fn copy_bytes(v: &Vec<u8>) -> (r: Vec<u8>)
    ensures
        r@ == v@,
{
    let r = v.clone();
    assert(r@ =~= v@);
    r
}

} // verus!
