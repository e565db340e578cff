//! Score/display bridge: mirrors the score counter into the on-screen
//! label's text once per step.
//!
//! The bridge reads the shared counter rather than being invoked by the
//! resolver, so the display may lag the scoring event by at most one step.
//! The label's text is held as ASCII digit bytes; the renderer turns them
//! into glyphs.

use vstd::prelude::*;

verus! {

/// The decimal digit string of a nonnegative number, as ASCII bytes, most
/// significant digit first.
pub open spec fn spec_digits(n: int) -> Seq<u8>
    recommends
        0 <= n,
    decreases n,
{
    if n < 10 {
        seq![(48 + n) as u8]
    } else {
        spec_digits(n / 10).push((48 + n % 10) as u8)
    }
}

/// Renders a score as its ASCII decimal digits.
pub fn score_digits(n: u32) -> (r: Vec<u8>)
    ensures
        r@ == spec_digits(n as int),
    decreases n,
{
    if n < 10 {
        let mut v: Vec<u8> = Vec::new();
        v.push(48 + n as u8);
        v
    } else {
        let mut v = score_digits(n / 10);
        v.push(48 + (n % 10) as u8);
        v
    }
}

/// The on-screen score label.
pub struct ScoreLabel {
    pub text: Vec<u8>,
}

impl ScoreLabel {
    /// A fresh label with empty text, as the scene starts with.
    pub fn new() -> (l: ScoreLabel)
        ensures
            l.text@ == Seq::<u8>::empty(),
    {
        ScoreLabel { text: Vec::new() }
    }

    /// Copies the current score into the label's text content.
    pub fn sync(&mut self, score: u32)
        ensures
            final(self).text@ == spec_digits(score as int),
    {
        self.text = score_digits(score);
    }
}

} // verus!
