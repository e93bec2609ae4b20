//! The score of a run, the best score, and the best score's stored form.
use vstd::prelude::*;

verus! {

/// Scores: the current run's, the best one, and whether this run has beaten
/// the best one held when it started.
#[derive(Debug, Clone, Copy, PartialEq, Eq, Structural)]
pub struct GameScore {
    pub current_score: u32,
    pub high_score: u32,
    pub is_high_score: bool,
}

impl GameScore {
    /// The latch agrees with the scores: a run that beat the best has at least
    /// the best score, one that did not has at most the best score.
    pub open spec fn wf(&self) -> bool {
        &&& self.is_high_score ==> self.current_score >= self.high_score
        &&& !self.is_high_score ==> self.current_score <= self.high_score
    }

    pub open spec fn new_spec(high_score: u32) -> GameScore {
        GameScore { current_score: 0, high_score, is_high_score: false }
    }

    /// No run yet, with `high_score` as the best.
    pub fn new(high_score: u32) -> (s: GameScore)
        ensures
            s == GameScore::new_spec(high_score),
            s.wf(),
    {
        GameScore { current_score: 0, high_score, is_high_score: false }
    }

    /// Counts one more obstacle passed. The run has beaten the best once its
    /// score is above it; that stays so until the next reset.
    pub fn inc_score(&mut self)
        requires
            old(self).current_score < u32::MAX,
        ensures
            final(self).current_score == old(self).current_score + 1,
            final(self).high_score == old(self).high_score,
            final(self).is_high_score == (old(self).is_high_score || final(self).current_score
                > old(self).high_score),
            old(self).wf() ==> final(self).wf(),
    {
        self.current_score = self.current_score + 1;
        if self.current_score > self.high_score {
            self.is_high_score = true;
        }
    }

    pub fn get_current_score(&self) -> (r: u32)
        ensures
            r == self.current_score,
    {
        self.current_score
    }

    pub fn get_high_score(&self) -> (r: u32)
        ensures
            r == self.high_score,
    {
        self.high_score
    }

    pub fn is_new_high_score(&self) -> (r: bool)
        ensures
            r == self.is_high_score,
    {
        self.is_high_score
    }

    /// Starts a new run: score zero, best not beaten.
    pub fn reset_score(&mut self)
        ensures
            final(self).current_score == 0,
            final(self).high_score == old(self).high_score,
            !final(self).is_high_score,
            final(self).wf(),
    {
        self.current_score = 0;
        self.is_high_score = false;
    }

    /// Ends a run: where it beat the best, its score becomes the best and is
    /// returned for storing.
    pub fn handle_highscore(&mut self) -> (saved: Option<u32>)
        ensures
            old(self).is_high_score ==> final(self).high_score == old(self).current_score
                && saved == Some(old(self).current_score),
            !old(self).is_high_score ==> final(self).high_score == old(self).high_score
                && saved.is_none(),
            final(self).current_score == old(self).current_score,
            final(self).is_high_score == old(self).is_high_score,
            old(self).wf() ==> final(self).wf() && final(self).high_score >= old(
                self,
            ).high_score,
    {
        if self.is_high_score {
            self.high_score = self.current_score;
            Some(self.high_score)
        } else {
            None
        }
    }
}

/// The value of four bytes read as a big-endian unsigned integer.
pub open spec fn be_value(b: Seq<u8>) -> int
    recommends
        b.len() == 4,
{
    b[0] * 16777216 + b[1] * 65536 + b[2] * 256 + b[3]
}

/// The four big-endian bytes of `v`.
pub open spec fn be_bytes(v: u32) -> Seq<u8> {
    seq![(v / 16777216) as u8, (v / 65536 % 256) as u8, (v / 256 % 256) as u8, (v % 256) as u8]
}

/// The stored form of a best score: four bytes, big-endian, no header.
pub fn high_score_to_bytes(v: u32) -> (b: Vec<u8>)
    ensures
        b@ == be_bytes(v),
{
    let b = vec![(v / 16777216) as u8, (v / 65536 % 256) as u8, (v / 256 % 256) as u8, (v % 256) as u8];
    assert(b@ =~= be_bytes(v));
    b
}

/// A best score read back from its stored form; `None` unless there are
/// exactly four bytes.
pub fn high_score_from_bytes(b: &[u8]) -> (r: Option<u32>)
    ensures
        b@.len() == 4 ==> r == Some(be_value(b@) as u32) && be_value(b@) <= u32::MAX,
        b@.len() != 4 ==> r.is_none(),
{
    if b.len() != 4 {
        return None;
    }
    let v = (b[0] as u32) * 16777216 + (b[1] as u32) * 65536 + (b[2] as u32) * 256 + b[3] as u32;
    Some(v)
}

/// The best score to start with, from what storage held: zero where it held
/// nothing readable.
pub fn load_highscore(stored: &[u8]) -> (r: u32)
    ensures
        stored@.len() == 4 ==> r == be_value(stored@),
        stored@.len() != 4 ==> r == 0,
{
    match high_score_from_bytes(stored) {
        Some(v) => v,
        None => 0,
    }
}

/// Storing a best score and reading it back gives the same score.
pub proof fn lemma_high_score_round_trip(v: u32)
    ensures
        be_bytes(v).len() == 4,
        be_value(be_bytes(v)) == v,
{
    let b = be_bytes(v);
    assert(be_value(b) == v);
}

} // verus!
