//! The word segmentation of a hypothesis.

use vstd::prelude::*;
use vstd::utf8::{decode_utf8, valid_utf8};
use crate::cursor::{Cursor, CursorState};
use crate::decoder::{Decoder, UtteranceState};
use crate::error::Error;
use crate::nbest_iter::NBest;
use crate::text::decode_text;

verus! {

/// The frames a segment covers, both ends included.
#[derive(Clone, Copy, Debug, PartialEq, Eq, Structural)]
pub struct SegFrames {
    /// First frame index in segment.
    pub start: i32,
    /// Last frame index in segment.
    pub end: i32,
}

/// The scores of a segment, as logarithms in the base of the decoder.
#[derive(Clone, Copy, Debug, PartialEq, Eq, Structural)]
pub struct SegProp {
    /// Posterior probability; zero unless best-path search is enabled, and
    /// zero on a partial result.
    pub prob: i32,
    /// Acoustic model score for this segment.
    pub am_score: i32,
    /// Language model score for this segment.
    pub lm_score: i32,
    /// Language model backoff mode for this segment: the number of words
    /// used in calculating the language model score.
    pub lm_back: i32,
}

/// One segment of a hypothesis: a word with its frames and scores.
#[derive(Debug)]
pub struct Seg {
    word: String,
    frames: SegFrames,
    prob: SegProp,
}

impl Clone for Seg {
    fn clone(&self) -> (s: Self)
        ensures
            s == *self,
    {
        Seg { word: self.word.clone(), frames: self.frames, prob: self.prob }
    }
}

impl Seg {
    /// The word of the segment.
    pub closed spec fn word(&self) -> Seq<char> {
        self.word@
    }

    /// The frames of the segment.
    pub closed spec fn frames(&self) -> SegFrames {
        self.frames
    }

    /// The scores of the segment.
    pub closed spec fn prob(&self) -> SegProp {
        self.prob
    }

    /// A segment from what the engine reports of it. The word comes as bytes
    /// and must be UTF-8.
    pub fn new(word: &[u8], frames: SegFrames, prob: SegProp) -> (r: Result<Seg, Error>)
        ensures
            valid_utf8(word@) ==> (r matches Ok(s) && s.word() == decode_utf8(word@) && s.frames()
                == frames && s.prob() == prob),
            !valid_utf8(word@) ==> r is Err && r->Err_0 == Error::InvalidString,
    {
        match decode_text(word) {
            Ok(w) => Ok(Seg { word: w, frames, prob }),
            Err(e) => Err(e),
        }
    }

    /// The word of this segment.
    pub fn get_word(&self) -> (w: String)
        ensures
            w@ == self.word(),
    {
        self.word.clone()
    }

    /// The first and the last frame of this segment.
    pub fn get_frames(&self) -> (f: SegFrames)
        ensures
            f == self.frames(),
    {
        self.frames
    }

    /// The scores of this segment.
    pub fn get_prob(&self) -> (p: SegProp)
        ensures
            p == self.prob(),
    {
        self.prob
    }
}

/// One pass over the segments of a hypothesis.
pub struct SegIter {
    items: Vec<Seg>,
    cursor: Cursor,
}

impl SegIter {
    /// All segments of the pass, in order.
    pub closed spec fn items(&self) -> Seq<Seg> {
        self.items@
    }

    /// How many segments have been yielded.
    pub closed spec fn consumed(&self) -> nat {
        self.cursor.consumed()
    }

    /// Where the pass stands.
    pub closed spec fn state(&self) -> CursorState {
        self.cursor.state()
    }

    /// The cursor fits the segments.
    pub closed spec fn wf(&self) -> bool {
        self.cursor.wf() && self.cursor.len() == self.items@.len()
    }

    /// The segments that the pass has not yielded yet.
    pub open spec fn remaining(&self) -> Seq<Seg> {
        self.items().subrange(self.consumed() as int, self.items().len() as int)
    }

    /// A pass never yields more than there is.
    pub proof fn lemma_consumed_bounded(&self)
        requires
            self.wf(),
        ensures
            self.consumed() <= self.items().len(),
    {
        self.cursor.lemma_consumed_bounded();
    }

    /// A pass over the segments that the engine reports for the best
    /// hypothesis of a session; `None` if it reports none. Before the first
    /// utterance of the session there is no segmentation.
    pub fn new(decoder: &Decoder, segs: Option<Vec<Seg>>) -> (r: Option<SegIter>)
        ensures
            decoder@.utt == UtteranceState::Idle || segs is None ==> r is None,
            decoder@.utt != UtteranceState::Idle ==> (segs matches Some(v) ==> (r matches Some(it)
                && it.wf() && it.items() == v@ && it.consumed() == 0 && it.state()
                == CursorState::BeforeFirst)),
    {
        match decoder.get_utt_state() {
            UtteranceState::Idle => None,
            _ => match segs {
                Some(v) => Some(SegIter::from_segs(v)),
                None => None,
            },
        }
    }

    /// A pass over the word segmentation of an entry of the N-best list.
    pub fn from_nbest(nbest: &NBest) -> (it: SegIter)
        ensures
            it.wf(),
            it.items() == nbest.segs(),
            it.consumed() == 0,
            it.state() == CursorState::BeforeFirst,
    {
        nbest.get_seg()
    }

    /// A pass over the given segments.
    pub fn from_segs(segs: Vec<Seg>) -> (it: SegIter)
        ensures
            it.wf(),
            it.items() == segs@,
            it.consumed() == 0,
            it.state() == CursorState::BeforeFirst,
    {
        let cursor = Cursor::new(segs.len());
        SegIter { items: segs, cursor }
    }

    /// Where the pass stands.
    pub fn get_state(&self) -> (s: CursorState)
        ensures
            s == self.state(),
    {
        self.cursor.get_state()
    }

    /// The next segment, or `None` once all have been yielded.
    pub fn next(&mut self) -> (r: Option<Seg>)
        requires
            old(self).wf(),
        ensures
            final(self).wf(),
            final(self).items() == old(self).items(),
            old(self).consumed() < old(self).items().len() ==> r == Some(
                old(self).items()[old(self).consumed() as int],
            ) && final(self).consumed() == old(self).consumed() + 1 && final(self).state()
                == CursorState::Positioned,
            old(self).consumed() >= old(self).items().len() ==> r is None && final(self).consumed()
                == old(self).items().len() && final(self).state() == CursorState::Exhausted,
    {
        match self.cursor.advance() {
            Some(i) => Some(self.items[i].clone()),
            None => None,
        }
    }
}

} // verus!
