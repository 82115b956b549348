//! The N best hypotheses of an utterance.

use vstd::prelude::*;
use vstd::utf8::{decode_utf8, valid_utf8};
use crate::cursor::{Cursor, CursorState};
use crate::decoder::{Decoder, UtteranceState};
use crate::error::Error;
use crate::seg_iter::{Seg, SegIter};
use crate::text::decode_text;

verus! {

/// A hypothesis with its path score.
#[derive(Debug)]
pub struct NBestHypothesis {
    /// Hypothesis string from N-best list iterator.
    pub hypothesis: String,
    /// Path score for this hypothesis.
    pub score: i32,
}

/// One entry of the N-best list: a hypothesis and its segmentation.
#[derive(Debug)]
pub struct NBest {
    inner: usize,
    hypothesis: String,
    score: i32,
    segs: Vec<Seg>,
}

impl Clone for NBest {
    fn clone(&self) -> (s: Self)
        ensures
            s.inner() == self.inner(),
            s.text() == self.text(),
            s.score() == self.score(),
            s.segs() == self.segs(),
    {
        let mut segs: Vec<Seg> = Vec::new();
        let mut i: usize = 0;
        while i < self.segs.len()
            invariant
                i <= self.segs@.len(),
                segs@ == self.segs@.subrange(0, i as int),
            decreases self.segs@.len() - i,
        {
            segs.push(self.segs[i].clone());
            assert(segs@ =~= self.segs@.subrange(0, i + 1));
            i += 1;
        }
        assert(segs@ =~= self.segs@);
        NBest { inner: self.inner, hypothesis: self.hypothesis.clone(), score: self.score, segs }
    }
}

impl NBest {
    /// The identity of the engine's entry.
    pub closed spec fn inner(&self) -> usize {
        self.inner
    }

    /// The text of the hypothesis.
    pub closed spec fn text(&self) -> Seq<char> {
        self.hypothesis@
    }

    /// The path score of the hypothesis.
    pub closed spec fn score(&self) -> i32 {
        self.score
    }

    /// The segments of the hypothesis.
    pub closed spec fn segs(&self) -> Seq<Seg> {
        self.segs@
    }

    /// An entry from what the engine reports of it: `inner` is the identity
    /// of the engine's entry. The engine may report no text, which stands for
    /// the empty hypothesis; text comes as bytes and must be UTF-8.
    pub fn new(inner: usize, text: Option<&[u8]>, score: i32, segs: Vec<Seg>) -> (r: Result<
        NBest,
        Error,
    >)
        ensures
            text is None ==> (r matches Ok(n) && n.text() == Seq::<char>::empty() && n.score()
                == score && n.segs() == segs@ && n.inner() == inner),
            text matches Some(b) ==> (valid_utf8(b@) ==> (r matches Ok(n) && n.text()
                == decode_utf8(b@) && n.score() == score && n.segs() == segs@ && n.inner()
                == inner)),
            text matches Some(b) ==> (!valid_utf8(b@) ==> r is Err && r->Err_0
                == Error::InvalidString),
    {
        match text {
            None => Ok(NBest { inner, hypothesis: String::new(), score, segs }),
            Some(b) => match decode_text(b) {
                Ok(hypothesis) => Ok(NBest { inner, hypothesis, score, segs }),
                Err(e) => Err(e),
            },
        }
    }

    /// The identity of the engine's entry.
    pub fn get_inner(&self) -> (id: usize)
        ensures
            id == self.inner(),
    {
        self.inner
    }

    /// The hypothesis of this entry with its score.
    pub fn get_hyp(&self) -> (h: NBestHypothesis)
        ensures
            h.hypothesis@ == self.text(),
            h.score == self.score(),
    {
        NBestHypothesis { hypothesis: self.hypothesis.clone(), score: self.score }
    }

    /// A pass over the word segmentation of this entry.
    pub fn get_seg(&self) -> (it: SegIter)
        ensures
            it.wf(),
            it.items() == self.segs(),
            it.consumed() == 0,
            it.state() == CursorState::BeforeFirst,
    {
        let copy = self.clone();
        SegIter::from_segs(copy.segs)
    }
}

/// One pass over the N-best list.
pub struct NBestIter {
    items: Vec<NBest>,
    cursor: Cursor,
}

impl NBestIter {
    /// All entries of the pass, best first.
    pub closed spec fn items(&self) -> Seq<NBest> {
        self.items@
    }

    /// How many entries have been yielded.
    pub closed spec fn consumed(&self) -> nat {
        self.cursor.consumed()
    }

    /// Where the pass stands.
    pub closed spec fn state(&self) -> CursorState {
        self.cursor.state()
    }

    /// The cursor fits the entries.
    pub closed spec fn wf(&self) -> bool {
        self.cursor.wf() && self.cursor.len() == self.items@.len()
    }

    /// A pass over the entries that the engine reports for a session;
    /// `None` if it reports no list. Before the first utterance of the
    /// session there is no list.
    pub fn from_decoder(decoder: &Decoder, entries: Option<Vec<NBest>>) -> (r: Option<NBestIter>)
        ensures
            decoder@.utt == UtteranceState::Idle || entries is None ==> r is None,
            decoder@.utt != UtteranceState::Idle ==> (entries matches Some(v) ==> (
            r matches Some(it) && it.wf() && it.items() == v@ && it.consumed() == 0 && it.state()
                == CursorState::BeforeFirst)),
    {
        match decoder.get_utt_state() {
            UtteranceState::Idle => None,
            _ => match entries {
                Some(v) => {
                    let cursor = Cursor::new(v.len());
                    Some(NBestIter { items: v, cursor })
                },
                None => None,
            },
        }
    }

    /// Where the pass stands.
    pub fn get_state(&self) -> (s: CursorState)
        ensures
            s == self.state(),
    {
        self.cursor.get_state()
    }

    /// The next entry, or `None` once all have been yielded.
    pub fn next(&mut self) -> (r: Option<NBest>)
        requires
            old(self).wf(),
        ensures
            final(self).wf(),
            final(self).items() == old(self).items(),
            old(self).consumed() < old(self).items().len() ==> (r matches Some(n) && n.inner()
                == old(self).items()[old(self).consumed() as int].inner() && n.text()
                == old(self).items()[old(self).consumed() as int].text() && n.score() == old(self).items()[old(self).consumed() as int].score() && n.segs() == old(self).items()[old(self).consumed() as int].segs()) && final(self).consumed() == old(self).consumed() + 1
                && final(self).state() == CursorState::Positioned,
            old(self).consumed() >= old(self).items().len() ==> r is None && final(self).consumed()
                == old(self).items().len() && final(self).state() == CursorState::Exhausted,
    {
        match self.cursor.advance() {
            Some(i) => Some(self.items[i].clone()),
            None => None,
        }
    }
}

} // verus!
