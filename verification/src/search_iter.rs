//! The names of the registered search modules.

use vstd::prelude::*;
use crate::cursor::{Cursor, CursorState};
use crate::decoder::Decoder;
use crate::search_registry::SearchEntry;

verus! {

/// One pass over the names of the search modules of a session, in the order
/// in which they were added.
pub struct SearchIter {
    names: Vec<String>,
    cursor: Cursor,
}

impl SearchIter {
    /// All names of the pass, in order.
    pub closed spec fn names(&self) -> Seq<Seq<char>> {
        self.names@.map_values(|s: String| s@)
    }

    /// How many names have been yielded.
    pub closed spec fn consumed(&self) -> nat {
        self.cursor.consumed()
    }

    /// Where the pass stands.
    pub closed spec fn state(&self) -> CursorState {
        self.cursor.state()
    }

    /// The cursor fits the names.
    pub closed spec fn wf(&self) -> bool {
        self.cursor.wf() && self.cursor.len() == self.names@.len()
    }

    /// A pass over the names of the search modules of a session.
    pub fn from_decoder(decoder: &Decoder) -> (it: SearchIter)
        ensures
            it.wf(),
            it.names() == decoder@.searches.map_values(|e: SearchEntry| e.name),
            it.consumed() == 0,
            it.state() == CursorState::BeforeFirst,
    {
        SearchIter::from_names(decoder.search_names())
    }

    /// A pass over the given names.
    pub fn from_names(names: Vec<String>) -> (it: SearchIter)
        ensures
            it.wf(),
            it.names() == names@.map_values(|s: String| s@),
            it.consumed() == 0,
            it.state() == CursorState::BeforeFirst,
    {
        let cursor = Cursor::new(names.len());
        SearchIter { names, cursor }
    }

    /// Where the pass stands.
    pub fn get_state(&self) -> (s: CursorState)
        ensures
            s == self.state(),
    {
        self.cursor.get_state()
    }

    /// The next name, or `None` once all have been yielded.
    pub fn next(&mut self) -> (r: Option<String>)
        requires
            old(self).wf(),
        ensures
            final(self).wf(),
            final(self).names() == old(self).names(),
            old(self).consumed() < old(self).names().len() ==> (r matches Some(s) && s@ == old(self).names()[old(self).consumed() as int]) && final(self).consumed() == old(self).consumed() + 1 && final(self).state() == CursorState::Positioned,
            old(self).consumed() >= old(self).names().len() ==> r is None && final(self).consumed()
                == old(self).names().len() && final(self).state() == CursorState::Exhausted,
    {
        match self.cursor.advance() {
            Some(i) => Some(self.names[i].clone()),
            None => None,
        }
    }
}

} // verus!
