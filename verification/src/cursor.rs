//! One pass over a finite sequence.

use vstd::prelude::*;

verus! {

/// Where a cursor stands.
#[derive(Clone, Copy, Debug, PartialEq, Eq, Structural)]
pub enum CursorState {
    /// Nothing has been yielded yet.
    BeforeFirst,
    /// The element last yielded is the current one.
    Positioned,
    /// The pass is over; every later step yields nothing.
    Exhausted,
}

/// A cursor over the positions `0 .. len` of a sequence.
///
/// The first step yields position 0 without moving, each later step moves on
/// by one, and the step past the last position ends the pass for good.
#[derive(Clone, Copy, Debug)]
pub struct Cursor {
    len: usize,
    index: usize,
    state: CursorState,
}

impl Cursor {
    /// The length of the sequence.
    pub closed spec fn len(&self) -> nat {
        self.len as nat
    }

    /// Where the cursor stands.
    pub closed spec fn state(&self) -> CursorState {
        self.state
    }

    /// How many positions have been yielded so far.
    pub closed spec fn consumed(&self) -> nat {
        match self.state {
            CursorState::BeforeFirst => 0,
            CursorState::Positioned => (self.index + 1) as nat,
            CursorState::Exhausted => self.len as nat,
        }
    }

    /// The cursor's fields agree with its state.
    pub closed spec fn wf(&self) -> bool {
        match self.state {
            CursorState::BeforeFirst => self.index == 0,
            CursorState::Positioned => self.index < self.len,
            CursorState::Exhausted => true,
        }
    }

    /// A well-formed cursor never counts more than the sequence holds, and an
    /// exhausted one has counted everything.
    pub proof fn lemma_consumed_bounded(&self)
        requires
            self.wf(),
        ensures
            self.consumed() <= self.len(),
            self.state() == CursorState::BeforeFirst ==> self.consumed() == 0,
            self.state() == CursorState::Exhausted ==> self.consumed() == self.len(),
            self.state() == CursorState::Positioned ==> self.consumed() > 0,
    {
    }

    /// A cursor before the first of `len` positions.
    pub fn new(len: usize) -> (c: Cursor)
        ensures
            c.wf(),
            c.len() == len,
            c.consumed() == 0,
            c.state() == CursorState::BeforeFirst,
    {
        Cursor { len, index: 0, state: CursorState::BeforeFirst }
    }

    /// Where the cursor stands.
    pub fn get_state(&self) -> (s: CursorState)
        ensures
            s == self.state(),
    {
        self.state
    }

    /// Yields the next position, or `None` once all have been yielded.
    pub fn advance(&mut self) -> (r: Option<usize>)
        requires
            old(self).wf(),
        ensures
            final(self).wf(),
            final(self).len() == old(self).len(),
            old(self).consumed() < old(self).len() ==> (r matches Some(i) && i == old(
                self).consumed()) && final(self).consumed() == old(self).consumed() + 1
                && final(self).state() == CursorState::Positioned,
            old(self).consumed() >= old(self).len() ==> r is None && final(self).consumed()
                == old(self).len() && final(self).state() == CursorState::Exhausted,
    {
        match self.state {
            CursorState::BeforeFirst => {
                if self.len == 0 {
                    self.state = CursorState::Exhausted;
                    None
                } else {
                    self.state = CursorState::Positioned;
                    Some(0)
                }
            },
            CursorState::Positioned => {
                if self.index + 1 < self.len {
                    self.index = self.index + 1;
                    Some(self.index)
                } else {
                    self.state = CursorState::Exhausted;
                    None
                }
            },
            CursorState::Exhausted => None,
        }
    }
}

/// What has to be done to get the next element of a sequence whose elements
/// are fetched one by one from elsewhere.
#[derive(Clone, Copy, Debug, PartialEq, Eq, Structural)]
pub enum Step {
    /// Look at the element that the source stands on.
    Current,
    /// Move the source on by one, and look at the element it then stands on.
    Advance,
    /// Nothing: the pass is over, and the source must not be touched.
    Stop,
}

/// A cursor over a sequence of unknown length, whose source says of each
/// element whether it is there.
///
/// The source stands on its first element from the start. So the first step
/// looks at that element without moving, each later step moves first, and
/// the first element that is not there ends the pass for good.
#[derive(Clone, Copy, Debug)]
pub struct LazyCursor {
    state: CursorState,
}

impl LazyCursor {
    /// Where the cursor stands.
    pub closed spec fn state(&self) -> CursorState {
        self.state
    }

    /// What a cursor in the given state asks for.
    pub open spec fn step_of(state: CursorState) -> Step {
        match state {
            CursorState::BeforeFirst => Step::Current,
            CursorState::Positioned => Step::Advance,
            CursorState::Exhausted => Step::Stop,
        }
    }

    /// A cursor at the start of a pass.
    pub fn new() -> (c: LazyCursor)
        ensures
            c.state() == CursorState::BeforeFirst,
    {
        LazyCursor { state: CursorState::BeforeFirst }
    }

    /// Where the cursor stands.
    pub fn get_state(&self) -> (s: CursorState)
        ensures
            s == self.state(),
    {
        self.state
    }

    /// What has to be done to get the next element.
    pub fn plan(&self) -> (s: Step)
        ensures
            s == Self::step_of(self.state()),
    {
        match self.state {
            CursorState::BeforeFirst => Step::Current,
            CursorState::Positioned => Step::Advance,
            CursorState::Exhausted => Step::Stop,
        }
    }

    /// Takes note of what the planned step found: `present` says whether the
    /// source stands on an element. Returns whether that element is to be
    /// yielded. A pass that is over stays over, whatever is reported.
    pub fn arrive(&mut self, present: bool) -> (yielded: bool)
        ensures
            yielded == (present && old(self).state() != CursorState::Exhausted),
            yielded ==> final(self).state() == CursorState::Positioned,
            !yielded ==> final(self).state() == CursorState::Exhausted,
    {
        match self.state {
            CursorState::Exhausted => false,
            _ => {
                if present {
                    self.state = CursorState::Positioned;
                    true
                } else {
                    self.state = CursorState::Exhausted;
                    false
                }
            },
        }
    }
}

} // verus!
