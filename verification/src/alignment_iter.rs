//! Alignments: the words of an utterance, the phones of each word and the
//! states of each phone, each with the frames it covers.
//!
//! An alignment holds its three levels as three rows. Every entry of a row
//! says which stretch of the row below belongs to it, so that the children of
//! an entry are found without walking its siblings.

use vstd::prelude::*;
use crate::cursor::CursorState;
use crate::decoder::Decoder;
use crate::error::Error;
use crate::resource::ResourceHandle;

verus! {

/// Timing and score of one entry of an alignment.
#[derive(Clone, Copy, Debug, PartialEq, Eq, Structural)]
pub struct AlignmentSeg {
    /// Acoustic score for this segment
    pub score: i32,
    /// Start frame for this segment
    pub start: i32,
    /// Duration of this segment
    pub duration: i32,
}

/// The level of an entry.
#[derive(Clone, Copy, Debug, PartialEq, Eq, Structural)]
pub enum AlignmentLevel {
    Word,
    Phone,
    State,
}

/// One entry of an alignment as the engine reports it.
#[derive(Debug)]
pub struct AlignmentEntry {
    /// The word, the phone, or the number of the state.
    pub name: String,
    /// Timing and score.
    pub seg: AlignmentSeg,
    /// Where the children of this entry start in the row below.
    pub first_child: usize,
    /// How many entries of the row below are children of this entry.
    pub n_children: usize,
}

impl Clone for AlignmentEntry {
    fn clone(&self) -> (e: Self)
        ensures
            e == *self,
    {
        AlignmentEntry {
            name: self.name.clone(),
            seg: self.seg,
            first_child: self.first_child,
            n_children: self.n_children,
        }
    }
}

/// The frames that a segment covers.
pub open spec fn frames(seg: AlignmentSeg) -> Set<int> {
    Set::new(|f: int| seg.start <= f < seg.start + seg.duration)
}

/// The entries of a row share out the `n_lower` entries of the row below
/// among themselves, in order and without gaps.
pub open spec fn linked(row: Seq<AlignmentEntry>, n_lower: nat) -> bool {
    &&& row.len() == 0 ==> n_lower == 0
    &&& row.len() > 0 ==> row[0].first_child == 0
    &&& row.len() > 0 ==> row.last().first_child + row.last().n_children == n_lower
    &&& forall|i: int|
        0 <= i < row.len() - 1 ==> (#[trigger] row[i]).first_child + row[i].n_children == row[i
            + 1].first_child
}

/// Whether position `k` of the row below holds a child of `parent`.
pub open spec fn is_child(parent: AlignmentEntry, k: int) -> bool {
    parent.first_child <= k < parent.first_child + parent.n_children
}

/// The children of `parent` divide its frames among themselves: no child has
/// a negative duration, the first starts where the parent starts, each other
/// one starts where the one before it ends, and the last ends where the
/// parent ends. An entry without children meets this only if it covers no
/// frame.
pub open spec fn divides(parent: AlignmentEntry, lower: Seq<AlignmentEntry>) -> bool {
    if parent.n_children == 0 {
        parent.seg.duration <= 0
    } else {
        let first = parent.first_child as int;
        let last = first + parent.n_children - 1;
        &&& lower[first].seg.start == parent.seg.start
        &&& lower[last].seg.start + lower[last].seg.duration == parent.seg.start
            + parent.seg.duration
        &&& forall|k: int| is_child(parent, k) ==> (#[trigger] lower[k]).seg.duration >= 0
        &&& forall|k: int|
            first <= k < last ==> (#[trigger] lower[k]).seg.start + lower[k].seg.duration
                == lower[k + 1].seg.start
    }
}

/// Every entry of the row divides its frames among its children.
pub open spec fn row_divides(row: Seq<AlignmentEntry>, lower: Seq<AlignmentEntry>) -> bool {
    forall|i: int| 0 <= i < row.len() ==> divides(#[trigger] row[i], lower)
}

/// Children come in the order of their frames: a later child starts no
/// earlier than an earlier one ends.
pub proof fn lemma_children_ordered(
    parent: AlignmentEntry,
    lower: Seq<AlignmentEntry>,
    j: int,
    k: int,
)
    requires
        divides(parent, lower),
        is_child(parent, j),
        is_child(parent, k),
        j < k,
    ensures
        lower[j].seg.start + lower[j].seg.duration <= lower[k].seg.start,
    decreases k - j,
{
    if j + 1 < k {
        lemma_children_ordered(parent, lower, j, k - 1);
        assert(lower[k - 1].seg.start + lower[k - 1].seg.duration == lower[k].seg.start);
        assert(lower[k - 1].seg.duration >= 0);
    } else {
        assert(lower[j].seg.start + lower[j].seg.duration == lower[j + 1].seg.start);
    }
}

/// Every child lies within its parent.
pub proof fn lemma_child_within(parent: AlignmentEntry, lower: Seq<AlignmentEntry>, k: int)
    requires
        divides(parent, lower),
        is_child(parent, k),
    ensures
        parent.seg.start <= lower[k].seg.start,
        lower[k].seg.start + lower[k].seg.duration <= parent.seg.start + parent.seg.duration,
{
    let first = parent.first_child as int;
    let last = first + parent.n_children - 1;
    assert(is_child(parent, first));
    assert(is_child(parent, last));
    assert(lower[first].seg.duration >= 0);
    assert(lower[last].seg.duration >= 0);
    assert(lower[k].seg.duration >= 0);
    if first < k {
        lemma_children_ordered(parent, lower, first, k);
    }
    if k < last {
        lemma_children_ordered(parent, lower, k, last);
    }
}

/// A frame between the start of child `a` and the end of child `b` lies in
/// one of the children from `a` to `b`.
proof fn lemma_frame_covered(
    parent: AlignmentEntry,
    lower: Seq<AlignmentEntry>,
    a: int,
    b: int,
    f: int,
) -> (k: int)
    requires
        divides(parent, lower),
        is_child(parent, a),
        is_child(parent, b),
        a <= b,
        lower[a].seg.start <= f < lower[b].seg.start + lower[b].seg.duration,
    ensures
        a <= k <= b,
        frames(lower[k].seg).contains(f),
    decreases b - a,
{
    if f >= lower[b].seg.start {
        b
    } else {
        assert(a < b) by {
            if a == b {
                assert(lower[a].seg.start <= f);
            }
        }
        assert(lower[b - 1].seg.start + lower[b - 1].seg.duration == lower[b].seg.start);
        lemma_frame_covered(parent, lower, a, b - 1, f)
    }
}

/// The partition of a parent's frames. If the children of an entry divide
/// its frames, then no two of them share a frame, and a frame belongs to the
/// entry if and only if it belongs to one of its children. An entry without
/// children then has no frame.
pub proof fn lemma_children_partition(parent: AlignmentEntry, lower: Seq<AlignmentEntry>)
    requires
        divides(parent, lower),
    ensures
        forall|j: int, k: int|
            is_child(parent, j) && is_child(parent, k) && j != k ==> frames(
                #[trigger] lower[j].seg,
            ).disjoint(frames(#[trigger] lower[k].seg)),
        forall|f: int|
            #[trigger] frames(parent.seg).contains(f) <==> exists|k: int|
                is_child(parent, k) && frames(#[trigger] lower[k].seg).contains(f),
{
    assert forall|j: int, k: int|
        is_child(parent, j) && is_child(parent, k) && j != k implies frames(
        #[trigger] lower[j].seg,
    ).disjoint(frames(#[trigger] lower[k].seg)) by {
        if j < k {
            lemma_children_ordered(parent, lower, j, k);
        } else {
            lemma_children_ordered(parent, lower, k, j);
        }
    }
    let first = parent.first_child as int;
    let last = first + parent.n_children - 1;
    assert forall|f: int| #[trigger] frames(parent.seg).contains(f) implies exists|k: int|
        is_child(parent, k) && frames(#[trigger] lower[k].seg).contains(f) by {
        assert(parent.n_children > 0);
        assert(is_child(parent, first));
        assert(is_child(parent, last));
        let k = lemma_frame_covered(parent, lower, first, last, f);
        assert(is_child(parent, k) && frames(lower[k].seg).contains(f));
    }
    assert forall|f: int|
        (exists|k: int|
            is_child(parent, k) && frames(#[trigger] lower[k].seg).contains(f)) implies frames(
        parent.seg,
    ).contains(f) by {
        let k = choose|k: int| is_child(parent, k) && frames(#[trigger] lower[k].seg).contains(f);
        lemma_child_within(parent, lower, k);
    }
}

/// Whether the entries of `row` share out the `n_lower` entries of the row
/// below among themselves.
fn check_linked(row: &Vec<AlignmentEntry>, n_lower: usize) -> (b: bool)
    ensures
        b == linked(row@, n_lower as nat),
{
    let n = row.len();
    if n == 0 {
        return n_lower == 0;
    }
    if row[0].first_child != 0 {
        return false;
    }
    let mut i: usize = 0;
    while i < n - 1
        invariant
            n == row@.len(),
            n > 0,
            i <= n - 1,
            forall|j: int|
                0 <= j < i ==> (#[trigger] row@[j]).first_child + row@[j].n_children == row@[j
                    + 1].first_child,
        decreases n - 1 - i,
    {
        let e = &row[i];
        let next = row[i + 1].first_child;
        if next < e.first_child || next - e.first_child != e.n_children {
            assert(row@[i as int].first_child + row@[i as int].n_children != row@[i
                + 1].first_child);
            return false;
        }
        i += 1;
    }
    let last = &row[n - 1];
    assert(row@.last() == row@[n - 1]);
    if n_lower < last.first_child || n_lower - last.first_child != last.n_children {
        return false;
    }
    true
}

/// Whether the children of `parent` divide its frames among themselves.
fn check_divides(parent: &AlignmentEntry, lower: &Vec<AlignmentEntry>) -> (b: bool)
    requires
        parent.first_child + parent.n_children <= lower@.len(),
    ensures
        b == divides(*parent, lower@),
{
    if parent.n_children == 0 {
        return parent.seg.duration <= 0;
    }
    let n_lower = lower.len();
    let first = parent.first_child;
    let last = first + parent.n_children - 1;
    if lower[first].seg.start != parent.seg.start {
        return false;
    }
    if lower[last].seg.start as i64 + lower[last].seg.duration as i64 != parent.seg.start as i64
        + parent.seg.duration as i64 {
        return false;
    }
    let mut k: usize = first;
    while k < last
        invariant
            first <= k <= last,
            first == parent.first_child,
            last == first + parent.n_children - 1,
            last < lower@.len(),
            forall|j: int| first <= j < k ==> (#[trigger] lower@[j]).seg.duration >= 0,
            forall|j: int|
                first <= j < k ==> (#[trigger] lower@[j]).seg.start + lower@[j].seg.duration
                    == lower@[j + 1].seg.start,
        decreases last - k,
    {
        let e = &lower[k];
        if e.seg.duration < 0 {
            assert(is_child(*parent, k as int));
            return false;
        }
        if e.seg.start as i64 + e.seg.duration as i64 != lower[k + 1].seg.start as i64 {
            return false;
        }
        k += 1;
    }
    if lower[last].seg.duration < 0 {
        assert(is_child(*parent, last as int));
        return false;
    }
    assert forall|j: int| is_child(*parent, j) implies (#[trigger] lower@[j]).seg.duration
        >= 0 by {
        if j < last {
        }
    }
    true
}

/// Whether every entry of `row` divides its frames among its children.
fn check_row_divides(row: &Vec<AlignmentEntry>, lower: &Vec<AlignmentEntry>) -> (b: bool)
    requires
        forall|i: int|
            0 <= i < row@.len() ==> (#[trigger] row@[i]).first_child + row@[i].n_children
                <= lower@.len(),
    ensures
        b == row_divides(row@, lower@),
{
    let mut i: usize = 0;
    while i < row.len()
        invariant
            i <= row@.len(),
            forall|j: int|
                0 <= j < row@.len() ==> (#[trigger] row@[j]).first_child + row@[j].n_children
                    <= lower@.len(),
            forall|j: int| 0 <= j < i ==> divides(#[trigger] row@[j], lower@),
        decreases row@.len() - i,
    {
        if !check_divides(&row[i], lower) {
            return false;
        }
        i += 1;
    }
    true
}

/// In a linked row every entry's children lie within the row below.
pub proof fn lemma_linked_in_range(row: Seq<AlignmentEntry>, n_lower: nat, i: int)
    requires
        linked(row, n_lower),
        0 <= i < row.len(),
    ensures
        row[i].first_child + row[i].n_children <= n_lower,
    decreases row.len() - i,
{
    if i < row.len() - 1 {
        lemma_linked_in_range(row, n_lower, i + 1);
        assert(row[i].first_child + row[i].n_children == row[i + 1].first_child);
    } else {
        assert(row[i] == row.last());
    }
}

/// A copy of a row.
fn clone_row(row: &Vec<AlignmentEntry>) -> (copy: Vec<AlignmentEntry>)
    ensures
        copy@ == row@,
{
    let mut copy: Vec<AlignmentEntry> = Vec::new();
    let mut i: usize = 0;
    while i < row.len()
        invariant
            i <= row@.len(),
            copy@ == row@.subrange(0, i as int),
        decreases row@.len() - i,
    {
        copy.push(row[i].clone());
        assert(copy@ =~= row@.subrange(0, i + 1));
        i += 1;
    }
    assert(copy@ =~= row@);
    copy
}

/// A three-level alignment of an utterance.
pub struct Alignment {
    handle: ResourceHandle,
    words: Vec<AlignmentEntry>,
    phones: Vec<AlignmentEntry>,
    states: Vec<AlignmentEntry>,
}

impl Alignment {
    /// The handle on the engine's alignment.
    pub closed spec fn handle(&self) -> ResourceHandle {
        self.handle
    }

    /// The words, in order.
    pub closed spec fn words_row(&self) -> Seq<AlignmentEntry> {
        self.words@
    }

    /// The phones of all words, in order.
    pub closed spec fn phones_row(&self) -> Seq<AlignmentEntry> {
        self.phones@
    }

    /// The states of all phones, in order.
    pub closed spec fn states_row(&self) -> Seq<AlignmentEntry> {
        self.states@
    }

    /// The row of a level.
    pub open spec fn row(&self, level: AlignmentLevel) -> Seq<AlignmentEntry> {
        match level {
            AlignmentLevel::Word => self.words_row(),
            AlignmentLevel::Phone => self.phones_row(),
            AlignmentLevel::State => self.states_row(),
        }
    }

    /// The words share out the phones, the phones share out the states, and
    /// states have no children.
    pub open spec fn wf(&self) -> bool {
        &&& linked(self.words_row(), self.phones_row().len())
        &&& linked(self.phones_row(), self.states_row().len())
        &&& forall|i: int|
            0 <= i < self.states_row().len() ==> (#[trigger] self.states_row()[i]).n_children == 0
    }

    /// Every word divides its frames among its phones, and every phone among
    /// its states.
    pub open spec fn partitioned(&self) -> bool {
        &&& row_divides(self.words_row(), self.phones_row())
        &&& row_divides(self.phones_row(), self.states_row())
    }

    /// Builds an alignment from the three rows that the engine reports. The
    /// alignment stays the engine's own: the handle does not own it.
    ///
    /// Rows whose entries do not share out the row below them, in order and
    /// without gaps, are refused.
    pub fn new(
        resource: usize,
        words: Vec<AlignmentEntry>,
        phones: Vec<AlignmentEntry>,
        states: Vec<AlignmentEntry>,
    ) -> (r: Result<Alignment, Error>)
        ensures
            ({
                let ok = linked(words@, phones@.len()) && linked(phones@, states@.len()) && (
                forall|i: int| 0 <= i < states@.len() ==> (#[trigger] states@[i]).n_children == 0);
                &&& !ok ==> r is Err && r->Err_0 == Error::EngineFailure
                &&& ok ==> (r matches Ok(a) && a.wf() && a.words_row() == words@ && a.phones_row()
                    == phones@ && a.states_row() == states@ && a.handle().id() == resource
                    && !a.handle().owns())
            }),
    {
        if !check_linked(&words, phones.len()) {
            return Err(Error::EngineFailure);
        }
        if !check_linked(&phones, states.len()) {
            return Err(Error::EngineFailure);
        }
        let mut i: usize = 0;
        while i < states.len()
            invariant
                i <= states@.len(),
                forall|j: int| 0 <= j < i ==> (#[trigger] states@[j]).n_children == 0,
            decreases states@.len() - i,
        {
            if states[i].n_children != 0 {
                return Err(Error::EngineFailure);
            }
            i += 1;
        }
        Ok(Alignment { handle: ResourceHandle::borrowed(resource), words, phones, states })
    }

    /// The alignment of the active search module of a session, from the
    /// alignment that the engine reports: see [`Decoder::get_alignment`].
    pub fn from_decoder(decoder: &Decoder, raw: Option<Alignment>) -> (r: Result<
        Option<Alignment>,
        Error,
    >)
        requires
            decoder.wf(),
            raw matches Some(a) ==> a.wf(),
        ensures
            !Decoder::aligning(decoder@) || raw is None ==> (r matches Ok(None)),
            Decoder::aligning(decoder@) ==> (raw matches Some(a) ==> (decoder@.settled
                && !a.partitioned() ==> (r matches Err(Error::EngineFailure)))),
            Decoder::aligning(decoder@) ==> (raw matches Some(a) ==> (!decoder@.settled
                || a.partitioned() ==> r == Ok::<Option<Alignment>, Error>(Some(a)))),
            r matches Ok(Some(a)) ==> (a.wf() && (decoder@.settled ==> a.partitioned())),
    {
        decoder.get_alignment(raw)
    }

    /// Whether every entry divides its frames among its children. This holds
    /// of an alignment that comes from decoding; before decoding, phones and
    /// states carry the duration of their word.
    pub fn is_partitioned(&self) -> (b: bool)
        requires
            self.wf(),
        ensures
            b == self.partitioned(),
    {
        proof {
            assert forall|i: int| 0 <= i < self.words@.len() implies (
            #[trigger] self.words@[i]).first_child + self.words@[i].n_children
                <= self.phones@.len() by {
                lemma_linked_in_range(self.words@, self.phones@.len(), i);
            }
            assert forall|i: int| 0 <= i < self.phones@.len() implies (
            #[trigger] self.phones@[i]).first_child + self.phones@[i].n_children
                <= self.states@.len() by {
                lemma_linked_in_range(self.phones@, self.states@.len(), i);
            }
        }
        check_row_divides(&self.words, &self.phones) && check_row_divides(
            &self.phones,
            &self.states,
        )
    }

    /// Shares the engine's alignment: returns an alignment with the same
    /// rows that owns one more reference, which the caller has taken in the
    /// engine. This alignment stays as it was.
    pub fn retain(&mut self) -> (a: Alignment)
        ensures
            *final(self) == *old(self),
            a.words_row() == old(self).words_row(),
            a.phones_row() == old(self).phones_row(),
            a.states_row() == old(self).states_row(),
            a.handle().id() == old(self).handle().id(),
            a.handle().owns(),
    {
        Alignment {
            handle: self.handle.retain(),
            words: clone_row(&self.words),
            phones: clone_row(&self.phones),
            states: clone_row(&self.states),
        }
    }

    /// Lets the alignment go and says which resource the engine must
    /// release: the alignment, if and only if this object owns a reference to
    /// it.
    pub fn release(self) -> (r: Option<usize>)
        ensures
            self.handle().owns() ==> r == Some(self.handle().id()),
            !self.handle().owns() ==> r is None,
    {
        self.handle.release()
    }

    /// Whether letting go of this object releases nothing in the engine.
    pub fn is_retained(&self) -> (b: bool)
        ensures
            b == !self.handle().owns(),
    {
        self.handle.is_retained()
    }

    /// The identity of the engine's alignment.
    pub fn get_inner(&self) -> (id: usize)
        ensures
            id == self.handle().id(),
    {
        self.handle.get_inner()
    }

    /// A pass over all words.
    pub fn words(&self) -> (it: AlignmentIter<'_>)
        requires
            self.wf(),
        ensures
            it.wf(),
            it.alignment() == self,
            it.level() == AlignmentLevel::Word,
            it.next_position() == 0,
            it.end() == self.words_row().len(),
            it.state() == CursorState::BeforeFirst,
    {
        AlignmentIter {
            alignment: self,
            level: AlignmentLevel::Word,
            pos: 0,
            end: self.words.len(),
            state: CursorState::BeforeFirst,
        }
    }

    /// A pass over the phones of all words.
    pub fn phones(&self) -> (it: AlignmentIter<'_>)
        requires
            self.wf(),
        ensures
            it.wf(),
            it.alignment() == self,
            it.level() == AlignmentLevel::Phone,
            it.next_position() == 0,
            it.end() == self.phones_row().len(),
            it.state() == CursorState::BeforeFirst,
    {
        AlignmentIter {
            alignment: self,
            level: AlignmentLevel::Phone,
            pos: 0,
            end: self.phones.len(),
            state: CursorState::BeforeFirst,
        }
    }

    /// A pass over the states of all phones.
    pub fn states(&self) -> (it: AlignmentIter<'_>)
        requires
            self.wf(),
        ensures
            it.wf(),
            it.alignment() == self,
            it.level() == AlignmentLevel::State,
            it.next_position() == 0,
            it.end() == self.states_row().len(),
            it.state() == CursorState::BeforeFirst,
    {
        AlignmentIter {
            alignment: self,
            level: AlignmentLevel::State,
            pos: 0,
            end: self.states.len(),
            state: CursorState::BeforeFirst,
        }
    }

    /// The number of entries in a row.
    fn row_len(&self, level: AlignmentLevel) -> (n: usize)
        ensures
            n == self.row(level).len(),
    {
        match level {
            AlignmentLevel::Word => self.words.len(),
            AlignmentLevel::Phone => self.phones.len(),
            AlignmentLevel::State => self.states.len(),
        }
    }

    /// The entry at a position of a row.
    fn entry(&self, level: AlignmentLevel, i: usize) -> (e: &AlignmentEntry)
        requires
            i < self.row(level).len(),
        ensures
            *e == self.row(level)[i as int],
    {
        match level {
            AlignmentLevel::Word => &self.words[i],
            AlignmentLevel::Phone => &self.phones[i],
            AlignmentLevel::State => &self.states[i],
        }
    }
}

/// One pass over a stretch of one row of an alignment.
///
/// A pass stands on an entry until it is exhausted: before the first step on
/// the first entry of its stretch, afterwards on the entry last yielded.
pub struct AlignmentIter<'a> {
    alignment: &'a Alignment,
    level: AlignmentLevel,
    pos: usize,
    end: usize,
    state: CursorState,
}

impl<'a> AlignmentIter<'a> {
    /// The alignment that the pass reads.
    pub closed spec fn alignment(&self) -> &Alignment {
        self.alignment
    }

    /// The level of the row.
    pub closed spec fn level(&self) -> AlignmentLevel {
        self.level
    }

    /// The position in the row that the pass stands on.
    pub closed spec fn position(&self) -> int {
        self.pos as int
    }

    /// The position in the row where the stretch ends.
    pub closed spec fn end(&self) -> int {
        self.end as int
    }

    /// Where the pass stands.
    pub closed spec fn state(&self) -> CursorState {
        self.state
    }

    /// The position that the next step yields, or the end of the stretch if
    /// it yields nothing.
    pub open spec fn next_position(&self) -> int {
        match self.state() {
            CursorState::BeforeFirst => self.position(),
            CursorState::Positioned => self.position() + 1,
            CursorState::Exhausted => self.end(),
        }
    }

    /// Whether the pass stands on an entry.
    pub open spec fn has_current(&self) -> bool {
        self.state() != CursorState::Exhausted && self.position() < self.end()
    }

    /// The entry that the pass stands on.
    pub open spec fn current(&self) -> AlignmentEntry {
        self.alignment().row(self.level())[self.position()]
    }

    /// The stretch lies within the row of a well-formed alignment.
    pub open spec fn wf(&self) -> bool {
        &&& self.alignment().wf()
        &&& 0 <= self.position() <= self.end() <= self.alignment().row(self.level()).len()
        &&& self.state() == CursorState::Positioned ==> self.position() < self.end()
    }

    /// A pass that stands before the first entry of a stretch.
    pub fn from_inner(alignment: &'a Alignment, level: AlignmentLevel, begin: usize, end: usize) -> (it:
        AlignmentIter<'a>)
        requires
            alignment.wf(),
            begin <= end <= alignment.row(level).len(),
        ensures
            it.wf(),
            it.alignment() == alignment,
            it.level() == level,
            it.position() == begin,
            it.end() == end,
            it.state() == CursorState::BeforeFirst,
    {
        AlignmentIter { alignment, level, pos: begin, end, state: CursorState::BeforeFirst }
    }

    /// Where the pass stands.
    pub fn get_state(&self) -> (s: CursorState)
        ensures
            s == self.state(),
    {
        self.state
    }

    /// Whether the pass stands on an entry.
    pub fn is_positioned(&self) -> (b: bool)
        ensures
            b == self.has_current(),
    {
        match self.state {
            CursorState::Exhausted => false,
            _ => self.pos < self.end,
        }
    }

    /// The name of the entry that the pass stands on: the word, the phone, or
    /// the number of the state.
    pub fn name(&self) -> (n: String)
        requires
            self.wf(),
            self.has_current(),
        ensures
            n@ == self.current().name@,
    {
        self.alignment.entry(self.level, self.pos).name.clone()
    }

    /// Timing and score of the entry that the pass stands on.
    pub fn seg(&self) -> (s: AlignmentSeg)
        requires
            self.wf(),
            self.has_current(),
        ensures
            s == self.current().seg,
    {
        self.alignment.entry(self.level, self.pos).seg
    }

    /// A pass over the children of the entry that the pass stands on: the
    /// phones of a word or the states of a phone. An entry without children,
    /// as every state is, has `None`.
    pub fn children(&self) -> (r: Option<AlignmentIter<'a>>)
        requires
            self.wf(),
            self.has_current(),
        ensures
            self.level() == AlignmentLevel::State || self.current().n_children == 0 ==> r is None,
            self.level() != AlignmentLevel::State && self.current().n_children > 0 ==> (
            r matches Some(it) && it.wf() && it.alignment() == self.alignment() && it.level() == (
            if self.level() == AlignmentLevel::Word {
                AlignmentLevel::Phone
            } else {
                AlignmentLevel::State
            }) && it.position() == self.current().first_child && it.end()
                == self.current().first_child + self.current().n_children && it.state()
                == CursorState::BeforeFirst),
    {
        let e = self.alignment.entry(self.level, self.pos);
        let lower = match self.level {
            AlignmentLevel::Word => AlignmentLevel::Phone,
            AlignmentLevel::Phone => AlignmentLevel::State,
            AlignmentLevel::State => {
                return None;
            },
        };
        if e.n_children == 0 {
            return None;
        }
        let n_lower = self.alignment.row_len(lower);
        proof {
            lemma_linked_in_range(
                self.alignment.row(self.level),
                self.alignment.row(lower).len(),
                self.pos as int,
            );
        }
        Some(
            AlignmentIter {
                alignment: self.alignment,
                level: lower,
                pos: e.first_child,
                end: e.first_child + e.n_children,
                state: CursorState::BeforeFirst,
            },
        )
    }

    /// Yields the next entry of the stretch as a pass that stands on it, or
    /// `None` once the stretch is exhausted.
    pub fn next(&mut self) -> (r: Option<AlignmentIter<'a>>)
        requires
            old(self).wf(),
        ensures
            final(self).wf(),
            final(self).alignment() == old(self).alignment(),
            final(self).level() == old(self).level(),
            final(self).end() == old(self).end(),
            old(self).next_position() < old(self).end() ==> (r matches Some(it) && it.wf()
                && it.alignment() == old(self).alignment() && it.level() == old(self).level()
                && it.position() == old(self).next_position() && it.end() == old(self).end()
                && it.state() == CursorState::BeforeFirst) && final(self).position() == old(self).next_position() && final(self).state() == CursorState::Positioned,
            old(self).next_position() >= old(self).end() ==> r is None && final(self).state()
                == CursorState::Exhausted,
    {
        match self.state {
            CursorState::BeforeFirst => {},
            CursorState::Positioned => {
                self.pos = self.pos + 1;
            },
            CursorState::Exhausted => {
                return None;
            },
        }
        if self.pos >= self.end {
            self.pos = self.end;
            self.state = CursorState::Exhausted;
            return None;
        }
        self.state = CursorState::Positioned;
        Some(
            AlignmentIter {
                alignment: self.alignment,
                level: self.level,
                pos: self.pos,
                end: self.end,
                state: CursorState::BeforeFirst,
            },
        )
    }
}

} // verus!
