//! Shared ownership of engine resources.
//!
//! The engine keeps one reference count per resource. A [`ResourceHandle`]
//! records which resource a session object refers to and whether letting go
//! of the handle must release one reference. A [`ResourcePool`] is a model of
//! the engine's counts that can stand in for the engine. A [`Family`] follows
//! the handles that stem from one resource through retains and drops.

use vstd::prelude::*;
use crate::error::Error;

verus! {

/// A reference to one engine resource.
#[derive(Debug)]
pub struct ResourceHandle {
    id: usize,
    owns: bool,
}

impl ResourceHandle {
    /// The identity of the resource this handle refers to.
    pub closed spec fn id(&self) -> usize {
        self.id
    }

    /// Whether letting go of this handle releases one reference.
    pub closed spec fn owns(&self) -> bool {
        self.owns
    }

    /// Wraps what a constructor of the engine returned: `None` stands for the
    /// null result of a failed construction.
    pub fn acquire(resource: Option<usize>) -> (r: Result<ResourceHandle, Error>)
        ensures
            resource is None ==> r == Err::<ResourceHandle, Error>(Error::InitializationFailure),
            resource matches Some(id) ==> (r matches Ok(h) && h.id() == id && h.owns()),
    {
        match resource {
            Some(id) => Ok(ResourceHandle { id, owns: true }),
            None => Err(Error::InitializationFailure),
        }
    }

    /// A handle on a resource that another object owns.
    pub fn borrowed(id: usize) -> (h: ResourceHandle)
        ensures
            h.id() == id,
            !h.owns(),
    {
        ResourceHandle { id, owns: false }
    }

    /// Shares the resource: the caller adds one reference in the engine, and
    /// the new handle owns that reference. This handle stays as it was: a
    /// handle that releases when it is let go still does, so that every
    /// reference is given up by the handle that holds it.
    pub fn retain(&mut self) -> (h: ResourceHandle)
        ensures
            *final(self) == *old(self),
            h.id() == old(self).id(),
            h.owns(),
    {
        ResourceHandle { id: self.id, owns: true }
    }

    /// What the handle is to the family of its resource.
    pub open spec fn state(&self) -> HandleState {
        if self.owns() {
            HandleState::Owning
        } else {
            HandleState::Shared
        }
    }

    /// Sets whether this handle releases when it is let go.
    pub fn set_retained(&mut self, retained: bool)
        ensures
            final(self).id() == old(self).id(),
            final(self).owns() == !retained,
    {
        self.owns = !retained;
    }

    /// Lets go of the handle and says which resource the engine must release:
    /// the handle's own, if and only if the handle owns a reference.
    pub fn release(self) -> (r: Option<usize>)
        ensures
            self.owns() ==> r == Some(self.id()),
            !self.owns() ==> r is None,
    {
        if self.owns {
            Some(self.id)
        } else {
            None
        }
    }

    /// The identity of the resource this handle refers to.
    pub fn get_inner(&self) -> (id: usize)
        ensures
            id == self.id(),
    {
        self.id
    }

    /// Whether letting go of this handle releases nothing.
    pub fn is_retained(&self) -> (b: bool)
        ensures
            b == !self.owns(),
    {
        !self.owns
    }
}

/// What a pool knows of one resource.
pub struct Slot {
    /// Live references; zero once the resource has been freed.
    pub count: nat,
    /// How many times the resource has been freed.
    pub frees: nat,
}

/// The slot of a resource after one more reference was taken.
pub open spec fn slot_retain(s: Slot) -> Slot {
    if s.count > 0 {
        Slot { count: s.count + 1, frees: s.frees }
    } else {
        s
    }
}

/// The slot of a resource after one reference was given up. The release that
/// takes the count to zero frees the resource; a release of a freed resource
/// does nothing.
pub open spec fn slot_release(s: Slot) -> Slot {
    if s.count == 1 {
        Slot { count: 0, frees: s.frees + 1 }
    } else if s.count > 1 {
        Slot { count: (s.count - 1) as nat, frees: s.frees }
    } else {
        s
    }
}

/// `n` retains in a row.
pub open spec fn slot_retain_n(s: Slot, n: nat) -> Slot
    decreases n,
{
    if n == 0 {
        s
    } else {
        slot_retain(slot_retain_n(s, (n - 1) as nat))
    }
}

/// `n` releases in a row.
pub open spec fn slot_release_n(s: Slot, n: nat) -> Slot
    decreases n,
{
    if n == 0 {
        s
    } else {
        slot_release(slot_release_n(s, (n - 1) as nat))
    }
}

/// A slot as a fresh resource has it: one reference, never freed.
pub open spec fn slot_fresh() -> Slot {
    Slot { count: 1, frees: 0 }
}

/// Retains add up: after `n` retains a live resource has `n` more references.
pub proof fn lemma_retain_n(s: Slot, n: nat)
    requires
        s.count > 0,
    ensures
        slot_retain_n(s, n) == (Slot { count: s.count + n, frees: s.frees }),
    decreases n,
{
    if n > 0 {
        lemma_retain_n(s, (n - 1) as nat);
    }
}

/// Releases count down: fewer releases than references free nothing, and from
/// the release that takes the last reference on, the resource has been freed
/// once more than before, however many releases follow.
pub proof fn lemma_release_n(s: Slot, n: nat)
    requires
        s.count > 0,
    ensures
        n < s.count ==> slot_release_n(s, n) == (Slot {
            count: (s.count - n) as nat,
            frees: s.frees,
        }),
        n >= s.count ==> slot_release_n(s, n) == (Slot { count: 0, frees: s.frees + 1 }),
    decreases n,
{
    if n > 0 {
        lemma_release_n(s, (n - 1) as nat);
    }
}

/// Retain/release conservation. A resource that starts with one reference and
/// is retained `n` times is still alive after any `k <= n` releases, and has
/// been freed exactly once after `n + 1` releases or more.
pub proof fn lemma_retain_release_conservation(n: nat, k: nat)
    ensures
        k <= n ==> slot_release_n(slot_retain_n(slot_fresh(), n), k).frees == 0,
        k <= n ==> slot_release_n(slot_retain_n(slot_fresh(), n), k).count == n + 1 - k,
        k > n ==> slot_release_n(slot_retain_n(slot_fresh(), n), k).frees == 1,
        k > n ==> slot_release_n(slot_retain_n(slot_fresh(), n), k).count == 0,
{
    lemma_retain_n(slot_fresh(), n);
    lemma_release_n(slot_retain_n(slot_fresh(), n), k);
}

/// A retain and the release that answers it cancel out: the resource is left
/// as it was, and it is not freed in between.
pub proof fn lemma_retain_then_release(s: Slot)
    requires
        s.count > 0,
    ensures
        slot_retain(s).frees == s.frees,
        slot_release(slot_retain(s)) == s,
{
}

/// What has become of one handle of a family.
pub enum HandleState {
    /// The handle is held and releases a reference when it is let go.
    Owning,
    /// The handle is held and releases nothing when it is let go: the
    /// reference it uses is held outside the family.
    Shared,
    /// The handle has been let go.
    Gone,
}

/// The handles on one resource, with the resource's reference count: a
/// first handle, and every handle that a retain on one of the family has
/// returned.
pub struct Family {
    /// The resource's references and frees.
    pub slot: Slot,
    /// The references that no handle of the family holds, such as the one of
    /// a session that lends its configuration.
    pub outside: nat,
    /// The handles in the order in which they came to be.
    pub handles: Seq<HandleState>,
}

/// The family of a resource that has just been constructed: one handle that
/// owns the one reference.
pub open spec fn family_new() -> Family {
    Family { slot: slot_fresh(), outside: 0, handles: seq![HandleState::Owning] }
}

/// The family of a resource that is lent: one handle that owns nothing, and
/// `outside` references held elsewhere.
pub open spec fn family_lent(outside: nat) -> Family {
    Family {
        slot: Slot { count: outside, frees: 0 },
        outside,
        handles: seq![HandleState::Shared],
    }
}

/// Whether handle `i` of the family is held.
pub open spec fn held(f: Family, i: int) -> bool {
    0 <= i < f.handles.len() && f.handles[i] != HandleState::Gone
}

/// The family after a retain on handle `i`: the resource has one more
/// reference, which the new handle owns, and the handle stays as it was.
pub open spec fn family_retain(f: Family, i: int) -> Family {
    if held(f, i) {
        Family {
            slot: slot_retain(f.slot),
            handles: f.handles.push(HandleState::Owning),
            ..f
        }
    } else {
        f
    }
}

/// The family after handle `i` was let go: the resource loses a reference if
/// and only if the handle was one that releases.
pub open spec fn family_drop(f: Family, i: int) -> Family {
    if held(f, i) {
        Family {
            slot: if f.handles[i] == HandleState::Owning {
                slot_release(f.slot)
            } else {
                f.slot
            },
            handles: f.handles.update(i, HandleState::Gone),
            ..f
        }
    } else {
        f
    }
}

/// The number of handles that release when they are let go.
pub open spec fn owning_count(h: Seq<HandleState>) -> nat
    decreases h.len(),
{
    if h.len() == 0 {
        0
    } else {
        owning_count(h.drop_last()) + if h.last() == HandleState::Owning {
            1nat
        } else {
            0nat
        }
    }
}

/// What holds of every family: the resource has one reference for each
/// handle that releases and for each reference held outside; it has been
/// freed, once, exactly if it has no reference left; and a handle that owns
/// nothing is there only where a reference is held outside.
pub open spec fn family_inv(f: Family) -> bool {
    &&& f.slot.count == owning_count(f.handles) + f.outside
    &&& f.slot.frees == if f.slot.count == 0 {
        1nat
    } else {
        0nat
    }
    &&& f.outside == 0 ==> forall|i: int|
        0 <= i < f.handles.len() ==> #[trigger] f.handles[i] != HandleState::Shared
}

/// Counting after one handle changed.
proof fn lemma_owning_update(h: Seq<HandleState>, i: int, to: HandleState)
    requires
        0 <= i < h.len(),
    ensures
        owning_count(h.update(i, to)) + (if h[i] == HandleState::Owning {
            1nat
        } else {
            0nat
        }) == owning_count(h) + (if to == HandleState::Owning {
            1nat
        } else {
            0nat
        }),
    decreases h.len(),
{
    let u = h.update(i, to);
    if i == h.len() - 1 {
        assert(u.drop_last() =~= h.drop_last());
    } else {
        lemma_owning_update(h.drop_last(), i, to);
        assert(u.drop_last() =~= h.drop_last().update(i, to));
    }
}

/// No handle counts if and only if no handle releases.
proof fn lemma_owning_none(h: Seq<HandleState>)
    ensures
        owning_count(h) == 0 <==> forall|i: int|
            0 <= i < h.len() ==> #[trigger] h[i] != HandleState::Owning,
    decreases h.len(),
{
    if h.len() > 0 {
        lemma_owning_none(h.drop_last());
        if owning_count(h) == 0 {
            assert forall|i: int| 0 <= i < h.len() implies #[trigger] h[i]
                != HandleState::Owning by {
                if i < h.len() - 1 {
                    assert(h.drop_last()[i] == h[i]);
                }
            }
        } else if h.last() != HandleState::Owning {
            let k = choose|k: int|
                0 <= k < h.drop_last().len() && #[trigger] h.drop_last()[k] == HandleState::Owning;
            assert(h[k] == HandleState::Owning);
        }
    }
}

/// The families of a new and of a lent resource are as every family is.
pub proof fn lemma_family_start(outside: nat)
    requires
        outside >= 1,
    ensures
        family_inv(family_new()),
        family_inv(family_lent(outside)),
{
    let h = family_new().handles;
    assert(h.drop_last() =~= Seq::<HandleState>::empty());
    let g = family_lent(outside).handles;
    assert(g.drop_last() =~= Seq::<HandleState>::empty());
    reveal_with_fuel(owning_count, 2);
}

/// Retains and drops keep a family as every family is.
pub proof fn lemma_family_step(f: Family, i: int)
    requires
        family_inv(f),
    ensures
        family_inv(family_retain(f, i)),
        family_inv(family_drop(f, i)),
{
    if held(f, i) {
        let more = f.handles.push(HandleState::Owning);
        assert(more.drop_last() =~= f.handles);
        lemma_owning_update(f.handles, i, HandleState::Gone);
        lemma_owning_none(f.handles);
        assert(f.slot.count > 0);
        assert forall|k: int| 0 <= k < more.len() && f.outside == 0 implies #[trigger] more[k]
            != HandleState::Shared by {
            if k < f.handles.len() {
                assert(more[k] == f.handles[k]);
            }
        }
    }
}

/// Retain and release are conserved over handles. In the family of a
/// constructed resource, whatever retains and drops have been made, the
/// resource has been freed at most once, and it has been freed if and only
/// if every handle has been let go. So letting go of a held handle frees the
/// resource exactly if it is the last held one, and the resource was not
/// freed before.
pub proof fn lemma_family_conservation(f: Family, i: int)
    requires
        family_inv(f),
        f.outside == 0,
    ensures
        f.slot.frees <= 1,
        f.slot.frees == 1 <==> forall|j: int| !held(f, j),
        held(f, i) ==> f.slot.frees == 0 && (family_drop(f, i).slot.frees == 1 <==> forall|j: int|
            j != i ==> !held(f, j)),
{
    lemma_owning_none(f.handles);
    if f.slot.frees == 1 {
        assert forall|j: int| !held(f, j) by {
            if 0 <= j < f.handles.len() {
                assert(f.handles[j] != HandleState::Owning);
                assert(f.handles[j] != HandleState::Shared);
            }
        }
    } else {
        let k = choose|k: int|
            0 <= k < f.handles.len() && #[trigger] f.handles[k] == HandleState::Owning;
        assert(held(f, k));
    }
    if held(f, i) {
        let g = family_drop(f, i);
        lemma_family_step(f, i);
        lemma_owning_none(g.handles);
        if g.slot.frees == 1 {
            assert forall|j: int| j != i implies !held(f, j) by {
                if 0 <= j < f.handles.len() {
                    assert(g.handles[j] == f.handles[j]);
                    assert(g.handles[j] != HandleState::Owning);
                    assert(f.handles[j] != HandleState::Shared);
                }
            }
        } else {
            let k = choose|k: int|
                0 <= k < g.handles.len() && #[trigger] g.handles[k] == HandleState::Owning;
            assert(k != i);
            assert(f.handles[k] == g.handles[k]);
            assert(held(f, k));
        }
    }
}

/// A resource that is lent is never freed by the handles on it.
pub proof fn lemma_family_lent(f: Family)
    requires
        family_inv(f),
        f.outside >= 1,
    ensures
        f.slot.frees == 0,
        f.slot.count >= f.outside,
{
}

/// Reference counts of a set of resources, as the engine keeps them.
pub struct ResourcePool {
    counts: Vec<u64>,
    frees: Vec<u64>,
}

impl ResourcePool {
    /// The slots of the pool, indexed by resource identity.
    pub closed spec fn view(&self) -> Seq<Slot> {
        Seq::new(
            self.counts@.len(),
            |i: int| Slot { count: self.counts@[i] as nat, frees: self.frees@[i] as nat },
        )
    }

    /// Each resource is either alive and never freed, or dead and freed once.
    pub closed spec fn wf(&self) -> bool {
        &&& self.counts@.len() == self.frees@.len()
        &&& forall|i: int|
            0 <= i < self.counts@.len() ==> (self.counts@[i] > 0 && self.frees@[i] == 0) || (
            self.counts@[i] == 0 && self.frees@[i] == 1)
    }

    /// Well-formed pools hold no resource that was freed twice, and none that
    /// is both alive and freed.
    pub proof fn lemma_freed_at_most_once(&self, id: int)
        requires
            self.wf(),
            0 <= id < self@.len(),
        ensures
            self@[id].frees <= 1,
            self@[id].count > 0 <==> self@[id].frees == 0,
    {
    }

    /// A pool without resources.
    pub fn new() -> (p: ResourcePool)
        ensures
            p.wf(),
            p@.len() == 0,
    {
        ResourcePool { counts: Vec::new(), frees: Vec::new() }
    }

    /// Creates a resource with one reference and returns its identity.
    pub fn create(&mut self) -> (id: usize)
        requires
            old(self).wf(),
        ensures
            final(self).wf(),
            id == old(self)@.len(),
            final(self)@ == old(self)@.push(slot_fresh()),
    {
        let id = self.counts.len();
        self.counts.push(1);
        self.frees.push(0);
        assert(self@ =~= old(self)@.push(slot_fresh()));
        id
    }

    /// Takes in a resource that has `count` references already, and returns
    /// its identity. A resource without references cannot be taken in.
    pub fn adopt(&mut self, count: u64) -> (r: Result<usize, Error>)
        requires
            old(self).wf(),
        ensures
            final(self).wf(),
            count == 0 ==> r is Err && r->Err_0 == Error::UsageError && final(self)@ == old(self)@,
            count > 0 ==> r is Ok && r->Ok_0 == old(self)@.len() && final(self)@ == old(
                self)@.push(Slot { count: count as nat, frees: 0 }),
    {
        if count == 0 {
            return Err(Error::UsageError);
        }
        let id = self.counts.len();
        self.counts.push(count);
        self.frees.push(0);
        assert(self@ =~= old(self)@.push(Slot { count: count as nat, frees: 0 }));
        Ok(id)
    }

    /// The number of live references to a resource.
    pub fn count(&self, id: usize) -> (n: u64)
        requires
            self.wf(),
            id < self@.len(),
        ensures
            n == self@[id as int].count,
    {
        self.counts[id]
    }

    /// How many times a resource has been freed.
    pub fn times_freed(&self, id: usize) -> (n: u64)
        requires
            self.wf(),
            id < self@.len(),
        ensures
            n == self@[id as int].frees,
    {
        self.frees[id]
    }

    /// Takes one more reference to a live resource. Fails, changing nothing,
    /// on a resource that was freed or whose count cannot grow.
    pub fn retain(&mut self, id: usize) -> (r: Result<(), Error>)
        requires
            old(self).wf(),
            id < old(self)@.len(),
        ensures
            final(self).wf(),
            old(self)@[id as int].count == 0 ==> r == Err::<(), Error>(Error::UsageError)
                && final(self)@ == old(self)@,
            old(self)@[id as int].count == u64::MAX ==> r == Err::<(), Error>(
                Error::CounterExhausted,
            ) && final(self)@ == old(self)@,
            0 < old(self)@[id as int].count < u64::MAX ==> r == Ok::<(), Error>(())
                && final(self)@ == old(self)@.update(
                id as int,
                slot_retain(old(self)@[id as int]),
            ),
    {
        let c = self.counts[id];
        if c == 0 {
            Err(Error::UsageError)
        } else if c == u64::MAX {
            Err(Error::CounterExhausted)
        } else {
            self.counts[id] = c + 1;
            assert(self@ =~= old(self)@.update(id as int, slot_retain(old(self)@[id as int])));
            Ok(())
        }
    }

    /// Shares the resource of a handle: takes one more reference and returns
    /// the handle that owns it. The handle that was handed in stays as it
    /// was. Fails, changing nothing, on a resource that was freed or whose
    /// count cannot grow.
    ///
    /// For every family that the handle belongs to, this is a retain on the
    /// family.
    pub fn share(&mut self, handle: &mut ResourceHandle) -> (r: Result<ResourceHandle, Error>)
        requires
            old(self).wf(),
            old(handle).id() < old(self)@.len(),
        ensures
            final(self).wf(),
            *final(handle) == *old(handle),
            old(self)@[old(handle).id() as int].count == 0 ==> r is Err && r->Err_0
                == Error::UsageError && final(self)@ == old(self)@,
            old(self)@[old(handle).id() as int].count == u64::MAX ==> r is Err && r->Err_0
                == Error::CounterExhausted && final(self)@ == old(self)@,
            0 < old(self)@[old(handle).id() as int].count < u64::MAX ==> (r matches Ok(h) && h.id()
                == old(handle).id() && h.owns() && final(self)@ == old(self)@.update(
                old(handle).id() as int,
                slot_retain(old(self)@[old(handle).id() as int]),
            )),
            r matches Ok(h) ==> forall|f: Family, i: int|
                f.slot == old(self)@[old(handle).id() as int] && held(f, i) && f.handles[i] == old(handle).state() ==> (#[trigger] family_retain(f, i)).slot == final(self)@[old(handle).id() as int] && family_retain(f, i).handles == f.handles.push(h.state())
                    && family_retain(f, i).handles[i] == final(handle).state(),
    {
        let id = handle.get_inner();
        match self.retain(id) {
            Ok(()) => Ok(handle.retain()),
            Err(e) => Err(e),
        }
    }

    /// Lets a handle go: gives up the reference that the handle owns, if it
    /// owns one, and says whether that freed the resource.
    ///
    /// For every family that the handle belongs to, this is a drop on the
    /// family.
    pub fn let_go(&mut self, handle: ResourceHandle) -> (freed: bool)
        requires
            old(self).wf(),
            handle.id() < old(self)@.len(),
        ensures
            final(self).wf(),
            final(self)@ == old(self)@.update(
                handle.id() as int,
                if handle.owns() {
                    slot_release(old(self)@[handle.id() as int])
                } else {
                    old(self)@[handle.id() as int]
                },
            ),
            freed == (handle.owns() && old(self)@[handle.id() as int].count == 1),
            forall|f: Family, i: int|
                f.slot == old(self)@[handle.id() as int] && held(f, i) && f.handles[i]
                    == handle.state() ==> (#[trigger] family_drop(f, i)).slot == final(self)@[handle.id() as int],
    {
        let id = handle.get_inner();
        match handle.release() {
            Some(_) => self.release(id),
            None => {
                assert(self@ =~= old(self)@.update(id as int, old(self)@[id as int]));
                false
            },
        }
    }

    /// Gives up one reference and says whether that freed the resource.
    /// Releasing a resource that was already freed does nothing.
    pub fn release(&mut self, id: usize) -> (freed: bool)
        requires
            old(self).wf(),
            id < old(self)@.len(),
        ensures
            final(self).wf(),
            final(self)@ == old(self)@.update(id as int, slot_release(old(self)@[id as int])),
            freed == (old(self)@[id as int].count == 1),
    {
        let c = self.counts[id];
        if c == 0 {
            assert(self@ =~= old(self)@.update(id as int, slot_release(old(self)@[id as int])));
            false
        } else {
            self.counts[id] = c - 1;
            if c == 1 {
                self.frees[id] = 1;
            }
            assert(self@ =~= old(self)@.update(id as int, slot_release(old(self)@[id as int])));
            c == 1
        }
    }
}

} // verus!
