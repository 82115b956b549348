//! The registry of search modules: the named decoding strategies of a
//! session, of which at most one is active.

use vstd::prelude::*;
use vstd::string::StringSliceAdditionalSpecFns;
use crate::error::Error;
use crate::text::has_nul;

verus! {

/// The strategy a search module decodes with.
#[derive(Clone, Copy, Debug, PartialEq, Eq, Structural)]
pub enum SearchKind {
    /// A finite-state grammar.
    Grammar,
    /// An N-gram language model.
    LanguageModel,
    /// One or more keyphrases to spot.
    KeywordSet,
    /// A phone loop.
    PhoneLoop,
    /// Forced alignment of a known text.
    ForceAlignText,
}

/// A registered search module as mathematics.
pub struct SearchEntry {
    pub name: Seq<char>,
    pub kind: SearchKind,
}

/// The state of a registry as mathematics.
pub struct RegistryState {
    /// The registered search modules, in the order in which they were added.
    pub searches: Seq<SearchEntry>,
    /// The name of the active search module.
    pub active: Option<Seq<char>>,
}

/// The first position at or after `start` whose entry has the given name, or
/// the length of the registry if there is none.
pub open spec fn position_from(s: Seq<SearchEntry>, name: Seq<char>, start: int) -> int
    decreases s.len() - start,
{
    if start < 0 || start >= s.len() {
        s.len() as int
    } else if s[start].name == name {
        start
    } else {
        position_from(s, name, start + 1)
    }
}

/// The position of the entry with the given name, or the length of the
/// registry if there is none.
pub open spec fn position(s: Seq<SearchEntry>, name: Seq<char>) -> int {
    position_from(s, name, 0)
}

/// Whether a search module of that name is registered.
pub open spec fn registered(s: Seq<SearchEntry>, name: Seq<char>) -> bool {
    position(s, name) < s.len()
}

/// No two entries of the registry have the same name.
pub open spec fn unique_names(s: Seq<SearchEntry>) -> bool {
    forall|i: int, j: int| 0 <= i < j < s.len() ==> s[i].name != s[j].name
}

/// The registry with an entry of that name and kind: in the place of the
/// entry that had the name, or at the end if there was none.
pub open spec fn upsert(s: Seq<SearchEntry>, name: Seq<char>, kind: SearchKind) -> Seq<
    SearchEntry,
> {
    if registered(s, name) {
        s.update(position(s, name), SearchEntry { name, kind })
    } else {
        s.push(SearchEntry { name, kind })
    }
}

/// The kind of the search module that a request names: the one called
/// `name`, or the active one if no name is given.
pub open spec fn kind_of(st: RegistryState, name: Option<Seq<char>>) -> Option<SearchKind> {
    let target = match name {
        Some(n) => Some(n),
        None => st.active,
    };
    match target {
        Some(n) => if registered(st.searches, n) {
            Some(st.searches[position(st.searches, n)].kind)
        } else {
            None
        },
        None => None,
    }
}

/// The kind of the search module that the engine has set up from the
/// configuration, from what the engine holds under its name: a language
/// model, else a grammar, else a keyphrase; a search module with none of
/// these is a phone loop.
pub fn kind_of_default(lm: bool, fsg: bool, kws: bool) -> (k: SearchKind)
    ensures
        lm ==> k == SearchKind::LanguageModel,
        !lm && fsg ==> k == SearchKind::Grammar,
        !lm && !fsg && kws ==> k == SearchKind::KeywordSet,
        !lm && !fsg && !kws ==> k == SearchKind::PhoneLoop,
{
    if lm {
        SearchKind::LanguageModel
    } else if fsg {
        SearchKind::Grammar
    } else if kws {
        SearchKind::KeywordSet
    } else {
        SearchKind::PhoneLoop
    }
}

/// What adding a search module under `name` comes to: a name that cannot be
/// handed to the engine or that is taken is refused, and so is a search
/// module that the engine failed to set up.
pub open spec fn add_result(searches: Seq<SearchEntry>, name: &str, status: i32) -> Result<
    (),
    Error,
> {
    if name.spec_bytes().contains(0u8) {
        Err(Error::InvalidString)
    } else if registered(searches, name@) {
        Err(Error::DuplicateSearchName)
    } else if status < 0 {
        Err(Error::InitializationFailure)
    } else {
        Ok(())
    }
}

/// What an operation on the registered search module `name` comes to: a
/// name that cannot be handed to the engine or that is not registered is
/// refused, and a failure of the engine is reported.
pub open spec fn lookup_result(searches: Seq<SearchEntry>, name: &str, status: i32) -> Result<
    (),
    Error,
> {
    if name.spec_bytes().contains(0u8) {
        Err(Error::InvalidString)
    } else if !registered(searches, name@) {
        Err(Error::SearchNotFound)
    } else if status < 0 {
        Err(Error::EngineFailure)
    } else {
        Ok(())
    }
}

/// What `position_from` finds is in range and has the name, and nothing
/// before it does.
pub proof fn lemma_position_from(s: Seq<SearchEntry>, name: Seq<char>, start: int)
    requires
        0 <= start <= s.len(),
    ensures
        start <= position_from(s, name, start) <= s.len(),
        position_from(s, name, start) < s.len() ==> s[position_from(s, name, start)].name == name,
        forall|i: int| start <= i < position_from(s, name, start) ==> s[i].name != name,
    decreases s.len() - start,
{
    if start < s.len() && s[start].name != name {
        lemma_position_from(s, name, start + 1);
    }
}

/// A name is registered if and only if some entry has it, and its position
/// is that of the first such entry.
pub proof fn lemma_position(s: Seq<SearchEntry>, name: Seq<char>)
    ensures
        0 <= position(s, name) <= s.len(),
        registered(s, name) <==> exists|i: int| 0 <= i < s.len() && s[i].name == name,
        registered(s, name) ==> s[position(s, name)].name == name,
        forall|i: int| 0 <= i < position(s, name) ==> s[i].name != name,
{
    lemma_position_from(s, name, 0);
    if exists|i: int| 0 <= i < s.len() && s[i].name == name {
        let i = choose|i: int| 0 <= i < s.len() && s[i].name == name;
        if position(s, name) >= s.len() {
            assert(s[i].name != name);
        }
    }
}

/// In a registry without duplicates, an entry's name is found at the
/// entry's own position.
pub proof fn lemma_position_unique(s: Seq<SearchEntry>, i: int)
    requires
        unique_names(s),
        0 <= i < s.len(),
    ensures
        position(s, s[i].name) == i,
{
    lemma_position(s, s[i].name);
    let p = position(s, s[i].name);
    if p < i {
        assert(s[p].name != s[i].name);
    }
}

/// Adding an entry under a new name keeps the registry without duplicates,
/// registers the name, and leaves every other name as it was.
pub proof fn lemma_push_entry(s: Seq<SearchEntry>, e: SearchEntry, other: Seq<char>)
    requires
        unique_names(s),
        !registered(s, e.name),
    ensures
        unique_names(s.push(e)),
        position(s.push(e), e.name) == s.len(),
        registered(s.push(e), e.name),
        other != e.name ==> registered(s.push(e), other) == registered(s, other),
        other != e.name ==> position(s.push(e), other) == position(s, other) || !registered(
            s,
            other,
        ),
{
    let t = s.push(e);
    lemma_position(s, e.name);
    lemma_position(t, e.name);
    lemma_position(s, other);
    lemma_position(t, other);
    assert forall|i: int, j: int| 0 <= i < j < t.len() implies t[i].name != t[j].name by {
        if j == s.len() {
            assert(t[i] == s[i]);
        } else {
            assert(t[i] == s[i] && t[j] == s[j]);
        }
    }
    assert(t[s.len() as int].name == e.name);
    if position(t, e.name) < s.len() {
        assert(t[position(t, e.name)] == s[position(t, e.name)]);
    }
    if other != e.name {
        if registered(s, other) {
            let p = position(s, other);
            assert(t[p] == s[p]);
            let q = position(t, other);
            if q < p {
                assert(t[q] == s[q]);
            }
        } else if registered(t, other) {
            let q = position(t, other);
            assert(q < s.len());
            assert(t[q] == s[q]);
        }
    }
}

/// Removing the entry of a name from a registry without duplicates keeps it
/// without duplicates, unregisters the name, and leaves every other name
/// registered as it was.
pub proof fn lemma_remove_entry(s: Seq<SearchEntry>, name: Seq<char>, other: Seq<char>)
    requires
        unique_names(s),
        registered(s, name),
    ensures
        unique_names(s.remove(position(s, name))),
        !registered(s.remove(position(s, name)), name),
        other != name ==> registered(s.remove(position(s, name)), other) == registered(s, other),
{
    let p = position(s, name);
    let t = s.remove(p);
    lemma_position(s, name);
    lemma_position(t, name);
    lemma_position(s, other);
    lemma_position(t, other);
    assert forall|i: int| 0 <= i < t.len() implies t[i] == s[if i < p {
        i
    } else {
        i + 1
    }] by {}
    assert forall|i: int, j: int| 0 <= i < j < t.len() implies t[i].name != t[j].name by {
        let a = if i < p {
            i
        } else {
            i + 1
        };
        let b = if j < p {
            j
        } else {
            j + 1
        };
        assert(s[a].name != s[b].name);
    }
    if registered(t, name) {
        let q = position(t, name);
        let b = if q < p {
            q
        } else {
            q + 1
        };
        assert(t[q] == s[b]);
        if b < p {
            assert(s[b].name != s[p].name);
        } else {
            assert(s[p].name != s[b].name);
        }
    }
    if other != name {
        if registered(s, other) {
            let q = position(s, other);
            let b = if q < p {
                q
            } else {
                q - 1
            };
            assert(t[b] == s[q]);
        }
        if registered(t, other) {
            let q = position(t, other);
            let b = if q < p {
                q
            } else {
                q + 1
            };
            assert(t[q] == s[b]);
        }
    }
}

/// Replacing the kind of a registered name changes no name, so the registry
/// stays without duplicates and every name stays where it was.
pub proof fn lemma_update_entry(s: Seq<SearchEntry>, name: Seq<char>, kind: SearchKind, other: Seq<
    char,
>)
    requires
        unique_names(s),
        registered(s, name),
    ensures
        unique_names(s.update(position(s, name), SearchEntry { name, kind })),
        position(s.update(position(s, name), SearchEntry { name, kind }), other) == position(
            s,
            other,
        ),
{
    let p = position(s, name);
    let t = s.update(p, SearchEntry { name, kind });
    lemma_position(s, name);
    assert forall|i: int| 0 <= i < t.len() implies t[i].name == s[i].name by {}
    assert forall|i: int, j: int| 0 <= i < j < t.len() implies t[i].name != t[j].name by {
        assert(s[i].name != s[j].name);
    }
    lemma_position(s, other);
    lemma_position(t, other);
    let a = position(s, other);
    let b = position(t, other);
    if a < b {
        assert(t[a].name == s[a].name);
    } else if b < a {
        assert(t[b].name == s[b].name);
    }
}

/// One registered search module.
struct SearchModule {
    name: String,
    kind: SearchKind,
}

impl SearchModule {
    spec fn view(&self) -> SearchEntry {
        SearchEntry { name: self.name@, kind: self.kind }
    }
}

/// The search modules of a session.
pub struct SearchRegistry {
    searches: Vec<SearchModule>,
    active: Option<usize>,
}

impl SearchRegistry {
    /// The state of the registry as mathematics.
    pub closed spec fn view(&self) -> RegistryState {
        RegistryState {
            searches: self.searches@.map_values(|m: SearchModule| m@),
            active: match self.active {
                Some(i) => Some(self.searches@[i as int].name@),
                None => None,
            },
        }
    }

    /// Names are unique and the active search module is registered.
    pub closed spec fn wf(&self) -> bool {
        &&& unique_names(self@.searches)
        &&& self.active matches Some(i) ==> i < self.searches@.len()
    }

    /// What well-formedness says of the model.
    pub proof fn lemma_wf(&self)
        requires
            self.wf(),
        ensures
            unique_names(self@.searches),
            self@.active matches Some(n) ==> registered(self@.searches, n),
    {
        if let Some(i) = self.active {
            lemma_position_unique(self@.searches, i as int);
        }
    }

    /// A registry without search modules.
    pub fn new() -> (r: SearchRegistry)
        ensures
            r.wf(),
            r@ == (RegistryState { searches: Seq::empty(), active: None }),
    {
        let r = SearchRegistry { searches: Vec::new(), active: None };
        assert(r@.searches =~= Seq::empty());
        r
    }

    /// The position of the search module of that name, if it is registered.
    fn find(&self, name: &String) -> (r: Option<usize>)
        ensures
            r matches Some(i) ==> i < self.searches@.len() && i == position(self@.searches, name@)
                && self@.searches[i as int].name == name@,
            r is Some <==> registered(self@.searches, name@),
    {
        let mut i: usize = 0;
        proof {
            lemma_position_from(self@.searches, name@, 0);
        }
        while i < self.searches.len()
            invariant
                i <= self.searches@.len(),
                self@.searches.len() == self.searches@.len(),
                position(self@.searches, name@) == position_from(self@.searches, name@, i as int),
            decreases self.searches@.len() - i,
        {
            if self.searches[i].name == *name {
                assert(self@.searches[i as int].name == name@);
                return Some(i);
            }
            assert(self@.searches[i as int].name != name@);
            i += 1;
        }
        None
    }

    /// Whether a search module of that name is registered.
    pub fn has_search(&self, name: &str) -> (b: bool)
        ensures
            b == registered(self@.searches, name@),
    {
        let owned = name.to_owned();
        self.find(&owned).is_some()
    }

    /// Whether a search module is active.
    pub fn has_active(&self) -> (b: bool)
        ensures
            b == self@.active is Some,
    {
        self.active.is_some()
    }

    /// Registers a search module that the engine has been asked to set up.
    ///
    /// `status` is the engine's answer, negative for a failure. A name that
    /// cannot be handed to the engine or that is taken is refused without
    /// looking at `status`.
    pub fn add_search(&mut self, name: &str, kind: SearchKind, status: i32) -> (r: Result<
        (),
        Error,
    >)
        requires
            old(self).wf(),
        ensures
            final(self).wf(),
            r == add_result(old(self)@.searches, name, status),
            r is Err ==> final(self)@ == old(self)@,
            r is Ok ==> final(self)@ == (RegistryState {
                searches: old(self)@.searches.push(SearchEntry { name: name@, kind }),
                ..old(self)@
            }),
    {
        if has_nul(name) {
            return Err(Error::InvalidString);
        }
        let owned = name.to_owned();
        if self.find(&owned).is_some() {
            return Err(Error::DuplicateSearchName);
        }
        if status < 0 {
            return Err(Error::InitializationFailure);
        }
        proof {
            let e = SearchEntry { name: name@, kind };
            lemma_push_entry(old(self)@.searches, e, name@);
            if let Some(i) = self.active {
                let n = self.searches@[i as int].name@;
                assert(old(self)@.searches[i as int].name == n);
            }
        }
        self.searches.push(SearchModule { name: owned, kind });
        assert(self@.searches =~= old(self)@.searches.push(SearchEntry { name: name@, kind }));
        Ok(())
    }

    /// Makes the search module of that name the active one, after the engine
    /// has been asked to. `status` is the engine's answer, negative for a
    /// failure; it is not looked at if the name is refused.
    pub fn activate_search(&mut self, name: &str, status: i32) -> (r: Result<(), Error>)
        requires
            old(self).wf(),
        ensures
            final(self).wf(),
            r == lookup_result(old(self)@.searches, name, status),
            r is Err ==> final(self)@ == old(self)@,
            r is Ok ==> final(self)@ == (RegistryState { active: Some(name@), ..old(self)@ }),
    {
        if has_nul(name) {
            return Err(Error::InvalidString);
        }
        let owned = name.to_owned();
        match self.find(&owned) {
            None => Err(Error::SearchNotFound),
            Some(i) => {
                if status < 0 {
                    return Err(Error::EngineFailure);
                }
                self.active = Some(i);
                assert(self@.searches =~= old(self)@.searches);
                Ok(())
            },
        }
    }

    /// The name of the active search module.
    pub fn current_search(&self) -> (r: Result<String, Error>)
        requires
            self.wf(),
        ensures
            self@.active is None ==> r is Err && r->Err_0 == Error::NoActiveSearch,
            self@.active matches Some(n) ==> (r matches Ok(s) && s@ == n),
    {
        match self.active {
            None => Err(Error::NoActiveSearch),
            Some(i) => Ok(self.searches[i].name.clone()),
        }
    }

    /// Removes the search module of that name, after the engine has been
    /// asked to release it. `status` is the engine's answer, negative for a
    /// failure; it is not looked at if the name is refused. Removing the
    /// active search module leaves no search module active.
    pub fn remove_search(&mut self, name: &str, status: i32) -> (r: Result<(), Error>)
        requires
            old(self).wf(),
        ensures
            final(self).wf(),
            r == lookup_result(old(self)@.searches, name, status),
            r is Err ==> final(self)@ == old(self)@,
            r is Ok ==> final(self)@ == (RegistryState {
                searches: old(self)@.searches.remove(position(old(self)@.searches, name@)),
                active: if old(self)@.active == Some(name@) {
                    None
                } else {
                    old(self)@.active
                },
            }),
            r is Ok ==> !registered(final(self)@.searches, name@),
    {
        if has_nul(name) {
            return Err(Error::InvalidString);
        }
        let owned = name.to_owned();
        match self.find(&owned) {
            None => Err(Error::SearchNotFound),
            Some(i) => {
                if status < 0 {
                    return Err(Error::EngineFailure);
                }
                proof {
                    lemma_position(self@.searches, name@);
                    lemma_remove_entry(self@.searches, name@, name@);
                    if let Some(a) = self.active {
                        lemma_position_unique(self@.searches, a as int);
                    }
                }
                let ghost before = self@.searches;
                let ghost modules = self.searches@;
                assert(before[i as int].name == name@);
                let _ = self.searches.remove(i);
                assert(self.searches@ == modules.remove(i as int));
                assert(self@.searches =~= before.remove(i as int));
                match self.active {
                    Some(a) => {
                        assert(before[a as int].name == modules[a as int].name@);
                        if a == i {
                            self.active = None;
                        } else if a > i {
                            assert(before[i as int].name != before[a as int].name);
                            assert(self.searches@[a - 1] == modules[a as int]);
                            self.active = Some(a - 1);
                        } else {
                            assert(before[a as int].name != before[i as int].name);
                            assert(self.searches@[a as int] == modules[a as int]);
                        }
                    },
                    None => {},
                }
                assert(self@.searches =~= before.remove(i as int));
                Ok(())
            },
        }
    }

    /// Puts a search module under a name, in the place of an earlier one of
    /// that name or else at the end, and makes it the active one. A name that
    /// cannot be handed to the engine is refused.
    pub fn install(&mut self, name: &str, kind: SearchKind) -> (r: Result<(), Error>)
        requires
            old(self).wf(),
        ensures
            final(self).wf(),
            name.spec_bytes().contains(0u8) ==> r is Err && r->Err_0 == Error::InvalidString
                && final(self)@ == old(self)@,
            !name.spec_bytes().contains(0u8) ==> r is Ok && final(self)@ == (RegistryState {
                searches: upsert(old(self)@.searches, name@, kind),
                active: Some(name@),
            }),
    {
        if has_nul(name) {
            return Err(Error::InvalidString);
        }
        self.install_reserved(name.to_owned(), kind);
        Ok(())
    }

    /// Puts a search module under a name of the session's own choosing, in
    /// the place of an earlier one of that name or else at the end, and makes
    /// it the active one.
    pub(crate) fn install_reserved(&mut self, name: String, kind: SearchKind)
        requires
            old(self).wf(),
        ensures
            final(self).wf(),
            final(self)@ == (RegistryState {
                searches: upsert(old(self)@.searches, name@, kind),
                active: Some(name@),
            }),
    {
        let ghost before = self@.searches;
        let ghost n = name@;
        match self.find(&name) {
            Some(i) => {
                proof {
                    lemma_update_entry(before, n, kind, n);
                }
                self.searches[i] = SearchModule { name, kind };
                assert(self@.searches =~= before.update(i as int, SearchEntry { name: n, kind }));
                self.active = Some(i);
            },
            None => {
                proof {
                    lemma_push_entry(before, SearchEntry { name: n, kind }, n);
                }
                let i = self.searches.len();
                self.searches.push(SearchModule { name, kind });
                assert(self@.searches =~= before.push(SearchEntry { name: n, kind }));
                self.active = Some(i);
            },
        }
    }

    /// The kind of the search module that a request names: of the one called
    /// `name`, or of the active one if no name is given.
    pub fn kind_named(&self, name: Option<&str>) -> (r: Option<SearchKind>)
        requires
            self.wf(),
        ensures
            r == kind_of(
                self@,
                match name {
                    Some(n) => Some(n@),
                    None => None,
                },
            ),
    {
        match name {
            Some(n) => {
                let owned = n.to_owned();
                match self.find(&owned) {
                    Some(i) => Some(self.searches[i].kind),
                    None => None,
                }
            },
            None => match self.active {
                Some(i) => {
                    proof {
                        lemma_position_unique(self@.searches, i as int);
                    }
                    Some(self.searches[i].kind)
                },
                None => None,
            },
        }
    }

    /// Removes every search module.
    pub fn clear(&mut self)
        ensures
            final(self).wf(),
            final(self)@ == (RegistryState { searches: Seq::empty(), active: None }),
    {
        self.searches.clear();
        self.active = None;
        assert(self@.searches =~= Seq::empty());
    }

    /// The names of the search modules, in the order in which they were
    /// added.
    pub fn names(&self) -> (names: Vec<String>)
        ensures
            names@.map_values(|s: String| s@) == self@.searches.map_values(
                |e: SearchEntry| e.name,
            ),
    {
        let mut names: Vec<String> = Vec::new();
        let mut i: usize = 0;
        while i < self.searches.len()
            invariant
                i <= self.searches@.len(),
                names@.len() == i,
                forall|j: int| 0 <= j < i ==> (#[trigger] names@[j])@ == self.searches@[j].name@,
            decreases self.searches@.len() - i,
        {
            names.push(self.searches[i].name.clone());
            i += 1;
        }
        assert(names@.map_values(|s: String| s@) =~= self@.searches.map_values(
            |e: SearchEntry| e.name,
        ));
        names
    }
}

} // verus!
