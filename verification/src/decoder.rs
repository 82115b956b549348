//! The decoding session: a registry of search modules, the lifecycle of
//! utterances, and the results of decoding.
//!
//! The recognition engine does the decoding. A [`Decoder`] decides what may be
//! asked of the engine and when, keeps the registry, and turns the engine's
//! answers into typed results. Every operation that involves the engine takes
//! the engine's answer as an argument; where the session refuses an operation
//! the answer is not looked at, and the engine need not have been asked.

use vstd::prelude::*;
use vstd::string::StringSliceAdditionalSpecFns;
use vstd::utf8::{decode_utf8, valid_utf8};
use crate::alignment_iter::Alignment;
use crate::config::Config;
use crate::cursor::CursorState;
use crate::error::Error;
use crate::nbest_iter::{NBest, NBestIter};
use crate::resource::ResourceHandle;
use crate::search_iter::SearchIter;
use crate::search_registry::{
    add_result, kind_of, lookup_result, position, registered, unique_names, upsert,
    RegistryState, SearchEntry, SearchKind, SearchRegistry,
};
use crate::seg_iter::{Seg, SegIter};
use crate::text::{decode_optional, decode_text, has_nul, is_decoding};

verus! {

/// Where a session stands between utterances.
#[derive(Clone, Copy, Debug, PartialEq, Eq, Structural)]
pub enum UtteranceState {
    /// No utterance has been started.
    Idle,
    /// An utterance is being decoded.
    Active,
    /// The last utterance has ended; its results can be asked for.
    Ended,
}

/// The state of a session as mathematics.
pub struct DecoderState {
    /// The registered search modules, in the order in which they were added.
    pub searches: Seq<SearchEntry>,
    /// The name of the active search module.
    pub active: Option<Seq<char>>,
    /// The lifecycle state.
    pub utt: UtteranceState,
    /// Whether the last utterance was decoded to its end under the search
    /// module that is active now.
    pub settled: bool,
}

/// The registry of a session.
pub open spec fn registry_of(st: DecoderState) -> RegistryState {
    RegistryState { searches: st.searches, active: st.active }
}

/// The name under which forced alignment of a text is registered.
pub open spec fn align_name() -> Seq<char> {
    "_align"@
}

/// The name under which phone and state alignment is registered.
pub open spec fn state_align_name() -> Seq<char> {
    "_state_align"@
}

/// A decoding session.
pub struct Decoder {
    handle: ResourceHandle,
    registry: SearchRegistry,
    utt: UtteranceState,
    settled: bool,
}

impl Decoder {
    /// The state of the session as mathematics.
    pub closed spec fn view(&self) -> DecoderState {
        DecoderState {
            searches: self.registry@.searches,
            active: self.registry@.active,
            utt: self.utt,
            settled: self.settled,
        }
    }

    /// The handle on the engine's decoder.
    pub closed spec fn handle(&self) -> ResourceHandle {
        self.handle
    }

    /// The registry is well-formed, and results are settled only after an
    /// utterance has ended with a search module active.
    pub closed spec fn wf(&self) -> bool {
        &&& self.registry.wf()
        &&& self.settled ==> self.utt == UtteranceState::Ended && self.registry@.active is Some
    }

    /// What well-formedness says of the model.
    pub proof fn lemma_wf(&self)
        requires
            self.wf(),
        ensures
            unique_names(self@.searches),
            self@.active matches Some(n) ==> registered(self@.searches, n),
            self@.settled ==> self@.utt == UtteranceState::Ended && self@.active is Some,
    {
        self.registry.lemma_wf();
    }

    /// Records a decoder that the engine has set up: no search module is
    /// registered and no utterance has been started. `resource` is what the
    /// engine's constructor returned, `None` for its null result.
    pub fn new(resource: Option<usize>) -> (r: Result<Decoder, Error>)
        ensures
            resource is None ==> r is Err && r->Err_0 == Error::InitializationFailure,
            resource matches Some(id) ==> (r matches Ok(d) && d.wf() && d@ == (DecoderState {
                searches: Seq::empty(),
                active: None,
                utt: UtteranceState::Idle,
                settled: false,
            }) && d.handle().id() == id && d.handle().owns()),
    {
        match ResourceHandle::acquire(resource) {
            Ok(handle) => Ok(
                Decoder {
                    handle,
                    registry: SearchRegistry::new(),
                    utt: UtteranceState::Idle,
                    settled: false,
                },
            ),
            Err(e) => Err(e),
        }
    }

    /// Whether a search module of that name is registered.
    pub fn has_search(&self, name: &str) -> (b: bool)
        ensures
            b == registered(self@.searches, name@),
    {
        self.registry.has_search(name)
    }

    /// The lifecycle state.
    pub fn get_utt_state(&self) -> (s: UtteranceState)
        ensures
            s == self@.utt,
    {
        self.utt
    }

    /// Whether letting go of this object releases nothing in the engine.
    pub fn is_retained(&self) -> (b: bool)
        ensures
            b == !self.handle().owns(),
    {
        self.handle.is_retained()
    }

    /// The identity of the engine's decoder.
    pub fn get_inner(&self) -> (id: usize)
        ensures
            id == self.handle().id(),
    {
        self.handle.get_inner()
    }

    /// Registers a search module that the engine has been asked to set up.
    ///
    /// `status` is the engine's answer, negative for a failure. A name that
    /// cannot be handed to the engine or that is taken is refused without
    /// looking at `status`.
    pub fn add_search(&mut self, name: &str, kind: SearchKind, status: i32) -> (r: Result<
        (),
        Error,
    >)
        requires
            old(self).wf(),
        ensures
            final(self).wf(),
            final(self).handle() == old(self).handle(),
            r == add_result(old(self)@.searches, name, status),
            r is Err ==> final(self)@ == old(self)@,
            r is Ok ==> final(self)@ == (DecoderState {
                searches: old(self)@.searches.push(SearchEntry { name: name@, kind }),
                ..old(self)@
            }),
    {
        self.registry.add_search(name, kind, status)
    }

    /// Makes the search module of that name the active one, after the engine
    /// has been asked to. `status` is the engine's answer, negative for a
    /// failure; it is not looked at if the name is refused.
    pub fn set_activate_search(&mut self, name: &str, status: i32) -> (r: Result<(), Error>)
        requires
            old(self).wf(),
        ensures
            final(self).wf(),
            final(self).handle() == old(self).handle(),
            r == lookup_result(old(self)@.searches, name, status),
            r is Err ==> final(self)@ == old(self)@,
            r is Ok ==> final(self)@ == (DecoderState {
                active: Some(name@),
                settled: false,
                ..old(self)@
            }),
    {
        match self.registry.activate_search(name, status) {
            Ok(()) => {
                self.settled = false;
                Ok(())
            },
            Err(e) => Err(e),
        }
    }

    /// The name of the active search module.
    pub fn current_search(&self) -> (r: Result<String, Error>)
        requires
            self.wf(),
        ensures
            self@.active is None ==> r is Err && r->Err_0 == Error::NoActiveSearch,
            self@.active matches Some(n) ==> (r matches Ok(s) && s@ == n),
    {
        self.registry.current_search()
    }

    /// Removes the search module of that name, after the engine has been
    /// asked to release it. `status` is the engine's answer, negative for a
    /// failure; it is not looked at if the name is refused. Removing the
    /// active search module leaves no search module active.
    pub fn remove_search(&mut self, name: &str, status: i32) -> (r: Result<(), Error>)
        requires
            old(self).wf(),
        ensures
            final(self).wf(),
            final(self).handle() == old(self).handle(),
            r == lookup_result(old(self)@.searches, name, status),
            r is Err ==> final(self)@ == old(self)@,
            r is Ok ==> final(self)@ == (DecoderState {
                searches: old(self)@.searches.remove(position(old(self)@.searches, name@)),
                active: if old(self)@.active == Some(name@) {
                    None
                } else {
                    old(self)@.active
                },
                settled: old(self)@.settled && old(self)@.active != Some(name@),
                ..old(self)@
            }),
            r is Ok ==> !registered(final(self)@.searches, name@),
    {
        match self.registry.remove_search(name, status) {
            Ok(()) => {
                if !self.registry.has_active() {
                    self.settled = false;
                }
                Ok(())
            },
            Err(e) => Err(e),
        }
    }

    /// Starts an utterance. This is allowed in every state.
    pub fn start_utt(&mut self) -> (r: Result<(), Error>)
        requires
            old(self).wf(),
        ensures
            final(self).wf(),
            final(self).handle() == old(self).handle(),
            r is Ok,
            final(self)@ == (DecoderState {
                utt: UtteranceState::Active,
                settled: false,
                ..old(self)@
            }),
    {
        self.utt = UtteranceState::Active;
        self.settled = false;
        Ok(())
    }

    /// Takes note of audio that the engine has been fed during an utterance.
    ///
    /// `data`, `no_search` and `full_utt` are what the engine was handed: the
    /// samples, whether to extract features only and search later, and
    /// whether the samples are a whole utterance. `searched` is the engine's
    /// answer: the number of frames it searched, or a negative number for a
    /// failure. Outside an utterance the call is refused and `searched` is
    /// not looked at. A failure leaves the utterance open; what was decoded
    /// of it is not to be relied on.
    pub fn process_raw(
        &mut self,
        data: &[i16],
        no_search: bool,
        full_utt: bool,
        searched: i32,
    ) -> (r: Result<i32, Error>)
        requires
            old(self).wf(),
        ensures
            *final(self) == *old(self),
            old(self)@.utt != UtteranceState::Active ==> r is Err && r->Err_0 == Error::UsageError,
            old(self)@.utt == UtteranceState::Active && searched < 0 ==> r is Err && r->Err_0
                == Error::EngineFailure,
            old(self)@.utt == UtteranceState::Active && searched >= 0 ==> r is Ok && r->Ok_0
                == searched,
    {
        match self.utt {
            UtteranceState::Active => {
                if searched < 0 {
                    Err(Error::EngineFailure)
                } else {
                    Ok(searched)
                }
            },
            _ => Err(Error::UsageError),
        }
    }

    /// Ends the utterance, after the engine has been asked to. `status` is
    /// the engine's answer, negative for a failure, which leaves the utterance
    /// open. Outside an utterance the call is refused and `status` is not
    /// looked at.
    pub fn end_utt(&mut self, status: i32) -> (r: Result<(), Error>)
        requires
            old(self).wf(),
        ensures
            final(self).wf(),
            final(self).handle() == old(self).handle(),
            old(self)@.utt != UtteranceState::Active ==> r is Err && r->Err_0 == Error::UsageError,
            old(self)@.utt == UtteranceState::Active && status < 0 ==> r is Err && r->Err_0
                == Error::EngineFailure,
            r is Err ==> final(self)@ == old(self)@,
            old(self)@.utt == UtteranceState::Active && status >= 0 ==> r is Ok && final(self)@ == (
            DecoderState {
                utt: UtteranceState::Ended,
                settled: old(self)@.active is Some,
                ..old(self)@
            }),
    {
        match self.utt {
            UtteranceState::Active => {
                if status < 0 {
                    return Err(Error::EngineFailure);
                }
                self.utt = UtteranceState::Ended;
                self.settled = self.registry.has_active();
                Ok(())
            },
            _ => Err(Error::UsageError),
        }
    }

    /// What adding a search module under `name` from `source` comes to: the
    /// source, a path or a definition, goes to the engine as the name does.
    pub open spec fn add_from_result(st: DecoderState, name: &str, source: &str, status: i32)
        -> Result<(), Error> {
        if source.spec_bytes().contains(0u8) {
            Err(Error::InvalidString)
        } else {
            add_result(st.searches, name, status)
        }
    }

    /// Registers a search module that the engine has been asked to set up
    /// from a path or a definition.
    fn add_from(&mut self, name: &str, source: &str, kind: SearchKind, status: i32) -> (r: Result<
        (),
        Error,
    >)
        requires
            old(self).wf(),
        ensures
            final(self).wf(),
            final(self).handle() == old(self).handle(),
            r == Self::add_from_result(old(self)@, name, source, status),
            r is Err ==> final(self)@ == old(self)@,
            r is Ok ==> final(self)@ == (DecoderState {
                searches: old(self)@.searches.push(SearchEntry { name: name@, kind }),
                ..old(self)@
            }),
    {
        if has_nul(source) {
            return Err(Error::InvalidString);
        }
        self.add_search(name, kind, status)
    }

    /// Registers a search on an N-gram language model that the engine has
    /// been asked to load from a file. `status` is the engine's answer,
    /// negative for a failure.
    pub fn add_lm_file(&mut self, name: &str, path: &str, status: i32) -> (r: Result<(), Error>)
        requires
            old(self).wf(),
        ensures
            final(self).wf(),
            final(self).handle() == old(self).handle(),
            r == Self::add_from_result(old(self)@, name, path, status),
            r is Err ==> final(self)@ == old(self)@,
            r is Ok ==> final(self)@ == (DecoderState {
                searches: old(self)@.searches.push(
                    SearchEntry { name: name@, kind: SearchKind::LanguageModel },
                ),
                ..old(self)@
            }),
    {
        self.add_from(name, path, SearchKind::LanguageModel, status)
    }

    /// Registers a search on a finite-state grammar that the engine has been
    /// handed. `status` is the engine's answer, negative for a failure.
    pub fn add_fsg(&mut self, name: &str, status: i32) -> (r: Result<(), Error>)
        requires
            old(self).wf(),
        ensures
            final(self).wf(),
            final(self).handle() == old(self).handle(),
            r == add_result(old(self)@.searches, name, status),
            r is Err ==> final(self)@ == old(self)@,
            r is Ok ==> final(self)@ == (DecoderState {
                searches: old(self)@.searches.push(
                    SearchEntry { name: name@, kind: SearchKind::Grammar },
                ),
                ..old(self)@
            }),
    {
        self.add_search(name, SearchKind::Grammar, status)
    }

    /// Registers a search on a grammar that the engine has been asked to
    /// read from a JSGF file. `status` is the engine's answer, negative for a
    /// failure.
    pub fn add_jsgf_file(&mut self, name: &str, path: &str, status: i32) -> (r: Result<(), Error>)
        requires
            old(self).wf(),
        ensures
            final(self).wf(),
            final(self).handle() == old(self).handle(),
            r == Self::add_from_result(old(self)@, name, path, status),
            r is Err ==> final(self)@ == old(self)@,
            r is Ok ==> final(self)@ == (DecoderState {
                searches: old(self)@.searches.push(
                    SearchEntry { name: name@, kind: SearchKind::Grammar },
                ),
                ..old(self)@
            }),
    {
        self.add_from(name, path, SearchKind::Grammar, status)
    }

    /// Registers a search on a grammar that the engine has been asked to
    /// parse from JSGF text. `status` is the engine's answer, negative for a
    /// failure.
    pub fn add_jsgf_string(&mut self, name: &str, jsgf: &str, status: i32) -> (r: Result<
        (),
        Error,
    >)
        requires
            old(self).wf(),
        ensures
            final(self).wf(),
            final(self).handle() == old(self).handle(),
            r == Self::add_from_result(old(self)@, name, jsgf, status),
            r is Err ==> final(self)@ == old(self)@,
            r is Ok ==> final(self)@ == (DecoderState {
                searches: old(self)@.searches.push(
                    SearchEntry { name: name@, kind: SearchKind::Grammar },
                ),
                ..old(self)@
            }),
    {
        self.add_from(name, jsgf, SearchKind::Grammar, status)
    }

    /// Registers a keyphrase search that the engine has been asked to read
    /// from a file of keyphrases. `status` is the engine's answer, negative
    /// for a failure.
    pub fn add_kws_file(&mut self, name: &str, keyfile: &str, status: i32) -> (r: Result<
        (),
        Error,
    >)
        requires
            old(self).wf(),
        ensures
            final(self).wf(),
            final(self).handle() == old(self).handle(),
            r == Self::add_from_result(old(self)@, name, keyfile, status),
            r is Err ==> final(self)@ == old(self)@,
            r is Ok ==> final(self)@ == (DecoderState {
                searches: old(self)@.searches.push(
                    SearchEntry { name: name@, kind: SearchKind::KeywordSet },
                ),
                ..old(self)@
            }),
    {
        self.add_from(name, keyfile, SearchKind::KeywordSet, status)
    }

    /// Registers a search for one keyphrase that the engine has been handed.
    /// `status` is the engine's answer, negative for a failure.
    pub fn add_keyphrase(&mut self, name: &str, keyphrase: &str, status: i32) -> (r: Result<
        (),
        Error,
    >)
        requires
            old(self).wf(),
        ensures
            final(self).wf(),
            final(self).handle() == old(self).handle(),
            r == Self::add_from_result(old(self)@, name, keyphrase, status),
            r is Err ==> final(self)@ == old(self)@,
            r is Ok ==> final(self)@ == (DecoderState {
                searches: old(self)@.searches.push(
                    SearchEntry { name: name@, kind: SearchKind::KeywordSet },
                ),
                ..old(self)@
            }),
    {
        self.add_from(name, keyphrase, SearchKind::KeywordSet, status)
    }

    /// Registers a phone-loop search on a phone N-gram model that the engine
    /// has been asked to load from a file. `status` is the engine's answer,
    /// negative for a failure.
    pub fn add_allphone_file(&mut self, name: &str, path: &str, status: i32) -> (r: Result<
        (),
        Error,
    >)
        requires
            old(self).wf(),
        ensures
            final(self).wf(),
            final(self).handle() == old(self).handle(),
            r == Self::add_from_result(old(self)@, name, path, status),
            r is Err ==> final(self)@ == old(self)@,
            r is Ok ==> final(self)@ == (DecoderState {
                searches: old(self)@.searches.push(
                    SearchEntry { name: name@, kind: SearchKind::PhoneLoop },
                ),
                ..old(self)@
            }),
    {
        self.add_from(name, path, SearchKind::PhoneLoop, status)
    }

    /// Puts a forced-alignment search module under a reserved name, in the
    /// place of an earlier one of that name, and makes it the active one.
    fn install(&mut self, name: String)
        requires
            old(self).wf(),
        ensures
            final(self).wf(),
            final(self).handle() == old(self).handle(),
            final(self)@ == (DecoderState {
                searches: upsert(old(self)@.searches, name@, SearchKind::ForceAlignText),
                active: Some(name@),
                settled: false,
                ..old(self)@
            }),
    {
        self.registry.install_reserved(name, SearchKind::ForceAlignText);
        self.settled = false;
    }

    /// Sets the session up to align a word sequence, after the engine has
    /// been asked to. Unlike the `add_` operations this makes the search
    /// module active at once; it is registered under the name `_align`, in
    /// the place of an earlier one of that name. `status` is the engine's
    /// answer, negative for a failure.
    pub fn set_align_text(&mut self, words: &str, status: i32) -> (r: Result<(), Error>)
        requires
            old(self).wf(),
        ensures
            final(self).wf(),
            final(self).handle() == old(self).handle(),
            words.spec_bytes().contains(0u8) ==> r is Err && r->Err_0 == Error::InvalidString,
            !words.spec_bytes().contains(0u8) && status < 0 ==> r is Err && r->Err_0
                == Error::InitializationFailure,
            !words.spec_bytes().contains(0u8) && status >= 0 ==> r is Ok,
            r is Err ==> final(self)@ == old(self)@,
            r is Ok ==> final(self)@ == (DecoderState {
                searches: upsert(old(self)@.searches, align_name(), SearchKind::ForceAlignText),
                active: Some(align_name()),
                settled: false,
                ..old(self)@
            }),
    {
        if has_nul(words) {
            return Err(Error::InvalidString);
        }
        if status < 0 {
            return Err(Error::InitializationFailure);
        }
        self.install("_align".to_owned());
        Ok(())
    }

    /// Sets the session up to align phones and states, after the engine has
    /// been asked to, from `alignment` or, without one, from the words of the
    /// last hypothesis. This makes the search module active at once; it is
    /// registered under the name `_state_align`, in the place of an earlier
    /// one of that name. Durations of phones and states are those of their
    /// words until an utterance has been decoded again. `status` is the
    /// engine's answer, negative for a failure.
    pub fn set_alignment(&mut self, alignment: Option<&Alignment>, status: i32) -> (r: Result<
        (),
        Error,
    >)
        requires
            old(self).wf(),
        ensures
            final(self).wf(),
            final(self).handle() == old(self).handle(),
            status < 0 ==> r is Err && r->Err_0 == Error::InitializationFailure && final(self)@
                == old(self)@,
            status >= 0 ==> r is Ok && final(self)@ == (DecoderState {
                searches: upsert(
                    old(self)@.searches,
                    state_align_name(),
                    SearchKind::ForceAlignText,
                ),
                active: Some(state_align_name()),
                settled: false,
                ..old(self)@
            }),
    {
        if status < 0 {
            return Err(Error::InitializationFailure);
        }
        self.install("_state_align".to_owned());
        Ok(())
    }

    /// The kind of the search module that a request names.
    fn kind_named(&self, name: Option<&str>) -> (r: Option<SearchKind>)
        requires
            self.wf(),
        ensures
            r == kind_of(
                registry_of(self@),
                match name {
                    Some(n) => Some(n@),
                    None => None,
                },
            ),
    {
        self.registry.kind_named(name)
    }

    /// The grammar of a grammar search: of the one called `name`, or of the
    /// active search module if no name is given. `resource` is the grammar
    /// that the engine returned for the request, `None` for its null result.
    /// There is a grammar only if the search module is a grammar search.
    ///
    /// The grammar stays the search module's own: the handle does not own it,
    /// and letting the handle go releases nothing. To keep the grammar beyond
    /// the search module, retain the handle.
    pub fn get_fsg(&self, name: Option<&str>, resource: Option<usize>) -> (r: Option<
        ResourceHandle,
    >)
        requires
            self.wf(),
        ensures
            ({
                let kind = kind_of(
                    registry_of(self@),
                    match name {
                        Some(n) => Some(n@),
                        None => None,
                    },
                );
                &&& kind != Some(SearchKind::Grammar) || resource is None ==> r is None
                &&& kind == Some(SearchKind::Grammar) ==> (resource matches Some(id) ==> (
                r matches Some(h) && h.id() == id && !h.owns()))
            }),
    {
        match self.kind_named(name) {
            Some(SearchKind::Grammar) => match resource {
                Some(id) => Some(ResourceHandle::borrowed(id)),
                None => None,
            },
            _ => None,
        }
    }

    /// The keyphrase of a keyphrase search: of the one called `name`, or of
    /// the active search module if no name is given. `raw` is the text that
    /// the engine returned for the request. There is a keyphrase only if the
    /// search module is a keyphrase search.
    pub fn get_kws(&self, name: Option<&str>, raw: Option<&[u8]>) -> (r: Result<
        Option<String>,
        Error,
    >)
        requires
            self.wf(),
        ensures
            ({
                let nul = name matches Some(n) && n.spec_bytes().contains(0u8);
                let kind = kind_of(
                    registry_of(self@),
                    match name {
                        Some(n) => Some(n@),
                        None => None,
                    },
                );
                &&& nul ==> (r matches Err(Error::InvalidString))
                &&& !nul && kind != Some(SearchKind::KeywordSet) ==> (r matches Ok(None))
                &&& !nul && kind == Some(SearchKind::KeywordSet) ==> is_decoding(r, raw)
            }),
    {
        match name {
            Some(n) => {
                if has_nul(n) {
                    return Err(Error::InvalidString);
                }
            },
            None => {},
        }
        match self.kind_named(name) {
            Some(SearchKind::KeywordSet) => decode_optional(raw),
            _ => Ok(None),
        }
    }

    /// Whether the active search module is one that aligns.
    pub open spec fn aligning(st: DecoderState) -> bool {
        kind_of(registry_of(st), None) == Some(SearchKind::ForceAlignText)
    }

    /// The alignment of the active search module. `raw` is the alignment
    /// that the engine reports. There is an alignment only if the active
    /// search module is one that aligns. If the last utterance was decoded to
    /// its end under that search module, the alignment must divide the
    /// frames of every word among its phones and of every phone among its
    /// states; one that does not is refused.
    pub fn get_alignment(&self, raw: Option<Alignment>) -> (r: Result<Option<Alignment>, Error>)
        requires
            self.wf(),
            raw matches Some(a) ==> a.wf(),
        ensures
            !Self::aligning(self@) || raw is None ==> (r matches Ok(None)),
            Self::aligning(self@) ==> (raw matches Some(a) ==> (self@.settled && !a.partitioned()
                ==> (r matches Err(Error::EngineFailure)))),
            Self::aligning(self@) ==> (raw matches Some(a) ==> (!self@.settled || a.partitioned()
                ==> r == Ok::<Option<Alignment>, Error>(Some(a)))),
            r matches Ok(Some(a)) ==> (a.wf() && (self@.settled ==> a.partitioned())),
    {
        match self.kind_named(None) {
            Some(SearchKind::ForceAlignText) => match raw {
                Some(a) => {
                    if self.settled && !a.is_partitioned() {
                        Err(Error::EngineFailure)
                    } else {
                        Ok(Some(a))
                    }
                },
                None => Ok(None),
            },
            _ => Ok(None),
        }
    }

    /// Takes note of the engine's having set the decoder up anew with a
    /// configuration. `status` is the engine's answer, negative for a
    /// failure, which leaves the session as it was. On success all search
    /// modules are gone and no utterance has been started.
    pub fn reinit(&mut self, config: &Config, status: i32) -> (r: Result<(), Error>)
        requires
            old(self).wf(),
        ensures
            final(self).wf(),
            final(self).handle() == old(self).handle(),
            status < 0 ==> r is Err && r->Err_0 == Error::InitializationFailure && final(self)@
                == old(self)@,
            status >= 0 ==> r is Ok && final(self)@ == (DecoderState {
                searches: Seq::empty(),
                active: None,
                utt: UtteranceState::Idle,
                settled: false,
            }),
    {
        if status < 0 {
            return Err(Error::InitializationFailure);
        }
        self.registry.clear();
        self.utt = UtteranceState::Idle;
        self.settled = false;
        Ok(())
    }

    /// Takes note of the engine's having set up feature computation anew.
    /// `status` is the engine's answer, negative for a failure. The session
    /// stays as it was.
    pub fn reinit_feat(&mut self, config: &Config, status: i32) -> (r: Result<(), Error>)
        ensures
            *final(self) == *old(self),
            status < 0 ==> r is Err && r->Err_0 == Error::InitializationFailure,
            status >= 0 ==> r is Ok,
    {
        if status < 0 {
            Err(Error::InitializationFailure)
        } else {
            Ok(())
        }
    }

    /// Shares the engine's decoder: returns a handle that owns one more
    /// reference, which the caller has taken in the engine. The session stays
    /// as it was, its own reference included.
    pub fn retain(&mut self) -> (h: ResourceHandle)
        ensures
            *final(self) == *old(self),
            h.id() == old(self).handle().id(),
            h.owns(),
    {
        self.handle.retain()
    }

    /// Lets the session go and says which resource the engine must release:
    /// the decoder, if and only if the session owns a reference to it.
    pub fn release(self) -> (r: Option<usize>)
        ensures
            self.handle().owns() ==> r == Some(self.handle().id()),
            !self.handle().owns() ==> r is None,
    {
        self.handle.release()
    }

    /// The configuration of this decoder, which the decoder keeps owning.
    /// `resource` is the configuration that the engine names.
    pub fn get_config(&self, resource: usize) -> (c: Config)
        ensures
            c.handle().id() == resource,
            !c.handle().owns(),
    {
        Config::from_decoder(resource)
    }

    /// The log table of this decoder, which the decoder keeps owning.
    /// `resource` is the table that the engine names.
    pub fn get_logmath(&self, resource: usize) -> (h: ResourceHandle)
        ensures
            h.id() == resource,
            !h.owns(),
    {
        ResourceHandle::borrowed(resource)
    }

    /// What an operation on the dictionary comes to: every string goes to
    /// the engine, and the engine's answer is negative for a failure.
    pub open spec fn dict_result(
        first: &str,
        second: Option<&str>,
        third: Option<&str>,
        status: i32,
    ) -> Result<(), Error> {
        if first.spec_bytes().contains(0u8) || (second matches Some(s) && s.spec_bytes().contains(
            0u8,
        )) || (third matches Some(t) && t.spec_bytes().contains(0u8)) {
            Err(Error::InvalidString)
        } else if status < 0 {
            Err(Error::IOFailure)
        } else {
            Ok(())
        }
    }

    /// Takes note of the engine's having loaded a pronunciation dictionary,
    /// with a filler dictionary if one is named. `status` is the engine's
    /// answer, negative for a failure.
    pub fn load_dict(
        &mut self,
        dictfile: &str,
        fdictfile: Option<&str>,
        format: Option<&str>,
        status: i32,
    ) -> (r: Result<(), Error>)
        ensures
            *final(self) == *old(self),
            r == Self::dict_result(dictfile, fdictfile, format, status),
    {
        dict_outcome(dictfile, fdictfile, format, status)
    }

    /// Takes note of the engine's having written the pronunciation
    /// dictionary to a file. `status` is the engine's answer, negative for a
    /// failure.
    pub fn save_dict(&self, dictfile: &str, format: Option<&str>, status: i32) -> (r: Result<
        (),
        Error,
    >)
        ensures
            r == Self::dict_result(dictfile, format, None, status),
    {
        dict_outcome(dictfile, format, None, status)
    }

    /// Takes note of the engine's having added a word with its phones to the
    /// dictionary. With `update` the engine brings the active search module
    /// up to date at once, which a batch of words needs for the last word
    /// only. `status` is the engine's answer, negative for a failure.
    pub fn add_word(&mut self, word: &str, phones: &str, update: bool, status: i32) -> (r: Result<
        (),
        Error,
    >)
        ensures
            *final(self) == *old(self),
            word.spec_bytes().contains(0u8) || phones.spec_bytes().contains(0u8) ==> r is Err
                && r->Err_0 == Error::InvalidString,
            !word.spec_bytes().contains(0u8) && !phones.spec_bytes().contains(0u8) && status < 0
                ==> r is Err && r->Err_0 == Error::EngineFailure,
            !word.spec_bytes().contains(0u8) && !phones.spec_bytes().contains(0u8) && status >= 0
                ==> r is Ok,
    {
        if has_nul(word) || has_nul(phones) {
            return Err(Error::InvalidString);
        }
        if status < 0 {
            Err(Error::EngineFailure)
        } else {
            Ok(())
        }
    }

    /// The phones of a word, from the text that the engine returned for it;
    /// `None` stands for a word that the dictionary does not hold.
    pub fn lookup_word(&self, word: &str, raw: Option<&[u8]>) -> (r: Result<Option<String>, Error>)
        ensures
            word.spec_bytes().contains(0u8) ==> (r matches Err(Error::InvalidString)),
            !word.spec_bytes().contains(0u8) ==> is_decoding(r, raw),
    {
        if has_nul(word) {
            return Err(Error::InvalidString);
        }
        decode_optional(raw)
    }

    /// Takes note of the engine's having decoded a file of raw audio from
    /// start to end as one utterance. `opened` says whether the file could
    /// be opened, and `samples` is the engine's answer: the number of samples
    /// it read, or a negative number for a failure. A file that was decoded
    /// leaves the session with an ended utterance.
    pub fn decode_raw_file(&mut self, rawfile: &str, opened: bool, samples: i64) -> (r: Result<
        i64,
        Error,
    >)
        requires
            old(self).wf(),
        ensures
            final(self).wf(),
            final(self).handle() == old(self).handle(),
            rawfile.spec_bytes().contains(0u8) ==> r is Err && r->Err_0 == Error::InvalidString,
            !rawfile.spec_bytes().contains(0u8) && !opened ==> r is Err && r->Err_0
                == Error::IOFailure,
            !rawfile.spec_bytes().contains(0u8) && opened && samples < 0 ==> r is Err && r->Err_0
                == Error::EngineFailure,
            !rawfile.spec_bytes().contains(0u8) && opened && samples >= 0 ==> r is Ok && r->Ok_0
                == samples,
            r is Err ==> final(self)@ == old(self)@,
            r is Ok ==> final(self)@ == (DecoderState {
                utt: UtteranceState::Ended,
                settled: old(self)@.active is Some,
                ..old(self)@
            }),
    {
        if has_nul(rawfile) {
            return Err(Error::InvalidString);
        }
        if !opened {
            return Err(Error::IOFailure);
        }
        if samples < 0 {
            return Err(Error::EngineFailure);
        }
        self.utt = UtteranceState::Ended;
        self.settled = self.registry.has_active();
        Ok(samples)
    }

    /// The limit on samples to hand to the engine with a raw file: the
    /// limit if there is one, and -1 to read to the end of the file.
    pub fn sample_limit(max_samples: Option<i64>) -> (n: i64)
        ensures
            max_samples matches Some(m) ==> n == m,
            max_samples is None ==> n == -1,
    {
        match max_samples {
            Some(m) => m,
            None => -1,
        }
    }

    /// Takes note of the engine's having decoded a file of senone scores
    /// from start to end as one utterance. `opened` says whether the file
    /// could be opened, and `frames` is the engine's answer: the number of
    /// frames it read, or a negative number for a failure.
    pub fn decode_senscr_file(&mut self, senscrfile: &str, opened: bool, frames: i32) -> (r: Result<
        i32,
        Error,
    >)
        requires
            old(self).wf(),
        ensures
            final(self).wf(),
            final(self).handle() == old(self).handle(),
            senscrfile.spec_bytes().contains(0u8) ==> r is Err && r->Err_0 == Error::InvalidString,
            !senscrfile.spec_bytes().contains(0u8) && !opened ==> r is Err && r->Err_0
                == Error::IOFailure,
            !senscrfile.spec_bytes().contains(0u8) && opened && frames < 0 ==> r is Err && r->Err_0
                == Error::EngineFailure,
            !senscrfile.spec_bytes().contains(0u8) && opened && frames >= 0 ==> r is Ok && r->Ok_0
                == frames,
            r is Err ==> final(self)@ == old(self)@,
            r is Ok ==> final(self)@ == (DecoderState {
                utt: UtteranceState::Ended,
                settled: old(self)@.active is Some,
                ..old(self)@
            }),
    {
        if has_nul(senscrfile) {
            return Err(Error::InvalidString);
        }
        if !opened {
            return Err(Error::IOFailure);
        }
        if frames < 0 {
            return Err(Error::EngineFailure);
        }
        self.utt = UtteranceState::Ended;
        self.settled = self.registry.has_active();
        Ok(frames)
    }

    /// Takes note of the engine's having reset its noise removal statistics,
    /// which it otherwise keeps from one utterance to the next. That is all
    /// this operation does: it starts nothing. `status` is the engine's
    /// answer, negative for a failure.
    pub fn start_stream(&mut self, status: i32) -> (r: Result<(), Error>)
        ensures
            *final(self) == *old(self),
            status < 0 ==> r is Err && r->Err_0 == Error::EngineFailure,
            status >= 0 ==> r is Ok,
    {
        if status < 0 {
            Err(Error::EngineFailure)
        } else {
            Ok(())
        }
    }

    /// Whether an utterance is being decoded. This is no voice activity
    /// detection: it is true from the start of an utterance to its end.
    pub fn get_in_speech(&self) -> (r: Result<bool, Error>)
        ensures
            r is Ok,
            r->Ok_0 == (self@.utt == UtteranceState::Active),
    {
        match self.utt {
            UtteranceState::Active => Ok(true),
            _ => Ok(false),
        }
    }

    /// The hypothesis with its path score, from what the engine reports:
    /// `text` is the hypothesis as bytes, `None` if the engine has none, and
    /// `score` its path score. Before the first utterance there is no
    /// hypothesis.
    pub fn get_hyp(&self, text: Option<&[u8]>, score: i32) -> (r: Result<
        Option<(String, i32)>,
        Error,
    >)
        ensures
            self@.utt == UtteranceState::Idle || text is None ==> (r matches Ok(None)),
            self@.utt != UtteranceState::Idle ==> (text matches Some(b) ==> (valid_utf8(b@) ==> (
            r matches Ok(Some(h)) && h.0@ == decode_utf8(b@) && h.1 == score))),
            self@.utt != UtteranceState::Idle ==> (text matches Some(b) ==> (!valid_utf8(b@) ==> (
            r matches Err(Error::InvalidString)))),
    {
        match self.utt {
            UtteranceState::Idle => Ok(None),
            _ => match text {
                None => Ok(None),
                Some(b) => match decode_text(b) {
                    Ok(s) => Ok(Some((s, score))),
                    Err(e) => Err(e),
                },
            },
        }
    }

    /// A pass over the word segmentation of the best hypothesis, from the
    /// segments that the engine reports; `None` if it reports none. Before
    /// the first utterance there is no segmentation.
    pub fn get_seg_iter(&self, segs: Option<Vec<Seg>>) -> (r: Option<SegIter>)
        ensures
            self@.utt == UtteranceState::Idle || segs is None ==> r is None,
            self@.utt != UtteranceState::Idle ==> (segs matches Some(v) ==> (r matches Some(it)
                && it.wf() && it.items() == v@ && it.consumed() == 0 && it.state()
                == CursorState::BeforeFirst)),
    {
        SegIter::new(self, segs)
    }

    /// A pass over the N best hypotheses, from the entries that the engine
    /// reports; `None` if it reports no list. Before the first utterance
    /// there is no list.
    pub fn get_nbest_iter(&self, entries: Option<Vec<NBest>>) -> (r: Option<NBestIter>)
        ensures
            self@.utt == UtteranceState::Idle || entries is None ==> r is None,
            self@.utt != UtteranceState::Idle ==> (entries matches Some(v) ==> (r matches Some(it)
                && it.wf() && it.items() == v@ && it.consumed() == 0 && it.state()
                == CursorState::BeforeFirst)),
    {
        NBestIter::from_decoder(self, entries)
    }

    /// A pass over the names of the registered search modules, in the order
    /// in which they were added.
    pub fn get_search_iter(&self) -> (it: SearchIter)
        ensures
            it.wf(),
            it.names() == self@.searches.map_values(|e: SearchEntry| e.name),
            it.consumed() == 0,
            it.state() == CursorState::BeforeFirst,
    {
        SearchIter::from_decoder(self)
    }

    /// The names of the registered search modules, in the order in which
    /// they were added.
    pub fn search_names(&self) -> (names: Vec<String>)
        ensures
            names@.map_values(|s: String| s@) == self@.searches.map_values(
                |e: SearchEntry| e.name,
            ),
    {
        self.registry.names()
    }
}

/// What an operation on the dictionary comes to.
fn dict_outcome(first: &str, second: Option<&str>, third: Option<&str>, status: i32) -> (r: Result<
    (),
    Error,
>)
    ensures
        r == Decoder::dict_result(first, second, third, status),
{
    if has_nul(first) {
        return Err(Error::InvalidString);
    }
    match second {
        Some(s) => {
            if has_nul(s) {
                return Err(Error::InvalidString);
            }
        },
        None => {},
    }
    match third {
        Some(t) => {
            if has_nul(t) {
                return Err(Error::InvalidString);
            }
        },
        None => {},
    }
    if status < 0 {
        Err(Error::IOFailure)
    } else {
        Ok(())
    }
}

} // verus!
