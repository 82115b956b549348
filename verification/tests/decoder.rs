use pocketsphinx::{Config, Decoder, Error, SearchKind, UtteranceState};

const AUDIO: [i16; 4] = [0, 1, -1, 2];

fn decoder() -> Decoder {
    Decoder::new(Some(100)).unwrap()
}

#[test]
fn new_decoder_is_idle_and_empty() {
    let d = decoder();
    assert_eq!(d.get_utt_state(), UtteranceState::Idle);
    assert_eq!(d.get_inner(), 100);
    assert_eq!(d.current_search(), Err(Error::NoActiveSearch));
    assert!(!d.has_search("_default"));
}

#[test]
fn new_decoder_fails_without_an_engine_object() {
    assert_eq!(Decoder::new(None).err(), Some(Error::InitializationFailure));
}

#[test]
fn process_and_end_are_refused_when_idle() {
    let mut d = decoder();
    assert_eq!(d.process_raw(&AUDIO, false, false, 10), Err(Error::UsageError));
    assert_eq!(d.end_utt(0), Err(Error::UsageError));
    assert_eq!(d.get_utt_state(), UtteranceState::Idle);
}

#[test]
fn start_is_allowed_in_every_state() {
    let mut d = decoder();
    assert_eq!(d.start_utt(), Ok(()));
    assert_eq!(d.get_utt_state(), UtteranceState::Active);
    assert_eq!(d.start_utt(), Ok(()));
    assert_eq!(d.get_utt_state(), UtteranceState::Active);
    assert_eq!(d.end_utt(0), Ok(()));
    assert_eq!(d.get_utt_state(), UtteranceState::Ended);
    assert_eq!(d.start_utt(), Ok(()));
    assert_eq!(d.get_utt_state(), UtteranceState::Active);
}

#[test]
fn an_utterance_runs_from_start_to_end() {
    let mut d = decoder();
    d.start_utt().unwrap();
    assert_eq!(d.process_raw(&AUDIO, false, false, 0), Ok(0));
    assert_eq!(d.process_raw(&AUDIO, false, false, 37), Ok(37));
    assert_eq!(d.process_raw(&AUDIO, false, false, 5), Ok(5));
    assert_eq!(d.end_utt(0), Ok(()));
    assert_eq!(d.get_utt_state(), UtteranceState::Ended);
    assert_eq!(d.process_raw(&AUDIO, false, false, 5), Err(Error::UsageError));
    assert_eq!(d.end_utt(0), Err(Error::UsageError));
    assert_eq!(d.get_utt_state(), UtteranceState::Ended);
}

#[test]
fn a_failure_of_the_engine_does_not_end_the_utterance() {
    let mut d = decoder();
    d.start_utt().unwrap();
    assert_eq!(d.process_raw(&AUDIO, false, false, -1), Err(Error::EngineFailure));
    assert_eq!(d.get_utt_state(), UtteranceState::Active);
    assert_eq!(d.process_raw(&AUDIO, false, false, 3), Ok(3));
}

#[test]
fn in_speech_follows_the_utterance() {
    let mut d = decoder();
    assert_eq!(d.get_in_speech(), Ok(false));
    d.start_utt().unwrap();
    assert_eq!(d.get_in_speech(), Ok(true));
    d.end_utt(0).unwrap();
    assert_eq!(d.get_in_speech(), Ok(false));
}

#[test]
fn searches_are_added_under_their_names() {
    let mut d = decoder();
    assert_eq!(d.add_lm_file("lm", "en-us.lm.bin", 0), Ok(()));
    assert_eq!(d.add_jsgf_file("commands", "commands.jsgf", 0), Ok(()));
    assert_eq!(d.add_jsgf_string("lights", "#JSGF V1.0;", 0), Ok(()));
    assert_eq!(d.add_fsg("fsg", 0), Ok(()));
    assert_eq!(d.add_kws_file("kws", "keys.txt", 0), Ok(()));
    assert_eq!(d.add_keyphrase("keyword", "oh mighty computer", 0), Ok(()));
    assert_eq!(d.add_allphone_file("phones", "phones.lm", 0), Ok(()));
    assert_eq!(d.add_search("other", SearchKind::Grammar, 0), Ok(()));
    for name in ["lm", "commands", "lights", "fsg", "kws", "keyword", "phones", "other"] {
        assert!(d.has_search(name));
    }
    assert!(!d.has_search("none"));
    assert_eq!(d.current_search(), Err(Error::NoActiveSearch));
    let mut it = d.get_search_iter();
    let mut names = Vec::new();
    while let Some(n) = it.next() {
        names.push(n);
    }
    assert_eq!(
        names,
        vec!["lm", "commands", "lights", "fsg", "kws", "keyword", "phones", "other"]
    );
}

#[test]
fn a_taken_name_is_refused() {
    let mut d = decoder();
    d.add_keyphrase("keyword", "hello", 0).unwrap();
    assert_eq!(
        d.add_keyphrase("keyword", "goodbye", 0),
        Err(Error::DuplicateSearchName)
    );
    assert_eq!(
        d.add_lm_file("keyword", "a.lm", 0),
        Err(Error::DuplicateSearchName)
    );
    assert_eq!(d.add_fsg("keyword", -1), Err(Error::DuplicateSearchName));
    d.remove_search("keyword", 0).unwrap();
    assert_eq!(d.add_lm_file("keyword", "a.lm", 0), Ok(()));
    assert_eq!(d.get_kws(Some("keyword"), Some(b"hello")), Ok(None));
}

#[test]
fn a_failed_load_registers_nothing() {
    let mut d = decoder();
    assert_eq!(
        d.add_lm_file("lm", "missing.lm", -1),
        Err(Error::InitializationFailure)
    );
    assert!(!d.has_search("lm"));
    assert_eq!(d.add_lm_file("lm", "there.lm", 0), Ok(()));
}

#[test]
fn strings_with_nul_are_refused() {
    let mut d = decoder();
    assert_eq!(d.add_lm_file("l\0m", "a.lm", 0), Err(Error::InvalidString));
    assert_eq!(d.add_lm_file("lm", "a\0.lm", 0), Err(Error::InvalidString));
    assert_eq!(d.add_fsg("\0", 0), Err(Error::InvalidString));
    assert_eq!(
        d.set_activate_search("l\0m", 0),
        Err(Error::InvalidString)
    );
    assert_eq!(d.remove_search("l\0m", 0), Err(Error::InvalidString));
    assert_eq!(d.set_align_text("one\0two", 0), Err(Error::InvalidString));
    assert!(!d.has_search("lm"));
}

#[test]
fn activation_needs_a_registered_name() {
    let mut d = decoder();
    d.add_keyphrase("keyword", "oh mighty computer", 0).unwrap();
    d.add_jsgf_file("commands", "commands.jsgf", 0).unwrap();
    assert_eq!(
        d.set_activate_search("missing", 0),
        Err(Error::SearchNotFound)
    );
    assert_eq!(d.current_search(), Err(Error::NoActiveSearch));
    assert_eq!(d.set_activate_search("keyword", 0), Ok(()));
    assert_eq!(d.current_search(), Ok("keyword".to_string()));
    assert_eq!(d.set_activate_search("commands", 0), Ok(()));
    assert_eq!(d.current_search(), Ok("commands".to_string()));
    assert_eq!(
        d.set_activate_search("keyword", -1),
        Err(Error::EngineFailure)
    );
    assert_eq!(d.current_search(), Ok("commands".to_string()));
}

#[test]
fn removing_the_active_search_leaves_none_active() {
    let mut d = decoder();
    d.add_keyphrase("a", "x", 0).unwrap();
    d.add_keyphrase("b", "y", 0).unwrap();
    d.add_keyphrase("c", "z", 0).unwrap();
    d.set_activate_search("b", 0).unwrap();
    assert_eq!(d.remove_search("b", 0), Ok(()));
    assert_eq!(d.current_search(), Err(Error::NoActiveSearch));
    assert!(!d.has_search("b"));
    assert!(d.has_search("a"));
    assert!(d.has_search("c"));
    assert_eq!(d.remove_search("b", 0), Err(Error::SearchNotFound));
}

#[test]
fn removing_another_search_keeps_the_active_one() {
    let mut d = decoder();
    d.add_keyphrase("a", "x", 0).unwrap();
    d.add_keyphrase("b", "y", 0).unwrap();
    d.add_keyphrase("c", "z", 0).unwrap();
    d.set_activate_search("c", 0).unwrap();
    assert_eq!(d.remove_search("a", 0), Ok(()));
    assert_eq!(d.current_search(), Ok("c".to_string()));
    assert_eq!(d.remove_search("b", 0), Ok(()));
    assert_eq!(d.current_search(), Ok("c".to_string()));
    d.add_keyphrase("d", "w", 0).unwrap();
    d.set_activate_search("c", 0).unwrap();
    assert_eq!(d.remove_search("d", 0), Ok(()));
    assert_eq!(d.current_search(), Ok("c".to_string()));
    assert_eq!(d.remove_search("c", -1), Err(Error::EngineFailure));
    assert!(d.has_search("c"));
}

#[test]
fn registry_works_in_every_state() {
    let mut d = decoder();
    d.start_utt().unwrap();
    assert_eq!(d.add_keyphrase("k", "x", 0), Ok(()));
    assert_eq!(d.set_activate_search("k", 0), Ok(()));
    d.end_utt(0).unwrap();
    assert_eq!(d.add_lm_file("lm", "a.lm", 0), Ok(()));
    assert_eq!(d.remove_search("k", 0), Ok(()));
    assert_eq!(d.get_utt_state(), UtteranceState::Ended);
}

#[test]
fn align_text_is_active_at_once() {
    let mut d = decoder();
    d.add_lm_file("lm", "a.lm", 0).unwrap();
    d.set_activate_search("lm", 0).unwrap();
    assert_eq!(d.set_align_text("one two three", 0), Ok(()));
    assert_eq!(d.current_search(), Ok("_align".to_string()));
    assert!(d.has_search("_align"));
    assert_eq!(d.set_align_text("four five", 0), Ok(()));
    assert_eq!(d.current_search(), Ok("_align".to_string()));
    let mut it = d.get_search_iter();
    assert_eq!(it.next(), Some("lm".to_string()));
    assert_eq!(it.next(), Some("_align".to_string()));
    assert_eq!(it.next(), None);
}

#[test]
fn a_failed_align_text_changes_nothing() {
    let mut d = decoder();
    d.add_lm_file("lm", "a.lm", 0).unwrap();
    d.set_activate_search("lm", 0).unwrap();
    assert_eq!(
        d.set_align_text("one two", -1),
        Err(Error::InitializationFailure)
    );
    assert_eq!(d.current_search(), Ok("lm".to_string()));
    assert!(!d.has_search("_align"));
    assert_eq!(d.set_alignment(None, -1), Err(Error::InitializationFailure));
    assert!(!d.has_search("_state_align"));
}

#[test]
fn state_alignment_is_active_at_once() {
    let mut d = decoder();
    d.set_align_text("one two", 0).unwrap();
    assert_eq!(d.set_alignment(None, 0), Ok(()));
    assert_eq!(d.current_search(), Ok("_state_align".to_string()));
    assert!(d.has_search("_align"));
}

#[test]
fn fsg_belongs_to_grammar_searches() {
    let mut d = decoder();
    d.add_jsgf_file("g", "g.jsgf", 0).unwrap();
    d.add_lm_file("lm", "a.lm", 0).unwrap();
    let mut h = d.get_fsg(Some("g"), Some(9)).unwrap();
    assert_eq!(h.get_inner(), 9);
    assert!(h.is_retained());
    let kept = h.retain();
    assert_eq!(h.release(), None);
    assert_eq!(kept.release(), Some(9));
    let again = d.get_fsg(Some("g"), Some(9)).unwrap();
    assert_eq!(again.release(), None);
    assert!(d.get_fsg(Some("lm"), Some(9)).is_none());
    assert!(d.get_fsg(Some("none"), Some(9)).is_none());
    assert!(d.get_fsg(Some("g"), None).is_none());
    assert!(d.get_fsg(None, Some(9)).is_none());
    d.set_activate_search("g", 0).unwrap();
    assert!(d.get_fsg(None, Some(9)).is_some());
}

#[test]
fn keyphrase_belongs_to_keyphrase_searches() {
    let mut d = decoder();
    d.add_keyphrase("k", "oh mighty computer", 0).unwrap();
    d.add_lm_file("lm", "a.lm", 0).unwrap();
    assert_eq!(
        d.get_kws(Some("k"), Some(b"oh mighty computer")),
        Ok(Some("oh mighty computer".to_string()))
    );
    assert_eq!(d.get_kws(Some("k"), None), Ok(None));
    assert_eq!(d.get_kws(Some("lm"), Some(b"x")), Ok(None));
    assert_eq!(d.get_kws(None, Some(b"x")), Ok(None));
    assert_eq!(d.get_kws(Some("k\0"), Some(b"x")), Err(Error::InvalidString));
    assert_eq!(
        d.get_kws(Some("k"), Some(&[0xff])),
        Err(Error::InvalidString)
    );
    d.set_activate_search("k", 0).unwrap();
    assert_eq!(d.get_kws(None, Some(b"x")), Ok(Some("x".to_string())));
}

#[test]
fn hypothesis_comes_with_its_score() {
    let mut d = decoder();
    assert_eq!(d.get_hyp(Some(b"stale"), -1), Ok(None));
    d.start_utt().unwrap();
    assert_eq!(d.get_hyp(None, 0), Ok(None));
    assert_eq!(
        d.get_hyp(Some(b"turn on"), -2500),
        Ok(Some(("turn on".to_string(), -2500)))
    );
    d.end_utt(0).unwrap();
    assert_eq!(
        d.get_hyp(Some(b"turn on the lights"), -4200),
        Ok(Some(("turn on the lights".to_string(), -4200)))
    );
    assert_eq!(d.get_hyp(Some(&[0xc0, 0x20]), 0), Err(Error::InvalidString));
}

#[test]
fn reinit_clears_the_session() {
    let mut d = decoder();
    d.add_lm_file("lm", "a.lm", 0).unwrap();
    d.set_activate_search("lm", 0).unwrap();
    d.start_utt().unwrap();
    assert_eq!(d.reinit(&Config::from_decoder(2), -1), Err(Error::InitializationFailure));
    assert!(d.has_search("lm"));
    assert_eq!(d.get_utt_state(), UtteranceState::Active);
    assert_eq!(d.reinit(&Config::from_decoder(2), 0), Ok(()));
    assert!(!d.has_search("lm"));
    assert_eq!(d.current_search(), Err(Error::NoActiveSearch));
    assert_eq!(d.get_utt_state(), UtteranceState::Idle);
    assert_eq!(d.reinit_feat(&Config::from_decoder(2), 0), Ok(()));
    assert_eq!(d.reinit_feat(&Config::from_decoder(2), -1), Err(Error::InitializationFailure));
}

#[test]
fn dictionary_operations_report_failures() {
    let mut d = decoder();
    assert_eq!(d.load_dict("a.dict", None, None, 0), Ok(()));
    assert_eq!(d.load_dict("a.dict", Some("f.dict"), Some("txt"), 0), Ok(()));
    assert_eq!(d.load_dict("a.dict", None, None, -1), Err(Error::IOFailure));
    assert_eq!(
        d.load_dict("a\0.dict", None, None, 0),
        Err(Error::InvalidString)
    );
    assert_eq!(
        d.load_dict("a.dict", Some("f\0"), None, 0),
        Err(Error::InvalidString)
    );
    assert_eq!(
        d.load_dict("a.dict", None, Some("\0"), 0),
        Err(Error::InvalidString)
    );
    assert_eq!(d.save_dict("out.dict", None, 0), Ok(()));
    assert_eq!(d.save_dict("out.dict", None, -1), Err(Error::IOFailure));
    assert_eq!(
        d.save_dict("out.dict", Some("t\0"), 0),
        Err(Error::InvalidString)
    );
    assert_eq!(d.add_word("hello", "HH AH L OW", true, 12), Ok(()));
    assert_eq!(d.add_word("hello", "HH AH L OW", false, 0), Ok(()));
    assert_eq!(
        d.add_word("hello", "HH AH L OW", true, -1),
        Err(Error::EngineFailure)
    );
    assert_eq!(
        d.add_word("hel\0lo", "HH", true, 0),
        Err(Error::InvalidString)
    );
    assert_eq!(
        d.lookup_word("hello", Some(b"HH AH L OW")),
        Ok(Some("HH AH L OW".to_string()))
    );
    assert_eq!(d.lookup_word("nope", None), Ok(None));
    assert_eq!(d.lookup_word("a\0", None), Err(Error::InvalidString));
}

#[test]
fn decoding_a_file_leaves_an_ended_utterance() {
    let mut d = decoder();
    assert_eq!(Decoder::sample_limit(None), -1);
    assert_eq!(Decoder::sample_limit(Some(16000)), 16000);
    assert_eq!(
        d.decode_raw_file("a.raw", false, 0),
        Err(Error::IOFailure)
    );
    assert_eq!(d.get_utt_state(), UtteranceState::Idle);
    assert_eq!(
        d.decode_raw_file("a.raw", true, -1),
        Err(Error::EngineFailure)
    );
    assert_eq!(
        d.decode_raw_file("a\0.raw", true, 5),
        Err(Error::InvalidString)
    );
    assert_eq!(d.decode_raw_file("a.raw", true, 32000), Ok(32000));
    assert_eq!(d.get_utt_state(), UtteranceState::Ended);
    let mut e = decoder();
    assert_eq!(e.decode_senscr_file("a.sen", true, 250), Ok(250));
    assert_eq!(e.get_utt_state(), UtteranceState::Ended);
    assert_eq!(
        e.decode_senscr_file("a.sen", false, 250),
        Err(Error::IOFailure)
    );
    assert_eq!(
        e.decode_senscr_file("a.sen", true, -1),
        Err(Error::EngineFailure)
    );
}

#[test]
fn start_stream_starts_nothing() {
    let mut d = decoder();
    assert_eq!(d.start_stream(0), Ok(()));
    assert_eq!(d.get_utt_state(), UtteranceState::Idle);
    assert_eq!(d.start_stream(-1), Err(Error::EngineFailure));
}

#[test]
fn retained_decoder_hands_out_an_owner() {
    let mut d = decoder();
    d.add_lm_file("lm", "a.lm", 0).unwrap();
    let h = d.retain();
    assert_eq!(h.get_inner(), 100);
    assert!(!h.is_retained());
    assert!(!d.is_retained());
    assert!(d.has_search("lm"));
    assert_eq!(h.release(), Some(100));
    let c = d.get_config(5);
    assert_eq!(c.get_inner(), 5);
    let l = d.get_logmath(6);
    assert_eq!(l.get_inner(), 6);
    assert!(l.is_retained());
}

#[test]
fn grammar_session_from_silence_to_hypothesis() {
    let grammar = "#JSGF V1.0; grammar lights; public <cmd> = turn (on | off) the lights;";
    let mut d = decoder();
    assert_eq!(d.add_jsgf_string("lights", grammar, 0), Ok(()));
    assert_eq!(d.set_activate_search("lights", 0), Ok(()));
    assert_eq!(d.get_hyp(None, 0), Ok(None));
    assert_eq!(d.start_utt(), Ok(()));
    for searched in [0, 0, 12, 30, 30, 28] {
        assert_eq!(d.process_raw(&AUDIO, false, false, searched), Ok(searched));
    }
    assert_eq!(d.end_utt(0), Ok(()));
    let hyp = d.get_hyp(Some(b"turn on the lights"), -3120).unwrap();
    let (text, score) = hyp.unwrap();
    assert!(text == "turn on the lights" || text == "turn off the lights");
    assert_eq!(score, -3120);
    assert_eq!(d.start_utt(), Ok(()));
    assert_eq!(d.process_raw(&AUDIO, false, false, 40), Ok(40));
    assert_eq!(d.end_utt(0), Ok(()));
    assert_eq!(d.get_hyp(None, 0), Ok(None));
}

#[test]
fn a_failure_to_end_leaves_the_utterance_open() {
    let mut d = decoder();
    assert_eq!(d.end_utt(-1), Err(Error::UsageError));
    d.start_utt().unwrap();
    assert_eq!(d.end_utt(-1), Err(Error::EngineFailure));
    assert_eq!(d.get_utt_state(), UtteranceState::Active);
    assert_eq!(d.process_raw(&AUDIO, false, false, 4), Ok(4));
    assert_eq!(d.end_utt(0), Ok(()));
    assert_eq!(d.get_utt_state(), UtteranceState::Ended);
}

#[test]
fn a_session_gives_up_its_own_reference() {
    let d = decoder();
    assert_eq!(d.release(), Some(100));
    let mut e = decoder();
    let extra = e.retain();
    assert_eq!(extra.release(), Some(100));
    assert_eq!(e.release(), Some(100));
}
