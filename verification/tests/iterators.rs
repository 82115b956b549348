use pocketsphinx::{
    CursorState, Decoder, Error, NBest, NBestIter, Seg, SegFrames, SegIter, SegProp, SearchIter,
};

fn seg(word: &str, start: i32, end: i32) -> Seg {
    Seg::new(
        word.as_bytes(),
        SegFrames { start, end },
        SegProp { prob: 0, am_score: -100 - start, lm_score: -10, lm_back: 2 },
    )
    .unwrap()
}

#[test]
fn a_segment_keeps_what_the_engine_reports() {
    let s = seg("lights", 40, 75);
    assert_eq!(s.get_word(), "lights");
    assert_eq!(s.get_frames(), SegFrames { start: 40, end: 75 });
    assert_eq!(
        s.get_prob(),
        SegProp { prob: 0, am_score: -140, lm_score: -10, lm_back: 2 }
    );
    let t = s.clone();
    assert_eq!(t.get_word(), "lights");
    assert_eq!(t.get_frames(), s.get_frames());
}

#[test]
fn a_segment_needs_text() {
    let r = Seg::new(
        &[0xff],
        SegFrames { start: 0, end: 1 },
        SegProp { prob: 0, am_score: 0, lm_score: 0, lm_back: 0 },
    );
    assert_eq!(r.err(), Some(Error::InvalidString));
}

#[test]
fn segments_come_in_order_and_once() {
    let mut it = SegIter::from_segs(vec![seg("turn", 0, 9), seg("on", 10, 19), seg("the", 20, 25)]);
    assert_eq!(it.get_state(), CursorState::BeforeFirst);
    assert_eq!(it.next().unwrap().get_word(), "turn");
    assert_eq!(it.get_state(), CursorState::Positioned);
    let second = it.next().unwrap();
    assert_eq!(second.get_word(), "on");
    assert_eq!(second.get_frames(), SegFrames { start: 10, end: 19 });
    assert_eq!(it.next().unwrap().get_word(), "the");
    assert!(it.next().is_none());
    assert_eq!(it.get_state(), CursorState::Exhausted);
    assert!(it.next().is_none());
}

#[test]
fn no_segments_no_pass() {
    let mut d = Decoder::new(Some(1)).unwrap();
    d.start_utt().unwrap();
    assert!(SegIter::new(&d, None).is_none());
    let mut it = SegIter::new(&d, Some(Vec::new())).unwrap();
    assert!(it.next().is_none());
    assert_eq!(it.get_state(), CursorState::Exhausted);
}

#[test]
fn segmentation_needs_an_utterance() {
    let mut d = Decoder::new(Some(1)).unwrap();
    assert!(d.get_seg_iter(Some(vec![seg("turn", 0, 9)])).is_none());
    d.start_utt().unwrap();
    assert!(d.get_seg_iter(None).is_none());
    let mut it = d.get_seg_iter(Some(vec![seg("turn", 0, 9)])).unwrap();
    assert_eq!(it.next().unwrap().get_word(), "turn");
    assert!(it.next().is_none());
}

#[test]
fn nbest_entries_carry_text_score_and_segments() {
    let n = NBest::new(7, Some(b"turn on"), -900, vec![seg("turn", 0, 9), seg("on", 10, 19)])
        .unwrap();
    assert_eq!(n.get_inner(), 7);
    assert_eq!(n.clone().get_inner(), 7);
    let h = n.get_hyp();
    assert_eq!(h.hypothesis, "turn on");
    assert_eq!(h.score, -900);
    let mut it = n.get_seg();
    assert_eq!(it.next().unwrap().get_word(), "turn");
    assert_eq!(it.next().unwrap().get_word(), "on");
    assert!(it.next().is_none());
    let mut again = SegIter::from_nbest(&n);
    assert_eq!(again.next().unwrap().get_word(), "turn");
}

#[test]
fn nbest_without_text_is_the_empty_hypothesis() {
    let n = NBest::new(7, None, -5, Vec::new()).unwrap();
    let h = n.get_hyp();
    assert_eq!(h.hypothesis, "");
    assert_eq!(h.score, -5);
    assert!(n.get_seg().next().is_none());
    assert_eq!(
        NBest::new(7, Some(&[0x80]), 0, Vec::new()).err(),
        Some(Error::InvalidString)
    );
}

#[test]
fn nbest_entries_come_best_first() {
    let entries = vec![
        NBest::new(7, Some(b"turn on the lights"), -100, Vec::new()).unwrap(),
        NBest::new(7, Some(b"turn off the lights"), -250, Vec::new()).unwrap(),
    ];
    let mut d = Decoder::new(Some(1)).unwrap();
    d.start_utt().unwrap();
    let mut it = NBestIter::from_decoder(&d, Some(entries)).unwrap();
    assert_eq!(it.get_state(), CursorState::BeforeFirst);
    let a = it.next().unwrap().get_hyp();
    assert_eq!(a.hypothesis, "turn on the lights");
    assert_eq!(a.score, -100);
    let b = it.next().unwrap().get_hyp();
    assert_eq!(b.hypothesis, "turn off the lights");
    assert_eq!(b.score, -250);
    assert!(it.next().is_none());
    assert_eq!(it.get_state(), CursorState::Exhausted);
    assert!(it.next().is_none());
    assert!(NBestIter::from_decoder(&d, None).is_none());
}

#[test]
fn nbest_needs_an_utterance() {
    let mut d = Decoder::new(Some(1)).unwrap();
    let entries = || Some(vec![NBest::new(7, Some(b"a"), 0, Vec::new()).unwrap()]);
    assert!(d.get_nbest_iter(entries()).is_none());
    d.start_utt().unwrap();
    d.end_utt(0).unwrap();
    assert!(d.get_nbest_iter(None).is_none());
    assert!(d.get_nbest_iter(entries()).is_some());
}

#[test]
fn names_come_in_order_and_once() {
    let mut it = SearchIter::from_names(vec!["keyword".to_string(), "commands".to_string()]);
    assert_eq!(it.get_state(), CursorState::BeforeFirst);
    assert_eq!(it.next(), Some("keyword".to_string()));
    assert_eq!(it.next(), Some("commands".to_string()));
    assert_eq!(it.next(), None);
    assert_eq!(it.get_state(), CursorState::Exhausted);
    assert_eq!(it.next(), None);
    let mut none = SearchIter::from_names(Vec::new());
    assert_eq!(none.next(), None);
    let mut d = Decoder::new(Some(1)).unwrap();
    d.add_keyphrase("keyword", "hello", 0).unwrap();
    let mut of_decoder = SearchIter::from_decoder(&d);
    assert_eq!(of_decoder.next(), Some("keyword".to_string()));
    assert_eq!(of_decoder.next(), None);
}
