use pocketsphinx::{
    Alignment, AlignmentEntry, AlignmentSeg, CursorState, Decoder, Error,
};

fn entry(name: &str, start: i32, duration: i32, first_child: usize, n_children: usize)
    -> AlignmentEntry {
    AlignmentEntry {
        name: name.to_string(),
        seg: AlignmentSeg { score: -(start + duration), start, duration },
        first_child,
        n_children,
    }
}

fn words() -> Vec<AlignmentEntry> {
    vec![entry("one", 0, 10, 0, 2), entry("two", 10, 5, 2, 1)]
}

fn phones() -> Vec<AlignmentEntry> {
    vec![entry("W", 0, 4, 0, 2), entry("AH", 4, 6, 2, 1), entry("T", 10, 5, 3, 1)]
}

fn states() -> Vec<AlignmentEntry> {
    vec![
        entry("0", 0, 2, 0, 0),
        entry("1", 2, 2, 0, 0),
        entry("2", 4, 6, 0, 0),
        entry("3", 10, 5, 0, 0),
    ]
}

fn decoded() -> Alignment {
    Alignment::new(1, words(), phones(), states()).unwrap()
}

fn undecoded() -> Alignment {
    let phones = vec![entry("W", 0, 10, 0, 2), entry("AH", 0, 10, 2, 1), entry("T", 10, 5, 3, 1)];
    let states = vec![
        entry("0", 0, 10, 0, 0),
        entry("1", 0, 10, 0, 0),
        entry("2", 0, 10, 0, 0),
        entry("3", 10, 5, 0, 0),
    ];
    Alignment::new(1, words(), phones, states).unwrap()
}

#[test]
fn rows_that_share_out_the_row_below_are_taken() {
    let a = decoded();
    assert_eq!(a.get_inner(), 1);
    assert!(a.is_partitioned());
    assert!(Alignment::new(2, Vec::new(), Vec::new(), Vec::new()).is_ok());
    let bare = Alignment::new(2, vec![entry("one", 0, 10, 0, 0)], Vec::new(), Vec::new()).unwrap();
    assert!(!bare.is_partitioned());
}

#[test]
fn rows_with_gaps_are_refused() {
    let mut w = words();
    w[1].first_child = 1;
    assert_eq!(
        Alignment::new(1, w, phones(), states()).err(),
        Some(Error::EngineFailure)
    );
    let mut w = words();
    w[0].first_child = 1;
    w[0].n_children = 1;
    assert_eq!(
        Alignment::new(1, w, phones(), states()).err(),
        Some(Error::EngineFailure)
    );
    let mut w = words();
    w[1].n_children = 2;
    assert_eq!(
        Alignment::new(1, w, phones(), states()).err(),
        Some(Error::EngineFailure)
    );
    let mut p = phones();
    p[2].n_children = 0;
    assert_eq!(
        Alignment::new(1, words(), p, states()).err(),
        Some(Error::EngineFailure)
    );
    let mut s = states();
    s[0].n_children = 1;
    assert_eq!(
        Alignment::new(1, words(), phones(), s).err(),
        Some(Error::EngineFailure)
    );
    assert_eq!(
        Alignment::new(1, Vec::new(), phones(), states()).err(),
        Some(Error::EngineFailure)
    );
}

#[test]
fn durations_of_the_word_do_not_divide_it() {
    assert!(!undecoded().is_partitioned());
    let mut p = phones();
    p[0].seg.duration = 3;
    assert!(!Alignment::new(1, words(), p, states()).unwrap().is_partitioned());
    let mut p = phones();
    p[1].seg.start = 5;
    assert!(!Alignment::new(1, words(), p, states()).unwrap().is_partitioned());
    let mut s = states();
    s[3].seg.duration = 4;
    assert!(!Alignment::new(1, words(), phones(), s).unwrap().is_partitioned());
    let mut s = states();
    s[0].seg.duration = -1;
    s[1].seg.start = -1;
    s[1].seg.duration = 5;
    assert!(!Alignment::new(1, words(), phones(), s).unwrap().is_partitioned());
}

#[test]
fn children_cover_their_parent_frame_by_frame() {
    let a = decoded();
    let mut ws = a.words();
    while let Some(w) = ws.next() {
        let seg = w.seg();
        let mut covered = vec![0; seg.duration as usize];
        let mut ps = w.children().unwrap();
        while let Some(p) = ps.next() {
            let pseg = p.seg();
            for f in pseg.start..pseg.start + pseg.duration {
                covered[(f - seg.start) as usize] += 1;
            }
            let mut inner = vec![0; pseg.duration as usize];
            let mut ss = p.children().unwrap();
            while let Some(s) = ss.next() {
                let sseg = s.seg();
                for f in sseg.start..sseg.start + sseg.duration {
                    inner[(f - pseg.start) as usize] += 1;
                }
                assert!(s.children().is_none());
            }
            assert!(inner.iter().all(|&c| c == 1));
        }
        assert!(covered.iter().all(|&c| c == 1));
    }
}

#[test]
fn words_come_in_order_and_once() {
    let a = decoded();
    let mut it = a.words();
    assert_eq!(it.name(), "one");
    let first = it.next().unwrap();
    assert_eq!(first.name(), "one");
    assert_eq!(first.seg(), AlignmentSeg { score: -10, start: 0, duration: 10 });
    let second = it.next().unwrap();
    assert_eq!(second.name(), "two");
    assert_eq!(second.seg(), AlignmentSeg { score: -15, start: 10, duration: 5 });
    assert!(it.is_positioned());
    assert!(it.next().is_none());
    assert!(!it.is_positioned());
    assert!(it.next().is_none());
    let mut again = a.words();
    assert_eq!(again.next().unwrap().name(), "one");
}

#[test]
fn children_do_not_depend_on_siblings() {
    let a = decoded();
    let mut it = a.words();
    let one = it.next().unwrap();
    let two = it.next().unwrap();
    let mut two_phones = two.children().unwrap();
    assert_eq!(two_phones.next().unwrap().name(), "T");
    assert!(two_phones.next().is_none());
    let mut one_phones = one.children().unwrap();
    let w = one_phones.next().unwrap();
    assert_eq!(w.name(), "W");
    assert_eq!(one_phones.next().unwrap().name(), "AH");
    assert!(one_phones.next().is_none());
    let mut s = w.children().unwrap();
    assert_eq!(s.next().unwrap().name(), "0");
    assert_eq!(s.next().unwrap().name(), "1");
    assert!(s.next().is_none());
}

#[test]
fn flat_passes_cover_the_whole_row() {
    let a = decoded();
    let mut names = Vec::new();
    let mut it = a.phones();
    while let Some(p) = it.next() {
        names.push(p.name());
    }
    assert_eq!(names, vec!["W", "AH", "T"]);
    let mut names = Vec::new();
    let mut it = a.states();
    while let Some(s) = it.next() {
        names.push(s.name());
    }
    assert_eq!(names, vec!["0", "1", "2", "3"]);
}

#[test]
fn an_alignment_without_entries_yields_nothing() {
    let a = Alignment::new(1, Vec::new(), Vec::new(), Vec::new()).unwrap();
    assert!(a.is_partitioned());
    let mut it = a.words();
    assert!(!it.is_positioned());
    assert!(it.next().is_none());
    assert!(a.phones().next().is_none());
    assert!(a.states().next().is_none());
}

#[test]
fn a_word_without_phones_has_no_children() {
    let a = Alignment::new(1, vec![entry("one", 0, 10, 0, 0)], Vec::new(), Vec::new()).unwrap();
    assert!(!a.is_partitioned());
    let empty = Alignment::new(1, vec![entry("one", 4, 0, 0, 0)], Vec::new(), Vec::new()).unwrap();
    assert!(empty.is_partitioned());
    let mut it = a.words();
    let w = it.next().unwrap();
    assert!(w.children().is_none());
}

#[test]
fn an_item_is_a_pass_from_its_own_entry() {
    let a = decoded();
    let mut it = a.phones();
    it.next().unwrap();
    let mut from_second = it.next().unwrap();
    assert_eq!(from_second.next().unwrap().name(), "AH");
    assert_eq!(from_second.next().unwrap().name(), "T");
    assert!(from_second.next().is_none());
    assert_eq!(it.next().unwrap().name(), "T");
}

#[test]
fn retained_alignment_hands_out_an_owner() {
    let mut a = decoded();
    let kept = a.retain();
    assert_eq!(kept.get_inner(), 1);
    assert!(!kept.is_retained());
    assert!(a.is_retained());
    assert!(a.is_partitioned());
    assert!(kept.is_partitioned());
    let mut names = Vec::new();
    let mut it = kept.phones();
    while let Some(p) = it.next() {
        names.push(p.name());
    }
    assert_eq!(names, vec!["W", "AH", "T"]);
    assert_eq!(a.release(), None);
    assert_eq!(kept.release(), Some(1));
}

#[test]
fn alignment_needs_an_aligning_search() {
    let mut d = Decoder::new(Some(1)).unwrap();
    assert!(d.get_alignment(Some(decoded())).unwrap().is_none());
    d.add_lm_file("lm", "a.lm", 0).unwrap();
    d.set_activate_search("lm", 0).unwrap();
    assert!(d.get_alignment(Some(decoded())).unwrap().is_none());
    d.set_align_text("one two", 0).unwrap();
    assert!(d.get_alignment(None).unwrap().is_none());
    assert!(d.get_alignment(Some(decoded())).unwrap().is_some());
}

#[test]
fn phone_durations_need_a_second_pass() {
    let mut d = Decoder::new(Some(1)).unwrap();
    d.set_align_text("one two", 0).unwrap();
    d.start_utt().unwrap();
    d.process_raw(&[0i16; 8], false, true, 15).unwrap();
    d.end_utt(0).unwrap();
    assert!(d.get_alignment(None).unwrap().is_none());
    d.set_alignment(None, 0).unwrap();
    let before = d.get_alignment(Some(undecoded())).unwrap().unwrap();
    assert!(!before.is_partitioned());
    d.start_utt().unwrap();
    d.process_raw(&[0i16; 8], false, true, 15).unwrap();
    d.end_utt(0).unwrap();
    let after = d.get_alignment(Some(decoded())).unwrap().unwrap();
    assert!(after.is_partitioned());
    assert_eq!(
        d.get_alignment(Some(undecoded())).err(),
        Some(Error::EngineFailure)
    );
    assert_eq!(a_state(&after), CursorState::BeforeFirst);
    let again = Alignment::from_decoder(&d, Some(decoded())).unwrap().unwrap();
    assert!(again.is_partitioned());
}

fn a_state(a: &Alignment) -> CursorState {
    let it = a.words();
    it.get_state()
}

#[test]
fn a_phone_with_frames_needs_states() {
    let words = vec![entry("one", 0, 10, 0, 1)];
    let phones = vec![entry("W", 0, 10, 0, 0)];
    let a = Alignment::new(1, words, phones, Vec::new()).unwrap();
    assert!(!a.is_partitioned());
    let mut d = Decoder::new(Some(1)).unwrap();
    d.set_alignment(None, 0).unwrap();
    d.start_utt().unwrap();
    d.end_utt(0).unwrap();
    let words = vec![entry("one", 0, 10, 0, 1)];
    let phones = vec![entry("W", 0, 10, 0, 0)];
    let a = Alignment::new(1, words, phones, Vec::new()).unwrap();
    assert_eq!(d.get_alignment(Some(a)).err(), Some(Error::EngineFailure));
}
