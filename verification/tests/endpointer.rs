use pocketsphinx::{Endpointer, Error, ResourcePool, VADClass, VADMode, VAD};

fn default_endpointer() -> Endpointer {
    Endpointer::new(None, None, VADMode::Loose, Some(1), 16000, 480).unwrap()
}

#[test]
fn defaults_give_a_window_of_ten_frames() {
    let ep = default_endpointer();
    assert_eq!(Endpointer::get_default_window(), 300);
    assert_eq!(Endpointer::get_default_ratio(), 900);
    assert_eq!(ep.get_window_frames(), 10);
    assert_eq!(ep.get_frame_size(), 480);
    assert_eq!(ep.get_sample_rate(), 16000);
    assert_eq!(ep.get_frame_length().micros(), 30_000);
    assert!(!ep.get_in_speech());
    assert_eq!(ep.get_speech_start(), 0);
    assert_eq!(ep.get_speech_end(), 0);
}

#[test]
fn zero_asks_for_the_default() {
    let ep = Endpointer::new(Some(0), Some(0), VADMode::Loose, Some(1), 16000, 480).unwrap();
    assert_eq!(ep.get_window_frames(), 10);
}

#[test]
fn window_is_counted_in_whole_frames() {
    let ep = Endpointer::new(Some(100), Some(500), VADMode::Strict, Some(1), 8000, 80).unwrap();
    assert_eq!(ep.get_window_frames(), 10);
    let ep = Endpointer::new(Some(95), Some(500), VADMode::Strict, Some(1), 8000, 80).unwrap();
    assert_eq!(ep.get_window_frames(), 9);
    let ep = Endpointer::new(Some(250), None, VADMode::Strict, Some(1), 44100, 1440).unwrap();
    assert_eq!(ep.get_window_frames(), 7);
}

#[test]
fn new_fails_without_a_classifier() {
    assert_eq!(
        Endpointer::new(None, None, VADMode::Loose, None, 16000, 480).err(),
        Some(Error::InitializationFailure)
    );
    assert_eq!(
        Endpointer::new(None, None, VADMode::Loose, Some(1), 0, 480).err(),
        Some(Error::InitializationFailure)
    );
}

#[test]
fn new_refuses_a_ratio_above_the_whole() {
    assert_eq!(
        Endpointer::new(None, Some(1001), VADMode::Loose, Some(1), 16000, 480).err(),
        Some(Error::InitializationFailure)
    );
    assert!(Endpointer::new(None, Some(1000), VADMode::Loose, Some(1), 16000, 480).is_ok());
}

#[test]
fn new_refuses_a_window_shorter_than_a_frame() {
    assert_eq!(
        Endpointer::new(Some(29), None, VADMode::Loose, Some(1), 16000, 480).err(),
        Some(Error::InitializationFailure)
    );
    let ep = Endpointer::new(Some(30), None, VADMode::Loose, Some(1), 16000, 480).unwrap();
    assert_eq!(ep.get_window_frames(), 1);
}

#[test]
fn speech_starts_on_the_frame_that_meets_the_ratio() {
    let mut ep = default_endpointer();
    let frame = vec![7i16; 480];
    for _ in 0..8 {
        assert_eq!(ep.process(&frame, VADClass::Speech), Ok(None));
        assert!(!ep.get_in_speech());
    }
    let out = ep.process(&frame, VADClass::Speech).unwrap();
    assert_eq!(out, Some(&frame[..]));
    assert!(ep.get_in_speech());
    assert_eq!(ep.get_speech_start(), 0);
    for _ in 0..20 {
        assert_eq!(ep.process(&frame, VADClass::Speech), Ok(Some(&frame[..])));
        assert!(ep.get_in_speech());
    }
}

#[test]
fn onset_is_the_same_on_every_run() {
    for _ in 0..3 {
        let mut ep = Endpointer::new(Some(100), Some(500), VADMode::Loose, Some(1), 8000, 80)
            .unwrap();
        let frame = vec![1i16; 80];
        let mut onset = None;
        for i in 0..30 {
            let before = ep.get_in_speech();
            ep.process(&frame, VADClass::Speech).unwrap();
            if !before && ep.get_in_speech() {
                assert_eq!(onset, None);
                onset = Some(i);
            }
        }
        assert_eq!(onset, Some(4));
    }
}

#[test]
fn speech_start_is_the_oldest_frame_of_the_window() {
    let mut ep = default_endpointer();
    let frame = vec![0i16; 480];
    for _ in 0..3 {
        assert_eq!(ep.process(&frame, VADClass::NotSpeech), Ok(None));
    }
    for _ in 0..8 {
        assert_eq!(ep.process(&frame, VADClass::Speech), Ok(None));
    }
    assert!(!ep.get_in_speech());
    assert_eq!(ep.process(&frame, VADClass::Speech), Ok(Some(&frame[..])));
    assert!(ep.get_in_speech());
    assert_eq!(ep.get_speech_start(), 960);
}

#[test]
fn speech_ends_when_the_other_frames_meet_the_ratio() {
    let mut ep = default_endpointer();
    let frame = vec![0i16; 480];
    for _ in 0..12 {
        ep.process(&frame, VADClass::Speech).unwrap();
    }
    assert!(ep.get_in_speech());
    for _ in 0..8 {
        assert_eq!(ep.process(&frame, VADClass::NotSpeech), Ok(Some(&frame[..])));
        assert!(ep.get_in_speech());
    }
    assert_eq!(ep.process(&frame, VADClass::NotSpeech), Ok(None));
    assert!(!ep.get_in_speech());
    assert_eq!(ep.get_speech_start(), 0);
    assert_eq!(ep.get_speech_end(), 12 * 480);
}

#[test]
fn a_second_region_has_its_own_times() {
    let mut ep = Endpointer::new(Some(40), Some(500), VADMode::Loose, Some(1), 8000, 80).unwrap();
    assert_eq!(ep.get_window_frames(), 4);
    let frame = vec![0i16; 80];
    let classes = [
        VADClass::Speech,
        VADClass::Speech,
        VADClass::NotSpeech,
        VADClass::NotSpeech,
        VADClass::NotSpeech,
        VADClass::Speech,
        VADClass::Speech,
    ];
    let mut states = Vec::new();
    for c in classes {
        ep.process(&frame, c).unwrap();
        states.push(ep.get_in_speech());
    }
    assert_eq!(states, vec![false, true, true, false, false, false, true]);
    assert_eq!(ep.get_speech_end(), 160);
    assert_eq!(ep.get_speech_start(), 240);
}

#[test]
fn a_frame_of_another_length_is_refused() {
    let mut ep = default_endpointer();
    let good = vec![0i16; 480];
    for _ in 0..4 {
        ep.process(&good, VADClass::Speech).unwrap();
    }
    let short = vec![0i16; 479];
    let long = vec![0i16; 481];
    let empty: Vec<i16> = Vec::new();
    assert_eq!(
        ep.process(&short, VADClass::Speech),
        Err(Error::FrameSizeMismatch)
    );
    assert_eq!(
        ep.process(&long, VADClass::Speech),
        Err(Error::FrameSizeMismatch)
    );
    assert_eq!(
        ep.process(&empty, VADClass::Speech),
        Err(Error::FrameSizeMismatch)
    );
    assert_eq!(ep.get_frame_size(), 480);
    for _ in 0..4 {
        assert_eq!(ep.process(&good, VADClass::Speech), Ok(None));
    }
    assert_eq!(ep.process(&good, VADClass::Speech), Ok(Some(&good[..])));
    assert_eq!(ep.get_frame_size(), 480);
}

#[test]
fn a_failed_classification_is_refused() {
    let mut ep = default_endpointer();
    let frame = vec![0i16; 480];
    assert_eq!(
        ep.process(&frame, VADClass::Error),
        Err(Error::EngineFailure)
    );
    assert!(!ep.get_in_speech());
    for _ in 0..8 {
        assert_eq!(ep.process(&frame, VADClass::Speech), Ok(None));
    }
    assert_eq!(
        ep.process(&frame, VADClass::Error),
        Err(Error::EngineFailure)
    );
    assert_eq!(ep.process(&frame, VADClass::Speech), Ok(Some(&frame[..])));
}

#[test]
fn end_stream_returns_the_tail_of_a_speech_region() {
    let mut ep = default_endpointer();
    let frame = vec![0i16; 480];
    for _ in 0..10 {
        ep.process(&frame, VADClass::Speech).unwrap();
    }
    let tail = vec![3i16; 100];
    assert_eq!(ep.end_stream(&tail), Ok(Some(&tail[..])));
    assert!(!ep.get_in_speech());
    assert_eq!(ep.get_speech_end(), 10 * 480 + 100);
    assert_eq!(ep.get_speech_start(), 0);
}

#[test]
fn end_stream_out_of_speech_returns_nothing() {
    let mut ep = default_endpointer();
    let frame = vec![0i16; 480];
    for _ in 0..5 {
        ep.process(&frame, VADClass::Speech).unwrap();
    }
    let tail = vec![3i16; 100];
    assert_eq!(ep.end_stream(&tail), Ok(None));
    assert!(!ep.get_in_speech());
    assert_eq!(ep.get_speech_end(), 0);
}

#[test]
fn end_stream_without_samples_returns_nothing() {
    let mut ep = default_endpointer();
    let frame = vec![0i16; 480];
    for _ in 0..10 {
        ep.process(&frame, VADClass::Speech).unwrap();
    }
    let tail: Vec<i16> = Vec::new();
    assert_eq!(ep.end_stream(&tail), Ok(None));
    assert!(!ep.get_in_speech());
    assert_eq!(ep.get_speech_end(), 4800);
}

#[test]
fn end_stream_refuses_more_than_a_frame() {
    let mut ep = default_endpointer();
    let frame = vec![0i16; 480];
    for _ in 0..10 {
        ep.process(&frame, VADClass::Speech).unwrap();
    }
    let tail = vec![0i16; 481];
    assert_eq!(ep.end_stream(&tail), Err(Error::FrameSizeMismatch));
    assert!(ep.get_in_speech());
    let full = vec![0i16; 480];
    assert_eq!(ep.end_stream(&full), Ok(Some(&full[..])));
}

#[test]
fn end_stream_empties_the_window() {
    let mut ep = default_endpointer();
    let frame = vec![0i16; 480];
    for _ in 0..8 {
        ep.process(&frame, VADClass::Speech).unwrap();
    }
    let tail: Vec<i16> = Vec::new();
    assert_eq!(ep.end_stream(&tail), Ok(None));
    for _ in 0..8 {
        assert_eq!(ep.process(&frame, VADClass::Speech), Ok(None));
    }
    assert_eq!(ep.process(&frame, VADClass::Speech), Ok(Some(&frame[..])));
    assert_eq!(ep.get_speech_start(), 8 * 480);
}

#[test]
fn the_vad_of_an_endpointer_stays_its_own() {
    let mut ep = Endpointer::new(None, None, VADMode::MediumStrict, Some(77), 16000, 480).unwrap();
    let mut vad = ep.get_vad();
    assert_eq!(vad.set_input_params(0, 8000, 160), Err(Error::UsageError));
    assert_eq!(vad.get_inner(), 77);
    assert_eq!(vad.get_mode(), VADMode::MediumStrict);
    assert_eq!(vad.get_frame_size(), 480);
    assert_eq!(ep.get_inner(), 77);
    let h = ep.retain();
    assert_eq!(h.get_inner(), 77);
    assert!(!h.is_retained());
    assert!(!ep.is_retained());
    assert_eq!(ep.get_frame_size(), 480);
}

#[test]
fn default_endpointer_is_loose() {
    let ep = Endpointer::default(Some(4), 16000, 480).unwrap();
    assert_eq!(ep.get_window_frames(), 10);
    let vad = VAD::from_endpointer(&ep);
    assert_eq!(vad.get_mode(), VADMode::Loose);
    assert_eq!(vad.get_inner(), 4);
    assert_eq!(
        Endpointer::default(None, 16000, 480).err(),
        Some(Error::InitializationFailure)
    );
}

#[test]
fn a_region_ends_no_earlier_than_it_started() {
    let mut ep = Endpointer::new(Some(40), Some(750), VADMode::Loose, Some(1), 8000, 80).unwrap();
    let frame = vec![0i16; 80];
    let pattern = [true, true, true, false, true, false, false, false, true, true, true, true,
        false, false, false, false];
    let mut regions = 0;
    for round in 0..5 {
        for (i, speech) in pattern.iter().enumerate() {
            let class = if *speech { VADClass::Speech } else { VADClass::NotSpeech };
            let before = ep.get_in_speech();
            ep.process(&frame, class).unwrap();
            if before && !ep.get_in_speech() {
                regions += 1;
                assert!(
                    ep.get_speech_start() <= ep.get_speech_end(),
                    "round {round} frame {i}"
                );
            }
        }
    }
    assert!(regions >= 5);
}

#[test]
fn a_retained_endpointer_is_freed_by_the_last_to_go() {
    let mut pool = ResourcePool::new();
    let id = pool.create();
    let mut ep = Endpointer::default(Some(id), 16000, 480).unwrap();
    assert_eq!(pool.retain(id), Ok(()));
    let kept = ep.retain();
    assert_eq!(pool.count(id), 2);
    let released = kept.release().unwrap();
    assert!(!pool.release(released));
    assert_eq!(pool.times_freed(id), 0);
    let released = ep.release().unwrap();
    assert!(pool.release(released));
    assert_eq!(pool.times_freed(id), 1);
    assert_eq!(pool.count(id), 0);
}
