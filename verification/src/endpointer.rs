//! Endpointing: where speech starts and ends in a stream of audio.
//!
//! An [`Endpointer`] takes the frames of a stream one by one, each with the
//! classifier's verdict on it, and keeps a window of the most recent verdicts.
//! It enters speech when the share of speech frames in the window reaches the
//! ratio, and leaves speech when the share of the other frames does. What it
//! does is fixed by the mathematical model [`EndpointerState`] and its
//! transition function [`step`].
//!
//! Times are counted in samples since the start of the stream.

use vstd::prelude::*;
use crate::error::Error;
use crate::resource::ResourceHandle;
use crate::vad::{format_ok, FrameLength, VADClass, VADMode, VAD};

verus! {

/// The decision window in milliseconds when none is asked for.
pub const DEFAULT_WINDOW_MS: u32 = 300;

/// The ratio in thousandths when none is asked for.
pub const DEFAULT_RATIO_PERMILLE: u32 = 900;

/// The state of an endpointer as mathematics.
pub struct EndpointerState {
    /// How many verdicts the window holds at most.
    pub cap: nat,
    /// The share of the window that triggers a transition, in thousandths.
    pub ratio: nat,
    /// The number of samples in a frame.
    pub frame_size: nat,
    /// The most recent verdicts, oldest first; `true` stands for speech.
    pub window: Seq<bool>,
    /// Whether the stream is in a speech region.
    pub in_speech: bool,
    /// When the last speech region started.
    pub speech_start: nat,
    /// When the last completed speech region ended.
    pub speech_end: nat,
    /// The number of samples consumed so far.
    pub clock: nat,
    /// The end of the last frame that was classified as speech.
    pub last_speech: nat,
}

/// The number of speech verdicts in a window.
pub open spec fn count_speech(w: Seq<bool>) -> nat
    decreases w.len(),
{
    if w.len() == 0 {
        0
    } else {
        count_speech(w.drop_last()) + if w.last() {
            1nat
        } else {
            0nat
        }
    }
}

/// The window with a new verdict at its end. A full window drops its oldest
/// verdict to make room.
pub open spec fn push_window(w: Seq<bool>, cap: nat, speech: bool) -> Seq<bool> {
    if w.len() + 1 > cap {
        w.push(speech).drop_first()
    } else {
        w.push(speech)
    }
}

/// Whether `count` frames out of a window of `cap` meet the ratio.
pub open spec fn meets_ratio(count: nat, cap: nat, ratio: nat) -> bool {
    count * 1000 >= ratio * cap
}

/// The number of whole frames in a window of `window_ms` milliseconds.
pub open spec fn window_frames(window_ms: u32, sample_rate: i32, frame_size: usize) -> nat {
    ((window_ms as int * sample_rate as int) / (1000 * frame_size as int)) as nat
}

/// The state after a frame with the given verdict.
///
/// The verdict enters the window and the clock moves on by one frame. Out of
/// speech, the endpointer enters speech if the speech frames in the window
/// meet the ratio, and the region starts with the oldest frame in the window.
/// In speech, it leaves speech if the other frames in the window meet the
/// ratio, and the region ends with the last frame classified as speech.
pub open spec fn step(s: EndpointerState, speech: bool) -> EndpointerState {
    let window = push_window(s.window, s.cap, speech);
    let clock = s.clock + s.frame_size;
    let last_speech = if speech {
        clock
    } else {
        s.last_speech
    };
    let n_speech = count_speech(window);
    let n_other = (window.len() - n_speech) as nat;
    if !s.in_speech && meets_ratio(n_speech, s.cap, s.ratio) {
        EndpointerState {
            window,
            clock,
            last_speech,
            in_speech: true,
            speech_start: (clock - window.len() * s.frame_size) as nat,
            ..s
        }
    } else if s.in_speech && meets_ratio(n_other, s.cap, s.ratio) {
        EndpointerState { window, clock, last_speech, in_speech: false, speech_end: last_speech, ..s }
    } else {
        EndpointerState { window, clock, last_speech, ..s }
    }
}

/// The state after the stream has ended with `tail` more samples: the window
/// is empty and the endpointer is out of speech. A region that was open ends
/// with the last sample of the stream.
pub open spec fn finish(s: EndpointerState, tail: nat) -> EndpointerState {
    let clock = s.clock + tail;
    if s.in_speech {
        EndpointerState {
            window: Seq::empty(),
            clock,
            last_speech: clock,
            in_speech: false,
            speech_end: clock,
            ..s
        }
    } else {
        EndpointerState { window: Seq::empty(), clock, ..s }
    }
}

/// What holds of every state that an endpointer reaches: the window is
/// within its capacity and the ratio is a share; no time lies after the
/// clock; the last speech frame ended no earlier than any speech frame in the
/// window; and a speech region that is open started before its last speech
/// frame ended.
pub open spec fn consistent(s: EndpointerState) -> bool {
    &&& s.cap >= 1
    &&& 1 <= s.ratio <= 1000
    &&& s.frame_size >= 1
    &&& s.window.len() <= s.cap
    &&& s.window.len() * s.frame_size <= s.clock
    &&& s.last_speech <= s.clock
    &&& s.speech_start <= s.clock
    &&& s.speech_end <= s.clock
    &&& forall|i: int|
        0 <= i < s.window.len() && #[trigger] s.window[i] ==> s.last_speech + (s.window.len() - 1
            - i) * s.frame_size >= s.clock
    &&& s.in_speech ==> s.speech_start <= s.last_speech
}

/// A window that counts a speech verdict holds one.
pub proof fn lemma_count_positive(w: Seq<bool>) -> (i: int)
    requires
        count_speech(w) > 0,
    ensures
        0 <= i < w.len(),
        w[i],
    decreases w.len(),
{
    if w.last() {
        w.len() - 1
    } else {
        lemma_count_positive(w.drop_last())
    }
}

/// A frame keeps a state consistent. A speech region starts before the last
/// speech frame ends, keeps its start for as long as it is open, and ends no
/// earlier than it started.
pub proof fn lemma_step_consistent(s: EndpointerState, speech: bool)
    requires
        consistent(s),
    ensures
        consistent(step(s, speech)),
        s.in_speech ==> step(s, speech).speech_start == s.speech_start,
        !step(s, speech).in_speech ==> step(s, speech).speech_start == s.speech_start,
        !s.in_speech && step(s, speech).in_speech ==> step(s, speech).speech_start + s.frame_size
            <= step(s, speech).last_speech && step(s, speech).speech_start + step(
            s,
            speech,
        ).window.len() * s.frame_size == step(s, speech).clock,
        s.in_speech && !step(s, speech).in_speech ==> step(s, speech).speech_start <= step(
            s,
            speech,
        ).speech_end,
{
    let t = step(s, speech);
    let w = t.window;
    let fs = s.frame_size;
    let n = s.window.len();
    let evicted = n + 1 > s.cap;
    assert(w == push_window(s.window, s.cap, speech));
    assert(t.clock == s.clock + fs);
    assert(w.len() == if evicted {
        n
    } else {
        n + 1
    });
    assert(w.len() * fs <= t.clock) by (nonlinear_arith)
        requires
            n * fs <= s.clock,
            t.clock == s.clock + fs,
            w.len() <= n + 1,
            fs >= 0,
    ;
    assert forall|i: int| 0 <= i < w.len() && #[trigger] w[i] implies t.last_speech + (w.len() - 1
        - i) * fs >= t.clock by {
        if i == w.len() - 1 {
            assert(w[i] == speech);
            assert((w.len() - 1 - i) * fs == 0) by (nonlinear_arith)
                requires
                    i == w.len() - 1,
            ;
        } else {
            let j = if evicted {
                i + 1
            } else {
                i
            };
            assert(w[i] == s.window[j]);
            assert(s.last_speech + (n - 1 - j) * fs >= s.clock);
            assert((w.len() - 1 - i) * fs == (n - 1 - j) * fs + fs) by (nonlinear_arith)
                requires
                    w.len() - 1 - i == n - 1 - j + 1,
            ;
        }
    }
    if !s.in_speech && t.in_speech {
        assert(count_speech(w) > 0) by (nonlinear_arith)
            requires
                count_speech(w) * 1000 >= s.ratio * s.cap,
                s.ratio >= 1,
                s.cap >= 1,
        ;
        let i = lemma_count_positive(w);
        assert(t.last_speech + (w.len() - 1 - i) * fs >= t.clock);
        assert((w.len() - 1 - i) * fs + fs <= w.len() * fs) by (nonlinear_arith)
            requires
                0 <= i < w.len(),
                fs >= 0,
        ;
    }
}

/// The end of the stream keeps a state consistent, and a speech region that
/// it closes ends no earlier than it started.
pub proof fn lemma_finish_consistent(s: EndpointerState, tail: nat)
    requires
        consistent(s),
    ensures
        consistent(finish(s, tail)),
        finish(s, tail).speech_start == s.speech_start,
        s.in_speech ==> finish(s, tail).speech_start <= finish(s, tail).speech_end,
{
    assert(0 * s.frame_size == 0) by (nonlinear_arith);
}

/// Out of speech, a frame with which the speech frames in the window meet
/// the ratio opens a speech region that starts with the oldest frame in the
/// window; any other frame leaves the endpointer out of speech and the start
/// of the last region as it was.
pub proof fn lemma_onset(s: EndpointerState, speech: bool)
    requires
        !s.in_speech,
    ensures
        ({
            let w = push_window(s.window, s.cap, speech);
            let t = step(s, speech);
            &&& meets_ratio(count_speech(w), s.cap, s.ratio) ==> t.in_speech && t.speech_start
                == (s.clock + s.frame_size - w.len() * s.frame_size) as nat
            &&& !meets_ratio(count_speech(w), s.cap, s.ratio) ==> !t.in_speech && t.speech_start
                == s.speech_start && t.speech_end == s.speech_end
        }),
{
}

/// The state after `k` frames in a row that were all classified as speech.
pub open spec fn run_speech(s: EndpointerState, k: nat) -> EndpointerState
    decreases k,
{
    if k == 0 {
        s
    } else {
        step(run_speech(s, (k - 1) as nat), true)
    }
}

/// A window never holds more speech verdicts than verdicts.
pub proof fn lemma_count_bounded(w: Seq<bool>)
    ensures
        count_speech(w) <= w.len(),
    decreases w.len(),
{
    if w.len() > 0 {
        lemma_count_bounded(w.drop_last());
    }
}

/// Counting after a push: the new verdict counts if it is speech.
pub proof fn lemma_count_push(w: Seq<bool>, b: bool)
    ensures
        count_speech(w.push(b)) == count_speech(w) + if b {
            1nat
        } else {
            0nat
        },
{
    assert(w.push(b).drop_last() =~= w);
}

/// Counting after the oldest verdict left: it no longer counts.
pub proof fn lemma_count_drop_first(w: Seq<bool>)
    requires
        w.len() > 0,
    ensures
        count_speech(w.drop_first()) + (if w[0] {
            1nat
        } else {
            0nat
        }) == count_speech(w),
    decreases w.len(),
{
    if w.len() == 1 {
        assert(w.drop_first() =~= Seq::<bool>::empty());
        assert(w.drop_last() =~= Seq::<bool>::empty());
    } else {
        lemma_count_drop_first(w.drop_last());
        assert(w.drop_first().drop_last() =~= w.drop_last().drop_first());
    }
}

/// A window of speech verdicts only counts all of them.
pub proof fn lemma_count_all_speech(w: Seq<bool>)
    requires
        forall|i: int| 0 <= i < w.len() ==> w[i],
    ensures
        count_speech(w) == w.len(),
    decreases w.len(),
{
    if w.len() > 0 {
        lemma_count_all_speech(w.drop_last());
    }
}

/// When the endpointer enters speech. Out of speech, a frame takes the
/// endpointer into speech if and only if, with that frame in the window, the
/// speech frames meet the ratio; and in speech, a frame keeps it there if and
/// only if the other frames do not meet the ratio.
pub proof fn lemma_transition_exact(s: EndpointerState, speech: bool)
    ensures
        !s.in_speech ==> (step(s, speech).in_speech <==> meets_ratio(
            count_speech(push_window(s.window, s.cap, speech)),
            s.cap,
            s.ratio,
        )),
        s.in_speech ==> (step(s, speech).in_speech <==> !meets_ratio(
            (push_window(s.window, s.cap, speech).len() - count_speech(
                push_window(s.window, s.cap, speech),
            )) as nat,
            s.cap,
            s.ratio,
        )),
{
}

/// The window after `k` speech frames, starting from an empty one, is the
/// smaller of `k` and the capacity speech verdicts.
proof fn lemma_run_speech_window(s: EndpointerState, k: nat)
    requires
        s.cap >= 1,
        1 <= s.ratio <= 1000,
        s.window.len() == 0,
        !s.in_speech,
    ensures
        run_speech(s, k).cap == s.cap,
        run_speech(s, k).ratio == s.ratio,
        run_speech(s, k).window.len() == if k <= s.cap {
            k
        } else {
            s.cap
        },
        forall|i: int| 0 <= i < run_speech(s, k).window.len() ==> run_speech(s, k).window[i],
        run_speech(s, k).in_speech == meets_ratio(k, s.cap, s.ratio),
    decreases k,
{
    assert(!meets_ratio(0, s.cap, s.ratio)) by (nonlinear_arith)
        requires
            s.ratio >= 1,
            s.cap >= 1,
    ;
    if k > 0 {
        let p = run_speech(s, (k - 1) as nat);
        lemma_run_speech_window(s, (k - 1) as nat);
        let w = push_window(p.window, p.cap, true);
        lemma_count_all_speech(w);
        let n = count_speech(w);
        assert(n == if k <= s.cap {
            k
        } else {
            s.cap
        });
        assert(run_speech(s, k) == step(p, true));
        assert(w.len() == n);
        assert(meets_ratio(s.cap, s.cap, s.ratio)) by (nonlinear_arith)
            requires
                s.ratio <= 1000,
        ;
        if k > s.cap {
            assert(meets_ratio(k, s.cap, s.ratio)) by (nonlinear_arith)
                requires
                    k > s.cap,
                    s.ratio <= 1000,
            ;
            assert(meets_ratio((k - 1) as nat, s.cap, s.ratio)) by (nonlinear_arith)
                requires
                    k - 1 >= s.cap,
                    s.ratio <= 1000,
            ;
        } else {
            if meets_ratio((k - 1) as nat, s.cap, s.ratio) {
                assert(meets_ratio(k, s.cap, s.ratio));
            }
        }
    }
}

/// Hysteresis on a stream of identical speech frames. An endpointer that
/// starts out of speech with an empty window is in speech after `k` speech
/// frames if and only if `k` frames meet the ratio: it enters speech on the
/// first frame at which they do, on no earlier frame, and stays there.
pub proof fn lemma_speech_onset(s: EndpointerState, k: nat)
    requires
        s.cap >= 1,
        1 <= s.ratio <= 1000,
        s.window.len() == 0,
        !s.in_speech,
    ensures
        run_speech(s, k).in_speech == meets_ratio(k, s.cap, s.ratio),
        k >= s.cap ==> run_speech(s, k).in_speech,
{
    lemma_run_speech_window(s, k);
    if k >= s.cap {
        assert(meets_ratio(k, s.cap, s.ratio)) by (nonlinear_arith)
            requires
                k >= s.cap,
                s.ratio <= 1000,
        ;
    }
}

/// One transition on a stream of speech frames. Once an endpointer that
/// started out of speech with an empty window is in speech, every further
/// speech frame finds it in speech and leaves it there, and the start of the
/// region stays what it was.
pub proof fn lemma_speech_onset_once(s: EndpointerState, j: nat, k: nat)
    requires
        s.cap >= 1,
        1 <= s.ratio <= 1000,
        s.window.len() == 0,
        !s.in_speech,
        j <= k,
        run_speech(s, j).in_speech,
    ensures
        run_speech(s, k).in_speech,
        run_speech(s, k).speech_start == run_speech(s, j).speech_start,
    decreases k - j,
{
    if j < k {
        lemma_speech_onset_once(s, j, (k - 1) as nat);
        lemma_speech_onset(s, (k - 1) as nat);
        lemma_speech_onset(s, k);
        assert(meets_ratio((k - 1) as nat, s.cap, s.ratio));
        assert(meets_ratio(k, s.cap, s.ratio));
    }
}

/// The state after `k` frames in a row of which none was classified as
/// speech.
pub open spec fn run_silence(s: EndpointerState, k: nat) -> EndpointerState
    decreases k,
{
    if k == 0 {
        s
    } else {
        step(run_silence(s, (k - 1) as nat), false)
    }
}

/// A window of `a` speech verdicts followed by `b` others.
pub open spec fn speech_then_silence(a: nat, b: nat) -> Seq<bool> {
    Seq::new(a + b, |i: int| i < a)
}

/// Of `a` speech verdicts followed by `b` others, `a` are speech.
proof fn lemma_count_speech_then_silence(a: nat, b: nat)
    ensures
        count_speech(speech_then_silence(a, b)) == a,
    decreases b,
{
    let w = speech_then_silence(a, b);
    if b == 0 {
        lemma_count_all_speech(w);
    } else {
        lemma_count_speech_then_silence(a, (b - 1) as nat);
        assert(w.drop_last() =~= speech_then_silence(a, (b - 1) as nat));
        assert(!w.last());
    }
}

/// The window after `k` frames without speech, starting in speech from a
/// full window of speech verdicts, holds what is left of the speech verdicts
/// followed by the new ones.
proof fn lemma_run_silence_window(s: EndpointerState, k: nat)
    requires
        s.cap >= 1,
        500 < s.ratio <= 1000,
        s.in_speech,
        s.window =~= speech_then_silence(s.cap, 0),
    ensures
        run_silence(s, k).cap == s.cap,
        run_silence(s, k).ratio == s.ratio,
        run_silence(s, k).window =~= if k <= s.cap {
            speech_then_silence((s.cap - k) as nat, k)
        } else {
            speech_then_silence(0, s.cap)
        },
        run_silence(s, k).in_speech == !meets_ratio(k, s.cap, s.ratio),
    decreases k,
{
    let cap = s.cap;
    let ratio = s.ratio;
    assert(!meets_ratio(0, cap, ratio)) by (nonlinear_arith)
        requires
            ratio >= 1,
            cap >= 1,
    ;
    if k > 0 {
        let j = (k - 1) as nat;
        let p = run_silence(s, j);
        lemma_run_silence_window(s, j);
        let w = push_window(p.window, cap, false);
        let a: nat = if k <= cap {
            (cap - k) as nat
        } else {
            0
        };
        let b: nat = if k <= cap {
            k
        } else {
            cap
        };
        assert(p.window.len() == cap);
        assert(w =~= speech_then_silence(a, b));
        lemma_count_speech_then_silence(a, b);
        assert(count_speech(w) == a);
        assert(w.len() - count_speech(w) == b);
        assert(run_silence(s, k) == step(p, false));
        if k > cap {
            assert(meets_ratio(j, cap, ratio)) by (nonlinear_arith)
                requires
                    j >= cap,
                    ratio <= 1000,
            ;
            assert(meets_ratio(k, cap, ratio));
            assert(!meets_ratio(a, cap, ratio));
        } else if meets_ratio(j, cap, ratio) {
            assert(meets_ratio(k, cap, ratio));
            assert(!meets_ratio(a, cap, ratio)) by (nonlinear_arith)
                requires
                    a == cap - k,
                    k <= cap,
                    (k - 1) * 1000 >= ratio * cap,
                    ratio > 500,
                    cap >= 1,
            ;
        }
    }
}

/// Hysteresis on the way out. An endpointer that is in speech with a full
/// window of speech verdicts, and whose ratio is more than half, is still in
/// speech after `k` frames without speech if and only if `k` frames do not
/// meet the ratio: it leaves speech on the first frame at which they do, on
/// no earlier frame, and does not return.
pub proof fn lemma_speech_offset(s: EndpointerState, k: nat)
    requires
        s.cap >= 1,
        500 < s.ratio <= 1000,
        s.in_speech,
        s.window.len() == s.cap,
        forall|i: int| 0 <= i < s.window.len() ==> s.window[i],
    ensures
        run_silence(s, k).in_speech == !meets_ratio(k, s.cap, s.ratio),
        k >= s.cap ==> !run_silence(s, k).in_speech,
{
    assert(s.window =~= speech_then_silence(s.cap, 0));
    lemma_run_silence_window(s, k);
    if k >= s.cap {
        assert(meets_ratio(k, s.cap, s.ratio)) by (nonlinear_arith)
            requires
                k >= s.cap,
                s.ratio <= 1000,
        ;
    }
}

/// An endpointer: a classifier's frame format, a decision window, and the
/// speech region the stream is in.
pub struct Endpointer {
    vad: VAD,
    cap: usize,
    ratio: u32,
    window: Vec<bool>,
    n_speech: usize,
    in_speech: bool,
    speech_start: u64,
    speech_end: u64,
    clock: u64,
    last_speech: u64,
}

impl Endpointer {
    /// The state of the endpointer as mathematics.
    pub closed spec fn view(&self) -> EndpointerState {
        EndpointerState {
            cap: self.cap as nat,
            ratio: self.ratio as nat,
            frame_size: self.vad.frame_size() as nat,
            window: self.window@,
            in_speech: self.in_speech,
            speech_start: self.speech_start as nat,
            speech_end: self.speech_end as nat,
            clock: self.clock as nat,
            last_speech: self.last_speech as nat,
        }
    }

    /// The classifier whose verdicts the endpointer takes.
    pub closed spec fn vad(&self) -> VAD {
        self.vad
    }

    /// The classifier is well-formed, the state is consistent, and the count
    /// of speech verdicts is that of the window.
    pub closed spec fn wf(&self) -> bool {
        &&& self.vad.wf()
        &&& consistent(self@)
        &&& self.n_speech == count_speech(self.window@)
    }

    /// What well-formedness says of the model.
    pub proof fn lemma_wf(&self)
        requires
            self.wf(),
        ensures
            self.vad().wf(),
            self@.frame_size == self.vad().frame_size(),
            consistent(self@),
            self@.clock <= u64::MAX,
    {
    }

    /// Sets up endpointing on a classifier that the engine has set up.
    ///
    /// `window` is the length of the decision window in milliseconds and
    /// `ratio` the share of the window that triggers a transition, in
    /// thousandths; `None` and zero both ask for the default. `resource`,
    /// `sample_rate` and `frame_size` describe the engine's classifier as for
    /// [`VAD::new`]. Fails if the classifier could not be set up, if the ratio
    /// is more than the whole window, or if the window is shorter than one
    /// frame or holds more frames than can be counted.
    pub fn new(
        window: Option<u32>,
        ratio: Option<u32>,
        mode: VADMode,
        resource: Option<usize>,
        sample_rate: i32,
        frame_size: usize,
    ) -> (r: Result<Endpointer, Error>)
        ensures
            ({
                let w = Self::window_or_default(window);
                let q = Self::ratio_or_default(ratio);
                let ok = resource is Some && format_ok(sample_rate, frame_size) && q <= 1000 && 1
                    <= window_frames(w, sample_rate, frame_size) <= usize::MAX;
                &&& !ok ==> r is Err && r->Err_0 == Error::InitializationFailure
                &&& ok ==> (r matches Ok(ep) && ep.wf() && ep@ == (EndpointerState {
                    cap: window_frames(w, sample_rate, frame_size),
                    ratio: q as nat,
                    frame_size: frame_size as nat,
                    window: Seq::empty(),
                    in_speech: false,
                    speech_start: 0,
                    speech_end: 0,
                    clock: 0,
                    last_speech: 0,
                }) && ep.vad().mode() == mode && ep.vad().sample_rate() == sample_rate
                    && ep.vad().frame_size() == frame_size && ep.vad().handle().id()
                    == resource->Some_0 && ep.vad().handle().owns())
            }),
    {
        let w: u32 = match window {
            Some(w) => if w == 0 {
                DEFAULT_WINDOW_MS
            } else {
                w
            },
            None => DEFAULT_WINDOW_MS,
        };
        let q: u32 = match ratio {
            Some(q) => if q == 0 {
                DEFAULT_RATIO_PERMILLE
            } else {
                q
            },
            None => DEFAULT_RATIO_PERMILLE,
        };
        let vad = match VAD::new(mode, resource, sample_rate, frame_size) {
            Ok(vad) => vad,
            Err(e) => {
                return Err(e);
            },
        };
        if q > 1000 {
            return Err(Error::InitializationFailure);
        }
        assert(w as u64 * sample_rate as u64 <= 0xffff_ffff * 0x7fff_ffff) by (nonlinear_arith)
            requires
                w <= 0xffff_ffff,
                0 < sample_rate <= 0x7fff_ffff,
        ;
        let num: u64 = (w as u64) * (sample_rate as u64);
        let den: u64 = 1000 * (frame_size as u64);
        let frames: u64 = num / den;
        if frames == 0 || frames > usize::MAX as u64 {
            return Err(Error::InitializationFailure);
        }
        let cap: usize = frames as usize;
        proof {
            vad.lemma_wf();
        }
        Ok(
            Endpointer {
                vad,
                cap,
                ratio: q,
                window: Vec::new(),
                n_speech: 0,
                in_speech: false,
                speech_start: 0,
                speech_end: 0,
                clock: 0,
                last_speech: 0,
            },
        )
    }

    /// Sets up endpointing with the default window, ratio and mode on a
    /// classifier that the engine has set up with its defaults.
    pub fn default(resource: Option<usize>, sample_rate: i32, frame_size: usize) -> (r: Result<
        Endpointer,
        Error,
    >)
        ensures
            ({
                let ok = resource is Some && format_ok(sample_rate, frame_size) && 1
                    <= window_frames(DEFAULT_WINDOW_MS, sample_rate, frame_size) <= usize::MAX;
                &&& !ok ==> r is Err && r->Err_0 == Error::InitializationFailure
                &&& ok ==> (r matches Ok(ep) && ep.wf() && ep@ == (EndpointerState {
                    cap: window_frames(DEFAULT_WINDOW_MS, sample_rate, frame_size),
                    ratio: DEFAULT_RATIO_PERMILLE as nat,
                    frame_size: frame_size as nat,
                    window: Seq::empty(),
                    in_speech: false,
                    speech_start: 0,
                    speech_end: 0,
                    clock: 0,
                    last_speech: 0,
                }) && ep.vad().mode() == VADMode::Loose && ep.vad().sample_rate() == sample_rate
                    && ep.vad().frame_size() == frame_size && ep.vad().handle().id()
                    == resource->Some_0 && ep.vad().handle().owns())
            }),
    {
        Endpointer::new(None, None, VADMode::Loose, resource, sample_rate, frame_size)
    }

    /// The window length that a request stands for, in milliseconds.
    pub open spec fn window_or_default(window: Option<u32>) -> u32 {
        match window {
            Some(w) => if w == 0 {
                DEFAULT_WINDOW_MS
            } else {
                w
            },
            None => DEFAULT_WINDOW_MS,
        }
    }

    /// The ratio that a request stands for, in thousandths.
    pub open spec fn ratio_or_default(ratio: Option<u32>) -> u32 {
        match ratio {
            Some(q) => if q == 0 {
                DEFAULT_RATIO_PERMILLE
            } else {
                q
            },
            None => DEFAULT_RATIO_PERMILLE,
        }
    }

    /// Whether `count` frames of the window meet the ratio.
    fn meets(&self, count: usize) -> (b: bool)
        requires
            1 <= self.ratio <= 1000,
        ensures
            b == meets_ratio(count as nat, self.cap as nat, self.ratio as nat),
    {
        assert(self.ratio as u128 * self.cap as u128 <= 1000 * 0xffff_ffff_ffff_ffff)
            by (nonlinear_arith)
            requires
                self.ratio <= 1000,
                self.cap <= 0xffff_ffff_ffff_ffff,
        ;
        (count as u128) * 1000 >= (self.ratio as u128) * (self.cap as u128)
    }

    /// Takes one frame of the stream with the classifier's verdict on it and
    /// returns the frame itself if the stream is in speech after it.
    ///
    /// A frame that does not have exactly `get_frame_size()` samples is
    /// refused, and so is a verdict of `Error`; both leave the endpointer as
    /// it was. Otherwise the endpointer moves on as [`step`] says.
    pub fn process<'a>(&mut self, frame: &'a [i16], class: VADClass) -> (r: Result<
        Option<&'a [i16]>,
        Error,
    >)
        requires
            old(self).wf(),
        ensures
            final(self).wf(),
            final(self).vad() == old(self).vad(),
            frame@.len() != old(self)@.frame_size ==> r is Err && r->Err_0
                == Error::FrameSizeMismatch && final(self)@ == old(self)@,
            frame@.len() == old(self)@.frame_size && class == VADClass::Error ==> r is Err
                && r->Err_0 == Error::EngineFailure && final(self)@ == old(self)@,
            frame@.len() == old(self)@.frame_size && class != VADClass::Error && old(self)@.clock
                + old(self)@.frame_size > u64::MAX ==> r is Err && r->Err_0
                == Error::CounterExhausted && final(self)@ == old(self)@,
            frame@.len() == old(self)@.frame_size && class != VADClass::Error && old(self)@.clock
                + old(self)@.frame_size <= u64::MAX ==> r is Ok && final(self)@ == step(
                old(self)@,
                class == VADClass::Speech,
            ) && (final(self)@.in_speech ==> r->Ok_0 == Some(frame)) && (!final(self)@.in_speech
                ==> r->Ok_0 is None),
            old(self)@.in_speech && !final(self)@.in_speech ==> final(self)@.speech_start
                <= final(self)@.speech_end,
            final(self)@.in_speech ==> final(self)@.speech_start <= final(self)@.last_speech,
    {
        let frame_size = self.vad.get_frame_size();
        proof {
            self.vad.lemma_wf();
            lemma_step_consistent(self@, class == VADClass::Speech);
        }
        if frame.len() != frame_size {
            return Err(Error::FrameSizeMismatch);
        }
        let speech = match class {
            VADClass::Error => {
                return Err(Error::EngineFailure);
            },
            VADClass::Speech => true,
            VADClass::NotSpeech => false,
        };
        if self.clock > u64::MAX - frame_size as u64 {
            return Err(Error::CounterExhausted);
        }
        if self.window.len() >= self.cap {
            proof {
                lemma_count_drop_first(self.window@);
                lemma_count_bounded(self.window@.drop_first());
            }
            let oldest = self.window.remove(0);
            if oldest {
                self.n_speech = self.n_speech - 1;
            }
            assert(self.window@ =~= old(self).window@.drop_first());
        }
        proof {
            lemma_count_push(self.window@, speech);
            lemma_count_bounded(self.window@);
        }
        self.window.push(speech);
        if speech {
            self.n_speech = self.n_speech + 1;
        }
        assert(self.window@ =~= push_window(old(self).window@, self.cap as nat, speech));
        proof {
            lemma_count_bounded(self.window@);
            let n = old(self).window@.len();
            assert((n + 1) * frame_size == n * frame_size + frame_size) by (nonlinear_arith);
        }
        self.clock = self.clock + frame_size as u64;
        if speech {
            self.last_speech = self.clock;
        }
        let n_other: usize = self.window.len() - self.n_speech;
        if !self.in_speech {
            if self.meets(self.n_speech) {
                assert(self.window@.len() * frame_size <= self.clock);
                self.in_speech = true;
                self.speech_start = self.clock - (self.window.len() as u64) * (frame_size as u64);
            }
        } else {
            if self.meets(n_other) {
                self.in_speech = false;
                self.speech_end = self.last_speech;
            }
        }
        assert(self@ == step(old(self)@, speech));
        if self.in_speech {
            Ok(Some(frame))
        } else {
            Ok(None)
        }
    }

    /// Ends the stream with its last samples, fewer than a frame or exactly
    /// one, and returns them if the stream was in speech and any are left.
    ///
    /// More samples than a frame holds are refused and leave the endpointer as
    /// it was. Otherwise the endpointer moves on as [`finish`] says.
    pub fn end_stream<'a>(&mut self, frame: &'a [i16]) -> (r: Result<Option<&'a [i16]>, Error>)
        requires
            old(self).wf(),
        ensures
            final(self).wf(),
            final(self).vad() == old(self).vad(),
            frame@.len() > old(self)@.frame_size ==> r is Err && r->Err_0
                == Error::FrameSizeMismatch && final(self)@ == old(self)@,
            frame@.len() <= old(self)@.frame_size && old(self)@.clock + frame@.len() > u64::MAX
                ==> r is Err && r->Err_0 == Error::CounterExhausted && final(self)@ == old(self)@,
            frame@.len() <= old(self)@.frame_size && old(self)@.clock + frame@.len() <= u64::MAX
                ==> r is Ok && final(self)@ == finish(old(self)@, frame@.len()) && (old(self)@.in_speech && frame@.len() > 0 ==> r->Ok_0 == Some(frame)) && (!(old(self)@.in_speech
                && frame@.len() > 0) ==> r->Ok_0 is None),
            r is Ok && old(self)@.in_speech ==> final(self)@.speech_start <= final(
                self)@.speech_end,
    {
        let frame_size = self.vad.get_frame_size();
        proof {
            self.vad.lemma_wf();
            lemma_finish_consistent(self@, frame@.len());
        }
        if frame.len() > frame_size {
            return Err(Error::FrameSizeMismatch);
        }
        if self.clock > u64::MAX - frame.len() as u64 {
            return Err(Error::CounterExhausted);
        }
        let was_in_speech = self.in_speech;
        self.window.clear();
        self.n_speech = 0;
        self.clock = self.clock + frame.len() as u64;
        if was_in_speech {
            self.in_speech = false;
            self.last_speech = self.clock;
            self.speech_end = self.clock;
        }
        assert(self.window@ =~= Seq::<bool>::empty());
        assert(self@ == finish(old(self)@, frame@.len()));
        if was_in_speech && frame.len() > 0 {
            Ok(Some(frame))
        } else {
            Ok(None)
        }
    }

    /// Whether the stream was in speech after the last frame.
    pub fn get_in_speech(&self) -> (b: bool)
        ensures
            b == self@.in_speech,
    {
        self.in_speech
    }

    /// When the last speech region started, in samples since the start of the
    /// stream.
    pub fn get_speech_start(&self) -> (t: u64)
        ensures
            t == self@.speech_start,
    {
        self.speech_start
    }

    /// When the last completed speech region ended, in samples since the
    /// start of the stream.
    pub fn get_speech_end(&self) -> (t: u64)
        ensures
            t == self@.speech_end,
    {
        self.speech_end
    }

    /// The decision window in milliseconds when none is asked for.
    pub fn get_default_window() -> (ms: u32)
        ensures
            ms == DEFAULT_WINDOW_MS,
    {
        DEFAULT_WINDOW_MS
    }

    /// The ratio in thousandths when none is asked for.
    pub fn get_default_ratio() -> (q: u32)
        ensures
            q == DEFAULT_RATIO_PERMILLE,
    {
        DEFAULT_RATIO_PERMILLE
    }

    /// The number of verdicts the decision window holds.
    pub fn get_window_frames(&self) -> (n: usize)
        ensures
            n == self@.cap,
    {
        self.cap
    }

    /// The classifier of this endpointer, which the endpointer keeps owning.
    pub fn get_vad(&self) -> (v: VAD)
        ensures
            v.mode() == self.vad().mode(),
            v.sample_rate() == self.vad().sample_rate(),
            v.frame_size() == self.vad().frame_size(),
            v.handle().id() == self.vad().handle().id(),
            !v.handle().owns(),
            v.fixed(),
            v.wf() == self.vad().wf(),
    {
        self.vad.share()
    }

    /// The number of samples that every frame handed to `process` must have.
    pub fn get_frame_size(&self) -> (n: usize)
        ensures
            n == self.vad().frame_size(),
    {
        self.vad.get_frame_size()
    }

    /// The length of a frame, exactly: the frame size over the sampling
    /// rate.
    pub fn get_frame_length(&self) -> (l: FrameLength)
        ensures
            l.samples == self.vad().frame_size(),
            l.sample_rate == self.vad().sample_rate(),
    {
        self.vad.get_frame_length()
    }

    /// The sampling rate of the stream, in Hz.
    pub fn get_sample_rate(&self) -> (r: i32)
        ensures
            r == self.vad().sample_rate(),
    {
        self.vad.get_sample_rate()
    }

    /// Whether letting go of this object releases nothing in the engine.
    pub fn is_retained(&self) -> (b: bool)
        ensures
            b == !self.vad().handle().owns(),
    {
        self.vad.is_retained()
    }

    /// The identity of the engine's classifier.
    pub fn get_inner(&self) -> (id: usize)
        ensures
            id == self.vad().handle().id(),
    {
        self.vad.get_inner()
    }

    /// Shares the engine's classifier: returns a handle that owns one more
    /// reference, which the caller has taken in the engine. The endpointer
    /// stays as it was, its own reference included.
    pub fn retain(&mut self) -> (h: ResourceHandle)
        ensures
            *final(self) == *old(self),
            h.id() == old(self).vad().handle().id(),
            h.owns(),
    {
        self.vad.share_handle()
    }

    /// Lets the endpointer go and says which resource the engine must
    /// release: the classifier, if and only if the endpointer owns a
    /// reference to it.
    pub fn release(self) -> (r: Option<usize>)
        ensures
            self.vad().handle().owns() ==> r == Some(self.vad().handle().id()),
            !self.vad().handle().owns() ==> r is None,
    {
        self.vad.release()
    }
}

} // verus!
