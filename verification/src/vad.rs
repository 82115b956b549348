//! The voice activity classifier.
//!
//! Classification itself is the engine's work. This module holds what the
//! session knows of a classifier (its mode and the frame format the engine
//! settled on), enforces that frames have exactly that format, and gives the
//! engine's verdict a type.

use vstd::prelude::*;
use crate::endpointer::Endpointer;
use crate::error::Error;
use crate::resource::ResourceHandle;

verus! {

/// How readily the classifier calls a frame speech. Stricter modes are less
/// likely to take noise for speech.
#[derive(Clone, Copy, Debug, PartialEq, Eq, Structural)]
pub enum VADMode {
    Loose,
    MediumLoose,
    MediumStrict,
    Strict,
}

impl VADMode {
    /// The number the engine knows this mode by.
    pub open spec fn spec_code(self) -> int {
        match self {
            VADMode::Loose => 0,
            VADMode::MediumLoose => 1,
            VADMode::MediumStrict => 2,
            VADMode::Strict => 3,
        }
    }

    /// The number the engine knows this mode by.
    pub fn code(self) -> (c: u32)
        ensures
            c == self.spec_code(),
    {
        match self {
            VADMode::Loose => 0,
            VADMode::MediumLoose => 1,
            VADMode::MediumStrict => 2,
            VADMode::Strict => 3,
        }
    }
}

/// The verdict on one frame.
#[derive(Clone, Copy, Debug, PartialEq, Eq, Structural)]
pub enum VADClass {
    Error,
    NotSpeech,
    Speech,
}

impl VADClass {
    /// The number the engine reports this verdict as.
    pub open spec fn spec_code(self) -> int {
        match self {
            VADClass::Error => -1,
            VADClass::NotSpeech => 0,
            VADClass::Speech => 1,
        }
    }
}

/// The length of a frame as a fraction of a second: `samples` samples at
/// `sample_rate` samples a second.
#[derive(Clone, Copy, Debug, PartialEq, Eq, Structural)]
pub struct FrameLength {
    /// The number of samples in the frame.
    pub samples: usize,
    /// The number of samples in a second.
    pub sample_rate: i32,
}

impl FrameLength {
    /// The length in whole microseconds, rounded down.
    pub fn micros(&self) -> (us: u64)
        requires
            format_ok(self.sample_rate, self.samples),
        ensures
            us == (self.samples * 1_000_000) / (self.sample_rate as int),
    {
        (self.samples as u64) * 1_000_000 / (self.sample_rate as u64)
    }
}

/// A voice activity classifier with the frame format it works on.
pub struct VAD {
    handle: ResourceHandle,
    mode: VADMode,
    sample_rate: i32,
    frame_size: usize,
    fixed: bool,
}

/// Whether the engine's report of a frame format makes sense: a positive
/// sampling rate, and frames of at least one sample whose count fits `i32`.
pub open spec fn format_ok(sample_rate: i32, frame_size: usize) -> bool {
    sample_rate > 0 && 0 < frame_size <= i32::MAX
}

impl VAD {
    /// The handle on the engine's classifier.
    pub closed spec fn handle(&self) -> ResourceHandle {
        self.handle
    }

    /// The mode the classifier was made with.
    pub closed spec fn mode(&self) -> VADMode {
        self.mode
    }

    /// The sampling rate the classifier expects, in Hz.
    pub closed spec fn sample_rate(&self) -> i32 {
        self.sample_rate
    }

    /// The number of samples in every frame the classifier takes.
    pub closed spec fn frame_size(&self) -> usize {
        self.frame_size
    }

    /// Whether the frame format can no longer be changed, because an
    /// endpointer counts on it.
    pub closed spec fn fixed(&self) -> bool {
        self.fixed
    }

    /// The frame format is sensible.
    pub closed spec fn wf(&self) -> bool {
        format_ok(self.sample_rate, self.frame_size)
    }

    /// Unfolds `wf`.
    pub proof fn lemma_wf(&self)
        ensures
            self.wf() == format_ok(self.sample_rate(), self.frame_size()),
    {
    }

    /// Records a classifier that the engine has set up. `resource` is what the
    /// engine's constructor returned (`None` for its null result), and
    /// `sample_rate` and `frame_size` are the format the engine settled on,
    /// which may differ from the one requested.
    pub fn new(mode: VADMode, resource: Option<usize>, sample_rate: i32, frame_size: usize) -> (r:
        Result<VAD, Error>)
        ensures
            resource is None || !format_ok(sample_rate, frame_size) ==> r is Err && r->Err_0
                == Error::InitializationFailure,
            resource matches Some(id) ==> (format_ok(sample_rate, frame_size) ==> (r matches Ok(v)
                && v.wf() && v.mode() == mode && v.sample_rate() == sample_rate && v.frame_size()
                == frame_size && v.handle().id() == id && v.handle().owns() && !v.fixed())),
    {
        if sample_rate <= 0 || frame_size == 0 || frame_size > 0x7fff_ffff {
            return Err(Error::InitializationFailure);
        }
        match ResourceHandle::acquire(resource) {
            Ok(handle) => Ok(VAD { handle, mode, sample_rate, frame_size, fixed: false }),
            Err(e) => Err(e),
        }
    }

    /// The classifier of an endpointer, which the endpointer keeps owning.
    pub fn from_endpointer(endpointer: &Endpointer) -> (v: VAD)
        ensures
            v.mode() == endpointer.vad().mode(),
            v.sample_rate() == endpointer.vad().sample_rate(),
            v.frame_size() == endpointer.vad().frame_size(),
            v.handle().id() == endpointer.vad().handle().id(),
            !v.handle().owns(),
            v.fixed(),
            v.wf() == endpointer.vad().wf(),
    {
        endpointer.get_vad()
    }

    /// A second view of this classifier for someone who counts on its frame
    /// format: it does not own the engine's object, and its format is fixed.
    pub fn share(&self) -> (v: VAD)
        ensures
            v.mode() == self.mode(),
            v.sample_rate() == self.sample_rate(),
            v.frame_size() == self.frame_size(),
            v.handle().id() == self.handle().id(),
            !v.handle().owns(),
            v.fixed(),
            v.wf() == self.wf(),
    {
        VAD {
            handle: ResourceHandle::borrowed(self.handle.get_inner()),
            mode: self.mode,
            sample_rate: self.sample_rate,
            frame_size: self.frame_size,
            fixed: true,
        }
    }

    /// Fixes the frame format for good.
    pub fn freeze(&mut self)
        ensures
            final(self).fixed(),
            final(self).mode() == old(self).mode(),
            final(self).sample_rate() == old(self).sample_rate(),
            final(self).frame_size() == old(self).frame_size(),
            final(self).handle() == old(self).handle(),
            final(self).wf() == old(self).wf(),
    {
        self.fixed = true;
    }

    /// Whether the frame format can no longer be changed.
    pub fn is_fixed(&self) -> (b: bool)
        ensures
            b == self.fixed(),
    {
        self.fixed
    }

    /// Shares the engine's classifier: returns a classifier of the same
    /// format that owns one more reference, which the caller has taken in the
    /// engine. This classifier stays as it was, its own reference included.
    pub fn retain(&mut self) -> (v: VAD)
        ensures
            *final(self) == *old(self),
            v.mode() == old(self).mode(),
            v.sample_rate() == old(self).sample_rate(),
            v.frame_size() == old(self).frame_size(),
            v.fixed() == old(self).fixed(),
            v.wf() == old(self).wf(),
            v.handle().id() == old(self).handle().id(),
            v.handle().owns(),
    {
        VAD {
            handle: self.handle.retain(),
            mode: self.mode,
            sample_rate: self.sample_rate,
            frame_size: self.frame_size,
            fixed: self.fixed,
        }
    }

    /// A handle that owns one more reference to the engine's classifier,
    /// which the caller has taken in the engine.
    pub fn share_handle(&mut self) -> (h: ResourceHandle)
        ensures
            *final(self) == *old(self),
            h.id() == old(self).handle().id(),
            h.owns(),
    {
        self.handle.retain()
    }

    /// Lets the classifier go and says which resource the engine must
    /// release: the classifier, if and only if this object owns a reference
    /// to it.
    pub fn release(self) -> (r: Option<usize>)
        ensures
            self.handle().owns() ==> r == Some(self.handle().id()),
            !self.handle().owns() ==> r is None,
    {
        self.handle.release()
    }

    /// Takes over the frame format after the engine was asked to change it.
    /// `status` is the engine's answer, zero for success; on success
    /// `sample_rate` and `frame_size` are the format it settled on.
    ///
    /// The format of the classifier of an endpointer is fixed: the request is
    /// refused, and the engine must not be asked.
    pub fn set_input_params(&mut self, status: i32, sample_rate: i32, frame_size: usize) -> (r:
        Result<(), Error>)
        requires
            old(self).wf(),
        ensures
            final(self).wf(),
            final(self).mode() == old(self).mode(),
            final(self).handle() == old(self).handle(),
            final(self).fixed() == old(self).fixed(),
            old(self).fixed() ==> r is Err && r->Err_0 == Error::UsageError,
            !old(self).fixed() && !(status == 0 && format_ok(sample_rate, frame_size)) ==> r is Err
                && r->Err_0 == Error::InitializationFailure,
            !old(self).fixed() && status == 0 && format_ok(sample_rate, frame_size) ==> r is Ok
                && final(self).sample_rate() == sample_rate && final(self).frame_size()
                == frame_size,
            r is Err ==> final(self).sample_rate() == old(self).sample_rate() && final(
                self).frame_size() == old(self).frame_size(),
    {
        if self.fixed {
            return Err(Error::UsageError);
        }
        if status != 0 || sample_rate <= 0 || frame_size == 0 || frame_size > 0x7fff_ffff {
            return Err(Error::InitializationFailure);
        }
        self.sample_rate = sample_rate;
        self.frame_size = frame_size;
        Ok(())
    }

    /// The mode the classifier was made with.
    pub fn get_mode(&self) -> (m: VADMode)
        ensures
            m == self.mode(),
    {
        self.mode
    }

    /// The sampling rate the classifier expects, in Hz.
    pub fn get_sample_rate(&self) -> (r: i32)
        ensures
            r == self.sample_rate(),
    {
        self.sample_rate
    }

    /// The number of samples that every frame handed to `classify` must have.
    pub fn get_frame_size(&self) -> (n: usize)
        ensures
            n == self.frame_size(),
    {
        self.frame_size
    }

    /// Whether letting go of this object releases nothing in the engine.
    pub fn is_retained(&self) -> (b: bool)
        ensures
            b == !self.handle().owns(),
    {
        self.handle.is_retained()
    }

    /// The identity of the engine's classifier.
    pub fn get_inner(&self) -> (id: usize)
        ensures
            id == self.handle().id(),
    {
        self.handle.get_inner()
    }

    /// Whether a frame has the length the classifier takes.
    pub fn accepts(&self, frame: &[i16]) -> (b: bool)
        ensures
            b == (frame@.len() == self.frame_size()),
    {
        frame.len() == self.frame_size
    }

    /// Gives the engine's verdict on a frame a type. `code` is what the engine
    /// answered: 1 for speech, 0 for no speech, and anything else for a
    /// failure. A frame of the wrong length is never handed to the engine and
    /// is an `Error`, whatever `code` is. The classifier stays as it was.
    pub fn classify(&mut self, frame: &[i16], code: i32) -> (c: VADClass)
        ensures
            *final(self) == *old(self),
            c == Self::class_of(frame@.len() == old(self).frame_size(), code),
    {
        if frame.len() != self.frame_size {
            VADClass::Error
        } else if code == 1 {
            VADClass::Speech
        } else if code == 0 {
            VADClass::NotSpeech
        } else {
            VADClass::Error
        }
    }

    /// The verdict that a code of the engine stands for, on a frame that has
    /// the right length or not.
    pub open spec fn class_of(fits: bool, code: i32) -> VADClass {
        if !fits {
            VADClass::Error
        } else if code == 1 {
            VADClass::Speech
        } else if code == 0 {
            VADClass::NotSpeech
        } else {
            VADClass::Error
        }
    }

    /// The sampling rate a classifier uses when none is asked for, in Hz.
    pub fn get_default_sample_rate() -> (r: i32)
        ensures
            r == 16000,
    {
        16_000
    }

    /// The frame length a classifier aims at when none is asked for, in
    /// milliseconds.
    pub fn get_default_frame_length() -> (ms: u32)
        ensures
            ms == 30,
    {
        30
    }

    /// The length of a frame, exactly: the frame size over the sampling
    /// rate.
    pub fn get_frame_length(&self) -> (l: FrameLength)
        ensures
            l.samples == self.frame_size(),
            l.sample_rate == self.sample_rate(),
    {
        FrameLength { samples: self.frame_size, sample_rate: self.sample_rate }
    }
}

} // verus!
