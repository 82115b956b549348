//! Verified session core for speech decoding: the bookkeeping, ordering rules
//! and state machines that surround a recognition engine.
//!
//! The engine itself, which scores audio against acoustic and language
//! models, is no part of this crate. Whoever drives a session asks the engine
//! and hands its answers to the operations here as plain values; the
//! operations decide what the answers mean for the session.

pub mod alignment_iter;
pub mod config;
pub mod cursor;
pub mod decoder;
pub mod endpointer;
pub mod error;
pub mod logmath;
pub mod nbest_iter;
pub mod ngram;
pub mod resource;
pub mod search_iter;
pub mod search_registry;
pub mod seg_iter;
pub mod text;
pub mod vad;

pub use alignment_iter::{Alignment, AlignmentEntry, AlignmentIter, AlignmentLevel, AlignmentSeg};
pub use config::{Config, ParamType};
pub use cursor::{Cursor, CursorState, LazyCursor, Step};
pub use decoder::{Decoder, UtteranceState};
pub use endpointer::Endpointer;
pub use error::Error;
pub use logmath::LogMathTableShape;
pub use nbest_iter::{NBest, NBestHypothesis, NBestIter};
pub use ngram::NgramFileType;
pub use resource::{ResourceHandle, ResourcePool};
pub use search_iter::SearchIter;
pub use search_registry::{SearchKind, SearchRegistry};
pub use seg_iter::{Seg, SegFrames, SegIter, SegProp};
pub use vad::{FrameLength, VADClass, VADMode, VAD};
