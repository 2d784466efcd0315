//! Streaming speech recognition behind one interface.
//!
//! Two kinds of engine are served: one that runs its own threads and reports
//! through a callback, and one that blocks and is driven from a worker
//! thread. This crate holds everything those adapters decide: the event
//! model, the recognizer lifecycle, how engine output becomes events, the
//! suppression of repeated hypotheses, and the pacing of realtime engines.
//! Threads, channels and the engines themselves stay with the caller, which
//! feeds their results in and carries the returned actions out.

pub mod audio;
pub mod callback_bridge;
pub mod engine_choice;
pub mod error;
pub mod language_pack;
pub mod normalizer;
pub mod pacing;
pub mod recognition_event;
pub mod recognition_mode;
pub mod recognizer;
pub mod recognizer_info;
pub mod recognizer_options;
pub mod vosk_recognizer_factory;
pub mod worker_bridge;

pub use error::{SpeechError, SpeechErrorView, SpeechResult};
pub use recognition_event::{RecognitionEvent, RecognitionEventView, Word, WordView};
pub use recognition_mode::{RecognitionMode, RecognitionModeView};
pub use recognizer::{Lifecycle, Recognizer, RecognizerState};
pub use recognizer_info::{RecognizerInfo, RecognizerInfoView};
pub use recognizer_options::{RecognizerOptions, RecognizerOptionsView};
pub use vosk_recognizer_factory::{VoskModelInfo, VoskRecognizerFactory};
