use vstd::prelude::*;
use vstd::string::StringExecFns;
use crate::error::SpeechError;
use crate::recognition_mode::{RecognitionMode, RecognitionModeView};

verus! {

/// What a recognizer is created for.
#[derive(Debug, PartialEq)]
pub struct RecognizerOptions {
    pub language: String,
    /// Samples per second and channel; positive.
    pub sample_rate: i32,
    /// Interleaved channels in each buffer; at least one.
    pub channel_count: i32,
    pub mode: RecognitionMode,
}

/// Mathematical form of [`RecognizerOptions`].
pub struct RecognizerOptionsView {
    pub language: Seq<char>,
    pub sample_rate: i32,
    pub channel_count: i32,
    pub mode: RecognitionModeView,
}

impl RecognizerOptionsView {
    /// The rate is positive and there is at least one channel.
    pub open spec fn valid(self) -> bool {
        self.sample_rate > 0 && self.channel_count >= 1
    }
}

impl View for RecognizerOptions {
    type V = RecognizerOptionsView;

    open spec fn view(&self) -> RecognizerOptionsView {
        RecognizerOptionsView {
            language: self.language@,
            sample_rate: self.sample_rate,
            channel_count: self.channel_count,
            mode: self.mode@,
        }
    }
}

impl Default for RecognizerOptions {
    /// American English, 16 kHz, one channel, free dictation.
    fn default() -> (options: Self)
        ensures
            options@ == (RecognizerOptionsView {
                language: "en-US"@,
                sample_rate: 16000,
                channel_count: 1,
                mode: RecognitionModeView::Speech,
            }),
    {
        RecognizerOptions {
            language: String::from_str("en-US"),
            sample_rate: 16000,
            channel_count: 1,
            mode: RecognitionMode::Speech,
        }
    }
}

impl Clone for RecognizerOptions {
    fn clone(&self) -> (copy: Self)
        ensures
            copy@ == self@,
    {
        RecognizerOptions {
            language: self.language.clone(),
            sample_rate: self.sample_rate,
            channel_count: self.channel_count,
            mode: self.mode.clone(),
        }
    }
}

impl RecognizerOptions {
    /// Accepts the options exactly when they are valid.
    pub fn validate(&self) -> (checked: Result<(), SpeechError>)
        ensures
            self@.valid() ==> checked is Ok,
            !self@.valid() ==> checked == Err::<(), SpeechError>(SpeechError::ConfigurationError),
    {
        if self.sample_rate > 0 && self.channel_count >= 1 {
            Ok(())
        } else {
            Err(SpeechError::ConfigurationError)
        }
    }
}

} // verus!
