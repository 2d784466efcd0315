use vstd::prelude::*;

verus! {

/// What an engine can do; fixed when the recognizer is built.
#[derive(Debug, PartialEq)]
pub struct RecognizerInfo {
    /// Name of the recognizer.
    pub name: String,
    /// The engine cannot be fed faster than the audio plays.
    pub is_realtime_only: bool,
    /// The output carries punctuation.
    pub has_punctuation: bool,
}

/// Mathematical form of a [`RecognizerInfo`].
pub struct RecognizerInfoView {
    pub name: Seq<char>,
    pub is_realtime_only: bool,
    pub has_punctuation: bool,
}

impl View for RecognizerInfo {
    type V = RecognizerInfoView;

    open spec fn view(&self) -> RecognizerInfoView {
        RecognizerInfoView {
            name: self.name@,
            is_realtime_only: self.is_realtime_only,
            has_punctuation: self.has_punctuation,
        }
    }
}

impl Clone for RecognizerInfo {
    fn clone(&self) -> (copy: Self)
        ensures
            copy@ == self@,
    {
        RecognizerInfo {
            name: self.name.clone(),
            is_realtime_only: self.is_realtime_only,
            has_punctuation: self.has_punctuation,
        }
    }
}

} // verus!
