use vstd::prelude::*;

verus! {

/// What the recognizer listens for.
#[derive(Debug, PartialEq)]
pub enum RecognitionMode {
    /// Free dictation.
    Speech,
    /// Only the given phrases.
    Commands(Vec<String>),
}

/// Mathematical form of a [`RecognitionMode`].
pub enum RecognitionModeView {
    Speech,
    Commands(Seq<Seq<char>>),
}

impl View for RecognitionMode {
    type V = RecognitionModeView;

    open spec fn view(&self) -> RecognitionModeView {
        match self {
            RecognitionMode::Speech => RecognitionModeView::Speech,
            RecognitionMode::Commands(phrases) => RecognitionModeView::Commands(
                phrases.deep_view(),
            ),
        }
    }
}

/// A copy of a list of phrases.
pub fn phrases_copy(phrases: &Vec<String>) -> (copy: Vec<String>)
    ensures
        copy.deep_view() == phrases.deep_view(),
{
    let mut copy: Vec<String> = Vec::new();
    let mut i: usize = 0;
    while i < phrases.len()
        invariant
            i <= phrases.len(),
            copy.len() == i,
            forall|k: int| 0 <= k < i ==> copy@[k]@ == phrases@[k]@,
        decreases phrases.len() - i,
    {
        copy.push(phrases[i].clone());
        i += 1;
    }
    assert(copy.deep_view() =~= phrases.deep_view());
    copy
}

impl Clone for RecognitionMode {
    fn clone(&self) -> (copy: Self)
        ensures
            copy@ == self@,
    {
        match self {
            RecognitionMode::Speech => RecognitionMode::Speech,
            RecognitionMode::Commands(phrases) => RecognitionMode::Commands(phrases_copy(phrases)),
        }
    }
}

} // verus!
