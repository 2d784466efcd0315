use vstd::prelude::*;
use crate::recognition_event::{RecognitionEvent, RecognitionEventView, Word, WordView, words_well_timed};

verus! {

/// The event that a hypothesis stands for: its text and finality, its words,
/// and as its span the start of the first word and the end of the last.
pub open spec fn candidate_event(
    text: Seq<char>,
    words: Seq<WordView>,
    is_final: bool,
) -> RecognitionEventView
    recommends
        words.len() > 0,
{
    RecognitionEventView::Recognition {
        text,
        is_final,
        audio_start_time_usec: Some(words[0].start_time_usec),
        audio_end_time_usec: Some(words[words.len() - 1].end_time_usec),
        words: Some(words),
    }
}

/// What one hypothesis does to the memory of the last emitted event, and
/// what it emits.
pub struct Normalized {
    pub remembered: Option<RecognitionEventView>,
    pub emitted: Option<RecognitionEventView>,
}

/// A hypothesis without text or without words changes nothing and emits
/// nothing. Otherwise its candidate event is emitted and remembered, unless
/// it equals the remembered one, in which case nothing is emitted and the
/// memory stays.
pub open spec fn normalize(
    remembered: Option<RecognitionEventView>,
    text: Seq<char>,
    words: Seq<WordView>,
    is_final: bool,
) -> Normalized {
    if words.len() == 0 || text.len() == 0 {
        Normalized { remembered, emitted: None }
    } else {
        let candidate = candidate_event(text, words, is_final);
        if remembered == Some(candidate) {
            Normalized { remembered, emitted: None }
        } else {
            Normalized { remembered: Some(candidate), emitted: Some(candidate) }
        }
    }
}

/// Builds the event for a hypothesis with at least one word.
pub fn to_recognition_event(text: &str, words: Vec<Word>, is_final: bool) -> (event:
    RecognitionEvent)
    requires
        words.len() > 0,
    ensures
        event@ == candidate_event(text@, words.deep_view(), is_final),
{
    let first: u64 = words[0].start_time_usec;
    let last: u64 = words[words.len() - 1].end_time_usec;
    proof {
        let ws = words.deep_view();
        assert(ws[0] == words@[0]@);
        assert(ws[ws.len() - 1] == words@[words.len() - 1]@);
    }
    RecognitionEvent::Recognition {
        text: text.to_owned(),
        is_final,
        audio_start_time_usec: Some(first),
        audio_end_time_usec: Some(last),
        words: Some(words),
    }
}

/// Remembers the last recognition one recognizer emitted, and lets a new
/// hypothesis through only when it differs from it.
pub struct Normalizer {
    last: Option<RecognitionEvent>,
}

impl View for Normalizer {
    type V = Option<RecognitionEventView>;

    /// The remembered event.
    closed spec fn view(&self) -> Option<RecognitionEventView> {
        self.last.deep_view()
    }
}

impl Normalizer {
    /// A normalizer that has emitted nothing yet.
    pub fn new() -> (fresh: Self)
        ensures
            fresh@ is None,
    {
        Normalizer { last: None }
    }

    /// The remembered event, if any.
    pub fn last_emitted(&self) -> (last: &Option<RecognitionEvent>)
        ensures
            last.deep_view() == self@,
    {
        &self.last
    }

    /// Takes one hypothesis and returns the event to emit, if any.
    pub fn offer(&mut self, text: &str, words: Vec<Word>, is_final: bool) -> (emitted: Option<
        RecognitionEvent,
    >)
        ensures
            emitted.deep_view() == normalize(
                old(self)@,
                text@,
                words.deep_view(),
                is_final,
            ).emitted,
            final(self)@ == normalize(old(self)@, text@, words.deep_view(), is_final).remembered,
    {
        assert(words.deep_view().len() == words.len());
        if words.len() == 0 || text.is_empty() {
            return None;
        }
        let candidate = to_recognition_event(text, words, is_final);
        let repeated = match &self.last {
            Some(previous) => candidate.same_as(previous),
            None => false,
        };
        if repeated {
            None
        } else {
            let emitted = candidate.clone();
            self.last = Some(candidate);
            Some(emitted)
        }
    }
}

/// The event is the candidate of its own text, finality and words: it
/// carries words, and spans from the first start to the last end.
pub open spec fn is_candidate(event: RecognitionEventView) -> bool {
    event matches RecognitionEventView::Recognition { text, is_final, words: Some(ws), .. }
        && event == candidate_event(text, ws, is_final)
}

/// Two candidates with the same text, finality and words are the same
/// event, so that comparing whole events is comparing those three.
pub proof fn lemma_same_candidates_are_equal(a: RecognitionEventView, b: RecognitionEventView)
    requires
        is_candidate(a),
        is_candidate(b),
    ensures
        a.same_recognition(b) <==> a == b,
{
}

/// Offering the same hypothesis twice in a row emits its event at most once:
/// the second offer emits nothing and leaves the memory as the first left it,
/// and after the first offer of a hypothesis with text and words the memory
/// holds exactly its event.
pub proof fn lemma_repeated_hypothesis_is_suppressed(
    remembered: Option<RecognitionEventView>,
    text: Seq<char>,
    words: Seq<WordView>,
    is_final: bool,
)
    ensures
        ({
            let first = normalize(remembered, text, words, is_final);
            let second = normalize(first.remembered, text, words, is_final);
            &&& second.emitted is None
            &&& second.remembered == first.remembered
            &&& (words.len() > 0 && text.len() > 0) ==> first.remembered == Some(
                candidate_event(text, words, is_final),
            )
            &&& first.emitted is Some <==> words.len() > 0 && text.len() > 0 && remembered != Some(
                candidate_event(text, words, is_final),
            )
        }),
{
}

/// An emitted event is never the remembered one, so the same event is never
/// emitted twice in a row.
pub proof fn lemma_emitted_differs_from_remembered(
    remembered: Option<RecognitionEventView>,
    text: Seq<char>,
    words: Seq<WordView>,
    is_final: bool,
)
    ensures
        ({
            let step = normalize(remembered, text, words, is_final);
            step.emitted is Some ==> step.emitted != remembered && step.remembered == step.emitted
        }),
{
}

/// Words that are well timed going in are well timed coming out: an emitted
/// event carries the hypothesis's words unchanged, at least one of them, and
/// spans from the first start to the last end.
pub proof fn lemma_emitted_keeps_word_timing(
    remembered: Option<RecognitionEventView>,
    text: Seq<char>,
    words: Seq<WordView>,
    is_final: bool,
)
    requires
        words_well_timed(words),
    ensures
        ({
            let step = normalize(remembered, text, words, is_final);
            step.emitted matches Some(event) ==> {
                &&& event.well_formed()
                &&& event matches RecognitionEventView::Recognition {
                    audio_start_time_usec: Some(start),
                    audio_end_time_usec: Some(end),
                    words: Some(ws),
                    ..
                }
                &&& ws == words
                &&& start <= end
                &&& forall|i: int| 0 <= i < ws.len() ==> start <= (#[trigger] ws[i]).start_time_usec
            }
        }),
{
    if words.len() > 0 {
        assert(words[0].start_time_usec <= words[words.len() - 1].start_time_usec);
        assert(words[words.len() - 1].well_timed());
    }
}

} // verus!
