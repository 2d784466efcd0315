use vstd::prelude::*;

verus! {

/// Bit pattern of the confidence `1.0`; every confidence in `[0, 1]` has a
/// pattern at or below it, and patterns in that range order as their values do.
pub const CONF_ONE_BITS: u32 = 0x3F80_0000;

/// A single word and metadata about it.
#[derive(Debug, PartialEq)]
pub struct Word {
    /// Confidence in `[0, 1]`, held as the bit pattern of a single-precision
    /// number so that two confidences are equal exactly when their bits are.
    pub conf_bits: u32,
    /// Time in microseconds when the word starts.
    pub start_time_usec: u64,
    /// Time in microseconds when the word ends.
    pub end_time_usec: u64,
    /// The transcribed word.
    pub word: String,
}

/// Mathematical form of a [`Word`].
pub struct WordView {
    pub conf_bits: u32,
    pub start_time_usec: u64,
    pub end_time_usec: u64,
    pub word: Seq<char>,
}

impl WordView {
    /// The word does not end before it starts.
    pub open spec fn well_timed(self) -> bool {
        self.start_time_usec <= self.end_time_usec
    }

    /// The confidence lies in `[0, 1]`.
    pub open spec fn conf_in_range(self) -> bool {
        self.conf_bits <= CONF_ONE_BITS
    }
}

impl View for Word {
    type V = WordView;

    open spec fn view(&self) -> WordView {
        WordView {
            conf_bits: self.conf_bits,
            start_time_usec: self.start_time_usec,
            end_time_usec: self.end_time_usec,
            word: self.word@,
        }
    }
}

impl DeepView for Word {
    type V = WordView;

    open spec fn deep_view(&self) -> WordView {
        self@
    }
}

/// Every word ends no earlier than it starts, and no word starts before the
/// one in front of it.
pub open spec fn words_well_timed(words: Seq<WordView>) -> bool {
    &&& forall|i: int| 0 <= i < words.len() ==> (#[trigger] words[i]).well_timed()
    &&& forall|i: int, j: int|
        0 <= i <= j < words.len() ==> (#[trigger] words[i]).start_time_usec <= (
        #[trigger] words[j]).start_time_usec
}

impl Clone for Word {
    fn clone(&self) -> (copy: Self)
        ensures
            copy@ == self@,
    {
        Word {
            conf_bits: self.conf_bits,
            start_time_usec: self.start_time_usec,
            end_time_usec: self.end_time_usec,
            word: self.word.clone(),
        }
    }
}

impl Word {
    /// Whether the word ends no earlier than it starts and its confidence
    /// lies in `[0, 1]`.
    pub fn is_valid(&self) -> (valid: bool)
        ensures
            valid == (self@.well_timed() && self@.conf_in_range()),
    {
        self.start_time_usec <= self.end_time_usec && self.conf_bits <= CONF_ONE_BITS
    }

    /// Field-by-field equality.
    pub fn same_as(&self, other: &Word) -> (same: bool)
        ensures
            same == (self@ == other@),
    {
        let same = self.conf_bits == other.conf_bits && self.start_time_usec
            == other.start_time_usec && self.end_time_usec == other.end_time_usec && self.word
            == other.word;
        proof {
            if self.word@ == other.word@ {
                assert(self@.word =~= other@.word);
            }
        }
        same
    }
}

/// Element-wise equality of two word lists.
pub fn words_same(a: &Vec<Word>, b: &Vec<Word>) -> (same: bool)
    ensures
        same == (a.deep_view() == b.deep_view()),
{
    if a.len() != b.len() {
        assert(a.deep_view().len() != b.deep_view().len());
        return false;
    }
    let mut i: usize = 0;
    while i < a.len()
        invariant
            i <= a.len(),
            a.len() == b.len(),
            forall|k: int| 0 <= k < i ==> a@[k]@ == b@[k]@,
        decreases a.len() - i,
    {
        if !a[i].same_as(&b[i]) {
            assert(a.deep_view()[i as int] == a@[i as int]@);
            assert(b.deep_view()[i as int] == b@[i as int]@);
            return false;
        }
        i += 1;
    }
    assert(a.deep_view() =~= b.deep_view());
    true
}

/// A copy of a word list.
pub fn words_copy(words: &Vec<Word>) -> (copy: Vec<Word>)
    ensures
        copy.deep_view() == words.deep_view(),
{
    let mut copy: Vec<Word> = Vec::new();
    let mut i: usize = 0;
    while i < words.len()
        invariant
            i <= words.len(),
            copy.len() == i,
            forall|k: int| 0 <= k < i ==> copy@[k]@ == words@[k]@,
        decreases words.len() - i,
    {
        copy.push(words[i].clone());
        i += 1;
    }
    assert(copy.deep_view() =~= words.deep_view());
    copy
}

/// Whether the words are timed as [`words_well_timed`] asks.
pub fn check_words_well_timed(words: &Vec<Word>) -> (ok: bool)
    ensures
        ok == words_well_timed(words.deep_view()),
{
    let ghost ws = words.deep_view();
    let mut i: usize = 0;
    while i < words.len()
        invariant
            i <= words.len(),
            ws == words.deep_view(),
            forall|k: int| 0 <= k < i ==> (#[trigger] ws[k]).well_timed(),
            forall|k: int| 0 < k < i ==> (#[trigger] ws[k - 1]).start_time_usec <= ws[k].start_time_usec,
        decreases words.len() - i,
    {
        assert(ws[i as int] == words@[i as int]@);
        if words[i].start_time_usec > words[i].end_time_usec {
            assert(!ws[i as int].well_timed());
            return false;
        }
        if i > 0 {
            assert(ws[i - 1] == words@[i - 1]@);
            if words[i - 1].start_time_usec > words[i].start_time_usec {
                return false;
            }
        }
        i += 1;
    }
    proof {
        lemma_adjacent_order_is_total(ws);
    }
    true
}

/// Starts that never decrease from one word to the next never decrease over
/// any distance.
pub proof fn lemma_adjacent_order_is_total(ws: Seq<WordView>)
    requires
        forall|k: int| 0 < k < ws.len() ==> (#[trigger] ws[k - 1]).start_time_usec <= ws[k].start_time_usec,
    ensures
        forall|i: int, j: int|
            0 <= i <= j < ws.len() ==> (#[trigger] ws[i]).start_time_usec <= (
            #[trigger] ws[j]).start_time_usec,
{
    assert forall|i: int, j: int| 0 <= i <= j < ws.len() implies (#[trigger] ws[i]).start_time_usec
        <= (#[trigger] ws[j]).start_time_usec by {
        lemma_start_order_between(ws, i, j);
    }
}

proof fn lemma_start_order_between(ws: Seq<WordView>, i: int, j: int)
    requires
        forall|k: int| 0 < k < ws.len() ==> (#[trigger] ws[k - 1]).start_time_usec <= ws[k].start_time_usec,
        0 <= i <= j < ws.len(),
    ensures
        ws[i].start_time_usec <= ws[j].start_time_usec,
    decreases j - i,
{
    if i < j {
        lemma_start_order_between(ws, i, j - 1);
        assert(ws[j - 1].start_time_usec <= ws[j].start_time_usec);
    }
}

/// What a recognizer tells its consumer.
#[derive(Debug, PartialEq)]
pub enum RecognitionEvent {
    /// Started listening.
    Start,
    /// Stopped listening; nothing follows.
    Stop,
    /// Speech begins at this time.
    StartOfSpeech { audio_time_usec: Option<u64> },
    /// Speech ends at this time.
    EndOfSpeech { audio_time_usec: Option<u64> },
    /// Speech was recognized.
    Recognition {
        text: String,
        is_final: bool,
        audio_start_time_usec: Option<u64>,
        audio_end_time_usec: Option<u64>,
        words: Option<Vec<Word>>,
    },
    /// Locale detected, e.g. "en-us" or "af-za".
    Language { id: String },
}

/// Mathematical form of a [`RecognitionEvent`].
pub enum RecognitionEventView {
    Start,
    Stop,
    StartOfSpeech { audio_time_usec: Option<u64> },
    EndOfSpeech { audio_time_usec: Option<u64> },
    Recognition {
        text: Seq<char>,
        is_final: bool,
        audio_start_time_usec: Option<u64>,
        audio_end_time_usec: Option<u64>,
        words: Option<Seq<WordView>>,
    },
    Language { id: Seq<char> },
}

impl RecognitionEventView {
    /// An event that carries words carries at least one, and they are timed
    /// as [`words_well_timed`] asks.
    pub open spec fn well_formed(self) -> bool {
        self matches RecognitionEventView::Recognition { words: Some(ws), .. } ==> ws.len() > 0
            && words_well_timed(ws)
    }
}

impl RecognitionEventView {
    /// Both are recognitions, with the same text, the same finality and the
    /// same words; the times they carry besides do not count.
    pub open spec fn same_recognition(self, other: RecognitionEventView) -> bool {
        match (self, other) {
            (
                RecognitionEventView::Recognition { text: t1, is_final: f1, words: w1, .. },
                RecognitionEventView::Recognition { text: t2, is_final: f2, words: w2, .. },
            ) => t1 == t2 && f1 == f2 && w1 == w2,
            _ => false,
        }
    }
}

/// No recognition is followed at once by one with its text, finality and
/// words.
pub open spec fn no_repeated_recognition(events: Seq<RecognitionEventView>) -> bool {
    forall|i: int|
        0 <= i < events.len() - 1 ==> !(#[trigger] events[i]).same_recognition(events[i + 1])
}

impl View for RecognitionEvent {
    type V = RecognitionEventView;

    open spec fn view(&self) -> RecognitionEventView {
        match self {
            RecognitionEvent::Start => RecognitionEventView::Start,
            RecognitionEvent::Stop => RecognitionEventView::Stop,
            RecognitionEvent::StartOfSpeech { audio_time_usec } => RecognitionEventView::StartOfSpeech {
                audio_time_usec: *audio_time_usec,
            },
            RecognitionEvent::EndOfSpeech { audio_time_usec } => RecognitionEventView::EndOfSpeech {
                audio_time_usec: *audio_time_usec,
            },
            RecognitionEvent::Recognition {
                text,
                is_final,
                audio_start_time_usec,
                audio_end_time_usec,
                words,
            } => RecognitionEventView::Recognition {
                text: text@,
                is_final: *is_final,
                audio_start_time_usec: *audio_start_time_usec,
                audio_end_time_usec: *audio_end_time_usec,
                words: words.deep_view(),
            },
            RecognitionEvent::Language { id } => RecognitionEventView::Language { id: id@ },
        }
    }
}

impl DeepView for RecognitionEvent {
    type V = RecognitionEventView;

    open spec fn deep_view(&self) -> RecognitionEventView {
        self@
    }
}

impl Clone for RecognitionEvent {
    fn clone(&self) -> (copy: Self)
        ensures
            copy@ == self@,
    {
        match self {
            RecognitionEvent::Start => RecognitionEvent::Start,
            RecognitionEvent::Stop => RecognitionEvent::Stop,
            RecognitionEvent::StartOfSpeech { audio_time_usec } => RecognitionEvent::StartOfSpeech {
                audio_time_usec: *audio_time_usec,
            },
            RecognitionEvent::EndOfSpeech { audio_time_usec } => RecognitionEvent::EndOfSpeech {
                audio_time_usec: *audio_time_usec,
            },
            RecognitionEvent::Recognition {
                text,
                is_final,
                audio_start_time_usec,
                audio_end_time_usec,
                words,
            } => {
                let words_copy = match words {
                    Some(ws) => Some(words_copy(ws)),
                    None => None,
                };
                RecognitionEvent::Recognition {
                    text: text.clone(),
                    is_final: *is_final,
                    audio_start_time_usec: *audio_start_time_usec,
                    audio_end_time_usec: *audio_end_time_usec,
                    words: words_copy,
                }
            },
            RecognitionEvent::Language { id } => RecognitionEvent::Language { id: id.clone() },
        }
    }
}

impl RecognitionEvent {
    /// Equality by variant and by every field.
    pub fn same_as(&self, other: &RecognitionEvent) -> (same: bool)
        ensures
            same == (self@ == other@),
    {
        match (self, other) {
            (RecognitionEvent::Start, RecognitionEvent::Start) => true,
            (RecognitionEvent::Stop, RecognitionEvent::Stop) => true,
            (
                RecognitionEvent::StartOfSpeech { audio_time_usec: a },
                RecognitionEvent::StartOfSpeech { audio_time_usec: b },
            ) => same_time(a, b),
            (
                RecognitionEvent::EndOfSpeech { audio_time_usec: a },
                RecognitionEvent::EndOfSpeech { audio_time_usec: b },
            ) => same_time(a, b),
            (
                RecognitionEvent::Recognition {
                    text: t1,
                    is_final: f1,
                    audio_start_time_usec: s1,
                    audio_end_time_usec: e1,
                    words: w1,
                },
                RecognitionEvent::Recognition {
                    text: t2,
                    is_final: f2,
                    audio_start_time_usec: s2,
                    audio_end_time_usec: e2,
                    words: w2,
                },
            ) => {
                let same_words = match (w1, w2) {
                    (Some(a), Some(b)) => words_same(a, b),
                    (None, None) => true,
                    _ => false,
                };
                proof {
                    if t1@ == t2@ {
                        assert(t1@ =~= t2@);
                    }
                }
                *t1 == *t2 && *f1 == *f2 && same_time(s1, s2) && same_time(e1, e2) && same_words
            },
            (RecognitionEvent::Language { id: a }, RecognitionEvent::Language { id: b }) => {
                *a == *b
            },
            _ => false,
        }
    }

    /// Whether both are recognitions with the same text, finality and words.
    pub fn same_recognition_as(&self, other: &RecognitionEvent) -> (same: bool)
        ensures
            same == self@.same_recognition(other@),
    {
        match (self, other) {
            (
                RecognitionEvent::Recognition { text: t1, is_final: f1, words: w1, .. },
                RecognitionEvent::Recognition { text: t2, is_final: f2, words: w2, .. },
            ) => {
                let same_words = match (w1, w2) {
                    (Some(a), Some(b)) => words_same(a, b),
                    (None, None) => true,
                    _ => false,
                };
                proof {
                    if t1@ == t2@ {
                        assert(t1@ =~= t2@);
                    }
                }
                *t1 == *t2 && *f1 == *f2 && same_words
            },
            _ => false,
        }
    }

    /// Whether the event is `Start`.
    pub fn is_start(&self) -> (start: bool)
        ensures
            start == (self@ is Start),
    {
        match self {
            RecognitionEvent::Start => true,
            _ => false,
        }
    }

    /// Whether the event is `Stop`.
    pub fn is_stop(&self) -> (stop: bool)
        ensures
            stop == (self@ is Stop),
    {
        match self {
            RecognitionEvent::Stop => true,
            _ => false,
        }
    }

    /// Whether the event is a recognition.
    pub fn is_recognition(&self) -> (recognition: bool)
        ensures
            recognition == (self@ is Recognition),
    {
        match self {
            RecognitionEvent::Recognition { .. } => true,
            _ => false,
        }
    }

    /// Whether the event meets the event model's rules on words.
    pub fn is_well_formed(&self) -> (ok: bool)
        ensures
            ok == self@.well_formed(),
    {
        match self {
            RecognitionEvent::Recognition { words: Some(ws), .. } => {
                assert(ws.deep_view().len() == ws.len());
                ws.len() > 0 && check_words_well_timed(ws)
            },
            _ => true,
        }
    }
}

fn same_time(a: &Option<u64>, b: &Option<u64>) -> (same: bool)
    ensures
        same == (*a == *b),
{
    match (a, b) {
        (Some(x), Some(y)) => *x == *y,
        (None, None) => true,
        _ => false,
    }
}

} // verus!
