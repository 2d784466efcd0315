use vstd::prelude::*;
use vstd::string::StringExecFns;
use crate::error::{SpeechError, SpeechErrorView};
use crate::recognition_mode::{phrases_copy, RecognitionMode, RecognitionModeView};
use crate::recognizer_info::{RecognizerInfo, RecognizerInfoView};
use crate::normalizer::{
    is_candidate, lemma_emitted_keeps_word_timing, lemma_same_candidates_are_equal, normalize,
    Normalizer,
};
use crate::recognition_event::{
    no_repeated_recognition, words_well_timed, RecognitionEvent, RecognitionEventView, Word, WordView,
};

verus! {

/// What the blocking decoder currently believes was said.
#[derive(Debug, PartialEq)]
pub struct Hypothesis {
    pub text: String,
    pub words: Vec<Word>,
}

/// Mathematical form of a [`Hypothesis`].
pub struct HypothesisView {
    pub text: Seq<char>,
    pub words: Seq<WordView>,
}

impl View for Hypothesis {
    type V = HypothesisView;

    open spec fn view(&self) -> HypothesisView {
        HypothesisView { text: self.text@, words: self.words.deep_view() }
    }
}

impl DeepView for Hypothesis {
    type V = HypothesisView;

    open spec fn deep_view(&self) -> HypothesisView {
        self@
    }
}

/// One thing that happens to the worker that owns the decoder.
#[derive(Debug, PartialEq)]
pub enum WorkerInput {
    /// A buffer was decoded and the utterance goes on; this is the partial
    /// result read afterwards.
    Running(Hypothesis),
    /// A buffer was decoded and the utterance ended; this is its result.
    Finalized(Hypothesis),
    /// A buffer was handed over and decoding failed for good.
    Failed,
    /// The recognizer asked the worker to end; this is the result flushed
    /// from the decoder.
    Shutdown(Hypothesis),
}

/// Mathematical form of a [`WorkerInput`].
pub enum WorkerInputView {
    Running(HypothesisView),
    Finalized(HypothesisView),
    Failed,
    Shutdown(HypothesisView),
}

impl WorkerInputView {
    /// The inputs after which the worker handles nothing more.
    pub open spec fn is_terminal(self) -> bool {
        self is Failed || self is Shutdown
    }

    /// The decoder result that comes with the input, if one does.
    pub open spec fn hypothesis(self) -> Option<HypothesisView> {
        match self {
            WorkerInputView::Running(h) => Some(h),
            WorkerInputView::Finalized(h) => Some(h),
            WorkerInputView::Failed => None,
            WorkerInputView::Shutdown(h) => Some(h),
        }
    }
}

impl View for WorkerInput {
    type V = WorkerInputView;

    open spec fn view(&self) -> WorkerInputView {
        match self {
            WorkerInput::Running(h) => WorkerInputView::Running(h@),
            WorkerInput::Finalized(h) => WorkerInputView::Finalized(h@),
            WorkerInput::Failed => WorkerInputView::Failed,
            WorkerInput::Shutdown(h) => WorkerInputView::Shutdown(h@),
        }
    }
}

impl DeepView for WorkerInput {
    type V = WorkerInputView;

    open spec fn deep_view(&self) -> WorkerInputView {
        self@
    }
}

/// What the decoder reports after it has taken a buffer.
#[derive(Debug, Clone, Copy, PartialEq, Eq, Structural)]
pub enum DecodingState {
    /// Decoding goes on.
    Running,
    /// Silence has ended an utterance, whose result can be read.
    Finalized,
    /// Decoding has failed for good.
    Failed,
}

/// Which result of the decoder is to be read.
#[derive(Debug, Clone, Copy, PartialEq, Eq, Structural)]
pub enum ResultRead {
    /// The partial result of the utterance that goes on.
    Partial,
    /// The result of the utterance that ended.
    Finalized,
    /// None: there is nothing to read from a decoder that failed.
    Nothing,
}

/// The result that a decoding state calls for.
pub open spec fn read_for(state: DecodingState) -> ResultRead {
    match state {
        DecodingState::Running => ResultRead::Partial,
        DecodingState::Finalized => ResultRead::Finalized,
        DecodingState::Failed => ResultRead::Nothing,
    }
}

/// The worker's input after a buffer: the state that the decoder reported,
/// with the result that was read for it; a result read from a decoder that
/// failed does not count.
pub open spec fn input_after_buffer(state: DecodingState, result: HypothesisView) -> WorkerInputView {
    match state {
        DecodingState::Running => WorkerInputView::Running(result),
        DecodingState::Finalized => WorkerInputView::Finalized(result),
        DecodingState::Failed => WorkerInputView::Failed,
    }
}

/// Which result the worker reads from the decoder after a buffer.
pub fn result_to_read(state: DecodingState) -> (read: ResultRead)
    ensures
        read == read_for(state),
{
    match state {
        DecodingState::Running => ResultRead::Partial,
        DecodingState::Finalized => ResultRead::Finalized,
        DecodingState::Failed => ResultRead::Nothing,
    }
}

/// The worker's input after a buffer, from the state that the decoder
/// reported and the result that was read as [`result_to_read`] says.
pub fn decoded_input(state: DecodingState, result: Hypothesis) -> (input: WorkerInput)
    ensures
        input@ == input_after_buffer(state, result@),
{
    match state {
        DecodingState::Running => WorkerInput::Running(result),
        DecodingState::Finalized => WorkerInput::Finalized(result),
        DecodingState::Failed => WorkerInput::Failed,
    }
}

/// What the blocking engine can do, in mathematical form.
pub open spec fn worker_engine_info_view() -> RecognizerInfoView {
    RecognizerInfoView { name: "Vosk"@, is_realtime_only: false, has_punctuation: false }
}

/// What the blocking engine can do.
pub fn worker_engine_info() -> (info: RecognizerInfo)
    ensures
        info@ == worker_engine_info_view(),
{
    RecognizerInfo {
        name: String::from_str("Vosk"),
        is_realtime_only: false,
        has_punctuation: false,
    }
}

/// How the worker sets its decoder up.
#[derive(Debug, PartialEq)]
pub struct DecoderSetup {
    pub sample_rate: i32,
    /// The phrases to listen for; `None` for free speech.
    pub grammar: Option<Vec<String>>,
    /// How many alternative results to ask for besides the best.
    pub max_alternatives: u16,
    /// Whether final results carry their words.
    pub words: bool,
    /// Whether partial results carry their words.
    pub partial_words: bool,
}

/// Mathematical form of a [`DecoderSetup`].
pub struct DecoderSetupView {
    pub sample_rate: i32,
    pub grammar: Option<Seq<Seq<char>>>,
    pub max_alternatives: u16,
    pub words: bool,
    pub partial_words: bool,
}

impl View for DecoderSetup {
    type V = DecoderSetupView;

    open spec fn view(&self) -> DecoderSetupView {
        DecoderSetupView {
            sample_rate: self.sample_rate,
            grammar: self.grammar.deep_view(),
            max_alternatives: self.max_alternatives,
            words: self.words,
            partial_words: self.partial_words,
        }
    }
}

/// The decoder listens for the phrases of a command mode and for anything in
/// speech mode, returns the single best result, and reports words with
/// partial and final results alike.
pub open spec fn decoder_setup_for(sample_rate: i32, mode: RecognitionModeView) -> DecoderSetupView {
    DecoderSetupView {
        sample_rate,
        grammar: match mode {
            RecognitionModeView::Speech => None,
            RecognitionModeView::Commands(phrases) => Some(phrases),
        },
        max_alternatives: 0,
        words: true,
        partial_words: true,
    }
}

/// The setup of the decoder for a rate and a mode.
pub fn decoder_setup(sample_rate: i32, mode: &RecognitionMode) -> (setup: DecoderSetup)
    ensures
        setup@ == decoder_setup_for(sample_rate, mode@),
{
    let grammar = match mode {
        RecognitionMode::Speech => None,
        RecognitionMode::Commands(phrases) => Some(phrases_copy(phrases)),
    };
    DecoderSetup { sample_rate, grammar, max_alternatives: 0, words: true, partial_words: true }
}

/// What building the decoder gave: nothing to report if it was built, and
/// [`SpeechError::LoadLibraryError`] if it was not.
pub fn decoder_created(created: bool) -> (checked: Result<(), SpeechError>)
    ensures
        match checked {
            Ok(_) => created,
            Err(e) => !created && e@ == SpeechErrorView::LoadLibraryError(
                "Cannot create Vosk recognizer"@,
            ),
        },
{
    if created {
        Ok(())
    } else {
        Err(SpeechError::LoadLibraryError(String::from_str("Cannot create Vosk recognizer")))
    }
}

/// Where the worker stands.
#[derive(Debug, Clone, Copy, PartialEq, Eq, Structural)]
pub enum WorkerPhase {
    /// Reading commands.
    Running,
    /// Ended on a shutdown command.
    Finished,
    /// Ended because the decoder failed.
    Failed,
}

/// Mathematical form of a [`Worker`].
pub struct WorkerView {
    pub phase: WorkerPhase,
    pub remembered: Option<RecognitionEventView>,
}

/// The worker's state after one input, the events the input gives rise to,
/// and whether the writer that waits for its buffer is to be released.
pub struct WorkerOutcome {
    pub next: WorkerView,
    pub events: Seq<RecognitionEventView>,
    pub acknowledge: bool,
}

/// The worker as it stands right after it has emitted `Start`.
pub open spec fn started_worker() -> WorkerView {
    WorkerView { phase: WorkerPhase::Running, remembered: None }
}

/// No event, or the one given.
pub open spec fn optional_event(event: Option<RecognitionEventView>) -> Seq<RecognitionEventView> {
    match event {
        Some(e) => seq![e],
        None => Seq::empty(),
    }
}

/// How the worker handles one input.
///
/// A worker that has ended ignores everything. A running worker turns a
/// decoded buffer into at most one recognition, partial while the utterance
/// goes on and final when it ended; on a decoder failure it emits `Stop` and
/// ends as failed; on shutdown it emits the flushed result as a final
/// recognition, if it is new, then `Stop`, and ends. Whatever became of a
/// buffer, the writer that waits for it is released once its events are out.
pub open spec fn worker_step(worker: WorkerView, input: WorkerInputView) -> WorkerOutcome {
    if worker.phase != WorkerPhase::Running {
        WorkerOutcome { next: worker, events: Seq::empty(), acknowledge: false }
    } else {
        match input {
            WorkerInputView::Running(h) => {
                let n = normalize(worker.remembered, h.text, h.words, false);
                WorkerOutcome {
                    next: WorkerView { phase: WorkerPhase::Running, remembered: n.remembered },
                    events: optional_event(n.emitted),
                    acknowledge: true,
                }
            },
            WorkerInputView::Finalized(h) => {
                let n = normalize(worker.remembered, h.text, h.words, true);
                WorkerOutcome {
                    next: WorkerView { phase: WorkerPhase::Running, remembered: n.remembered },
                    events: optional_event(n.emitted),
                    acknowledge: true,
                }
            },
            WorkerInputView::Failed => WorkerOutcome {
                next: WorkerView { phase: WorkerPhase::Failed, remembered: worker.remembered },
                events: seq![RecognitionEventView::Stop],
                acknowledge: true,
            },
            WorkerInputView::Shutdown(h) => {
                let n = normalize(worker.remembered, h.text, h.words, true);
                WorkerOutcome {
                    next: WorkerView { phase: WorkerPhase::Finished, remembered: n.remembered },
                    events: optional_event(n.emitted).push(RecognitionEventView::Stop),
                    acknowledge: false,
                }
            },
        }
    }
}

/// The worker's state after a sequence of inputs.
pub open spec fn worker_after(worker: WorkerView, inputs: Seq<WorkerInputView>) -> WorkerView
    decreases inputs.len(),
{
    if inputs.len() == 0 {
        worker
    } else {
        worker_step(worker_after(worker, inputs.drop_last()), inputs.last()).next
    }
}

/// The events that a worker emits over a sequence of inputs, in order.
pub open spec fn worker_run(worker: WorkerView, inputs: Seq<WorkerInputView>) -> Seq<
    RecognitionEventView,
>
    decreases inputs.len(),
{
    if inputs.len() == 0 {
        Seq::empty()
    } else {
        worker_run(worker, inputs.drop_last()) + worker_step(
            worker_after(worker, inputs.drop_last()),
            inputs.last(),
        ).events
    }
}

/// Everything one session emits: `Start`, then what the inputs give rise to.
pub open spec fn session_events(inputs: Seq<WorkerInputView>) -> Seq<RecognitionEventView> {
    seq![RecognitionEventView::Start] + worker_run(started_worker(), inputs)
}

/// What the worker does after one input.
#[derive(Debug, PartialEq)]
pub struct WorkerReply {
    /// The events to emit, in order.
    pub events: Vec<RecognitionEvent>,
    /// Whether to release the writer that waits for the buffer.
    pub acknowledge: bool,
}

/// The decisions of the thread that owns a blocking decoder.
///
/// The thread feeds each buffer it receives to the decoder, reads the result
/// that the decoder's state calls for, and hands it to [`Worker::handle`];
/// the events that come back go to the event channel in order.
pub struct Worker {
    phase: WorkerPhase,
    normalizer: Normalizer,
}

impl View for Worker {
    type V = WorkerView;

    closed spec fn view(&self) -> WorkerView {
        WorkerView { phase: self.phase, remembered: self.normalizer@ }
    }
}

impl Worker {
    /// Starts a worker; the event returned is the session's `Start`.
    pub fn start() -> (started: (Worker, RecognitionEvent))
        ensures
            started.0@ == started_worker(),
            started.1@ == RecognitionEventView::Start,
    {
        (
            Worker { phase: WorkerPhase::Running, normalizer: Normalizer::new() },
            RecognitionEvent::Start,
        )
    }

    /// Where the worker stands.
    pub fn phase(&self) -> (phase: WorkerPhase)
        ensures
            phase == self@.phase,
    {
        self.phase
    }

    /// Whether the worker still reads commands.
    pub fn is_running(&self) -> (running: bool)
        ensures
            running == (self@.phase == WorkerPhase::Running),
    {
        match self.phase {
            WorkerPhase::Running => true,
            _ => false,
        }
    }

    /// Whether the worker ended because the decoder failed.
    pub fn has_failed(&self) -> (failed: bool)
        ensures
            failed == (self@.phase == WorkerPhase::Failed),
    {
        match self.phase {
            WorkerPhase::Failed => true,
            _ => false,
        }
    }

    /// Handles one input.
    pub fn handle(&mut self, input: WorkerInput) -> (reply: WorkerReply)
        ensures
            final(self)@ == worker_step(old(self)@, input@).next,
            reply.events.deep_view() == worker_step(old(self)@, input@).events,
            reply.acknowledge == worker_step(old(self)@, input@).acknowledge,
    {
        let mut events: Vec<RecognitionEvent> = Vec::new();
        if !self.is_running() {
            assert(events.deep_view() =~= Seq::empty());
            return WorkerReply { events, acknowledge: false };
        }
        match input {
            WorkerInput::Running(h) => {
                let emitted = self.normalizer.offer(h.text.as_str(), h.words, false);
                push_optional(&mut events, emitted);
                WorkerReply { events, acknowledge: true }
            },
            WorkerInput::Finalized(h) => {
                let emitted = self.normalizer.offer(h.text.as_str(), h.words, true);
                push_optional(&mut events, emitted);
                WorkerReply { events, acknowledge: true }
            },
            WorkerInput::Failed => {
                self.phase = WorkerPhase::Failed;
                events.push(RecognitionEvent::Stop);
                assert(events.deep_view() =~= seq![RecognitionEventView::Stop]);
                WorkerReply { events, acknowledge: true }
            },
            WorkerInput::Shutdown(h) => {
                let emitted = self.normalizer.offer(h.text.as_str(), h.words, true);
                push_optional(&mut events, emitted);
                let ghost before = events.deep_view();
                self.phase = WorkerPhase::Finished;
                events.push(RecognitionEvent::Stop);
                assert(events.deep_view() =~= before.push(RecognitionEventView::Stop));
                WorkerReply { events, acknowledge: false }
            },
        }
    }
}

/// Runs one whole session over inputs that are known in advance: emits
/// `Start`, handles the inputs in order, and returns every event emitted.
pub fn run_session(inputs: Vec<WorkerInput>) -> (events: Vec<RecognitionEvent>)
    ensures
        events.deep_view() == session_events(inputs.deep_view()),
{
    let ghost all = inputs.deep_view();
    let ghost raw = inputs@;
    let (mut worker, start) = Worker::start();
    let mut events: Vec<RecognitionEvent> = Vec::new();
    events.push(start);
    assert(events.deep_view() =~= seq![RecognitionEventView::Start]);
    assert(all.take(0) =~= Seq::empty());
    for input in it: inputs
        invariant
            it.seq() == raw,
            all.len() == raw.len(),
            forall|k: int| 0 <= k < raw.len() ==> all[k] == raw[k]@,
            worker@ == worker_after(started_worker(), all.take(it.index() as int)),
            events.deep_view() == session_events(all.take(it.index() as int)),
    {
        let ghost done = all.take(it.index() as int);
        let ghost next = all.take(it.index() + 1);
        assert(next.drop_last() =~= done);
        assert(next.last() == input@);
        let ghost before = events.deep_view();
        let mut emitted = worker.handle(input).events;
        let ghost added = emitted.deep_view();
        events.append(&mut emitted);
        assert(events.deep_view() =~= before + added);
        assert(seq![RecognitionEventView::Start] + (worker_run(started_worker(), done) + added)
            =~= before + added);
    }
    assert(all.take(all.len() as int) =~= all);
    events
}

fn push_optional(events: &mut Vec<RecognitionEvent>, event: Option<RecognitionEvent>)
    requires
        old(events).len() == 0,
    ensures
        final(events).deep_view() == optional_event(event.deep_view()),
{
    match event {
        Some(e) => {
            events.push(e);
            assert(events.deep_view() =~= seq![e@]);
        },
        None => {
            assert(events.deep_view() =~= Seq::empty());
        },
    }
}

/// Some input of the sequence ends the worker.
pub open spec fn has_terminal(inputs: Seq<WorkerInputView>) -> bool {
    exists|i: int| 0 <= i < inputs.len() && (#[trigger] inputs[i]).is_terminal()
}

/// `Start` first, `Stop` last, and nothing but recognitions in between.
pub open spec fn ordered_session(events: Seq<RecognitionEventView>) -> bool {
    &&& events.len() >= 2
    &&& events[0] is Start
    &&& events[events.len() - 1] is Stop
    &&& forall|i: int| 0 < i < events.len() - 1 ==> (#[trigger] events[i]) is Recognition
}

/// `Start` first, and nothing but recognitions after it.
pub open spec fn open_session(events: Seq<RecognitionEventView>) -> bool {
    &&& events.len() >= 1
    &&& events[0] is Start
    &&& forall|i: int| 0 < i < events.len() ==> (#[trigger] events[i]) is Recognition
}

/// Every decoder result among the inputs has well-timed words.
pub open spec fn inputs_well_timed(inputs: Seq<WorkerInputView>) -> bool {
    forall|i: int|
        0 <= i < inputs.len() ==> ((#[trigger] inputs[i]).hypothesis() matches Some(h)
            ==> words_well_timed(h.words))
}

proof fn lemma_has_terminal_push(inputs: Seq<WorkerInputView>)
    requires
        inputs.len() > 0,
    ensures
        has_terminal(inputs) <==> has_terminal(inputs.drop_last()) || inputs.last().is_terminal(),
{
    let init = inputs.drop_last();
    if has_terminal(inputs) {
        let i = choose|i: int| 0 <= i < inputs.len() && (#[trigger] inputs[i]).is_terminal();
        if i < init.len() {
            assert(init[i].is_terminal());
        }
    }
    if has_terminal(init) {
        let i = choose|i: int| 0 <= i < init.len() && (#[trigger] init[i]).is_terminal();
        assert(inputs[i].is_terminal());
    }
    if inputs.last().is_terminal() {
        assert(inputs[inputs.len() - 1].is_terminal());
    }
}

proof fn lemma_run_shape(inputs: Seq<WorkerInputView>)
    ensures
        ({
            let events = worker_run(started_worker(), inputs);
            let worker = worker_after(started_worker(), inputs);
            &&& has_terminal(inputs) <==> worker.phase != WorkerPhase::Running
            &&& !has_terminal(inputs) ==> forall|i: int|
                0 <= i < events.len() ==> (#[trigger] events[i]) is Recognition
            &&& has_terminal(inputs) ==> {
                &&& events.len() >= 1
                &&& events[events.len() - 1] is Stop
                &&& forall|i: int|
                    0 <= i < events.len() - 1 ==> (#[trigger] events[i]) is Recognition
            }
        }),
    decreases inputs.len(),
{
    if inputs.len() > 0 {
        lemma_run_shape(inputs.drop_last());
        lemma_has_terminal_push(inputs);
    }
}

/// A session that is ended, by shutdown or by a decoder failure, emits
/// `Start` first and `Stop` last, each exactly once, and only recognitions
/// in between, whatever else was handed to the worker and in whatever order.
pub proof fn lemma_session_is_ordered(inputs: Seq<WorkerInputView>)
    requires
        has_terminal(inputs),
    ensures
        ordered_session(session_events(inputs)),
        worker_after(started_worker(), inputs).phase != WorkerPhase::Running,
{
    lemma_run_shape(inputs);
}

/// A session that has not been ended has emitted `Start` and recognitions
/// only, and its worker is still running.
pub proof fn lemma_session_stays_open(inputs: Seq<WorkerInputView>)
    requires
        !has_terminal(inputs),
    ensures
        open_session(session_events(inputs)),
        worker_after(started_worker(), inputs).phase == WorkerPhase::Running,
{
    lemma_run_shape(inputs);
}

/// A worker that has ended emits nothing and stays as it is, whatever it is
/// handed.
pub proof fn lemma_ended_worker_is_silent(worker: WorkerView, inputs: Seq<WorkerInputView>)
    requires
        worker.phase != WorkerPhase::Running,
    ensures
        worker_run(worker, inputs) == Seq::<RecognitionEventView>::empty(),
        worker_after(worker, inputs) == worker,
    decreases inputs.len(),
{
    if inputs.len() > 0 {
        lemma_ended_worker_is_silent(worker, inputs.drop_last());
    }
}

proof fn lemma_run_concat(
    worker: WorkerView,
    first: Seq<WorkerInputView>,
    second: Seq<WorkerInputView>,
)
    ensures
        worker_after(worker, first + second) == worker_after(
            worker_after(worker, first),
            second,
        ),
        worker_run(worker, first + second) == worker_run(worker, first) + worker_run(
            worker_after(worker, first),
            second,
        ),
    decreases second.len(),
{
    if second.len() == 0 {
        assert(first + second =~= first);
    } else {
        assert((first + second).drop_last() =~= first + second.drop_last());
        assert((first + second).last() == second.last());
        lemma_run_concat(worker, first, second.drop_last());
    }
}

/// Once a session has been ended, nothing that is handed to the worker
/// afterwards adds an event.
pub proof fn lemma_nothing_follows_stop(
    before: Seq<WorkerInputView>,
    after: Seq<WorkerInputView>,
)
    requires
        has_terminal(before),
    ensures
        session_events(before + after) == session_events(before),
{
    lemma_run_shape(before);
    lemma_run_concat(started_worker(), before, after);
    lemma_ended_worker_is_silent(worker_after(started_worker(), before), after);
}

proof fn lemma_run_has_no_repeats(inputs: Seq<WorkerInputView>)
    ensures
        ({
            let events = worker_run(started_worker(), inputs);
            let worker = worker_after(started_worker(), inputs);
            &&& no_repeated_recognition(events)
            &&& worker.remembered matches Some(r) ==> is_candidate(r)
            &&& (worker.phase == WorkerPhase::Running && events.len() > 0) ==> worker.remembered
                == Some(events[events.len() - 1])
            &&& (worker.phase == WorkerPhase::Running && events.len() == 0) ==> worker.remembered
                is None
        }),
    decreases inputs.len(),
{
    if inputs.len() > 0 {
        let init = inputs.drop_last();
        lemma_run_has_no_repeats(init);
        lemma_run_shape(init);
        let worker = worker_after(started_worker(), init);
        let before = worker_run(started_worker(), init);
        let added = worker_step(worker, inputs.last()).events;
        let events = worker_run(started_worker(), inputs);
        assert(events == before + added);
        if added.len() > 0 && added[0] is Recognition && before.len() > 0 && worker.phase
            == WorkerPhase::Running {
            lemma_same_candidates_are_equal(before[before.len() - 1], added[0]);
        }
        assert forall|i: int| 0 <= i < events.len() - 1 implies !(#[trigger] events[i]).same_recognition(
            events[i + 1],
        ) by {
            if i + 1 < before.len() {
                assert(events[i] == before[i]);
                assert(events[i + 1] == before[i + 1]);
            } else if i + 1 == before.len() {
                assert(events[i] == before[before.len() - 1]);
                assert(events[i + 1] == added[0]);
            } else {
                assert(events[i] == added[i - before.len()]);
                assert(events[i + 1] == added[i + 1 - before.len()]);
            }
        }
    }
}

/// Within a session no recognition is emitted right after one with the same
/// text, finality and words.
pub proof fn lemma_session_has_no_repeats(inputs: Seq<WorkerInputView>)
    ensures
        no_repeated_recognition(session_events(inputs)),
{
    lemma_run_has_no_repeats(inputs);
    let run = worker_run(started_worker(), inputs);
    let events = session_events(inputs);
    assert forall|i: int| 0 <= i < events.len() - 1 implies !(#[trigger] events[i]).same_recognition(
        events[i + 1],
    ) by {
        if i >= 1 {
            assert(events[i] == run[i - 1]);
            assert(events[i + 1] == run[i - 1 + 1]);
        }
    }
}

proof fn lemma_run_is_well_formed(inputs: Seq<WorkerInputView>)
    requires
        inputs_well_timed(inputs),
    ensures
        forall|i: int|
            0 <= i < worker_run(started_worker(), inputs).len() ==> (#[trigger] worker_run(
                started_worker(),
                inputs,
            )[i]).well_formed(),
    decreases inputs.len(),
{
    if inputs.len() > 0 {
        let init = inputs.drop_last();
        assert forall|i: int| 0 <= i < init.len() implies ((#[trigger] init[i]).hypothesis() matches Some(
            h,
        ) ==> words_well_timed(h.words)) by {
            assert(init[i] == inputs[i]);
        }
        lemma_run_is_well_formed(init);
        let worker = worker_after(started_worker(), init);
        let last = inputs[inputs.len() - 1];
        let added = worker_step(worker, last).events;
        assert forall|k: int| 0 <= k < added.len() implies (#[trigger] added[k]).well_formed() by {
            if let Some(h) = last.hypothesis() {
                lemma_emitted_keeps_word_timing(worker.remembered, h.text, h.words, false);
                lemma_emitted_keeps_word_timing(worker.remembered, h.text, h.words, true);
            }
        }
        let before = worker_run(started_worker(), init);
        let events = worker_run(started_worker(), inputs);
        assert forall|i: int| 0 <= i < events.len() implies (#[trigger] events[i]).well_formed() by {
            if i >= before.len() {
                assert(events[i] == added[i - before.len()]);
            } else {
                assert(events[i] == before[i]);
            }
        }
    }
}

/// Where every decoder result has well-timed words, every event of the
/// session is well formed: a recognition carries at least one word, each word
/// ends no earlier than it starts, and the starts never decrease.
pub proof fn lemma_session_keeps_word_timing(inputs: Seq<WorkerInputView>)
    requires
        inputs_well_timed(inputs),
    ensures
        forall|i: int|
            0 <= i < session_events(inputs).len() ==> (#[trigger] session_events(
                inputs,
            )[i]).well_formed(),
{
    lemma_run_is_well_formed(inputs);
    let run = worker_run(started_worker(), inputs);
    let events = session_events(inputs);
    assert forall|i: int| 0 <= i < events.len() implies (#[trigger] events[i]).well_formed() by {
        if i >= 1 {
            assert(events[i] == run[i - 1]);
        }
    }
}

} // verus!
