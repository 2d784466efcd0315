use vstd::prelude::*;
use vstd::string::StringExecFns;
use crate::error::SpeechError;
use crate::recognition_event::{
    no_repeated_recognition, RecognitionEvent, RecognitionEventView,
};
use crate::recognition_mode::{RecognitionMode, RecognitionModeView};
use crate::recognizer_info::{RecognizerInfo, RecognizerInfoView};
use crate::recognizer_options::RecognizerOptions;
use crate::worker_bridge::optional_event;

verus! {

/// How the callback-driven engine is asked to listen.
#[derive(Debug, Clone, Copy, PartialEq, Eq, Structural)]
pub enum EngineMode {
    /// Short, command-like input.
    Interactive,
    /// A continuous stream to caption.
    Caption,
}

/// What the callback-driven engine is created with.
#[derive(Debug, PartialEq)]
pub struct EngineConfig {
    pub channel_count: i32,
    pub sample_rate: i32,
    pub api_key: String,
    pub language_pack_directory: String,
    pub recognition_mode: EngineMode,
    pub include_timing_metrics: bool,
}

/// Mathematical form of an [`EngineConfig`].
pub struct EngineConfigView {
    pub channel_count: i32,
    pub sample_rate: i32,
    pub api_key: Seq<char>,
    pub language_pack_directory: Seq<char>,
    pub recognition_mode: EngineMode,
    pub include_timing_metrics: bool,
}

impl View for EngineConfig {
    type V = EngineConfigView;

    open spec fn view(&self) -> EngineConfigView {
        EngineConfigView {
            channel_count: self.channel_count,
            sample_rate: self.sample_rate,
            api_key: self.api_key@,
            language_pack_directory: self.language_pack_directory@,
            recognition_mode: self.recognition_mode,
            include_timing_metrics: self.include_timing_metrics,
        }
    }
}

/// Commands are recognized interactively, free speech is captioned.
pub open spec fn engine_mode_for(mode: RecognitionModeView) -> EngineMode {
    match mode {
        RecognitionModeView::Commands(_) => EngineMode::Interactive,
        RecognitionModeView::Speech => EngineMode::Caption,
    }
}

/// The engine mode that serves a recognition mode.
pub fn engine_mode(mode: &RecognitionMode) -> (engine: EngineMode)
    ensures
        engine == engine_mode_for(mode@),
{
    match mode {
        RecognitionMode::Commands(_) => EngineMode::Interactive,
        RecognitionMode::Speech => EngineMode::Caption,
    }
}

/// The configuration for a recognizer with the given options whose language
/// pack lies in the given directory. Timing metadata is always asked for.
pub fn engine_config(options: &RecognizerOptions, language_pack_directory: String) -> (config:
    EngineConfig)
    ensures
        config@ == (EngineConfigView {
            channel_count: options.channel_count,
            sample_rate: options.sample_rate,
            api_key: "dummy_api_key"@,
            language_pack_directory: language_pack_directory@,
            recognition_mode: engine_mode_for(options.mode@),
            include_timing_metrics: true,
        }),
{
    EngineConfig {
        channel_count: options.channel_count,
        sample_rate: options.sample_rate,
        api_key: String::from_str("dummy_api_key"),
        language_pack_directory,
        recognition_mode: engine_mode(&options.mode),
        include_timing_metrics: true,
    }
}

/// The most samples that one call of the engine's ingest takes: their
/// length in bytes must fit the 32-bit signed length that the call carries.
pub const MAX_INGEST_SAMPLES: usize = 0x3FFF_FFFF;

/// The length in bytes of a buffer of 16-bit samples, as the engine's ingest
/// call takes it: the whole buffer, two bytes to the sample.
pub fn ingest_byte_length(samples: usize) -> (bytes: i32)
    requires
        samples <= MAX_INGEST_SAMPLES,
    ensures
        bytes == 2 * samples,
{
    (2 * samples) as i32
}

/// What the callback-driven engine can do.
pub fn callback_engine_info() -> (info: RecognizerInfo)
    ensures
        info@ == (RecognizerInfoView {
            name: "Google libsoda"@,
            is_realtime_only: true,
            has_punctuation: true,
        }),
{
    RecognizerInfo {
        name: String::from_str("Google libsoda"),
        is_realtime_only: true,
        has_punctuation: true,
    }
}

/// The kind that an engine response declares for itself.
#[derive(Debug, Clone, Copy, PartialEq, Eq, Structural)]
pub enum ResponseKind {
    Start,
    Stop,
    Other,
}

/// The transition that an endpoint report speaks of.
#[derive(Debug, Clone, Copy, PartialEq, Eq, Structural)]
pub enum EndpointKind {
    StartOfSpeech,
    EndOfSpeech,
    Other,
}

/// How settled a recognition result is, as the engine labels it.
#[derive(Debug, Clone, Copy, PartialEq, Eq, Structural)]
pub enum ResultKind {
    Partial,
    Final,
    Other,
}

/// The endpoint part of a response.
#[derive(Debug, PartialEq)]
pub struct EndpointReport {
    pub kind: EndpointKind,
    pub end_time_usec: Option<u64>,
}

/// The recognition part of a response.
#[derive(Debug, PartialEq)]
pub struct RecognitionReport {
    pub hypotheses: Vec<String>,
    pub kind: ResultKind,
    pub end_time_usec: Option<u64>,
}

/// The language part of a response.
#[derive(Debug, PartialEq)]
pub struct LanguageReport {
    pub language: Option<String>,
}

/// One decoded response of the callback-driven engine, part by part.
#[derive(Debug, PartialEq)]
pub struct EngineResponse {
    pub kind: ResponseKind,
    pub endpoint: Option<EndpointReport>,
    pub recognition: Option<RecognitionReport>,
    pub language: Option<LanguageReport>,
}

/// Mathematical form of a [`RecognitionReport`].
pub struct RecognitionReportView {
    pub hypotheses: Seq<Seq<char>>,
    pub kind: ResultKind,
    pub end_time_usec: Option<u64>,
}

/// Mathematical form of an [`EngineResponse`].
pub struct EngineResponseView {
    pub kind: ResponseKind,
    pub endpoint: Option<EndpointReport>,
    pub recognition: Option<RecognitionReportView>,
    pub language: Option<Option<Seq<char>>>,
}

impl View for RecognitionReport {
    type V = RecognitionReportView;

    open spec fn view(&self) -> RecognitionReportView {
        RecognitionReportView {
            hypotheses: self.hypotheses.deep_view(),
            kind: self.kind,
            end_time_usec: self.end_time_usec,
        }
    }
}

impl DeepView for RecognitionReport {
    type V = RecognitionReportView;

    open spec fn deep_view(&self) -> RecognitionReportView {
        self@
    }
}

impl View for LanguageReport {
    type V = Option<Seq<char>>;

    open spec fn view(&self) -> Option<Seq<char>> {
        self.language.deep_view()
    }
}

impl DeepView for LanguageReport {
    type V = Option<Seq<char>>;

    open spec fn deep_view(&self) -> Option<Seq<char>> {
        self@
    }
}

impl View for EngineResponse {
    type V = EngineResponseView;

    open spec fn view(&self) -> EngineResponseView {
        EngineResponseView {
            kind: self.kind,
            endpoint: self.endpoint,
            recognition: self.recognition.deep_view(),
            language: self.language.deep_view(),
        }
    }
}

impl DeepView for EngineResponse {
    type V = EngineResponseView;

    open spec fn deep_view(&self) -> EngineResponseView {
        self@
    }
}

/// Into or out of speech.
#[derive(Debug, Clone, Copy, PartialEq, Eq, Structural)]
pub enum SpeechBoundary {
    StartOfSpeech,
    EndOfSpeech,
}

/// Whether a result may still change.
#[derive(Debug, Clone, Copy, PartialEq, Eq, Structural)]
pub enum Finality {
    Partial,
    Final,
}

/// What one engine response says, once it is told apart.
#[derive(Debug, PartialEq)]
pub enum EngineMessage {
    SessionStart,
    SessionStop,
    Endpoint { boundary: SpeechBoundary, end_time_usec: Option<u64> },
    Recognition { hypotheses: Vec<String>, finality: Finality, end_time_usec: Option<u64> },
    LanguageId { language: Option<String> },
}

/// Mathematical form of an [`EngineMessage`].
pub enum EngineMessageView {
    SessionStart,
    SessionStop,
    Endpoint { boundary: SpeechBoundary, end_time_usec: Option<u64> },
    Recognition { hypotheses: Seq<Seq<char>>, finality: Finality, end_time_usec: Option<u64> },
    LanguageId { language: Option<Seq<char>> },
}

impl View for EngineMessage {
    type V = EngineMessageView;

    open spec fn view(&self) -> EngineMessageView {
        match self {
            EngineMessage::SessionStart => EngineMessageView::SessionStart,
            EngineMessage::SessionStop => EngineMessageView::SessionStop,
            EngineMessage::Endpoint { boundary, end_time_usec } => EngineMessageView::Endpoint {
                boundary: *boundary,
                end_time_usec: *end_time_usec,
            },
            EngineMessage::Recognition {
                hypotheses,
                finality,
                end_time_usec,
            } => EngineMessageView::Recognition {
                hypotheses: hypotheses.deep_view(),
                finality: *finality,
                end_time_usec: *end_time_usec,
            },
            EngineMessage::LanguageId { language } => EngineMessageView::LanguageId {
                language: language.deep_view(),
            },
        }
    }
}

impl DeepView for EngineMessage {
    type V = EngineMessageView;

    open spec fn deep_view(&self) -> EngineMessageView {
        self@
    }
}

/// Only a result labelled final is final.
pub open spec fn finality_of(kind: ResultKind) -> Finality {
    if kind == ResultKind::Final {
        Finality::Final
    } else {
        Finality::Partial
    }
}

/// Tells a response apart. The declared kind decides first: a start or a
/// stop is that marker, whatever else the response carries. Otherwise the
/// first part present decides, in the order endpoint, recognition, language;
/// an endpoint report of another transition, or a response without any part,
/// says nothing.
pub open spec fn message_of(response: EngineResponseView) -> Option<EngineMessageView> {
    if response.kind == ResponseKind::Start {
        Some(EngineMessageView::SessionStart)
    } else if response.kind == ResponseKind::Stop {
        Some(EngineMessageView::SessionStop)
    } else if let Some(endpoint) = response.endpoint {
        match endpoint.kind {
            EndpointKind::StartOfSpeech => Some(
                EngineMessageView::Endpoint {
                    boundary: SpeechBoundary::StartOfSpeech,
                    end_time_usec: endpoint.end_time_usec,
                },
            ),
            EndpointKind::EndOfSpeech => Some(
                EngineMessageView::Endpoint {
                    boundary: SpeechBoundary::EndOfSpeech,
                    end_time_usec: endpoint.end_time_usec,
                },
            ),
            EndpointKind::Other => None,
        }
    } else if let Some(recognition) = response.recognition {
        Some(
            EngineMessageView::Recognition {
                hypotheses: recognition.hypotheses,
                finality: finality_of(recognition.kind),
                end_time_usec: recognition.end_time_usec,
            },
        )
    } else if let Some(language) = response.language {
        Some(EngineMessageView::LanguageId { language })
    } else {
        None
    }
}

/// The event that a message stands for. A recognition keeps its first
/// hypothesis as text, or the empty text where it has none, and its time as
/// the end of the audio; it says nothing of words or of where the audio
/// starts. A language result without a language stands for nothing.
pub open spec fn event_of(message: EngineMessageView) -> Option<RecognitionEventView> {
    match message {
        EngineMessageView::SessionStart => Some(RecognitionEventView::Start),
        EngineMessageView::SessionStop => Some(RecognitionEventView::Stop),
        EngineMessageView::Endpoint { boundary, end_time_usec } => match boundary {
            SpeechBoundary::StartOfSpeech => Some(
                RecognitionEventView::StartOfSpeech { audio_time_usec: end_time_usec },
            ),
            SpeechBoundary::EndOfSpeech => Some(
                RecognitionEventView::EndOfSpeech { audio_time_usec: end_time_usec },
            ),
        },
        EngineMessageView::Recognition {
            hypotheses,
            finality,
            end_time_usec,
        } => Some(
            RecognitionEventView::Recognition {
                text: if hypotheses.len() > 0 {
                    hypotheses[0]
                } else {
                    Seq::empty()
                },
                is_final: finality == Finality::Final,
                audio_start_time_usec: None,
                audio_end_time_usec: end_time_usec,
                words: None,
            },
        ),
        EngineMessageView::LanguageId { language } => match language {
            Some(id) => Some(RecognitionEventView::Language { id }),
            None => None,
        },
    }
}

/// The event that the bytes of one engine callback stand for: none where
/// they could not be decoded, else the event of what the response says.
/// Whether the event is forwarded is for the bridge to decide.
pub open spec fn decoded_event_of(decoded: Option<EngineResponseView>) -> Option<
    RecognitionEventView,
> {
    match decoded {
        None => None,
        Some(response) => match message_of(response) {
            None => None,
            Some(message) => event_of(message),
        },
    }
}

impl EngineResponse {
    /// Tells the response apart, as [`message_of`] says.
    pub fn into_message(self) -> (message: Option<EngineMessage>)
        ensures
            message.deep_view() == message_of(self@),
    {
        match self.kind {
            ResponseKind::Start => { return Some(EngineMessage::SessionStart); },
            ResponseKind::Stop => { return Some(EngineMessage::SessionStop); },
            ResponseKind::Other => {},
        }
        if let Some(endpoint) = self.endpoint {
            match endpoint.kind {
                EndpointKind::StartOfSpeech => Some(
                    EngineMessage::Endpoint {
                        boundary: SpeechBoundary::StartOfSpeech,
                        end_time_usec: endpoint.end_time_usec,
                    },
                ),
                EndpointKind::EndOfSpeech => Some(
                    EngineMessage::Endpoint {
                        boundary: SpeechBoundary::EndOfSpeech,
                        end_time_usec: endpoint.end_time_usec,
                    },
                ),
                EndpointKind::Other => None,
            }
        } else if let Some(recognition) = self.recognition {
            let finality = match recognition.kind {
                ResultKind::Final => Finality::Final,
                _ => Finality::Partial,
            };
            Some(
                EngineMessage::Recognition {
                    hypotheses: recognition.hypotheses,
                    finality,
                    end_time_usec: recognition.end_time_usec,
                },
            )
        } else if let Some(report) = self.language {
            Some(EngineMessage::LanguageId { language: report.language })
        } else {
            None
        }
    }
}

impl EngineMessage {
    /// The event to forward for this message, as [`event_of`] says.
    pub fn into_event(self) -> (event: Option<RecognitionEvent>)
        ensures
            event.deep_view() == event_of(self@),
    {
        match self {
            EngineMessage::SessionStart => Some(RecognitionEvent::Start),
            EngineMessage::SessionStop => Some(RecognitionEvent::Stop),
            EngineMessage::Endpoint { boundary, end_time_usec } => match boundary {
                SpeechBoundary::StartOfSpeech => Some(
                    RecognitionEvent::StartOfSpeech { audio_time_usec: end_time_usec },
                ),
                SpeechBoundary::EndOfSpeech => Some(
                    RecognitionEvent::EndOfSpeech { audio_time_usec: end_time_usec },
                ),
            },
            EngineMessage::Recognition { mut hypotheses, finality, end_time_usec } => {
                let ghost all = hypotheses.deep_view();
                let text = if hypotheses.len() > 0 {
                    assert(all[0] == hypotheses@[0]@);
                    hypotheses.swap_remove(0)
                } else {
                    assert(all.len() == 0);
                    String::new()
                };
                let is_final = match finality {
                    Finality::Final => true,
                    Finality::Partial => false,
                };
                Some(
                    RecognitionEvent::Recognition {
                        text,
                        is_final,
                        audio_start_time_usec: None,
                        audio_end_time_usec: end_time_usec,
                        words: None,
                    },
                )
            },
            EngineMessage::LanguageId { language } => match language {
                Some(id) => Some(RecognitionEvent::Language { id }),
                None => None,
            },
        }
    }
}

/// The event that the bytes of one engine callback stand for, if any; bytes
/// that could not be decoded stand for none.
pub fn decoded_event(decoded: Result<EngineResponse, SpeechError>) -> (event: Option<
    RecognitionEvent,
>)
    ensures
        event.deep_view() == decoded_event_of(decoded_view(decoded)),
{
    match decoded {
        Err(_) => None,
        Ok(response) => match response.into_message() {
            None => None,
            Some(message) => message.into_event(),
        },
    }
}

/// What a decoding attempt yielded, in mathematical form.
pub open spec fn decoded_view(decoded: Result<EngineResponse, SpeechError>) -> Option<
    EngineResponseView,
> {
    match decoded {
        Ok(response) => Some(response@),
        Err(_) => None,
    }
}

/// The same for a sequence of attempts.
pub open spec fn decoded_views(decoded: Seq<Result<EngineResponse, SpeechError>>) -> Seq<
    Option<EngineResponseView>,
> {
    Seq::new(decoded.len(), |i: int| decoded_view(decoded[i]))
}

/// Where the stream of one bridge stands.
#[derive(Debug, Clone, Copy, PartialEq, Eq, Structural)]
pub enum BridgePhase {
    /// Nothing was forwarded yet.
    Idle,
    /// `Start` was forwarded, `Stop` was not.
    Running,
    /// `Stop` was forwarded; nothing follows.
    Stopped,
}

/// Mathematical form of a [`CallbackBridge`].
pub struct CallbackBridgeView {
    pub phase: BridgePhase,
    /// The last recognition that was forwarded.
    pub remembered: Option<RecognitionEventView>,
}

/// The bridge after one callback, and the event that it forwards, if any.
pub struct BridgeOutcome {
    pub next: CallbackBridgeView,
    pub event: Option<RecognitionEventView>,
}

/// The bridge of a recognizer that has just been built.
pub open spec fn new_bridge() -> CallbackBridgeView {
    CallbackBridgeView { phase: BridgePhase::Idle, remembered: None }
}

/// The bridge lets an event pass without a change.
pub open spec fn pass(bridge: CallbackBridgeView, event: RecognitionEventView) -> BridgeOutcome {
    BridgeOutcome { next: bridge, event: Some(event) }
}

/// The bridge drops an event without a change.
pub open spec fn drop_event(bridge: CallbackBridgeView) -> BridgeOutcome {
    BridgeOutcome { next: bridge, event: None }
}

/// What the bridge does with an event that the engine gave rise to.
///
/// The stream of a recognizer is `Start`, then content, then `Stop`, and the
/// bridge forwards what keeps it so. Before `Start` only `Start` passes.
/// After it a second `Start` is dropped, `Stop` passes and ends the stream,
/// and content passes, but for a recognition with the text, finality and
/// words of the last recognition forwarded, which is dropped and leaves the
/// memory as it is. After `Stop` nothing passes.
pub open spec fn bridge_admits(bridge: CallbackBridgeView, event: RecognitionEventView) -> BridgeOutcome {
    match bridge.phase {
        BridgePhase::Stopped => drop_event(bridge),
        BridgePhase::Idle => if event is Start {
            BridgeOutcome {
                next: CallbackBridgeView { phase: BridgePhase::Running, remembered: None },
                event: Some(event),
            }
        } else {
            drop_event(bridge)
        },
        BridgePhase::Running => if event is Start {
            drop_event(bridge)
        } else if event is Stop {
            BridgeOutcome {
                next: CallbackBridgeView {
                    phase: BridgePhase::Stopped,
                    remembered: bridge.remembered,
                },
                event: Some(event),
            }
        } else if event is Recognition {
            if bridge.remembered matches Some(last) && event.same_recognition(last) {
                drop_event(bridge)
            } else {
                BridgeOutcome {
                    next: CallbackBridgeView {
                        phase: BridgePhase::Running,
                        remembered: Some(event),
                    },
                    event: Some(event),
                }
            }
        } else {
            pass(bridge, event)
        },
    }
}

/// What the bridge does on one callback: nothing where its bytes stand for
/// no event, else what [`bridge_admits`] says of the event they stand for.
pub open spec fn bridge_step(bridge: CallbackBridgeView, decoded: Option<EngineResponseView>) -> BridgeOutcome {
    match decoded_event_of(decoded) {
        None => drop_event(bridge),
        Some(event) => bridge_admits(bridge, event),
    }
}

/// The bridge after a sequence of callbacks.
pub open spec fn bridge_after(callbacks: Seq<Option<EngineResponseView>>) -> CallbackBridgeView
    decreases callbacks.len(),
{
    if callbacks.len() == 0 {
        new_bridge()
    } else {
        bridge_step(bridge_after(callbacks.drop_last()), callbacks.last()).next
    }
}

/// The events pushed onto the event channel over a sequence of callbacks,
/// in order.
pub open spec fn forwarded_events(callbacks: Seq<Option<EngineResponseView>>) -> Seq<
    RecognitionEventView,
>
    decreases callbacks.len(),
{
    if callbacks.len() == 0 {
        Seq::empty()
    } else {
        forwarded_events(callbacks.drop_last()) + optional_event(
            bridge_step(bridge_after(callbacks.drop_last()), callbacks.last()).event,
        )
    }
}

/// The state that the engine hands back to every callback of one recognizer:
/// where the stream stands, and the last recognition forwarded.
#[derive(Debug)]
pub struct CallbackBridge {
    phase: BridgePhase,
    last: Option<RecognitionEvent>,
}

impl View for CallbackBridge {
    type V = CallbackBridgeView;

    closed spec fn view(&self) -> CallbackBridgeView {
        CallbackBridgeView { phase: self.phase, remembered: self.last.deep_view() }
    }
}

impl CallbackBridge {
    /// The bridge of a recognizer that has just been built.
    pub fn new() -> (bridge: Self)
        ensures
            bridge@ == new_bridge(),
    {
        CallbackBridge { phase: BridgePhase::Idle, last: None }
    }

    /// Where the stream stands.
    pub fn phase(&self) -> (phase: BridgePhase)
        ensures
            phase == self@.phase,
    {
        self.phase
    }

    /// Takes an event that the engine gave rise to and returns it if it is to
    /// be forwarded.
    pub fn offer(&mut self, event: RecognitionEvent) -> (forwarded: Option<RecognitionEvent>)
        ensures
            final(self)@ == bridge_admits(old(self)@, event@).next,
            forwarded.deep_view() == bridge_admits(old(self)@, event@).event,
    {
        match self.phase {
            BridgePhase::Stopped => None,
            BridgePhase::Idle => {
                if event.is_start() {
                    self.phase = BridgePhase::Running;
                    self.last = None;
                    Some(event)
                } else {
                    None
                }
            },
            BridgePhase::Running => {
                if event.is_start() {
                    None
                } else if event.is_stop() {
                    self.phase = BridgePhase::Stopped;
                    Some(event)
                } else if event.is_recognition() {
                    let repeated = match &self.last {
                        Some(last) => event.same_recognition_as(last),
                        None => false,
                    };
                    if repeated {
                        None
                    } else {
                        let forwarded = event.clone();
                        self.last = Some(event);
                        Some(forwarded)
                    }
                } else {
                    Some(event)
                }
            },
        }
    }

    /// Handles one engine callback, given what decoding its bytes yielded,
    /// and returns the event to push onto the event channel, if any.
    pub fn on_callback(&mut self, decoded: Result<EngineResponse, SpeechError>) -> (event: Option<
        RecognitionEvent,
    >)
        ensures
            final(self)@ == bridge_step(old(self)@, decoded_view(decoded)).next,
            event.deep_view() == bridge_step(old(self)@, decoded_view(decoded)).event,
    {
        match decoded_event(decoded) {
            None => None,
            Some(event) => self.offer(event),
        }
    }
}

/// Forwards a sequence of callbacks through a new bridge: the events to push
/// onto the event channel, in order.
pub fn forward_callbacks(decoded: Vec<Result<EngineResponse, SpeechError>>) -> (events: Vec<
    RecognitionEvent,
>)
    ensures
        events.deep_view() == forwarded_events(decoded_views(decoded@)),
{
    let ghost raw = decoded@;
    let ghost all = decoded_views(decoded@);
    let mut bridge = CallbackBridge::new();
    let mut events: Vec<RecognitionEvent> = Vec::new();
    assert(all.take(0) =~= Seq::empty());
    assert(events.deep_view() =~= Seq::empty());
    for attempt in it: decoded
        invariant
            it.seq() == raw,
            all == decoded_views(raw),
            bridge@ == bridge_after(all.take(it.index() as int)),
            events.deep_view() == forwarded_events(all.take(it.index() as int)),
    {
        let ghost done = all.take(it.index() as int);
        let ghost next = all.take(it.index() + 1);
        assert(next.drop_last() =~= done);
        assert(next.last() == decoded_view(attempt));
        let ghost before = events.deep_view();
        match bridge.on_callback(attempt) {
            Some(event) => {
                events.push(event);
                assert(events.deep_view() =~= before + seq![event@]);
            },
            None => {
                assert(before + Seq::<RecognitionEventView>::empty() =~= before);
            },
        }
    }
    assert(all.take(all.len() as int) =~= all);
    events
}

/// `Start` first, and neither `Start` nor `Stop` after it.
pub open spec fn begun(events: Seq<RecognitionEventView>) -> bool {
    &&& events.len() >= 1
    &&& events[0] is Start
    &&& forall|i: int|
        0 < i < events.len() ==> !((#[trigger] events[i]) is Start) && !(events[i] is Stop)
}

/// `Start` first, `Stop` last, and neither in between.
pub open spec fn bracketed(events: Seq<RecognitionEventView>) -> bool {
    &&& events.len() >= 2
    &&& events[0] is Start
    &&& events[events.len() - 1] is Stop
    &&& forall|i: int|
        0 < i < events.len() - 1 ==> !((#[trigger] events[i]) is Start) && !(events[i] is Stop)
}

/// The stream is as far as the phase says: empty, begun, or bracketed.
pub open spec fn stream_in_order(events: Seq<RecognitionEventView>, phase: BridgePhase) -> bool {
    match phase {
        BridgePhase::Idle => events.len() == 0,
        BridgePhase::Running => begun(events),
        BridgePhase::Stopped => bracketed(events),
    }
}

/// The bytes of a callback stand for `Start` exactly when its response
/// declares a start, and for `Stop` exactly when it declares a stop.
pub proof fn lemma_markers_map_to_markers(decoded: Option<EngineResponseView>)
    ensures
        decoded_event_of(decoded) == Some(RecognitionEventView::Start) <==> (decoded matches Some(
            r,
        ) && r.kind == ResponseKind::Start),
        decoded_event_of(decoded) == Some(RecognitionEventView::Stop) <==> (decoded matches Some(
            r,
        ) && r.kind == ResponseKind::Stop),
{
}

/// Whatever the engine calls back with and in whatever order, the forwarded
/// stream is in order: it is empty until `Start` is forwarded, then begins
/// with the one `Start`, and once `Stop` is forwarded that is its one `Stop`
/// and its last event.
pub proof fn lemma_forwarded_stream_is_ordered(callbacks: Seq<Option<EngineResponseView>>)
    ensures
        stream_in_order(forwarded_events(callbacks), bridge_after(callbacks).phase),
    decreases callbacks.len(),
{
    if callbacks.len() > 0 {
        lemma_forwarded_stream_is_ordered(callbacks.drop_last());
    }
}

proof fn lemma_stopped_bridge_stays(
    before: Seq<Option<EngineResponseView>>,
    after: Seq<Option<EngineResponseView>>,
)
    requires
        bridge_after(before).phase == BridgePhase::Stopped,
    ensures
        bridge_after(before + after) == bridge_after(before),
        forwarded_events(before + after) == forwarded_events(before),
    decreases after.len(),
{
    if after.len() == 0 {
        assert(before + after =~= before);
    } else {
        assert((before + after).drop_last() =~= before + after.drop_last());
        assert((before + after).last() == after.last());
        lemma_stopped_bridge_stays(before, after.drop_last());
        assert(forwarded_events(before) + Seq::<RecognitionEventView>::empty()
            =~= forwarded_events(before));
    }
}

/// Once `Stop` is forwarded nothing follows it: whatever the engine calls
/// back with afterwards, a start marker too, adds no event.
pub proof fn lemma_nothing_follows_forwarded_stop(
    before: Seq<Option<EngineResponseView>>,
    after: Seq<Option<EngineResponseView>>,
)
    requires
        bridge_after(before).phase == BridgePhase::Stopped,
    ensures
        forwarded_events(before + after) == forwarded_events(before),
        bracketed(forwarded_events(before + after)),
{
    lemma_stopped_bridge_stays(before, after);
    lemma_forwarded_stream_is_ordered(before);
}

proof fn lemma_forwarded_memory(callbacks: Seq<Option<EngineResponseView>>)
    ensures
        ({
            let events = forwarded_events(callbacks);
            let bridge = bridge_after(callbacks);
            &&& no_repeated_recognition(events)
            &&& (bridge.phase == BridgePhase::Running && events[events.len() - 1] is Recognition)
                ==> bridge.remembered == Some(events[events.len() - 1])
        }),
    decreases callbacks.len(),
{
    if callbacks.len() > 0 {
        let init = callbacks.drop_last();
        lemma_forwarded_memory(init);
        lemma_forwarded_stream_is_ordered(init);
        lemma_forwarded_stream_is_ordered(callbacks);
        let before = forwarded_events(init);
        let events = forwarded_events(callbacks);
        let outcome = bridge_step(bridge_after(init), callbacks.last());
        assert(events == before + optional_event(outcome.event));
        assert forall|i: int| 0 <= i < events.len() - 1 implies !(#[trigger] events[i]).same_recognition(
            events[i + 1],
        ) by {
            if i + 1 < before.len() {
                assert(events[i] == before[i]);
                assert(events[i + 1] == before[i + 1]);
            } else {
                assert(events[i] == before[before.len() - 1]);
            }
        }
    }
}

/// Whatever the engine calls back with, no recognition is forwarded right
/// after one with the same text, finality and words.
pub proof fn lemma_forwarded_stream_has_no_repeats(callbacks: Seq<Option<EngineResponseView>>)
    ensures
        no_repeated_recognition(forwarded_events(callbacks)),
{
    lemma_forwarded_memory(callbacks);
}

/// What exists of the two things that the bridge owns: the context cell that
/// the engine hands back to every callback, and the engine itself. An engine
/// without a context does not occur.
#[derive(Debug, Clone, Copy, PartialEq, Eq, Structural)]
pub enum BridgeResources {
    Nothing,
    Context,
    ContextAndEngine,
}

/// One step in building the bridge's resources up or taking them down.
#[derive(Debug, Clone, Copy, PartialEq, Eq, Structural)]
pub enum ResourceStep {
    AllocateContext,
    CreateEngine,
    DestroyEngine,
    FreeContext,
}

/// What a step makes of the resources, or `None` where the step is not
/// allowed: the context is allocated first and freed last, so that the engine
/// never holds a context that is gone.
pub open spec fn resources_after(resources: BridgeResources, step: ResourceStep) -> Option<
    BridgeResources,
> {
    match (resources, step) {
        (BridgeResources::Nothing, ResourceStep::AllocateContext) => Some(BridgeResources::Context),
        (BridgeResources::Context, ResourceStep::CreateEngine) => Some(
            BridgeResources::ContextAndEngine,
        ),
        (BridgeResources::ContextAndEngine, ResourceStep::DestroyEngine) => Some(
            BridgeResources::Context,
        ),
        (BridgeResources::Context, ResourceStep::FreeContext) => Some(BridgeResources::Nothing),
        _ => None,
    }
}

/// What a run of steps makes of the resources, or `None` where one of them
/// is not allowed.
pub open spec fn resources_after_all(resources: BridgeResources, steps: Seq<ResourceStep>) -> Option<
    BridgeResources,
>
    decreases steps.len(),
{
    if steps.len() == 0 {
        Some(resources)
    } else {
        match resources_after(resources, steps[0]) {
            Some(next) => resources_after_all(next, steps.skip(1)),
            None => None,
        }
    }
}

/// The steps that take down whatever exists: the engine first, then the
/// context.
pub open spec fn teardown_of(resources: BridgeResources) -> Seq<ResourceStep> {
    match resources {
        BridgeResources::Nothing => Seq::empty(),
        BridgeResources::Context => seq![ResourceStep::FreeContext],
        BridgeResources::ContextAndEngine => seq![
            ResourceStep::DestroyEngine,
            ResourceStep::FreeContext,
        ],
    }
}

impl BridgeResources {
    /// Records a step that is about to be taken. Refuses, with
    /// [`SpeechError::InvalidStateError`] and without a change, a step that is
    /// not allowed.
    pub fn advance(&mut self, step: ResourceStep) -> (taken: Result<(), SpeechError>)
        ensures
            match resources_after(*old(self), step) {
                Some(next) => taken is Ok && *final(self) == next,
                None => taken == Err::<(), SpeechError>(SpeechError::InvalidStateError)
                    && *final(self) == *old(self),
            },
    {
        let next = match (*self, step) {
            (BridgeResources::Nothing, ResourceStep::AllocateContext) => BridgeResources::Context,
            (BridgeResources::Context, ResourceStep::CreateEngine) => {
                BridgeResources::ContextAndEngine
            },
            (BridgeResources::ContextAndEngine, ResourceStep::DestroyEngine) => {
                BridgeResources::Context
            },
            (BridgeResources::Context, ResourceStep::FreeContext) => BridgeResources::Nothing,
            _ => {
                return Err(SpeechError::InvalidStateError);
            },
        };
        *self = next;
        Ok(())
    }

    /// The steps that take down whatever exists, in the order to take them.
    pub fn teardown(&self) -> (steps: Vec<ResourceStep>)
        ensures
            steps@ == teardown_of(*self),
    {
        let mut steps: Vec<ResourceStep> = Vec::new();
        match self {
            BridgeResources::Nothing => {},
            BridgeResources::Context => {
                steps.push(ResourceStep::FreeContext);
            },
            BridgeResources::ContextAndEngine => {
                steps.push(ResourceStep::DestroyEngine);
                steps.push(ResourceStep::FreeContext);
            },
        }
        assert(steps@ =~= teardown_of(*self));
        steps
    }
}

/// Taking down is always allowed and leaves nothing, and the context is
/// never freed while the engine exists nor the engine created without it.
pub proof fn lemma_teardown_frees_context_last(resources: BridgeResources)
    ensures
        resources_after_all(resources, teardown_of(resources)) == Some(BridgeResources::Nothing),
        resources_after(BridgeResources::ContextAndEngine, ResourceStep::FreeContext) is None,
        resources_after(BridgeResources::Nothing, ResourceStep::CreateEngine) is None,
{
    reveal_with_fuel(resources_after_all, 3);
    let steps = teardown_of(resources);
    if steps.len() == 2 {
        assert(steps.skip(1) =~= seq![ResourceStep::FreeContext]);
        assert(steps.skip(1).skip(1) =~= Seq::empty());
    } else if steps.len() == 1 {
        assert(steps.skip(1) =~= Seq::empty());
    }
}

} // verus!
