use vstd::prelude::*;
use crate::error::{SpeechError, SpeechErrorView, SpeechResult};
use crate::recognizer_info::RecognizerInfo;
use crate::recognizer_options::{RecognizerOptions, RecognizerOptionsView};

verus! {

/// Where a recognizer stands in its life.
#[derive(Debug, Clone, Copy, PartialEq, Eq, Structural)]
pub enum RecognizerState {
    /// Built, not started.
    Created,
    /// Started; audio may be written.
    Started,
    /// Stopped; nothing more is accepted.
    Stopped,
}

impl RecognizerState {
    /// The position of the state in the order in which a recognizer passes
    /// through them.
    pub open spec fn rank(self) -> int {
        match self {
            RecognizerState::Created => 0,
            RecognizerState::Started => 1,
            RecognizerState::Stopped => 2,
        }
    }
}

/// A speech recognizer: started once, fed audio, stopped.
///
/// An implementation passes through `Created → Started → Stopped` and keeps
/// a [`Lifecycle`], which decides for each operation what is done to the
/// engine and what is returned: a `start` or a `write` that the state does
/// not allow is refused with [`SpeechError::InvalidStateError`] and changes
/// nothing, and a `stop` is always allowed and does nothing, without an
/// error, to a recognizer that is not started.
pub trait Recognizer {
    /// What the engine behind the recognizer can do.
    fn info(&self) -> &RecognizerInfo;

    /// Starts the recognition.
    fn start(&mut self) -> SpeechResult;

    /// Feeds a buffer of 16-bit samples and returns when the engine is ready
    /// for the next.
    fn write(&mut self, buffer: &[i16]) -> SpeechResult;

    /// Ends the audio and waits until everything written has been handled.
    fn stop(&mut self) -> SpeechResult;
}

/// What the adapter has to do with its engine after a decision.
#[derive(Debug, Clone, Copy, PartialEq, Eq, Structural)]
pub enum EngineAction {
    /// Nothing.
    Nothing,
    /// Hand the buffer to the engine and wait as the engine requires.
    Feed,
    /// Tell the engine that the audio has ended and wait until it is done.
    Shutdown,
    /// The engine has ended by itself: release what is left of it.
    Release,
}

/// A decision of the lifecycle: what to do with the engine, and what to
/// return to the caller afterwards.
#[derive(Debug, PartialEq)]
pub struct Decision {
    pub action: EngineAction,
    pub result: Result<(), SpeechError>,
}

/// Mathematical form of a [`Lifecycle`].
pub struct LifecycleView {
    pub state: RecognizerState,
    /// The engine has failed for good and the caller has not been told yet.
    pub failure_pending: bool,
}

/// Mathematical form of a decision together with the lifecycle it leaves.
pub struct Transition {
    pub next: LifecycleView,
    pub action: EngineAction,
    pub error: Option<SpeechErrorView>,
}

/// The lifecycle of a recognizer that has just been built.
pub open spec fn created() -> LifecycleView {
    LifecycleView { state: RecognizerState::Created, failure_pending: false }
}

/// A refusal: nothing changes, nothing is done, the caller gets the error.
pub open spec fn refuse(lifecycle: LifecycleView, error: SpeechErrorView) -> Transition {
    Transition { next: lifecycle, action: EngineAction::Nothing, error: Some(error) }
}

/// Whether `start` may go ahead: only on a recognizer that was never
/// started, and only with valid options.
pub open spec fn start_check(lifecycle: LifecycleView, options: RecognizerOptionsView) -> Option<
    SpeechErrorView,
> {
    if lifecycle.state != RecognizerState::Created {
        Some(SpeechErrorView::InvalidStateError)
    } else if !options.valid() {
        Some(SpeechErrorView::ConfigurationError)
    } else {
        None
    }
}

/// The end of `start`: the recognizer is started if its engine came up, and
/// stays as it was, with the engine's error, if it did not.
pub open spec fn start_completion(lifecycle: LifecycleView, engine_error: Option<SpeechErrorView>) -> Transition {
    if lifecycle.state != RecognizerState::Created {
        refuse(lifecycle, SpeechErrorView::InvalidStateError)
    } else {
        match engine_error {
            Some(error) => refuse(lifecycle, error),
            None => Transition {
                next: LifecycleView { state: RecognizerState::Started, failure_pending: false },
                action: EngineAction::Nothing,
                error: None,
            },
        }
    }
}

/// The recognizer learns that its engine has failed for good. Only a started
/// recognizer has an engine that can fail.
pub open spec fn failure_noted(lifecycle: LifecycleView) -> LifecycleView {
    if lifecycle.state == RecognizerState::Started {
        LifecycleView { state: RecognizerState::Started, failure_pending: true }
    } else {
        lifecycle
    }
}

/// The recognizer with its engine gone: stopped, with the caller told.
pub open spec fn ended() -> LifecycleView {
    LifecycleView { state: RecognizerState::Stopped, failure_pending: false }
}

/// `write`: a started recognizer feeds the buffer; one whose engine has
/// failed reports that instead, releases the engine and is stopped; any other
/// refuses.
pub open spec fn write_transition(lifecycle: LifecycleView) -> Transition {
    if lifecycle.state != RecognizerState::Started {
        refuse(lifecycle, SpeechErrorView::InvalidStateError)
    } else if lifecycle.failure_pending {
        Transition {
            next: ended(),
            action: EngineAction::Release,
            error: Some(SpeechErrorView::EngineFatalError),
        }
    } else {
        Transition { next: lifecycle, action: EngineAction::Feed, error: None }
    }
}

/// `stop`: a started recognizer shuts its engine down and is stopped; one
/// whose engine has failed reports that, releases the engine and is stopped;
/// one that is stopped, or was never started, does nothing and stays as it
/// is, without an error.
pub open spec fn stop_transition(lifecycle: LifecycleView) -> Transition {
    match lifecycle.state {
        RecognizerState::Created | RecognizerState::Stopped => Transition {
            next: lifecycle,
            action: EngineAction::Nothing,
            error: None,
        },
        RecognizerState::Started => if lifecycle.failure_pending {
            Transition {
                next: ended(),
                action: EngineAction::Release,
                error: Some(SpeechErrorView::EngineFatalError),
            }
        } else {
            Transition { next: ended(), action: EngineAction::Shutdown, error: None }
        },
    }
}

/// What a recognizer that is dropped has to do first: an orderly stop if it
/// is started, nothing otherwise.
pub open spec fn drop_transition(lifecycle: LifecycleView) -> Transition {
    if lifecycle.state == RecognizerState::Started {
        Transition {
            next: ended(),
            action: if lifecycle.failure_pending {
                EngineAction::Release
            } else {
                EngineAction::Shutdown
            },
            error: None,
        }
    } else {
        Transition { next: lifecycle, action: EngineAction::Nothing, error: None }
    }
}

/// The state machine behind every recognizer: it decides what each operation
/// does to the engine and what it returns, and the adapter carries that out.
#[derive(Debug)]
pub struct Lifecycle {
    state: RecognizerState,
    failure_pending: bool,
}

impl View for Lifecycle {
    type V = LifecycleView;

    closed spec fn view(&self) -> LifecycleView {
        LifecycleView { state: self.state, failure_pending: self.failure_pending }
    }
}

impl Decision {
    /// The error of the decision, if it has one, in mathematical form.
    pub open spec fn error(&self) -> Option<SpeechErrorView> {
        match self.result {
            Ok(_) => None,
            Err(e) => Some(e@),
        }
    }
}

impl Lifecycle {
    /// The lifecycle of a recognizer that has just been built.
    pub fn new() -> (lifecycle: Self)
        ensures
            lifecycle@ == created(),
    {
        Lifecycle { state: RecognizerState::Created, failure_pending: false }
    }

    /// Where the recognizer stands.
    pub fn state(&self) -> (state: RecognizerState)
        ensures
            state == self@.state,
    {
        self.state
    }

    /// Whether `start` may go ahead and bring the engine up.
    pub fn check_start(&self, options: &RecognizerOptions) -> (checked: Result<(), SpeechError>)
        ensures
            match checked {
                Ok(_) => start_check(self@, options@) is None,
                Err(e) => start_check(self@, options@) == Some(e@),
            },
    {
        match self.state {
            RecognizerState::Created => options.validate(),
            _ => Err(SpeechError::InvalidStateError),
        }
    }

    /// Ends `start` with what bringing the engine up gave.
    pub fn complete_start(&mut self, engine: Result<(), SpeechError>) -> (started: Result<
        (),
        SpeechError,
    >)
        ensures
            ({
                let t = start_completion(
                    old(self)@,
                    match engine {
                        Ok(_) => None,
                        Err(e) => Some(e@),
                    },
                );
                &&& final(self)@ == t.next
                &&& match started {
                    Ok(_) => t.error is None,
                    Err(e) => t.error == Some(e@),
                }
            }),
    {
        match self.state {
            RecognizerState::Created => match engine {
                Ok(_) => {
                    self.state = RecognizerState::Started;
                    self.failure_pending = false;
                    Ok(())
                },
                Err(e) => Err(e),
            },
            _ => Err(SpeechError::InvalidStateError),
        }
    }

    /// Notes that the engine has failed for good; the next `write` or `stop`
    /// tells the caller.
    pub fn note_engine_failure(&mut self)
        ensures
            final(self)@ == failure_noted(old(self)@),
    {
        match self.state {
            RecognizerState::Started => {
                self.failure_pending = true;
            },
            _ => {},
        }
    }

    /// Decides a `write`.
    pub fn write(&mut self) -> (decision: Decision)
        ensures
            final(self)@ == write_transition(old(self)@).next,
            decision.action == write_transition(old(self)@).action,
            decision.error() == write_transition(old(self)@).error,
    {
        match self.state {
            RecognizerState::Started => {
                if self.failure_pending {
                    self.state = RecognizerState::Stopped;
                    self.failure_pending = false;
                    Decision {
                        action: EngineAction::Release,
                        result: Err(SpeechError::EngineFatalError),
                    }
                } else {
                    Decision { action: EngineAction::Feed, result: Ok(()) }
                }
            },
            _ => Decision {
                action: EngineAction::Nothing,
                result: Err(SpeechError::InvalidStateError),
            },
        }
    }

    /// Decides a `stop`.
    pub fn stop(&mut self) -> (decision: Decision)
        ensures
            final(self)@ == stop_transition(old(self)@).next,
            decision.action == stop_transition(old(self)@).action,
            decision.error() == stop_transition(old(self)@).error,
    {
        match self.state {
            RecognizerState::Created | RecognizerState::Stopped => Decision {
                action: EngineAction::Nothing,
                result: Ok(()),
            },
            RecognizerState::Started => {
                let failed = self.failure_pending;
                self.state = RecognizerState::Stopped;
                self.failure_pending = false;
                if failed {
                    Decision {
                        action: EngineAction::Release,
                        result: Err(SpeechError::EngineFatalError),
                    }
                } else {
                    Decision { action: EngineAction::Shutdown, result: Ok(()) }
                }
            },
        }
    }

    /// Decides what a recognizer has to do before it is dropped.
    pub fn release(&mut self) -> (action: EngineAction)
        ensures
            final(self)@ == drop_transition(old(self)@).next,
            action == drop_transition(old(self)@).action,
    {
        match self.state {
            RecognizerState::Started => {
                let failed = self.failure_pending;
                self.state = RecognizerState::Stopped;
                self.failure_pending = false;
                if failed {
                    EngineAction::Release
                } else {
                    EngineAction::Shutdown
                }
            },
            _ => EngineAction::Nothing,
        }
    }
}

/// Stopping twice is stopping once: the second `stop` does nothing to the
/// engine, changes nothing and succeeds, whatever the recognizer's state.
/// On a started recognizer whose engine is well the first succeeds too and
/// shuts the engine down; on one that is not started the first is such a
/// second already.
pub proof fn lemma_stop_is_idempotent(lifecycle: LifecycleView)
    ensures
        ({
            let first = stop_transition(lifecycle);
            let second = stop_transition(first.next);
            &&& second.action == EngineAction::Nothing
            &&& second.next == first.next
            &&& second.error is None
            &&& lifecycle.state != RecognizerState::Started ==> first == second && first.next
                == lifecycle
            &&& (lifecycle.state == RecognizerState::Started && !lifecycle.failure_pending) ==> (
            first.error is None && first.action == EngineAction::Shutdown)
        }),
{
}

/// A recognizer shuts its engine down at most once: after any `stop` or
/// drop that asked for it, no later operation asks for it again.
pub proof fn lemma_shutdown_happens_once(lifecycle: LifecycleView)
    ensures
        stop_transition(lifecycle).action == EngineAction::Shutdown ==> {
            let after = stop_transition(lifecycle).next;
            &&& stop_transition(after).action == EngineAction::Nothing
            &&& drop_transition(after).action == EngineAction::Nothing
            &&& write_transition(after).action == EngineAction::Nothing
        },
        drop_transition(lifecycle).action == EngineAction::Shutdown ==> {
            let after = drop_transition(lifecycle).next;
            &&& stop_transition(after).action == EngineAction::Nothing
            &&& drop_transition(after).action == EngineAction::Nothing
        },
{
}

/// No operation takes a recognizer back: the state only ever moves along
/// `Created → Started → Stopped`, and only `start` leaves `Created`.
pub proof fn lemma_state_only_advances(lifecycle: LifecycleView, engine_error: Option<SpeechErrorView>)
    ensures
        start_completion(lifecycle, engine_error).next.state.rank() >= lifecycle.state.rank(),
        write_transition(lifecycle).next.state.rank() >= lifecycle.state.rank(),
        stop_transition(lifecycle).next.state.rank() >= lifecycle.state.rank(),
        drop_transition(lifecycle).next.state.rank() >= lifecycle.state.rank(),
        failure_noted(lifecycle).state == lifecycle.state,
        lifecycle.state == RecognizerState::Created ==> {
            &&& write_transition(lifecycle).next == lifecycle
            &&& stop_transition(lifecycle).next == lifecycle
            &&& drop_transition(lifecycle).next == lifecycle
        },
{
}

} // verus!
