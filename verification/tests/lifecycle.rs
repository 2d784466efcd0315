use marek_speech_recognition::recognizer::{Decision, EngineAction};
use marek_speech_recognition::{Lifecycle, RecognizerOptions, RecognizerState, SpeechError};

fn started() -> Lifecycle {
    let mut lifecycle = Lifecycle::new();
    assert_eq!(lifecycle.check_start(&RecognizerOptions::default()), Ok(()));
    assert_eq!(lifecycle.complete_start(Ok(())), Ok(()));
    lifecycle
}

fn refused() -> Decision {
    Decision { action: EngineAction::Nothing, result: Err(SpeechError::InvalidStateError) }
}

#[test]
fn a_new_recognizer_is_created() {
    assert_eq!(Lifecycle::new().state(), RecognizerState::Created);
}

#[test]
fn start_takes_a_created_recognizer_to_started() {
    let lifecycle = started();
    assert_eq!(lifecycle.state(), RecognizerState::Started);
}

#[test]
fn start_with_invalid_options_is_a_configuration_error() {
    let lifecycle = Lifecycle::new();
    let mut options = RecognizerOptions::default();
    options.sample_rate = 0;
    assert_eq!(lifecycle.check_start(&options), Err(SpeechError::ConfigurationError));
    options.sample_rate = 16000;
    options.channel_count = -1;
    assert_eq!(lifecycle.check_start(&options), Err(SpeechError::ConfigurationError));
    assert_eq!(lifecycle.state(), RecognizerState::Created);
}

#[test]
fn start_twice_is_an_invalid_state() {
    let mut lifecycle = started();
    assert_eq!(
        lifecycle.check_start(&RecognizerOptions::default()),
        Err(SpeechError::InvalidStateError)
    );
    assert_eq!(lifecycle.complete_start(Ok(())), Err(SpeechError::InvalidStateError));
    assert_eq!(lifecycle.state(), RecognizerState::Started);
}

#[test]
fn the_state_is_looked_at_before_the_options() {
    let lifecycle = started();
    let mut options = RecognizerOptions::default();
    options.sample_rate = 0;
    assert_eq!(lifecycle.check_start(&options), Err(SpeechError::InvalidStateError));
}

#[test]
fn start_after_stop_is_an_invalid_state() {
    let mut lifecycle = started();
    lifecycle.stop();
    assert_eq!(
        lifecycle.check_start(&RecognizerOptions::default()),
        Err(SpeechError::InvalidStateError)
    );
    assert_eq!(lifecycle.complete_start(Ok(())), Err(SpeechError::InvalidStateError));
    assert_eq!(lifecycle.state(), RecognizerState::Stopped);
}

#[test]
fn an_engine_that_does_not_come_up_leaves_the_recognizer_created() {
    let mut lifecycle = Lifecycle::new();
    let error = SpeechError::LoadLibraryError("Cannot create Vosk recognizer".to_string());
    assert_eq!(lifecycle.complete_start(Err(error.clone())), Err(error));
    assert_eq!(lifecycle.state(), RecognizerState::Created);
    // It may be started again.
    assert_eq!(lifecycle.complete_start(Ok(())), Ok(()));
    assert_eq!(lifecycle.state(), RecognizerState::Started);
}

#[test]
fn write_before_start_is_an_invalid_state() {
    let mut lifecycle = Lifecycle::new();
    assert_eq!(lifecycle.write(), refused());
    assert_eq!(lifecycle.state(), RecognizerState::Created);
}

#[test]
fn write_on_a_started_recognizer_feeds_the_engine() {
    let mut lifecycle = started();
    assert_eq!(lifecycle.write(), Decision { action: EngineAction::Feed, result: Ok(()) });
    assert_eq!(lifecycle.write(), Decision { action: EngineAction::Feed, result: Ok(()) });
    assert_eq!(lifecycle.state(), RecognizerState::Started);
}

#[test]
fn write_after_stop_is_an_invalid_state() {
    let mut lifecycle = started();
    lifecycle.stop();
    assert_eq!(lifecycle.write(), refused());
    assert_eq!(lifecycle.state(), RecognizerState::Stopped);
}

#[test]
fn stop_before_start_does_nothing_and_is_no_error() {
    let mut lifecycle = Lifecycle::new();
    assert_eq!(lifecycle.stop(), Decision { action: EngineAction::Nothing, result: Ok(()) });
    assert_eq!(lifecycle.state(), RecognizerState::Created);
    assert_eq!(lifecycle.stop(), Decision { action: EngineAction::Nothing, result: Ok(()) });
    assert_eq!(lifecycle.state(), RecognizerState::Created);
    // The recognizer can still be started.
    assert_eq!(lifecycle.check_start(&RecognizerOptions::default()), Ok(()));
    assert_eq!(lifecycle.complete_start(Ok(())), Ok(()));
    assert_eq!(lifecycle.state(), RecognizerState::Started);
}

#[test]
fn stop_after_a_start_that_failed_does_nothing_and_is_no_error() {
    let mut lifecycle = Lifecycle::new();
    let error = SpeechError::LoadLibraryError("Cannot create Vosk recognizer".to_string());
    assert_eq!(lifecycle.complete_start(Err(error.clone())), Err(error));
    assert_eq!(lifecycle.state(), RecognizerState::Created);
    assert_eq!(lifecycle.stop(), Decision { action: EngineAction::Nothing, result: Ok(()) });
    assert_eq!(lifecycle.state(), RecognizerState::Created);
}

#[test]
fn stop_shuts_a_started_recognizer_down() {
    let mut lifecycle = started();
    assert_eq!(lifecycle.stop(), Decision { action: EngineAction::Shutdown, result: Ok(()) });
    assert_eq!(lifecycle.state(), RecognizerState::Stopped);
}

#[test]
fn a_second_stop_does_nothing_and_is_no_error() {
    let mut lifecycle = started();
    lifecycle.stop();
    assert_eq!(lifecycle.stop(), Decision { action: EngineAction::Nothing, result: Ok(()) });
    assert_eq!(lifecycle.stop(), Decision { action: EngineAction::Nothing, result: Ok(()) });
    assert_eq!(lifecycle.state(), RecognizerState::Stopped);
}

#[test]
fn an_engine_failure_is_told_on_the_next_write() {
    let mut lifecycle = started();
    lifecycle.note_engine_failure();
    assert_eq!(lifecycle.state(), RecognizerState::Started);
    assert_eq!(
        lifecycle.write(),
        Decision { action: EngineAction::Release, result: Err(SpeechError::EngineFatalError) }
    );
    assert_eq!(lifecycle.state(), RecognizerState::Stopped);
    // It is told once.
    assert_eq!(lifecycle.write(), refused());
    assert_eq!(lifecycle.stop(), Decision { action: EngineAction::Nothing, result: Ok(()) });
}

#[test]
fn an_engine_failure_is_told_on_the_next_stop() {
    let mut lifecycle = started();
    lifecycle.note_engine_failure();
    assert_eq!(
        lifecycle.stop(),
        Decision { action: EngineAction::Release, result: Err(SpeechError::EngineFatalError) }
    );
    assert_eq!(lifecycle.state(), RecognizerState::Stopped);
    assert_eq!(lifecycle.stop(), Decision { action: EngineAction::Nothing, result: Ok(()) });
}

#[test]
fn only_a_started_recognizer_has_an_engine_that_can_fail() {
    let mut lifecycle = Lifecycle::new();
    lifecycle.note_engine_failure();
    assert_eq!(lifecycle.complete_start(Ok(())), Ok(()));
    assert_eq!(lifecycle.write(), Decision { action: EngineAction::Feed, result: Ok(()) });

    let mut lifecycle = started();
    lifecycle.stop();
    lifecycle.note_engine_failure();
    assert_eq!(lifecycle.stop(), Decision { action: EngineAction::Nothing, result: Ok(()) });
}

#[test]
fn dropping_a_started_recognizer_shuts_it_down() {
    let mut lifecycle = started();
    assert_eq!(lifecycle.release(), EngineAction::Shutdown);
    assert_eq!(lifecycle.state(), RecognizerState::Stopped);
    assert_eq!(lifecycle.release(), EngineAction::Nothing);
}

#[test]
fn dropping_a_recognizer_whose_engine_failed_releases_it() {
    let mut lifecycle = started();
    lifecycle.note_engine_failure();
    assert_eq!(lifecycle.release(), EngineAction::Release);
    assert_eq!(lifecycle.state(), RecognizerState::Stopped);
}

#[test]
fn dropping_a_recognizer_that_is_not_started_does_nothing() {
    let mut lifecycle = Lifecycle::new();
    assert_eq!(lifecycle.release(), EngineAction::Nothing);
    assert_eq!(lifecycle.state(), RecognizerState::Created);
    let mut lifecycle = started();
    lifecycle.stop();
    assert_eq!(lifecycle.release(), EngineAction::Nothing);
    assert_eq!(lifecycle.state(), RecognizerState::Stopped);
}
