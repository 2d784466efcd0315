use marek_speech_recognition::callback_bridge::{
    callback_engine_info, decoded_event, engine_config, engine_mode, forward_callbacks,
    ingest_byte_length, BridgePhase, BridgeResources, CallbackBridge, EndpointKind,
    EndpointReport, EngineMessage, EngineMode, EngineResponse, Finality, LanguageReport,
    RecognitionReport, ResourceStep, ResponseKind, ResultKind, SpeechBoundary,
    MAX_INGEST_SAMPLES,
};
use marek_speech_recognition::{RecognitionEvent, RecognitionMode, RecognizerOptions, SpeechError};

fn empty(kind: ResponseKind) -> EngineResponse {
    EngineResponse { kind, endpoint: None, recognition: None, language: None }
}

fn endpoint(kind: EndpointKind, end_time_usec: Option<u64>) -> EngineResponse {
    EngineResponse {
        kind: ResponseKind::Other,
        endpoint: Some(EndpointReport { kind, end_time_usec }),
        recognition: None,
        language: None,
    }
}

fn recognized(hypotheses: &[&str], kind: ResultKind, end_time_usec: Option<u64>) -> EngineResponse {
    EngineResponse {
        kind: ResponseKind::Other,
        endpoint: None,
        recognition: Some(RecognitionReport {
            hypotheses: hypotheses.iter().map(|h| h.to_string()).collect(),
            kind,
            end_time_usec,
        }),
        language: None,
    }
}

fn language(language: Option<&str>) -> EngineResponse {
    EngineResponse {
        kind: ResponseKind::Other,
        endpoint: None,
        recognition: None,
        language: Some(LanguageReport { language: language.map(|l| l.to_string()) }),
    }
}

fn text_event(text: &str, is_final: bool, end: Option<u64>) -> RecognitionEvent {
    RecognitionEvent::Recognition {
        text: text.to_string(),
        is_final,
        audio_start_time_usec: None,
        audio_end_time_usec: end,
        words: None,
    }
}

#[test]
fn commands_are_recognized_interactively_and_speech_is_captioned() {
    assert_eq!(engine_mode(&RecognitionMode::Speech), EngineMode::Caption);
    assert_eq!(engine_mode(&RecognitionMode::Commands(vec![])), EngineMode::Interactive);
    assert_eq!(
        engine_mode(&RecognitionMode::Commands(vec!["yes".to_string()])),
        EngineMode::Interactive
    );
}

#[test]
fn the_engine_configuration_carries_the_options() {
    let options = RecognizerOptions {
        language: "en-US".to_string(),
        sample_rate: 44100,
        channel_count: 2,
        mode: RecognitionMode::Commands(vec!["yes".to_string(), "no".to_string()]),
    };
    let config = engine_config(&options, "/packs/en-US/1.2/SODAModels".to_string());
    assert_eq!(config.channel_count, 2);
    assert_eq!(config.sample_rate, 44100);
    assert_eq!(config.api_key, "dummy_api_key");
    assert_eq!(config.language_pack_directory, "/packs/en-US/1.2/SODAModels");
    assert_eq!(config.recognition_mode, EngineMode::Interactive);
    assert!(config.include_timing_metrics);

    let config = engine_config(&RecognizerOptions::default(), "x".to_string());
    assert_eq!(config.channel_count, 1);
    assert_eq!(config.sample_rate, 16000);
    assert_eq!(config.recognition_mode, EngineMode::Caption);
    assert!(config.include_timing_metrics);
}

#[test]
fn the_callback_engine_is_bound_to_real_time() {
    let info = callback_engine_info();
    assert_eq!(info.name, "Google libsoda");
    assert!(info.is_realtime_only);
    assert!(info.has_punctuation);
}

#[test]
fn a_start_response_is_the_start_marker_whatever_it_carries() {
    assert_eq!(empty(ResponseKind::Start).into_message(), Some(EngineMessage::SessionStart));
    let mut loaded = recognized(&["hello"], ResultKind::Final, Some(5));
    loaded.kind = ResponseKind::Start;
    assert_eq!(loaded.into_message(), Some(EngineMessage::SessionStart));
}

#[test]
fn a_stop_response_is_the_stop_marker_whatever_it_carries() {
    assert_eq!(empty(ResponseKind::Stop).into_message(), Some(EngineMessage::SessionStop));
    let mut loaded = endpoint(EndpointKind::StartOfSpeech, Some(5));
    loaded.kind = ResponseKind::Stop;
    assert_eq!(loaded.into_message(), Some(EngineMessage::SessionStop));
}

#[test]
fn an_endpoint_report_goes_before_a_recognition() {
    let mut both = recognized(&["hello"], ResultKind::Partial, Some(9));
    both.endpoint = Some(EndpointReport { kind: EndpointKind::EndOfSpeech, end_time_usec: Some(7) });
    assert_eq!(
        both.into_message(),
        Some(EngineMessage::Endpoint { boundary: SpeechBoundary::EndOfSpeech, end_time_usec: Some(7) })
    );
}

#[test]
fn an_endpoint_report_of_another_kind_says_nothing() {
    assert_eq!(endpoint(EndpointKind::Other, Some(7)).into_message(), None);
    // It also hides what else the response carries.
    let mut both = recognized(&["hello"], ResultKind::Partial, Some(9));
    both.endpoint = Some(EndpointReport { kind: EndpointKind::Other, end_time_usec: None });
    assert_eq!(both.into_message(), None);
}

#[test]
fn a_recognition_goes_before_a_language() {
    let mut both = recognized(&["hello"], ResultKind::Final, None);
    both.language = Some(LanguageReport { language: Some("en-us".to_string()) });
    assert_eq!(
        both.into_message(),
        Some(EngineMessage::Recognition {
            hypotheses: vec!["hello".to_string()],
            finality: Finality::Final,
            end_time_usec: None,
        })
    );
}

#[test]
fn only_a_result_labelled_final_is_final() {
    for (kind, finality) in [
        (ResultKind::Partial, Finality::Partial),
        (ResultKind::Final, Finality::Final),
        (ResultKind::Other, Finality::Partial),
    ] {
        assert_eq!(
            recognized(&["a"], kind, Some(1)).into_message(),
            Some(EngineMessage::Recognition {
                hypotheses: vec!["a".to_string()],
                finality,
                end_time_usec: Some(1),
            })
        );
    }
}

#[test]
fn a_response_without_any_part_says_nothing() {
    assert_eq!(empty(ResponseKind::Other).into_message(), None);
    assert_eq!(decoded_event(Ok(empty(ResponseKind::Other))), None);
}

#[test]
fn markers_become_start_and_stop() {
    assert_eq!(EngineMessage::SessionStart.into_event(), Some(RecognitionEvent::Start));
    assert_eq!(EngineMessage::SessionStop.into_event(), Some(RecognitionEvent::Stop));
}

#[test]
fn endpoints_become_speech_boundaries() {
    assert_eq!(
        EngineMessage::Endpoint { boundary: SpeechBoundary::StartOfSpeech, end_time_usec: Some(12) }
            .into_event(),
        Some(RecognitionEvent::StartOfSpeech { audio_time_usec: Some(12) })
    );
    assert_eq!(
        EngineMessage::Endpoint { boundary: SpeechBoundary::EndOfSpeech, end_time_usec: None }
            .into_event(),
        Some(RecognitionEvent::EndOfSpeech { audio_time_usec: None })
    );
}

#[test]
fn a_recognition_keeps_its_first_hypothesis() {
    let message = EngineMessage::Recognition {
        hypotheses: vec!["hello world".to_string(), "hollow word".to_string(), "yellow".to_string()],
        finality: Finality::Final,
        end_time_usec: Some(930_000),
    };
    assert_eq!(message.into_event(), Some(text_event("hello world", true, Some(930_000))));
}

#[test]
fn a_recognition_without_hypotheses_has_empty_text() {
    let message = EngineMessage::Recognition {
        hypotheses: vec![],
        finality: Finality::Partial,
        end_time_usec: None,
    };
    assert_eq!(message.into_event(), Some(text_event("", false, None)));
}

#[test]
fn a_language_result_becomes_a_language_event_if_it_names_one() {
    assert_eq!(
        EngineMessage::LanguageId { language: Some("af-za".to_string()) }.into_event(),
        Some(RecognitionEvent::Language { id: "af-za".to_string() })
    );
    assert_eq!(EngineMessage::LanguageId { language: None }.into_event(), None);
    assert_eq!(
        decoded_event(Ok(language(Some("en-us")))),
        Some(RecognitionEvent::Language { id: "en-us".to_string() })
    );
    assert_eq!(decoded_event(Ok(language(None))), None);
}

#[test]
fn a_callback_that_could_not_be_decoded_is_dropped() {
    assert_eq!(decoded_event(Err(SpeechError::ProtocolDecodeError)), None);
    assert_eq!(decoded_event(Err(SpeechError::Unknown)), None);
}

#[test]
fn hello_world_and_silence_on_the_callback_engine() {
    let events = forward_callbacks(vec![
        Ok(empty(ResponseKind::Start)),
        Ok(endpoint(EndpointKind::StartOfSpeech, Some(100_000))),
        Ok(recognized(&["hello"], ResultKind::Partial, Some(400_000))),
        Ok(recognized(&["hello world"], ResultKind::Final, Some(900_000))),
        Ok(endpoint(EndpointKind::EndOfSpeech, Some(1_400_000))),
        Ok(empty(ResponseKind::Stop)),
    ]);
    assert_eq!(
        events,
        vec![
            RecognitionEvent::Start,
            RecognitionEvent::StartOfSpeech { audio_time_usec: Some(100_000) },
            text_event("hello", false, Some(400_000)),
            text_event("hello world", true, Some(900_000)),
            RecognitionEvent::EndOfSpeech { audio_time_usec: Some(1_400_000) },
            RecognitionEvent::Stop,
        ]
    );
}

#[test]
fn dropped_callbacks_do_not_disturb_the_order_of_the_rest() {
    let events = forward_callbacks(vec![
        Ok(empty(ResponseKind::Start)),
        Err(SpeechError::ProtocolDecodeError),
        Ok(endpoint(EndpointKind::Other, None)),
        Ok(recognized(&["hello"], ResultKind::Partial, None)),
        Ok(empty(ResponseKind::Other)),
        Ok(language(None)),
        Ok(empty(ResponseKind::Stop)),
    ]);
    assert_eq!(
        events,
        vec![RecognitionEvent::Start, text_event("hello", false, None), RecognitionEvent::Stop]
    );
    assert_eq!(forward_callbacks(vec![]), vec![]);
}

#[test]
fn nothing_is_forwarded_after_stop() {
    let events = forward_callbacks(vec![
        Ok(empty(ResponseKind::Start)),
        Ok(recognized(&["hello"], ResultKind::Partial, None)),
        Ok(empty(ResponseKind::Stop)),
        Ok(recognized(&["late"], ResultKind::Final, None)),
        Ok(endpoint(EndpointKind::EndOfSpeech, Some(3))),
        Ok(language(Some("en-us"))),
        Ok(empty(ResponseKind::Start)),
        Ok(empty(ResponseKind::Stop)),
    ]);
    assert_eq!(
        events,
        vec![RecognitionEvent::Start, text_event("hello", false, None), RecognitionEvent::Stop]
    );
}

#[test]
fn a_bridge_that_has_stopped_stays_stopped() {
    let mut bridge = CallbackBridge::new();
    assert_eq!(bridge.on_callback(Ok(empty(ResponseKind::Start))), Some(RecognitionEvent::Start));
    assert_eq!(bridge.on_callback(Ok(empty(ResponseKind::Stop))), Some(RecognitionEvent::Stop));
    assert_eq!(bridge.phase(), BridgePhase::Stopped);
    assert_eq!(bridge.on_callback(Ok(empty(ResponseKind::Start))), None);
    assert_eq!(bridge.on_callback(Ok(recognized(&["late"], ResultKind::Final, None))), None);
    assert_eq!(bridge.on_callback(Ok(empty(ResponseKind::Stop))), None);
    assert_eq!(bridge.on_callback(Err(SpeechError::ProtocolDecodeError)), None);
    assert_eq!(bridge.phase(), BridgePhase::Stopped);
}

#[test]
fn nothing_is_forwarded_before_start() {
    let mut bridge = CallbackBridge::new();
    assert_eq!(bridge.phase(), BridgePhase::Idle);
    assert_eq!(bridge.on_callback(Ok(recognized(&["early"], ResultKind::Final, None))), None);
    assert_eq!(bridge.on_callback(Ok(empty(ResponseKind::Stop))), None);
    assert_eq!(bridge.phase(), BridgePhase::Idle);
    assert_eq!(bridge.on_callback(Ok(empty(ResponseKind::Start))), Some(RecognitionEvent::Start));
    assert_eq!(bridge.phase(), BridgePhase::Running);
    assert_eq!(
        bridge.on_callback(Ok(recognized(&["early"], ResultKind::Final, None))),
        Some(text_event("early", true, None))
    );
}

#[test]
fn start_is_forwarded_once() {
    let events = forward_callbacks(vec![
        Ok(empty(ResponseKind::Start)),
        Ok(empty(ResponseKind::Start)),
        Ok(recognized(&["hello"], ResultKind::Partial, None)),
        Ok(empty(ResponseKind::Start)),
        Ok(empty(ResponseKind::Stop)),
    ]);
    assert_eq!(
        events,
        vec![RecognitionEvent::Start, text_event("hello", false, None), RecognitionEvent::Stop]
    );
}

#[test]
fn two_equal_recognition_results_give_one_event() {
    let events = forward_callbacks(vec![
        Ok(empty(ResponseKind::Start)),
        Ok(recognized(&["hello"], ResultKind::Partial, Some(400))),
        Ok(recognized(&["hello"], ResultKind::Partial, Some(400))),
        Ok(recognized(&["hello"], ResultKind::Partial, Some(400))),
        Ok(empty(ResponseKind::Stop)),
    ]);
    assert_eq!(
        events,
        vec![RecognitionEvent::Start, text_event("hello", false, Some(400)), RecognitionEvent::Stop]
    );
}

#[test]
fn a_recognition_is_the_same_whatever_its_time() {
    let mut bridge = CallbackBridge::new();
    bridge.on_callback(Ok(empty(ResponseKind::Start)));
    assert_eq!(
        bridge.on_callback(Ok(recognized(&["hello"], ResultKind::Partial, Some(400)))),
        Some(text_event("hello", false, Some(400)))
    );
    assert_eq!(bridge.on_callback(Ok(recognized(&["hello"], ResultKind::Partial, Some(500)))), None);
    assert_eq!(bridge.on_callback(Ok(recognized(&["hello"], ResultKind::Partial, None))), None);
}

#[test]
fn a_recognition_that_differs_in_text_or_finality_is_forwarded() {
    let mut bridge = CallbackBridge::new();
    bridge.on_callback(Ok(empty(ResponseKind::Start)));
    assert!(bridge.on_callback(Ok(recognized(&["hello"], ResultKind::Partial, Some(1)))).is_some());
    assert_eq!(
        bridge.on_callback(Ok(recognized(&["hello"], ResultKind::Final, Some(1)))),
        Some(text_event("hello", true, Some(1)))
    );
    assert_eq!(
        bridge.on_callback(Ok(recognized(&["hello world"], ResultKind::Final, Some(1)))),
        Some(text_event("hello world", true, Some(1)))
    );
    // Only the first hypothesis counts.
    assert_eq!(
        bridge.on_callback(Ok(recognized(&["hello world", "other"], ResultKind::Final, Some(1)))),
        None
    );
}

#[test]
fn the_last_recognition_is_remembered_across_other_events() {
    let events = forward_callbacks(vec![
        Ok(empty(ResponseKind::Start)),
        Ok(recognized(&["yes"], ResultKind::Final, Some(1))),
        Ok(endpoint(EndpointKind::EndOfSpeech, Some(2))),
        Err(SpeechError::ProtocolDecodeError),
        Ok(recognized(&["yes"], ResultKind::Final, Some(3))),
        Ok(recognized(&["no"], ResultKind::Final, Some(4))),
        Ok(recognized(&["yes"], ResultKind::Final, Some(5))),
    ]);
    assert_eq!(
        events,
        vec![
            RecognitionEvent::Start,
            text_event("yes", true, Some(1)),
            RecognitionEvent::EndOfSpeech { audio_time_usec: Some(2) },
            text_event("no", true, Some(4)),
            text_event("yes", true, Some(5)),
        ]
    );
}

#[test]
fn a_recognition_without_text_is_forwarded_once() {
    let events = forward_callbacks(vec![
        Ok(empty(ResponseKind::Start)),
        Ok(recognized(&[], ResultKind::Partial, None)),
        Ok(recognized(&[], ResultKind::Partial, None)),
    ]);
    assert_eq!(events, vec![RecognitionEvent::Start, text_event("", false, None)]);
}

#[test]
fn two_bridges_do_not_share_their_state() {
    let mut first = CallbackBridge::new();
    let mut second = CallbackBridge::new();
    first.on_callback(Ok(empty(ResponseKind::Start)));
    second.on_callback(Ok(empty(ResponseKind::Start)));
    assert!(first.on_callback(Ok(recognized(&["hello"], ResultKind::Partial, None))).is_some());
    assert!(second.on_callback(Ok(recognized(&["hello"], ResultKind::Partial, None))).is_some());
    first.on_callback(Ok(empty(ResponseKind::Stop)));
    assert!(second.on_callback(Ok(recognized(&["world"], ResultKind::Partial, None))).is_some());
}

#[test]
fn the_forwarded_stream_is_in_order_whatever_the_engine_sends() {
    let events = forward_callbacks(vec![
        Ok(recognized(&["early"], ResultKind::Partial, None)),
        Ok(empty(ResponseKind::Stop)),
        Ok(empty(ResponseKind::Start)),
        Ok(recognized(&["a"], ResultKind::Partial, None)),
        Ok(empty(ResponseKind::Start)),
        Ok(recognized(&["a"], ResultKind::Partial, None)),
        Ok(recognized(&["b"], ResultKind::Final, None)),
        Ok(empty(ResponseKind::Stop)),
        Ok(recognized(&["late"], ResultKind::Final, None)),
        Ok(empty(ResponseKind::Stop)),
    ]);
    assert_eq!(events.first(), Some(&RecognitionEvent::Start));
    assert_eq!(events.last(), Some(&RecognitionEvent::Stop));
    assert_eq!(events.iter().filter(|e| **e == RecognitionEvent::Start).count(), 1);
    assert_eq!(events.iter().filter(|e| **e == RecognitionEvent::Stop).count(), 1);
    for pair in events.windows(2) {
        assert!(!pair[0].same_recognition_as(&pair[1]));
    }
    assert_eq!(
        events,
        vec![
            RecognitionEvent::Start,
            text_event("a", false, None),
            text_event("b", true, None),
            RecognitionEvent::Stop,
        ]
    );
}

#[test]
fn the_whole_buffer_is_ingested_two_bytes_to_the_sample() {
    assert_eq!(ingest_byte_length(0), 0);
    assert_eq!(ingest_byte_length(1024), 2048);
    assert_eq!(MAX_INGEST_SAMPLES, (i32::MAX / 2) as usize);
    assert_eq!(ingest_byte_length(MAX_INGEST_SAMPLES), i32::MAX - 1);
}

#[test]
fn resources_are_built_context_first() {
    let mut resources = BridgeResources::Nothing;
    assert_eq!(resources.advance(ResourceStep::CreateEngine), Err(SpeechError::InvalidStateError));
    assert_eq!(resources, BridgeResources::Nothing);
    assert_eq!(resources.advance(ResourceStep::AllocateContext), Ok(()));
    assert_eq!(resources, BridgeResources::Context);
    assert_eq!(resources.advance(ResourceStep::AllocateContext), Err(SpeechError::InvalidStateError));
    assert_eq!(resources.advance(ResourceStep::CreateEngine), Ok(()));
    assert_eq!(resources, BridgeResources::ContextAndEngine);
}

#[test]
fn the_context_is_not_freed_while_the_engine_exists() {
    let mut resources = BridgeResources::ContextAndEngine;
    assert_eq!(resources.advance(ResourceStep::FreeContext), Err(SpeechError::InvalidStateError));
    assert_eq!(resources, BridgeResources::ContextAndEngine);
    assert_eq!(resources.advance(ResourceStep::DestroyEngine), Ok(()));
    assert_eq!(resources, BridgeResources::Context);
    assert_eq!(resources.advance(ResourceStep::DestroyEngine), Err(SpeechError::InvalidStateError));
    assert_eq!(resources.advance(ResourceStep::FreeContext), Ok(()));
    assert_eq!(resources, BridgeResources::Nothing);
    assert_eq!(resources.advance(ResourceStep::FreeContext), Err(SpeechError::InvalidStateError));
}

#[test]
fn teardown_destroys_the_engine_before_it_frees_the_context() {
    assert_eq!(BridgeResources::Nothing.teardown(), vec![]);
    assert_eq!(BridgeResources::Context.teardown(), vec![ResourceStep::FreeContext]);
    assert_eq!(
        BridgeResources::ContextAndEngine.teardown(),
        vec![ResourceStep::DestroyEngine, ResourceStep::FreeContext]
    );
    for start in [BridgeResources::Nothing, BridgeResources::Context, BridgeResources::ContextAndEngine] {
        let mut resources = start;
        for step in start.teardown() {
            assert_eq!(resources.advance(step), Ok(()));
        }
        assert_eq!(resources, BridgeResources::Nothing);
    }
}
