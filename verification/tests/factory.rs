use marek_speech_recognition::{
    RecognitionMode, RecognizerOptions, SpeechError, VoskModelInfo, VoskRecognizerFactory,
};

fn model(language: &str, folder: &str) -> VoskModelInfo {
    VoskModelInfo { language: language.to_string(), folder: folder.to_string() }
}

fn factory() -> VoskRecognizerFactory {
    VoskRecognizerFactory::new(vec![
        model("en-US", "/models/small-en-us"),
        model("cs-CZ", "/models/cs"),
        model("en-US", "/models/large-en-us"),
    ])
    .unwrap()
}

fn options(language: &str) -> RecognizerOptions {
    RecognizerOptions {
        language: language.to_string(),
        sample_rate: 8000,
        channel_count: 1,
        mode: RecognitionMode::Commands(vec!["yes".to_string(), "no".to_string()]),
    }
}

#[test]
fn a_factory_keeps_its_models() {
    let factory = factory();
    assert_eq!(
        factory.models(),
        &vec![
            model("en-US", "/models/small-en-us"),
            model("cs-CZ", "/models/cs"),
            model("en-US", "/models/large-en-us"),
        ]
    );
    assert!(VoskRecognizerFactory::new(vec![]).is_ok());
}

#[test]
fn the_first_model_for_a_language_is_found() {
    let factory = factory();
    assert_eq!(factory.find_model(&"en-US".to_string()), Some(0));
    assert_eq!(factory.find_model(&"cs-CZ".to_string()), Some(1));
    assert_eq!(factory.find_model(&"de-DE".to_string()), None);
    assert_eq!(factory.find_model(&"en-us".to_string()), None);
}

#[test]
fn a_recognizer_is_planned_on_the_first_model_for_its_language() {
    let plan = factory().plan_recognizer(options("en-US")).unwrap();
    assert_eq!(plan.model_path, "/models/small-en-us");
    assert_eq!(plan.options, options("en-US"));
    assert_eq!(plan.info.name, "Vosk");
    assert!(!plan.info.is_realtime_only);
    assert!(!plan.info.has_punctuation);

    let plan = factory().plan_recognizer(options("cs-CZ")).unwrap();
    assert_eq!(plan.model_path, "/models/cs");
}

#[test]
fn a_language_without_a_model_is_not_found() {
    assert_eq!(
        factory().plan_recognizer(options("de-DE")),
        Err(SpeechError::NoLanguageFound("de-DE".to_string()))
    );
    let empty = VoskRecognizerFactory::new(vec![]).unwrap();
    assert_eq!(
        empty.plan_recognizer(RecognizerOptions::default()),
        Err(SpeechError::NoLanguageFound("en-US".to_string()))
    );
}

#[test]
fn a_model_that_does_not_load_is_a_language_folder_error() {
    let plan = factory().plan_recognizer(options("cs-CZ")).unwrap();
    assert_eq!(plan.model_loaded(true), Ok(()));
    assert_eq!(
        plan.model_loaded(false),
        Err(SpeechError::LanguageFolderError("/models/cs".to_string()))
    );
}
