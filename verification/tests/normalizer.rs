use marek_speech_recognition::normalizer::{to_recognition_event, Normalizer};
use marek_speech_recognition::{RecognitionEvent, Word};

fn word(text: &str, start: u64, end: u64) -> Word {
    Word { conf_bits: 0.75f32.to_bits(), start_time_usec: start, end_time_usec: end, word: text.to_string() }
}

fn hello_world() -> Vec<Word> {
    vec![word("hello", 120_000, 480_000), word("world", 510_000, 930_000)]
}

#[test]
fn the_event_spans_from_the_first_start_to_the_last_end() {
    let event = to_recognition_event("hello world", hello_world(), true);
    assert_eq!(
        event,
        RecognitionEvent::Recognition {
            text: "hello world".to_string(),
            is_final: true,
            audio_start_time_usec: Some(120_000),
            audio_end_time_usec: Some(930_000),
            words: Some(hello_world()),
        }
    );
}

#[test]
fn the_event_of_one_word_spans_that_word() {
    let event = to_recognition_event("hello", vec![word("hello", 7, 9)], false);
    assert_eq!(
        event,
        RecognitionEvent::Recognition {
            text: "hello".to_string(),
            is_final: false,
            audio_start_time_usec: Some(7),
            audio_end_time_usec: Some(9),
            words: Some(vec![word("hello", 7, 9)]),
        }
    );
}

#[test]
fn a_fresh_normalizer_remembers_nothing() {
    assert_eq!(Normalizer::new().last_emitted(), &None);
}

#[test]
fn the_first_hypothesis_is_emitted_and_remembered() {
    let mut normalizer = Normalizer::new();
    let emitted = normalizer.offer("hello world", hello_world(), false);
    let expected = to_recognition_event("hello world", hello_world(), false);
    assert_eq!(emitted, Some(expected.clone()));
    assert_eq!(normalizer.last_emitted(), &Some(expected));
}

#[test]
fn a_repeated_hypothesis_is_emitted_once() {
    let mut normalizer = Normalizer::new();
    assert!(normalizer.offer("hello", vec![word("hello", 1, 2)], false).is_some());
    assert_eq!(normalizer.offer("hello", vec![word("hello", 1, 2)], false), None);
    assert_eq!(normalizer.offer("hello", vec![word("hello", 1, 2)], false), None);
    assert_eq!(
        normalizer.last_emitted(),
        &Some(to_recognition_event("hello", vec![word("hello", 1, 2)], false))
    );
}

#[test]
fn a_hypothesis_that_differs_in_finality_is_emitted() {
    let mut normalizer = Normalizer::new();
    assert!(normalizer.offer("hello", vec![word("hello", 1, 2)], false).is_some());
    let emitted = normalizer.offer("hello", vec![word("hello", 1, 2)], true);
    assert_eq!(emitted, Some(to_recognition_event("hello", vec![word("hello", 1, 2)], true)));
}

#[test]
fn a_hypothesis_that_differs_in_its_words_is_emitted() {
    let mut normalizer = Normalizer::new();
    assert!(normalizer.offer("hello", vec![word("hello", 1, 2)], false).is_some());
    assert!(normalizer.offer("hello", vec![word("hello", 1, 3)], false).is_some());
    assert!(normalizer.offer("hallo", vec![word("hello", 1, 3)], false).is_some());
}

#[test]
fn a_hypothesis_that_comes_back_after_another_is_emitted_again() {
    let mut normalizer = Normalizer::new();
    assert!(normalizer.offer("a", vec![word("a", 1, 2)], false).is_some());
    assert!(normalizer.offer("b", vec![word("b", 1, 2)], false).is_some());
    assert!(normalizer.offer("a", vec![word("a", 1, 2)], false).is_some());
}

#[test]
fn a_hypothesis_without_words_emits_nothing_and_is_not_remembered() {
    let mut normalizer = Normalizer::new();
    assert_eq!(normalizer.offer("hello", vec![], false), None);
    assert_eq!(normalizer.last_emitted(), &None);
}

#[test]
fn a_hypothesis_without_text_emits_nothing_and_is_not_remembered() {
    let mut normalizer = Normalizer::new();
    assert!(normalizer.offer("hello", vec![word("hello", 1, 2)], false).is_some());
    assert_eq!(normalizer.offer("", vec![word("hello", 1, 2)], true), None);
    assert_eq!(
        normalizer.last_emitted(),
        &Some(to_recognition_event("hello", vec![word("hello", 1, 2)], false))
    );
    // What was remembered before the empty hypothesis is still suppressed.
    assert_eq!(normalizer.offer("hello", vec![word("hello", 1, 2)], false), None);
}

#[test]
fn two_normalizers_do_not_share_their_memory() {
    let mut first = Normalizer::new();
    let mut second = Normalizer::new();
    assert!(first.offer("hello", vec![word("hello", 1, 2)], false).is_some());
    assert!(second.offer("hello", vec![word("hello", 1, 2)], false).is_some());
}

#[test]
fn emitted_words_keep_their_timing() {
    let mut normalizer = Normalizer::new();
    let emitted = normalizer.offer("hello world", hello_world(), true).unwrap();
    assert!(emitted.is_well_formed());
    match emitted {
        RecognitionEvent::Recognition { words: Some(words), .. } => {
            for pair in words.windows(2) {
                assert!(pair[0].start_time_usec <= pair[1].start_time_usec);
            }
            for w in &words {
                assert!(w.start_time_usec <= w.end_time_usec);
            }
        }
        other => panic!("not a recognition with words: {:?}", other),
    }
}
