use teleprompter::estimator::{
    assemble_transcript, count_words, estimate, is_whitespace, RecognitionState,
    TranscriptEstimator, DEFAULT_WPM, WARMUP_MS,
};

#[test]
fn whitespace_agrees_with_unicode() {
    let mut code: u32 = 0;
    while code <= 0x10FFFF {
        if let Some(c) = char::from_u32(code) {
            assert_eq!(is_whitespace(c), c.is_whitespace(), "code point {:#x}", code);
        }
        code += 1;
    }
}

#[test]
fn counts_words() {
    assert_eq!(count_words(""), 0);
    assert_eq!(count_words("   "), 0);
    assert_eq!(count_words("hello"), 1);
    assert_eq!(count_words("hello world foo"), 3);
    assert_eq!(count_words("  hello\tworld\n\nfoo  "), 3);
    assert_eq!(count_words("a\u{00A0}b\u{3000}c\u{2003}d"), 4);
    assert_eq!(count_words("na\u{00EF}ve caf\u{00E9}"), 2);
}

#[test]
fn word_count_agrees_with_split_whitespace() {
    let samples = [
        "the quick brown fox",
        " leading",
        "trailing ",
        "\t\r\n",
        "one\u{0085}two\u{1680}three\u{2028}four\u{2029}five\u{202F}six\u{205F}seven",
        "x",
        "zero\u{200B}width",
    ];
    for text in samples {
        assert_eq!(count_words(text), text.split_whitespace().count(), "{:?}", text);
    }
}

#[test]
fn assembles_parts_with_trailing_spaces() {
    let parts = vec!["hello".to_string(), "world foo".to_string()];
    assert_eq!(assemble_transcript(&parts), "hello world foo ");
    assert_eq!(assemble_transcript(&Vec::new()), "");
    assert_eq!(count_words(&assemble_transcript(&parts)), 3);
}

#[test]
fn estimate_waits_for_warmup() {
    assert_eq!(WARMUP_MS, 1000);
    assert_eq!(estimate(120, 1, 500), 120);
    assert_eq!(estimate(120, 50, 1000), 120);
    assert_eq!(estimate(77, 0, 0), 77);
    assert_eq!(estimate(120, 1, 1001), 60);
}

#[test]
fn estimate_rounds_to_nearest() {
    assert_eq!(estimate(120, 3, 2000), 90);
    assert_eq!(estimate(120, 0, 5000), 0);
    assert_eq!(estimate(120, 1, 120000), 1);
    assert_eq!(estimate(120, 1, 120001), 0);
    assert_eq!(estimate(120, 1, 80000), 1);
    assert_eq!(estimate(120, 1, 40000), 2);
    assert_eq!(estimate(120, 7, 3000), 140);
    assert_eq!(estimate(120, 10, 7000), 86);
}

#[test]
fn estimate_holds_at_largest_value() {
    assert_eq!(estimate(120, usize::MAX, 1001), u32::MAX);
    assert_eq!(estimate(120, 100_000_000, 1001), u32::MAX);
}

#[test]
fn estimate_agrees_with_real_arithmetic() {
    for words in 0usize..40 {
        for elapsed in [1001u64, 1500, 2000, 2500, 3333, 10_000, 60_000, 90_000] {
            let expected = (words as f64 / (elapsed as f64 / 1000.0) * 60.0).round() as u32;
            assert_eq!(estimate(120, words, elapsed), expected, "{} words in {} ms", words, elapsed);
        }
    }
}

#[test]
fn hello_then_hello_world_foo() {
    let mut estimator = TranscriptEstimator::new();
    assert_eq!(estimator.wpm(), DEFAULT_WPM);
    assert_eq!(DEFAULT_WPM, 120);
    assert!(estimator.begin(10_000, true));
    assert!(!estimator.on_result("hello", 10_500));
    assert_eq!(estimator.wpm(), 120);
    assert!(estimator.on_result("hello world foo", 12_000));
    assert_eq!(estimator.wpm(), 90);
    assert_eq!(estimator.transcript(), "hello world foo");
}

#[test]
fn estimator_starts_once() {
    let mut estimator = TranscriptEstimator::new();
    assert_eq!(estimator.state(), RecognitionState::NotStarted);
    assert!(!estimator.on_result("one two three", 5_000));
    assert_eq!(estimator.wpm(), 120);
    assert!(estimator.begin(1_000, true));
    assert_eq!(estimator.state(), RecognitionState::Listening);
    assert!(!estimator.begin(4_000, true));
    assert!(estimator.on_result("one two three", 4_000));
    assert_eq!(estimator.wpm(), 60);
}

#[test]
fn clock_before_start_changes_nothing() {
    let mut estimator = TranscriptEstimator::new();
    estimator.begin(5_000, true);
    assert!(!estimator.on_result("one two", 100));
    assert_eq!(estimator.wpm(), 120);
    assert_eq!(estimator.transcript(), "one two");
}

#[test]
fn missing_recognition_keeps_default() {
    let mut estimator = TranscriptEstimator::new();
    assert!(!estimator.begin(0, false));
    assert_eq!(estimator.state(), RecognitionState::Unavailable);
    assert!(!estimator.on_result("a b c d", 10_000));
    assert_eq!(estimator.wpm(), 120);
    assert!(!estimator.teardown());
    assert!(!estimator.begin(0, true));
    assert_eq!(estimator.state(), RecognitionState::Unavailable);
}

#[test]
fn results_after_teardown_are_ignored() {
    let mut estimator = TranscriptEstimator::new();
    estimator.begin(0, true);
    estimator.on_result("a b", 2_000);
    assert_eq!(estimator.wpm(), 60);
    assert!(estimator.teardown());
    assert_eq!(estimator.state(), RecognitionState::Stopped);
    assert!(!estimator.teardown());
    assert!(!estimator.on_result("a b c d e f", 3_000));
    assert_eq!(estimator.wpm(), 60);
    assert_eq!(estimator.transcript(), "a b");
}
