//! Tests of the confidence capability gate and of the confidence values the
//! supporting backends hand back through the built detectors.

use polari::lang::build_confidence_detector;
use polari::lang::AddAlgoKwargs;
use polari::DetectError;

fn kwargs(algorithm: &str, in_parallel: bool) -> AddAlgoKwargs {
    AddAlgoKwargs {
        algorithm: algorithm.to_string(),
        allow_langs: Vec::new(),
        deny_langs: Vec::new(),
        in_parallel,
        low_accuracy: false,
    }
}

#[test]
fn which_lang_lacks_confidence() {
    let got = build_confidence_detector(&kwargs("which_lang", false));
    assert_eq!(
        got.map(|_| ()),
        Err(DetectError::UnsupportedCapability("which_lang".to_string()))
    );
}

#[test]
fn parallel_lingua_lacks_confidence() {
    let got = build_confidence_detector(&kwargs("lingua", true));
    assert_eq!(
        got.map(|_| ()),
        Err(DetectError::UnsupportedCapability("lingua".to_string()))
    );
}

#[test]
fn unknown_backend_fails_before_the_capability_check() {
    let got = build_confidence_detector(&kwargs("fast_text", false));
    assert_eq!(
        got.map(|_| ()),
        Err(DetectError::InvalidBackend("fast_text".to_string()))
    );
}

#[test]
fn what_lang_confidence_lies_in_unit_interval() {
    let detector = build_confidence_detector(&kwargs("what_lang", false)).unwrap();
    let inner = detector.whatlang_detector().unwrap();
    for text in [
        "There is no reason not to learn Esperanto.",
        "Bonjour tout le monde, comment allez-vous aujourd'hui ?",
        "x",
    ] {
        let confidence = inner.detect(text).map(|i| i.confidence()).unwrap_or(0.0);
        assert!(
            (0.0..=1.0).contains(&confidence),
            "confidence {} for {}",
            confidence,
            text
        );
    }
}

#[test]
fn lingua_confidence_lies_in_unit_interval() {
    let detector = build_confidence_detector(&kwargs("lingua", false)).unwrap();
    let inner = detector.lingua_sequential_detector().unwrap();
    for text in [
        "Bonjour tout le monde, comment allez-vous aujourd'hui ?",
        "the quick brown fox jumps over the lazy dog",
    ] {
        if let Some(language) = inner.detect_language_of(text) {
            let confidence = inner.compute_language_confidence(text, language);
            assert!(
                (0.0..=1.0).contains(&confidence),
                "confidence {} for {}",
                confidence,
                text
            );
        }
    }
}
