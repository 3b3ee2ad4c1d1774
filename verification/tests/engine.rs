//! End-to-end tests of the detection engine: configuration validation,
//! backend construction, and null-safe column dispatch.

use polari::lang::detect_language;
use polari::lang::AddAlgoKwargs;
use polari::lang::Algorithm;
use polari::DetectError;

fn kwargs(
    algorithm: &str,
    allow: &[&str],
    deny: &[&str],
    in_parallel: bool,
    low_accuracy: bool,
) -> AddAlgoKwargs {
    AddAlgoKwargs {
        algorithm: algorithm.to_string(),
        allow_langs: allow.iter().map(|s| s.to_string()).collect(),
        deny_langs: deny.iter().map(|s| s.to_string()).collect(),
        in_parallel,
        low_accuracy,
    }
}

fn column(texts: &[Option<&str>]) -> Vec<Option<String>> {
    texts.iter().map(|t| t.map(|s| s.to_string())).collect()
}

#[test]
fn unknown_backend_is_invalid_backend() {
    let kw = kwargs("fast_text", &[], &[], false, false);
    let texts = column(&[Some("Hello world")]);
    let got = detect_language(&texts, &kw);
    assert_eq!(
        got,
        Err(DetectError::InvalidBackend("fast_text".to_string()))
    );
}

#[test]
fn unknown_backend_is_case_sensitive() {
    let kw = kwargs("WHAT_LANG", &[], &[], false, false);
    let got = Algorithm::from_kwargs(&kw);
    assert!(matches!(
        got,
        Err(DetectError::InvalidBackend(ref n)) if n == "WHAT_LANG"
    ));
}

#[test]
fn which_lang_round_trip() {
    let kw = kwargs("which_lang", &[], &[], false, false);
    let texts = column(&[
        Some("Hello world"),
        Some("Bonjour tout le monde"),
        None,
        Some(""),
    ]);
    let got = detect_language(&texts, &kw).unwrap();
    assert_eq!(
        got,
        vec![
            Some("English".to_string()),
            Some("French".to_string()),
            None,
            Some("English".to_string()),
        ]
    );
}

#[test]
fn null_in_null_out_row_by_row() {
    let texts = column(&[None, Some("the quick brown fox jumps over the lazy dog"), None]);
    for name in ["what_lang", "lingua", "which_lang"] {
        let kw = kwargs(name, &[], &[], false, false);
        let got = detect_language(&texts, &kw).unwrap();
        assert_eq!(got.len(), 3);
        assert_eq!(got[0], None, "backend {}", name);
        assert_eq!(got[2], None, "backend {}", name);
    }
}

#[test]
fn what_lang_detects_english() {
    let kw = kwargs("what_lang", &[], &[], false, false);
    let texts = column(&[Some("There is no reason not to learn Esperanto.")]);
    let got = detect_language(&texts, &kw).unwrap();
    assert_eq!(got, vec![Some("English".to_string())]);
}

#[test]
fn what_lang_allow_list_steers_the_result() {
    let kw = kwargs("what_lang", &["English", "Russian"], &[], false, false);
    let texts = column(&[Some("That is not Russian")]);
    let got = detect_language(&texts, &kw).unwrap();
    assert_eq!(got, vec![Some("English".to_string())]);
}

#[test]
fn lingua_allow_list_restricts_labels() {
    let kw = kwargs("lingua", &["French", "German"], &[], false, false);
    let texts = column(&[
        Some("Bonjour tout le monde, comment allez-vous aujourd'hui ?"),
        Some("Ich gehe heute Nachmittag mit meinen Freunden in den Park."),
        Some("the quick brown fox jumps over the lazy dog"),
    ]);
    let got = detect_language(&texts, &kw).unwrap();
    assert_eq!(got.len(), 3);
    for cell in got {
        if let Some(label) = cell {
            assert!(label == "French" || label == "German", "label {}", label);
        }
    }
}

#[test]
fn lingua_deny_list_excludes_labels() {
    let kw = kwargs("lingua", &[], &["English"], false, false);
    let texts = column(&[
        Some("the quick brown fox jumps over the lazy dog"),
        Some("Bonjour tout le monde, comment allez-vous aujourd'hui ?"),
    ]);
    let got = detect_language(&texts, &kw).unwrap();
    assert_eq!(got.len(), 2);
    for cell in got {
        if let Some(label) = cell {
            assert_ne!(label, "English");
        }
    }
}

#[test]
fn conflicting_allow_and_deny_is_invalid_restriction() {
    for name in ["what_lang", "lingua", "which_lang"] {
        let kw = kwargs(name, &["French"], &["German"], false, false);
        let texts = column(&[Some("Hello world")]);
        let got = detect_language(&texts, &kw);
        assert_eq!(got, Err(DetectError::InvalidRestriction), "backend {}", name);
    }
}

#[test]
fn lingua_single_language_allow_list_is_invalid_restriction() {
    let kw = kwargs("lingua", &["French"], &[], false, false);
    let texts = column(&[Some("Bonjour tout le monde")]);
    let got = detect_language(&texts, &kw);
    assert_eq!(got, Err(DetectError::InvalidRestriction));
}

#[test]
fn lingua_duplicate_allow_list_is_invalid_restriction() {
    let kw = kwargs("lingua", &["French", "french"], &[], false, false);
    let texts = column(&[Some("Bonjour tout le monde")]);
    let got = detect_language(&texts, &kw);
    assert_eq!(got, Err(DetectError::InvalidRestriction));
}

#[test]
fn lingua_unknown_language_name_fails_atomically() {
    let kw = kwargs("lingua", &["Klingon", "French", "German"], &[], false, false);
    let texts = column(&[Some("Bonjour tout le monde")]);
    let got = detect_language(&texts, &kw);
    assert_eq!(got, Err(DetectError::LanguageNotFound("Klingon".to_string())));
}

#[test]
fn what_lang_unknown_language_name_fails_atomically() {
    let kw = kwargs("what_lang", &["English", "Klingon"], &[], false, false);
    let texts = column(&[Some("Hello world")]);
    let got = detect_language(&texts, &kw);
    assert_eq!(got, Err(DetectError::LanguageNotFound("Klingon".to_string())));
}

#[test]
fn lingua_strategies_agree_on_non_null_columns() {
    let texts = column(&[
        Some("Bonjour tout le monde, comment allez-vous aujourd'hui ?"),
        Some("Ich gehe heute Nachmittag mit meinen Freunden in den Park."),
        Some("the quick brown fox jumps over the lazy dog"),
        Some("languages are awesome"),
    ]);
    let row_by_row = kwargs("lingua", &[], &[], false, false);
    let batch = kwargs("lingua", &[], &[], true, false);
    let sequential = detect_language(&texts, &row_by_row).unwrap();
    let parallel = detect_language(&texts, &batch).unwrap();
    assert_eq!(sequential, parallel);
}

#[test]
fn lingua_low_accuracy_mode_still_detects() {
    let kw = kwargs("lingua", &["English", "French"], &[], false, true);
    let texts = column(&[Some(
        "Bonjour tout le monde, comment allez-vous aujourd'hui ? C'est une belle jour.",
    )]);
    let got = detect_language(&texts, &kw).unwrap();
    assert_eq!(got, vec![Some("French".to_string())]);
}

#[test]
fn what_lang_empty_text_gives_null() {
    let kw = kwargs("what_lang", &[], &[], false, false);
    let texts = column(&[Some("")]);
    let got = detect_language(&texts, &kw).unwrap();
    assert_eq!(got, vec![None]);
}

#[test]
fn what_lang_deny_list_excludes_language() {
    let kw = kwargs("what_lang", &[], &["English", "Italian"], false, false);
    let texts = column(&[Some(
        "Jen la trinkejo fermitis, ni iras tra mallumo kaj pluvo.",
    )]);
    let got = detect_language(&texts, &kw).unwrap();
    assert_eq!(got, vec![Some("Esperanto".to_string())]);
}

#[test]
fn what_lang_single_script_leak_is_closed_at_the_output_boundary() {
    // whatlang maps a script with a single language to that language without
    // consulting its allow/deny filter; the engine replaces such a disallowed
    // label with null at the output boundary.
    let kw = kwargs("what_lang", &["English"], &[], false, false);
    let texts = column(&[Some("Αυτό είναι ένα ελληνικό κείμενο.")]);
    let got = detect_language(&texts, &kw).unwrap();
    assert_eq!(got, vec![None]);
}

#[test]
fn what_lang_deny_list_holds_against_the_single_script_shortcut() {
    let kw = kwargs("what_lang", &[], &["Kannada"], false, false);
    let texts = column(&[Some("ಕನ್ನಡ ಒಂದು ಸುಂದರವಾದ ಭಾಷೆ")]);
    let got = detect_language(&texts, &kw).unwrap();
    assert_eq!(got, vec![None]);
}

#[test]
fn which_lang_applies_the_allow_list_at_the_output_boundary() {
    let kw = kwargs("which_lang", &["French"], &[], false, false);
    let texts = column(&[Some("Hello world"), Some("Bonjour tout le monde")]);
    let got = detect_language(&texts, &kw).unwrap();
    assert_eq!(got, vec![None, Some("French".to_string())]);
}

#[test]
fn which_lang_applies_the_deny_list_at_the_output_boundary() {
    let kw = kwargs("which_lang", &[], &["English"], false, false);
    let texts = column(&[Some("Hello world"), Some("Bonjour tout le monde")]);
    let got = detect_language(&texts, &kw).unwrap();
    assert_eq!(got, vec![None, Some("French".to_string())]);
}

#[test]
fn which_lang_unknown_language_name_fails_atomically() {
    let kw = kwargs("which_lang", &["Klingon", "French"], &[], false, false);
    let texts = column(&[Some("Hello world")]);
    let got = detect_language(&texts, &kw);
    assert_eq!(got, Err(DetectError::LanguageNotFound("Klingon".to_string())));
}

#[test]
fn empty_column_gives_empty_column() {
    for name in ["what_lang", "lingua", "which_lang"] {
        let kw = kwargs(name, &[], &[], false, false);
        let got = detect_language(&Vec::new(), &kw).unwrap();
        assert_eq!(got, Vec::<Option<String>>::new(), "backend {}", name);
    }
}

#[test]
fn batch_parallel_substitutes_empty_string_for_nulls() {
    // The batch strategy classifies the null-substituted empty string; lingua
    // reports no classification for it, so the cell still comes back null.
    let kw = kwargs("lingua", &[], &[], true, false);
    let texts = column(&[None, Some("Bonjour tout le monde, comment allez-vous aujourd'hui ?")]);
    let got = detect_language(&texts, &kw).unwrap();
    assert_eq!(got.len(), 2);
    assert_eq!(got[0], None);
}

#[test]
fn output_length_always_matches_input_length() {
    let texts = column(&[Some("Hello"), None, Some(""), Some("Bonjour"), None]);
    for name in ["what_lang", "lingua", "which_lang"] {
        let kw = kwargs(name, &[], &[], false, false);
        let got = detect_language(&texts, &kw).unwrap();
        assert_eq!(got.len(), texts.len(), "backend {}", name);
    }
    let kw = kwargs("lingua", &[], &[], true, false);
    let got = detect_language(&texts, &kw).unwrap();
    assert_eq!(got.len(), texts.len());
}
