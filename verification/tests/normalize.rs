//! Tests of language-identifier normalization: the direct parse used by the
//! lingua backend and the two-hop code chain used by the whatlang backend.

use polari::lang::builder::get_language_code;
use polari::lang::builder::process_language_list;
use polari::lang::builder::process_language_list_lingua;
use polari::DetectError;

fn names(list: &[&str]) -> Vec<String> {
    list.iter().map(|s| s.to_string()).collect()
}

#[test]
fn name_reaches_whatlang_language_through_the_code_chain() {
    assert_eq!(get_language_code("French"), Ok(whatlang::Lang::Fra));
    assert_eq!(get_language_code("German"), Ok(whatlang::Lang::Deu));
    assert_eq!(get_language_code("English"), Ok(whatlang::Lang::Eng));
}

#[test]
fn unknown_name_breaks_the_first_hop() {
    assert_eq!(
        get_language_code("Klingon"),
        Err(DetectError::LanguageNotFound("Klingon".to_string()))
    );
}

#[test]
fn known_iso_name_without_whatlang_language_breaks_the_second_hop() {
    // Abkhazian has an ISO 639-3 code (abk) but whatlang has no such language,
    // so the same error shape comes from the second hop.
    assert_eq!(
        get_language_code("Abkhazian"),
        Err(DetectError::LanguageNotFound("Abkhazian".to_string()))
    );
}

#[test]
fn whatlang_list_resolves_in_order() {
    let got = process_language_list(&names(&["French", "German"]));
    assert_eq!(got, Ok(vec![whatlang::Lang::Fra, whatlang::Lang::Deu]));
}

#[test]
fn whatlang_list_rejects_the_first_bad_entry() {
    let got = process_language_list(&names(&["French", "Klingon", "Wookiee"]));
    assert_eq!(got, Err(DetectError::LanguageNotFound("Klingon".to_string())));
}

#[test]
fn lingua_list_resolves_in_order() {
    let got = process_language_list_lingua(&names(&["French", "German"]));
    assert_eq!(
        got,
        Ok(vec![lingua::Language::French, lingua::Language::German])
    );
}

#[test]
fn lingua_parse_is_ascii_case_insensitive() {
    let got = process_language_list_lingua(&names(&["french", "GERMAN"]));
    assert_eq!(
        got,
        Ok(vec![lingua::Language::French, lingua::Language::German])
    );
}

#[test]
fn lingua_list_rejects_the_first_bad_entry() {
    let got = process_language_list_lingua(&names(&["German", "Wookiee", "Klingon"]));
    assert_eq!(got, Err(DetectError::LanguageNotFound("Wookiee".to_string())));
}
