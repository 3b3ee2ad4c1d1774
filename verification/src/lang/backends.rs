//! Trusted boundary around the detection backends.
//!
//! Everything the engine takes on faith about the outside detector crates is
//! collected here: opaque declarations of their types, names for the results
//! of their pure functions, and thin wrappers whose contracts state what the
//! crates' sources show.

use vstd::prelude::*;

verus! {

#[verifier::external_type_specification]
#[verifier::external_body]
pub struct ExLinguaLanguage(lingua::Language);

#[verifier::external_type_specification]
#[verifier::external_body]
pub struct ExLinguaDetector(lingua::LanguageDetector);

#[verifier::external_type_specification]
#[verifier::external_body]
pub struct ExWhatlangLang(whatlang::Lang);

#[verifier::external_type_specification]
#[verifier::external_body]
pub struct ExWhatlangDetector(whatlang::Detector);

/// The display label of a lingua language ("French", "German", ...).
pub uninterp spec fn lingua_label(lang: lingua::Language) -> Seq<char>;

/// The label of the lingua language that a caller-supplied name parses to,
/// if the name is recognized.
pub uninterp spec fn lingua_lang_of(name: Seq<char>) -> Option<Seq<char>>;

/// The labels of the candidate languages a lingua detector was built over.
pub uninterp spec fn lingua_candidates(d: lingua::LanguageDetector) -> Set<Seq<char>>;

/// Whether a lingua detector was built in reduced-accuracy mode.
pub uninterp spec fn lingua_reduced_accuracy(d: lingua::LanguageDetector) -> bool;

/// Whether some built-in lingua language carries this label, with the
/// language models compiled in here.
pub uninterp spec fn lingua_builtin(lab: Seq<char>) -> bool;

/// The English name of a whatlang language ("French", "German", ...).
pub uninterp spec fn whatlang_label(lang: whatlang::Lang) -> Seq<char>;

/// The label of the whatlang language with a given ISO 639-3 code, if any.
pub uninterp spec fn whatlang_code_lookup(code: Seq<char>) -> Option<Seq<char>>;

/// The allow/deny filter a whatlang detector was built with: None for the
/// full default universe, Some((true, labels)) for an allow-list,
/// Some((false, labels)) for a deny-list. Distinct whatlang languages carry
/// distinct English names, so a label set determines a language set.
pub uninterp spec fn whatlang_filter(d: whatlang::Detector) -> Option<(bool, Set<Seq<char>>)>;

/// The label whatlang assigns to a text. Detection reads only the detector's
/// filter list and the text (all three constructors leave the scoring method
/// at its default), so the result is named as a function of those two.
pub uninterp spec fn whatlang_detect_label(
    filter: Option<(bool, Set<Seq<char>>)>,
    text: Seq<char>,
) -> Option<Seq<char>>;

/// The English names of a list of whatlang languages, as a set.
pub open spec fn whatlang_label_set_of(langs: Seq<whatlang::Lang>) -> Set<Seq<char>> {
    Set::new(
        |lab: Seq<char>| exists|i: int| 0 <= i < langs.len() && whatlang_label(langs[i]) == lab,
    )
}

/// The ISO 639-3 code of the language that whichlang assigns to a text;
/// whichlang is total and always assigns one.
pub uninterp spec fn whichlang_code_of(text: Seq<char>) -> Seq<char>;

/// The ISO 639-3 code of the ISO language with a given English name, if any.
pub uninterp spec fn iso_code_of(name: Seq<char>) -> Option<Seq<char>>;

/// Relies on lingua::Language's FromStr impl (ASCII case-insensitive name
/// match): whether a name parses, and to which language, depends on the name
/// alone.
#[verifier::external_body]
pub(crate) fn lingua_parse(name: &str) -> (r: Option<lingua::Language>)
    ensures
        match r {
            Some(l) => lingua_lang_of(name@) == Some(lingua_label(l)),
            None => lingua_lang_of(name@) is None,
        },
{
    name.parse().ok()
}

/// Relies on lingua::Language's Display impl: one fixed label per language.
#[verifier::external_body]
pub(crate) fn lingua_label_of(lang: &lingua::Language) -> (r: String)
    ensures
        r@ == lingua_label(*lang),
{
    lang.to_string()
}

/// Relies on lingua::Language::all: the set of built-in languages, each
/// returned once, together holding exactly the built-in labels. With the
/// language models compiled in here it holds at least two languages, and
/// distinct languages carry distinct labels.
#[verifier::external_body]
pub(crate) fn lingua_all_languages() -> (r: Vec<lingua::Language>)
    ensures
        r@.len() >= 2,
        forall|i: int, j: int|
            0 <= i < j < r@.len() ==> lingua_label(r@[i]) != lingua_label(r@[j]),
        forall|lab: Seq<char>| #[trigger] label_set_of(r@).contains(lab) ==> lingua_builtin(lab),
        forall|lab: Seq<char>| #[trigger] lingua_builtin(lab) ==> label_set_of(r@).contains(lab),
{
    lingua::Language::all().into_iter().collect()
}

/// The display labels of a list of lingua languages, as a set.
pub open spec fn label_set_of(langs: Seq<lingua::Language>) -> Set<Seq<char>> {
    Set::new(
        |lab: Seq<char>| exists|i: int| 0 <= i < langs.len() && lingua_label(langs[i]) == lab,
    )
}

/// Relies on lingua::LanguageDetectorBuilder::from_languages and build: the
/// detector's candidate set is exactly the given languages and its accuracy
/// mode is the default. from_languages panics only on an empty list, which
/// the precondition rules out.
#[verifier::external_body]
pub(crate) fn lingua_build(langs: &Vec<lingua::Language>) -> (r: lingua::LanguageDetector)
    requires
        langs@.len() >= 1,
    ensures
        lingua_candidates(r) == label_set_of(langs@),
        lingua_reduced_accuracy(r) == false,
{
    lingua::LanguageDetectorBuilder::from_languages(langs).build()
}

/// Relies on lingua::LanguageDetectorBuilder::from_languages,
/// with_low_accuracy_mode and build: as lingua_build, with the reduced
/// accuracy mode switched on.
#[verifier::external_body]
pub(crate) fn lingua_build_low_accuracy(langs: &Vec<lingua::Language>) -> (r: lingua::LanguageDetector)
    requires
        langs@.len() >= 1,
    ensures
        lingua_candidates(r) == label_set_of(langs@),
        lingua_reduced_accuracy(r) == true,
{
    let mut builder = lingua::LanguageDetectorBuilder::from_languages(langs);
    builder.with_low_accuracy_mode();
    builder.build()
}

/// Relies on lingua::LanguageDetector::detect_language_of: any detected
/// language is one of the detector's candidates. Nothing more is stated:
/// lingua's scoring sums probabilities and breaks exact ties in the walk
/// order of a per-call hash map, so the result is not named as a function of
/// the inputs.
#[verifier::external_body]
pub(crate) fn lingua_detect_one(d: &lingua::LanguageDetector, text: &str) -> (r: Option<String>)
    ensures
        r matches Some(lab) ==> lingua_candidates(*d).contains(lab@),
{
    d.detect_language_of(text).map(|l| l.to_string())
}

/// Relies on lingua::LanguageDetector::detect_languages_in_parallel_of: one
/// result per input text, in input order, each drawn from the detector's
/// candidates when present. As with lingua_detect_one, the per-text result
/// is not named as a function of the inputs.
#[verifier::external_body]
pub(crate) fn lingua_detect_batch(d: &lingua::LanguageDetector, texts: &Vec<String>) -> (r: Vec<
    Option<String>,
>)
    ensures
        r@.len() == texts@.len(),
        forall|i: int|
            0 <= i < r@.len() ==> (#[trigger] r@[i] matches Some(lab) ==> lingua_candidates(
                *d,
            ).contains(lab@)),
{
    d.detect_languages_in_parallel_of(texts)
        .into_iter()
        .map(|l| l.map(|lang| lang.to_string()))
        .collect()
}

/// Relies on whatlang::Detector::new: a detector over the full default
/// universe, with no filter list.
#[verifier::external_body]
pub(crate) fn whatlang_new() -> (r: whatlang::Detector)
    ensures
        whatlang_filter(r) is None,
{
    whatlang::Detector::new()
}

/// Relies on whatlang::Detector::with_allowlist: a detector whose filter
/// list allows exactly the given languages.
#[verifier::external_body]
pub(crate) fn whatlang_with_allowlist(langs: Vec<whatlang::Lang>) -> (r: whatlang::Detector)
    ensures
        whatlang_filter(r) == Some((true, whatlang_label_set_of(langs@))),
{
    whatlang::Detector::with_allowlist(langs)
}

/// Relies on whatlang::Detector::with_denylist: a detector whose filter list
/// denies exactly the given languages.
#[verifier::external_body]
pub(crate) fn whatlang_with_denylist(langs: Vec<whatlang::Lang>) -> (r: whatlang::Detector)
    ensures
        whatlang_filter(r) == Some((false, whatlang_label_set_of(langs@))),
{
    whatlang::Detector::with_denylist(langs)
}

/// Relies on whatlang::Detector::detect_lang and whatlang::Lang::eng_name:
/// the result is a function of the detector's filter list and the text,
/// reported as the language's English name.
#[verifier::external_body]
pub(crate) fn whatlang_detect_one(d: &whatlang::Detector, text: &str) -> (r: Option<String>)
    ensures
        match r {
            Some(lab) => whatlang_detect_label(whatlang_filter(*d), text@) == Some(lab@),
            None => whatlang_detect_label(whatlang_filter(*d), text@) is None,
        },
{
    d.detect_lang(text).map(|l| l.eng_name().to_string())
}

/// Relies on whatlang::Lang::from_code and eng_name: which language a code
/// names, and that language's English name, depend on the code alone.
#[verifier::external_body]
pub(crate) fn whatlang_from_code(code: &str) -> (r: Option<whatlang::Lang>)
    ensures
        match r {
            Some(l) => whatlang_code_lookup(code@) == Some(whatlang_label(l)),
            None => whatlang_code_lookup(code@) is None,
        },
{
    whatlang::Lang::from_code(code)
}

/// Relies on whatlang::Lang::eng_name: one fixed English name per language.
#[verifier::external_body]
pub(crate) fn whatlang_label_of(lang: &whatlang::Lang) -> (r: String)
    ensures
        r@ == whatlang_label(*lang),
{
    lang.eng_name().to_string()
}

/// Relies on whichlang::detect_language and Lang::three_letter_code: total
/// over all texts, the best-scoring language's code, a function of the text
/// alone.
#[verifier::external_body]
pub(crate) fn whichlang_detect_code(text: &str) -> (r: String)
    ensures
        r@ == whichlang_code_of(text@),
{
    whichlang::detect_language(text).three_letter_code().to_string()
}

/// Relies on isolang::Language::from_name and to_639_3: whether an English
/// language name is known to the ISO 639 table, and its ISO 639-3 code,
/// depend on the name alone.
#[verifier::external_body]
pub(crate) fn iso_code_of_name(name: &str) -> (r: Option<String>)
    ensures
        match r {
            Some(code) => iso_code_of(name@) == Some(code@),
            None => iso_code_of(name@) is None,
        },
{
    isolang::Language::from_name(name).map(|l| l.to_639_3().to_string())
}

} // verus!
