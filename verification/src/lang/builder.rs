//! Normalization of caller-supplied language names into the canonical
//! identifiers that each backend requires.
//!
//! Two mapping strategies coexist. The lingua backend accepts a name
//! directly, so normalization is a single parse against its name table. The
//! whatlang backend only accepts an ISO 639-3 code, so normalization is a
//! two-hop chain: English name to ISO descriptor code, code to whatlang
//! language. Both strategies fail with the same LanguageNotFound error, and
//! one bad entry rejects a whole list.

use vstd::prelude::*;

use crate::lang::backends::iso_code_of;
use crate::lang::backends::iso_code_of_name;
use crate::lang::backends::lingua_label;
use crate::lang::backends::lingua_lang_of;
use crate::lang::backends::lingua_parse;
use crate::lang::backends::whatlang_code_lookup;
use crate::lang::backends::whatlang_from_code;
use crate::lang::backends::whatlang_label;
use crate::DetectError;

verus! {

/// The label of the whatlang language that a caller-supplied English name
/// reaches through the two-hop chain, if every link holds.
pub open spec fn whatlang_resolve(name: Seq<char>) -> Option<Seq<char>> {
    match iso_code_of(name) {
        Some(code) => whatlang_code_lookup(code),
        None => None,
    }
}

/// True when every name in the list is recognized by lingua's name table.
pub open spec fn all_resolve_lingua(names: Seq<String>) -> bool {
    forall|i: int| 0 <= i < names.len() ==> lingua_lang_of(names[i]@) is Some
}

/// True when every name in the list reaches a whatlang language.
pub open spec fn all_resolve_whatlang(names: Seq<String>) -> bool {
    forall|i: int| 0 <= i < names.len() ==> whatlang_resolve(names[i]@) is Some
}

/// Converts one caller-supplied language name into the whatlang language it
/// denotes, going through the ISO 639 table: name to ISO 639-3 code, code to
/// whatlang language. A break in either hop reports the same error.
pub fn get_language_code(language_name: &str) -> (r: Result<whatlang::Lang, DetectError>)
    ensures
        match r {
            Ok(l) => whatlang_resolve(language_name@) == Some(whatlang_label(l)),
            Err(e) => whatlang_resolve(language_name@) is None && (e matches DetectError::LanguageNotFound(n) && n@ == language_name@),
        },
{
    let code = match iso_code_of_name(language_name) {
        Some(c) => c,
        None => {
            return Err(DetectError::LanguageNotFound(language_name.to_owned()));
        },
    };
    match whatlang_from_code(code.as_str()) {
        Some(l) => Ok(l),
        None => Err(DetectError::LanguageNotFound(language_name.to_owned())),
    }
}

/// Converts a whole list of language names for the whatlang backend. The
/// list is atomic: the first unrecognized name rejects it.
pub fn process_language_list(lang_list: &Vec<String>) -> (r: Result<Vec<whatlang::Lang>, DetectError>)
    ensures
        match r {
            Ok(langs) => langs@.len() == lang_list@.len() && forall|i: int|
                0 <= i < langs@.len() ==> whatlang_resolve(lang_list@[i]@) == Some(
                    whatlang_label(langs@[i]),
                ),
            Err(e) => e matches DetectError::LanguageNotFound(n) && exists|i: int|
                0 <= i < lang_list@.len() && lang_list@[i]@ == n@ && whatlang_resolve(n@) is None
                    && (forall|j: int| 0 <= j < i ==> whatlang_resolve(lang_list@[j]@) is Some),
        },
{
    let mut out: Vec<whatlang::Lang> = Vec::new();
    let mut idx: usize = 0;
    while idx < lang_list.len()
        invariant
            idx <= lang_list@.len(),
            out@.len() == idx,
            forall|i: int|
                0 <= i < idx as int ==> whatlang_resolve(lang_list@[i]@) == Some(
                    whatlang_label(out@[i]),
                ),
        decreases lang_list@.len() - idx,
    {
        match get_language_code(lang_list[idx].as_str()) {
            Ok(l) => out.push(l),
            Err(e) => {
                return Err(e);
            },
        }
        idx += 1;
    }
    Ok(out)
}

/// Converts a whole list of language names for the lingua backend. The list
/// is atomic: the first unrecognized name rejects it.
pub fn process_language_list_lingua(langs: &Vec<String>) -> (r: Result<Vec<lingua::Language>, DetectError>)
    ensures
        match r {
            Ok(out) => out@.len() == langs@.len() && forall|i: int|
                0 <= i < out@.len() ==> lingua_lang_of(langs@[i]@) == Some(lingua_label(out@[i])),
            Err(e) => e matches DetectError::LanguageNotFound(n) && exists|i: int|
                0 <= i < langs@.len() && langs@[i]@ == n@ && lingua_lang_of(n@) is None && (
                forall|j: int| 0 <= j < i ==> lingua_lang_of(langs@[j]@) is Some),
        },
{
    let mut out: Vec<lingua::Language> = Vec::new();
    let mut idx: usize = 0;
    while idx < langs.len()
        invariant
            idx <= langs@.len(),
            out@.len() == idx,
            forall|i: int|
                0 <= i < idx as int ==> lingua_lang_of(langs@[i]@) == Some(lingua_label(out@[i])),
        decreases langs@.len() - idx,
    {
        match lingua_parse(langs[idx].as_str()) {
            Some(l) => out.push(l),
            None => {
                return Err(DetectError::LanguageNotFound(langs[idx].clone()));
            },
        }
        idx += 1;
    }
    Ok(out)
}

} // verus!
