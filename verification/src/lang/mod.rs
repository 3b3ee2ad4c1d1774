//! The language-detection engine: configuration parsing, backend
//! construction, and null-safe column dispatch.

use vstd::prelude::*;

pub mod backends;
pub mod builder;

use crate::lang::backends::lingua_builtin;
use crate::lang::backends::lingua_candidates;
use crate::lang::backends::lingua_label;
use crate::lang::backends::lingua_reduced_accuracy;
use crate::lang::backends::lingua_lang_of;
use crate::lang::backends::whatlang_code_lookup;
use crate::lang::backends::whatlang_detect_label;
use crate::lang::backends::whatlang_filter;
use crate::lang::backends::whichlang_code_of;
use crate::DetectError;

verus! {

/// The loosely-typed configuration bag a caller hands in: a backend name,
/// allow/deny language lists, and the strategy flags.
pub struct AddAlgoKwargs {
    pub algorithm: String,
    pub allow_langs: Vec<String>,
    pub deny_langs: Vec<String>,
    pub in_parallel: bool,
    pub low_accuracy: bool,
}

/// A validated detection request: one recognized backend together with the
/// options that backend understands.
pub enum Algorithm {
    WhatLang { allow_langs: Vec<String>, deny_langs: Vec<String> },
    Lingua {
        low_accuracy: bool,
        allow_langs: Vec<String>,
        deny_langs: Vec<String>,
        in_parallel: bool,
    },
    WhichLang { allow_langs: Vec<String>, deny_langs: Vec<String> },
}

/// True when the backend name is one of the recognized backends.
pub open spec fn recognized_backend(name: Seq<char>) -> bool {
    ||| name == "what_lang"@
    ||| name == "lingua"@
    ||| name == "which_lang"@
}

/// How a validated Algorithm must reflect the kwargs it was parsed from.
pub open spec fn algorithm_matches(a: Algorithm, kwargs: AddAlgoKwargs) -> bool {
    match a {
        Algorithm::WhatLang { allow_langs, deny_langs } => {
            &&& kwargs.algorithm@ == "what_lang"@
            &&& allow_langs@ == kwargs.allow_langs@
            &&& deny_langs@ == kwargs.deny_langs@
        },
        Algorithm::Lingua { low_accuracy, allow_langs, deny_langs, in_parallel } => {
            &&& kwargs.algorithm@ == "lingua"@
            &&& low_accuracy == kwargs.low_accuracy
            &&& allow_langs@ == kwargs.allow_langs@
            &&& deny_langs@ == kwargs.deny_langs@
            &&& in_parallel == kwargs.in_parallel
        },
        Algorithm::WhichLang { allow_langs, deny_langs } => {
            &&& kwargs.algorithm@ == "which_lang"@
            &&& allow_langs@ == kwargs.allow_langs@
            &&& deny_langs@ == kwargs.deny_langs@
        },
    }
}

/// Clones a list of language names, preserving its view.
fn clone_names(names: &Vec<String>) -> (r: Vec<String>)
    ensures
        r@ == names@,
{
    let mut out: Vec<String> = Vec::new();
    let mut idx: usize = 0;
    while idx < names.len()
        invariant
            idx <= names@.len(),
            out@ == names@.subrange(0, idx as int),
        decreases names@.len() - idx,
    {
        out.push(names[idx].clone());
        proof {
            assert(out@ =~= names@.subrange(0, idx as int + 1));
        }
        idx += 1;
    }
    proof {
        assert(out@ =~= names@);
    }
    out
}

impl Algorithm {
    /// Parses the configuration bag. The backend name must match one of the
    /// recognized names exactly; anything else is an InvalidBackend error.
    /// No cross-field validation happens here: restriction conflicts and
    /// candidate-count minimums are deferred to backend construction.
    pub fn from_kwargs(kwargs: &AddAlgoKwargs) -> (r: Result<Algorithm, DetectError>)
        ensures
            match r {
                Ok(a) => recognized_backend(kwargs.algorithm@) && algorithm_matches(a, *kwargs),
                Err(e) => !recognized_backend(kwargs.algorithm@) && (
                e matches DetectError::InvalidBackend(n) && n@ == kwargs.algorithm@),
            },
    {
        if kwargs.algorithm == "what_lang".to_owned() {
            Ok(Algorithm::WhatLang {
                allow_langs: clone_names(&kwargs.allow_langs),
                deny_langs: clone_names(&kwargs.deny_langs),
            })
        } else if kwargs.algorithm == "lingua".to_owned() {
            Ok(Algorithm::Lingua {
                low_accuracy: kwargs.low_accuracy,
                allow_langs: clone_names(&kwargs.allow_langs),
                deny_langs: clone_names(&kwargs.deny_langs),
                in_parallel: kwargs.in_parallel,
            })
        } else if kwargs.algorithm == "which_lang".to_owned() {
            Ok(Algorithm::WhichLang {
                allow_langs: clone_names(&kwargs.allow_langs),
                deny_langs: clone_names(&kwargs.deny_langs),
            })
        } else {
            Err(DetectError::InvalidBackend(kwargs.algorithm.clone()))
        }
    }
}

/// A lingua detector fixed to batch-parallel execution.
pub struct LinguaInParallel {
    pub detector: lingua::LanguageDetector,
}

/// A lingua detector fixed to row-by-row execution.
pub struct LinguaSequential {
    pub detector: lingua::LanguageDetector,
}

/// The resolved output-label restriction that the dispatcher enforces at the
/// output boundary. lingua restricts its own candidate set, but whatlang's
/// single-script shortcut answers past its filter and whichlang has no
/// filter, so for those backends the engine itself replaces a disallowed
/// label with null. An empty list means no restriction of that kind.
pub struct LabelFilter {
    pub allow_labels: Vec<String>,
    pub deny_labels: Vec<String>,
}

/// The views of a list of labels, as a set.
pub open spec fn name_set(labels: Seq<String>) -> Set<Seq<char>> {
    Set::new(|l: Seq<char>| exists|i: int| 0 <= i < labels.len() && labels[i]@ == l)
}

/// Whether a label passes the output-boundary restriction.
pub open spec fn filter_admits(f: LabelFilter, lab: Seq<char>) -> bool {
    &&& (f.allow_labels@.len() > 0 ==> name_set(f.allow_labels@).contains(lab))
    &&& (f.deny_labels@.len() > 0 ==> !name_set(f.deny_labels@).contains(lab))
}

/// Whether a label passes the output-boundary restriction.
fn admits(f: &LabelFilter, lab: &String) -> (r: bool)
    ensures
        r == filter_admits(*f, lab@),
{
    if f.allow_labels.len() > 0 && !contains_name(&f.allow_labels, lab) {
        return false;
    }
    if f.deny_labels.len() > 0 && contains_name(&f.deny_labels, lab) {
        return false;
    }
    true
}

/// One constructed backend instance, bound to its restriction set and
/// execution strategy for the lifetime of the request.
pub enum DetectorType {
    WhatLang(whatlang::Detector, LabelFilter),
    LinguaInParallel(LinguaInParallel),
    LinguaSequential(LinguaSequential),
    WhichLang(LabelFilter),
}

/// The output-boundary restriction a detector carries; None for the lingua
/// variants, whose candidate set restricts their output by itself.
pub open spec fn output_filter(d: DetectorType) -> Option<LabelFilter> {
    match d {
        DetectorType::WhatLang(_, f) => Some(f),
        DetectorType::WhichLang(f) => Some(f),
        DetectorType::LinguaSequential(_) => None,
        DetectorType::LinguaInParallel(_) => None,
    }
}

/// The labels a lingua detector can produce. None for the other backends:
/// whichlang supports no restriction at all, and whatlang's single-script
/// shortcut answers without consulting its allow/deny filter, so no sound
/// bound on its output is modeled.
pub open spec fn candidate_labels(d: DetectorType) -> Option<Set<Seq<char>>> {
    match d {
        DetectorType::LinguaSequential(ls) => Some(lingua_candidates(ls.detector)),
        DetectorType::LinguaInParallel(lp) => Some(lingua_candidates(lp.detector)),
        DetectorType::WhatLang(_, _) => None,
        DetectorType::WhichLang(_) => None,
    }
}

/// The accuracy mode a lingua detector was built with; None for the other
/// backends, which have no such mode.
pub open spec fn reduced_accuracy_mode(d: DetectorType) -> Option<bool> {
    match d {
        DetectorType::LinguaSequential(ls) => Some(lingua_reduced_accuracy(ls.detector)),
        DetectorType::LinguaInParallel(lp) => Some(lingua_reduced_accuracy(lp.detector)),
        DetectorType::WhatLang(_, _) => None,
        DetectorType::WhichLang(_) => None,
    }
}

/// The labels of all built-in lingua languages: the default universe.
pub open spec fn lingua_universe_labels() -> Set<Seq<char>> {
    Set::new(|lab: Seq<char>| lingua_builtin(lab))
}

/// The built-in lingua labels left after removing what a deny-list resolves
/// to.
pub open spec fn lingua_without(deny: Seq<String>) -> Set<Seq<char>> {
    Set::new(|lab: Seq<char>| lingua_builtin(lab) && !lingua_labels_of(deny).contains(lab))
}

/// Whether at least two built-in lingua languages survive a deny-list.
pub open spec fn lingua_deny_leaves_two(deny: Seq<String>) -> bool {
    exists|a: Seq<char>, b: Seq<char>|
        a != b && #[trigger] lingua_without(deny).contains(a) && #[trigger] lingua_without(
            deny,
        ).contains(b)
}

/// The labels that a list of names resolves to under lingua's name table.
pub open spec fn lingua_labels_of(names: Seq<String>) -> Set<Seq<char>> {
    Set::new(
        |lab: Seq<char>|
            exists|i: int| 0 <= i < names.len() && lingua_lang_of(names[i]@) == Some(lab),
    )
}

/// The whatlang labels that a list of names resolves to through the two-hop
/// chain.
pub open spec fn whatlang_labels_of(names: Seq<String>) -> Set<Seq<char>> {
    Set::new(
        |lab: Seq<char>|
            exists|i: int|
                0 <= i < names.len() && builder::whatlang_resolve(names[i]@) == Some(lab),
    )
}

/// True when the names resolve to at least two distinct lingua languages.
pub open spec fn lingua_two_distinct(names: Seq<String>) -> bool {
    exists|i: int, j: int|
        0 <= i < names.len() && 0 <= j < names.len() && lingua_lang_of(names[i]@)
            != lingua_lang_of(names[j]@)
}

/// The display labels of a list of lingua languages, in order.
fn labels_of(langs: &Vec<lingua::Language>) -> (r: Vec<String>)
    ensures
        r@.len() == langs@.len(),
        forall|i: int| 0 <= i < r@.len() ==> (#[trigger] r@[i])@ == lingua_label(langs@[i]),
{
    let mut out: Vec<String> = Vec::new();
    let mut idx: usize = 0;
    while idx < langs.len()
        invariant
            idx <= langs@.len(),
            out@.len() == idx,
            forall|i: int| 0 <= i < idx as int ==> (#[trigger] out@[i])@ == lingua_label(langs@[i]),
        decreases langs@.len() - idx,
    {
        out.push(backends::lingua_label_of(&langs[idx]));
        idx += 1;
    }
    out
}

/// Whether some name in the list views the same as the given one.
fn contains_name(names: &Vec<String>, name: &String) -> (r: bool)
    ensures
        r <==> exists|i: int| 0 <= i < names@.len() && (#[trigger] names@[i])@ == name@,
{
    let mut idx: usize = 0;
    while idx < names.len()
        invariant
            idx <= names@.len(),
            forall|i: int| 0 <= i < idx as int ==> (#[trigger] names@[i])@ != name@,
        decreases names@.len() - idx,
    {
        if names[idx] == *name {
            return true;
        }
        idx += 1;
    }
    false
}

/// Whether the labels hold at least two distinct values.
fn has_two_distinct(labels: &Vec<String>) -> (r: bool)
    requires
        labels@.len() >= 1,
    ensures
        r <==> exists|i: int, j: int|
            0 <= i < labels@.len() && 0 <= j < labels@.len() && (#[trigger] labels@[i])@ != (
            #[trigger] labels@[j])@,
{
    let mut idx: usize = 1;
    while idx < labels.len()
        invariant
            1 <= idx <= labels@.len(),
            labels@.len() >= 1,
            forall|i: int| 0 <= i < idx as int ==> (#[trigger] labels@[i])@ == labels@[0]@,
        decreases labels@.len() - idx,
    {
        if !(labels[idx] == labels[0]) {
            return true;
        }
        idx += 1;
    }
    false
}

/// A list of whatlang languages resolved from a list of names carries, as a
/// set, exactly the labels the names resolve to.
proof fn lemma_whatlang_resolved_labels(langs: Seq<whatlang::Lang>, names: Seq<String>)
    requires
        langs.len() == names.len(),
        forall|i: int|
            0 <= i < langs.len() ==> builder::whatlang_resolve((#[trigger] names[i])@) == Some(
                backends::whatlang_label(langs[i]),
            ),
    ensures
        backends::whatlang_label_set_of(langs) == whatlang_labels_of(names),
{
    assert forall|lab: Seq<char>|
        backends::whatlang_label_set_of(langs).contains(lab) == whatlang_labels_of(
        names,
    ).contains(lab) by {
        if backends::whatlang_label_set_of(langs).contains(lab) {
            let k = choose|k: int|
                0 <= k < langs.len() && backends::whatlang_label(langs[k]) == lab;
            assert(builder::whatlang_resolve(names[k]@) == Some(lab));
            assert(whatlang_labels_of(names).contains(lab));
        }
        if whatlang_labels_of(names).contains(lab) {
            let k = choose|k: int|
                0 <= k < names.len() && builder::whatlang_resolve(names[k]@) == Some(lab);
            assert(backends::whatlang_label(langs[k]) == lab);
            assert(backends::whatlang_label_set_of(langs).contains(lab));
        }
    }
    assert(backends::whatlang_label_set_of(langs) =~= whatlang_labels_of(names));
}

/// The English names of a list of whatlang languages, in order.
fn whatlang_labels_vec(langs: &Vec<whatlang::Lang>) -> (r: Vec<String>)
    ensures
        r@.len() == langs@.len(),
        forall|i: int|
            0 <= i < r@.len() ==> (#[trigger] r@[i])@ == backends::whatlang_label(langs@[i]),
{
    let mut out: Vec<String> = Vec::new();
    let mut idx: usize = 0;
    while idx < langs.len()
        invariant
            idx <= langs@.len(),
            out@.len() == idx,
            forall|i: int|
                0 <= i < idx as int ==> (#[trigger] out@[i])@ == backends::whatlang_label(
                    langs@[i],
                ),
        decreases langs@.len() - idx,
    {
        out.push(backends::whatlang_label_of(&langs[idx]));
        idx += 1;
    }
    out
}

/// Labels taken from a resolved whatlang list hold, as a set, exactly the
/// labels that the names resolve to.
proof fn lemma_whatlang_filter_labels(
    labels: Seq<String>,
    langs: Seq<whatlang::Lang>,
    names: Seq<String>,
)
    requires
        labels.len() == langs.len(),
        langs.len() == names.len(),
        forall|i: int|
            0 <= i < labels.len() ==> (#[trigger] labels[i])@ == backends::whatlang_label(
                langs[i],
            ),
        forall|i: int|
            0 <= i < langs.len() ==> builder::whatlang_resolve((#[trigger] names[i])@) == Some(
                backends::whatlang_label(langs[i]),
            ),
    ensures
        name_set(labels) == whatlang_labels_of(names),
{
    assert forall|lab: Seq<char>|
        name_set(labels).contains(lab) == whatlang_labels_of(names).contains(lab) by {
        if name_set(labels).contains(lab) {
            let k = choose|k: int| 0 <= k < labels.len() && labels[k]@ == lab;
            assert(builder::whatlang_resolve(names[k]@) == Some(lab));
            assert(whatlang_labels_of(names).contains(lab));
        }
        if whatlang_labels_of(names).contains(lab) {
            let k = choose|k: int|
                0 <= k < names.len() && builder::whatlang_resolve(names[k]@) == Some(lab);
            assert(labels[k]@ == lab);
            assert(name_set(labels).contains(lab));
        }
    }
    assert(name_set(labels) =~= whatlang_labels_of(names));
}

/// An empty label list and an empty name list describe the same (empty)
/// restriction.
proof fn lemma_empty_label_sets(labels: Seq<String>, names: Seq<String>)
    requires
        labels.len() == 0,
        names.len() == 0,
    ensures
        name_set(labels) == whatlang_labels_of(names),
{
    assert(name_set(labels) =~= whatlang_labels_of(names));
}

impl Algorithm {
    /// The configured allow-list.
    pub open spec fn spec_allow(self) -> Seq<String> {
        match self {
            Algorithm::WhatLang { allow_langs, .. } => allow_langs@,
            Algorithm::Lingua { allow_langs, .. } => allow_langs@,
            Algorithm::WhichLang { allow_langs, .. } => allow_langs@,
        }
    }

    /// The configured deny-list.
    pub open spec fn spec_deny(self) -> Seq<String> {
        match self {
            Algorithm::WhatLang { deny_langs, .. } => deny_langs@,
            Algorithm::Lingua { deny_langs, .. } => deny_langs@,
            Algorithm::WhichLang { deny_langs, .. } => deny_langs@,
        }
    }

    /// Allow- and deny-list both supplied: an ambiguous restriction.
    pub open spec fn conflicting(self) -> bool {
        self.spec_allow().len() > 0 && self.spec_deny().len() > 0
    }

    /// The one restriction list the factory acts on.
    pub open spec fn used_names(self) -> Seq<String> {
        if self.spec_allow().len() > 0 {
            self.spec_allow()
        } else {
            self.spec_deny()
        }
    }

    /// Every name of the acted-on list is recognized by the selected backend.
    /// The whichlang backend reports whatlang labels, so its lists resolve
    /// through the same two-hop chain as whatlang's.
    pub open spec fn names_resolve(self) -> bool {
        match self {
            Algorithm::WhatLang { .. } => builder::all_resolve_whatlang(self.used_names()),
            Algorithm::Lingua { .. } => builder::all_resolve_lingua(self.used_names()),
            Algorithm::WhichLang { .. } => builder::all_resolve_whatlang(self.used_names()),
        }
    }

    /// The detector variant that a successful build must produce.
    pub open spec fn detector_matches(self, d: DetectorType) -> bool {
        match self {
            Algorithm::WhatLang { .. } => d is WhatLang,
            Algorithm::Lingua { in_parallel, .. } => if in_parallel {
                d is LinguaInParallel
            } else {
                d is LinguaSequential
            },
            Algorithm::WhichLang { .. } => d is WhichLang,
        }
    }

    /// Whether one name is recognized by the selected backend.
    pub open spec fn resolves(self, name: Seq<char>) -> bool {
        match self {
            Algorithm::WhatLang { .. } => builder::whatlang_resolve(name) is Some,
            Algorithm::Lingua { .. } => lingua_lang_of(name) is Some,
            Algorithm::WhichLang { .. } => builder::whatlang_resolve(name) is Some,
        }
    }

    /// Constructs exactly one detector from this validated request, or
    /// rejects it: a conflicting allow/deny pair or a lingua candidate set
    /// below two languages is an InvalidRestriction, and an unrecognized
    /// language name is a LanguageNotFound carrying that name.
    #[verifier::rlimit(30)]
    pub fn build(&self) -> (r: Result<DetectorType, DetectError>)
        ensures
            self.conflicting() ==> (r matches Err(e) && e is InvalidRestriction),
            (!self.conflicting() && !self.names_resolve()) ==> (r matches Err(e)
                && e matches DetectError::LanguageNotFound(n) && !self.resolves(n@) && exists|
                i: int,
            |
                0 <= i < self.used_names().len() && (#[trigger] self.used_names()[i])@ == n@ && (
                forall|j: int| 0 <= j < i ==> self.resolves(self.used_names()[j]@))),
            (r matches Err(e) && e is LanguageNotFound) ==> !self.names_resolve(),
            (self is WhichLang && !self.conflicting() && self.names_resolve()) ==> r is Ok,
            (self is WhatLang && !self.conflicting() && self.names_resolve()) ==> r is Ok,
            (self is Lingua && !self.conflicting() && self.names_resolve() && self.spec_allow().len()
                > 0 && lingua_two_distinct(self.spec_allow())) ==> r is Ok,
            (self is Lingua && !self.conflicting() && self.names_resolve() && self.spec_allow().len()
                > 0 && !lingua_two_distinct(self.spec_allow())) ==> (r matches Err(e)
                && e is InvalidRestriction),
            (self is Lingua && self.spec_allow().len() == 0 && self.spec_deny().len() == 0) ==> r is Ok,
            (self is Lingua && !self.conflicting() && self.names_resolve() && self.spec_allow().len()
                == 0 && self.spec_deny().len() > 0 && lingua_deny_leaves_two(self.spec_deny()))
                ==> r is Ok,
            (self is Lingua && !self.conflicting() && self.names_resolve() && self.spec_allow().len()
                == 0 && self.spec_deny().len() > 0 && !lingua_deny_leaves_two(self.spec_deny()))
                ==> (r matches Err(e) && e is InvalidRestriction),
            (r matches Err(e) && e is InvalidRestriction) ==> (self.conflicting() || (self is Lingua
                && (self.spec_allow().len() > 0 || self.spec_deny().len() > 0))),
            r matches Err(e) ==> (e is InvalidRestriction || e is LanguageNotFound),
            r matches Ok(d) ==> self.detector_matches(d),
            r matches Ok(d) ==> ((self is Lingua && self.spec_allow().len() > 0)
                ==> candidate_labels(d) == Some(lingua_labels_of(self.spec_allow()))),
            r matches Ok(d) ==> ((self is Lingua && self.spec_deny().len() > 0) ==> (
            candidate_labels(d) matches Some(c) && forall|lab: Seq<char>|
                c.contains(lab) ==> !lingua_labels_of(self.spec_deny()).contains(lab))),
            r matches Ok(d) ==> ((self is Lingua && self.spec_allow().len() == 0
                && self.spec_deny().len() > 0) ==> candidate_labels(d) == Some(
                lingua_without(self.spec_deny()),
            )),
            r matches Ok(d) ==> ((self is Lingua && self.spec_allow().len() == 0
                && self.spec_deny().len() == 0) ==> candidate_labels(d) == Some(
                lingua_universe_labels(),
            )),
            r matches Ok(d) ==> (self matches Algorithm::Lingua { low_accuracy, .. }
                ==> reduced_accuracy_mode(d) == Some(*low_accuracy)),
            r matches Ok(d) ==> ((self is WhatLang && self.spec_allow().len() > 0) ==> (
            d matches DetectorType::WhatLang(w, _) && whatlang_filter(w) == Some(
                (true, whatlang_labels_of(self.spec_allow())),
            ))),
            r matches Ok(d) ==> ((self is WhatLang && self.spec_allow().len() == 0
                && self.spec_deny().len() > 0) ==> (d matches DetectorType::WhatLang(w, _)
                && whatlang_filter(w) == Some((false, whatlang_labels_of(self.spec_deny()))))),
            r matches Ok(d) ==> ((self is WhatLang && self.spec_allow().len() == 0
                && self.spec_deny().len() == 0) ==> (d matches DetectorType::WhatLang(w, _)
                && whatlang_filter(w) is None)),
            r matches Ok(d) ==> ((self is WhatLang || self is WhichLang) ==> (output_filter(d)
                matches Some(f) && f.allow_labels@.len() == self.spec_allow().len()
                && f.deny_labels@.len() == self.spec_deny().len() && name_set(f.allow_labels@)
                == whatlang_labels_of(self.spec_allow()) && name_set(f.deny_labels@)
                == whatlang_labels_of(self.spec_deny()))),
    {
        match self {
            Algorithm::WhatLang { allow_langs, deny_langs } => {
                if allow_langs.len() > 0 && deny_langs.len() > 0 {
                    return Err(DetectError::InvalidRestriction);
                }
                if allow_langs.len() > 0 {
                    match builder::process_language_list(allow_langs) {
                        Ok(list) => {
                            let filter = LabelFilter {
                                allow_labels: whatlang_labels_vec(&list),
                                deny_labels: Vec::new(),
                            };
                            proof {
                                lemma_whatlang_resolved_labels(list@, allow_langs@);
                                lemma_whatlang_filter_labels(
                                    filter.allow_labels@,
                                    list@,
                                    allow_langs@,
                                );
                                lemma_empty_label_sets(filter.deny_labels@, deny_langs@);
                            }
                            Ok(
                                DetectorType::WhatLang(
                                    backends::whatlang_with_allowlist(list),
                                    filter,
                                ),
                            )
                        },
                        Err(e) => Err(e),
                    }
                } else if deny_langs.len() > 0 {
                    match builder::process_language_list(deny_langs) {
                        Ok(list) => {
                            let filter = LabelFilter {
                                allow_labels: Vec::new(),
                                deny_labels: whatlang_labels_vec(&list),
                            };
                            proof {
                                lemma_whatlang_resolved_labels(list@, deny_langs@);
                                lemma_whatlang_filter_labels(
                                    filter.deny_labels@,
                                    list@,
                                    deny_langs@,
                                );
                                lemma_empty_label_sets(filter.allow_labels@, allow_langs@);
                            }
                            Ok(
                                DetectorType::WhatLang(
                                    backends::whatlang_with_denylist(list),
                                    filter,
                                ),
                            )
                        },
                        Err(e) => Err(e),
                    }
                } else {
                    let filter = LabelFilter { allow_labels: Vec::new(), deny_labels: Vec::new() };
                    proof {
                        lemma_empty_label_sets(filter.allow_labels@, allow_langs@);
                        lemma_empty_label_sets(filter.deny_labels@, deny_langs@);
                    }
                    Ok(DetectorType::WhatLang(backends::whatlang_new(), filter))
                }
            },
            Algorithm::Lingua { low_accuracy, allow_langs, deny_langs, in_parallel } => {
                if allow_langs.len() > 0 && deny_langs.len() > 0 {
                    return Err(DetectError::InvalidRestriction);
                }
                let langs: Vec<lingua::Language>;
                if allow_langs.len() > 0 {
                    let resolved = match builder::process_language_list_lingua(allow_langs) {
                        Ok(v) => v,
                        Err(e) => {
                            return Err(e);
                        },
                    };
                    let labels = labels_of(&resolved);
                    if !has_two_distinct(&labels) {
                        proof {
                            if lingua_two_distinct(allow_langs@) {
                                let (i, j): (int, int) = choose|i: int, j: int|
                                    0 <= i < allow_langs@.len() && 0 <= j < allow_langs@.len()
                                        && lingua_lang_of(allow_langs@[i]@) != lingua_lang_of(
                                        allow_langs@[j]@,
                                    );
                                assert(labels@[i]@ != labels@[j]@);
                            }
                        }
                        return Err(DetectError::InvalidRestriction);
                    }
                    proof {
                        let (i, j): (int, int) = choose|i: int, j: int|
                            0 <= i < labels@.len() && 0 <= j < labels@.len() && labels@[i]@
                                != labels@[j]@;
                        assert(lingua_lang_of(allow_langs@[i]@) != lingua_lang_of(
                            allow_langs@[j]@,
                        ));
                        assert(lingua_two_distinct(allow_langs@));
                        assert forall|lab: Seq<char>|
                            backends::label_set_of(resolved@).contains(lab)
                                == lingua_labels_of(allow_langs@).contains(lab) by {
                            if backends::label_set_of(resolved@).contains(lab) {
                                let k = choose|k: int|
                                    0 <= k < resolved@.len() && lingua_label(resolved@[k]) == lab;
                                assert(lingua_lang_of(allow_langs@[k]@) == Some(lab));
                                assert(lingua_labels_of(allow_langs@).contains(lab));
                            }
                            if lingua_labels_of(allow_langs@).contains(lab) {
                                let k = choose|k: int|
                                    0 <= k < allow_langs@.len() && lingua_lang_of(allow_langs@[k]@)
                                        == Some(lab);
                                assert(lingua_label(resolved@[k]) == lab);
                                assert(backends::label_set_of(resolved@).contains(lab));
                            }
                        }
                        assert(backends::label_set_of(resolved@) =~= lingua_labels_of(
                            allow_langs@,
                        ));
                    }
                    langs = resolved;
                } else if deny_langs.len() > 0 {
                    let resolved = match builder::process_language_list_lingua(deny_langs) {
                        Ok(v) => v,
                        Err(e) => {
                            return Err(e);
                        },
                    };
                    let deny_labels = labels_of(&resolved);
                    let all = backends::lingua_all_languages();
                    let mut kept: Vec<lingua::Language> = Vec::new();
                    let mut idx: usize = 0;
                    while idx < all.len()
                        invariant
                            idx <= all@.len(),
                            deny_labels@.len() == deny_langs@.len(),
                            forall|i: int|
                                0 <= i < deny_langs@.len() ==> lingua_lang_of(deny_langs@[i]@)
                                    == Some((#[trigger] deny_labels@[i])@),
                            forall|i: int, j: int|
                                0 <= i < j < all@.len() ==> lingua_label(all@[i]) != lingua_label(
                                    all@[j],
                                ),
                            forall|k: int|
                                0 <= k < kept@.len() ==> !lingua_labels_of(deny_langs@).contains(
                                    lingua_label(#[trigger] kept@[k]),
                                ),
                            forall|k: int|
                                0 <= k < kept@.len() ==> exists|i: int|
                                    0 <= i < idx as int && #[trigger] kept@[k] == all@[i],
                            forall|k1: int, k2: int|
                                0 <= k1 < k2 < kept@.len() ==> lingua_label(kept@[k1])
                                    != lingua_label(kept@[k2]),
                            forall|i: int|
                                0 <= i < idx as int && !lingua_labels_of(deny_langs@).contains(
                                    lingua_label(#[trigger] all@[i]),
                                ) ==> exists|k: int| 0 <= k < kept@.len() && kept@[k] == all@[i],
                        decreases all@.len() - idx,
                    {
                        let lab = backends::lingua_label_of(&all[idx]);
                        if !contains_name(&deny_labels, &lab) {
                            proof {
                                if lingua_labels_of(deny_langs@).contains(lab@) {
                                    let k = choose|k: int|
                                        0 <= k < deny_langs@.len() && lingua_lang_of(
                                            deny_langs@[k]@,
                                        ) == Some(lab@);
                                    assert(deny_labels@[k]@ == lab@);
                                }
                                assert forall|k: int| 0 <= k < kept@.len() implies lingua_label(
                                    #[trigger] kept@[k],
                                ) != lab@ by {
                                    let i = choose|i: int|
                                        0 <= i < idx as int && kept@[k] == all@[i];
                                    assert(lingua_label(all@[i]) != lingua_label(all@[idx as int]));
                                }
                            }
                            let ghost kept0 = kept@;
                            kept.push(all[idx]);
                            proof {
                                assert(kept@ == kept0.push(all@[idx as int]));
                                assert(kept@[kept@.len() - 1] == all@[idx as int]);
                                assert forall|i: int|
                                    0 <= i < idx as int + 1 && !lingua_labels_of(
                                        deny_langs@,
                                    ).contains(lingua_label(#[trigger] all@[i])) implies exists|
                                    k: int,
                                | 0 <= k < kept@.len() && kept@[k] == all@[i] by {
                                    if i < idx as int {
                                        let k = choose|k: int|
                                            0 <= k < kept0.len() && #[trigger] kept0[k] == all@[i];
                                        assert(kept@[k] == all@[i]);
                                    } else {
                                        assert(kept@[kept@.len() - 1] == all@[i]);
                                    }
                                }
                            }
                        } else {
                            proof {
                                let k = choose|k: int|
                                    0 <= k < deny_labels@.len() && deny_labels@[k]@ == lab@;
                                assert(lingua_labels_of(deny_langs@).contains(lab@));
                            }
                        }
                        idx += 1;
                    }
                    if kept.len() < 2 {
                        proof {
                            if lingua_deny_leaves_two(deny_langs@) {
                                let (a, b): (Seq<char>, Seq<char>) = choose|
                                    a: Seq<char>,
                                    b: Seq<char>,
                                |
                                    a != b && #[trigger] lingua_without(deny_langs@).contains(a)
                                        && #[trigger] lingua_without(deny_langs@).contains(b);
                                assert(backends::label_set_of(all@).contains(a));
                                assert(backends::label_set_of(all@).contains(b));
                                let i = choose|i: int|
                                    0 <= i < all@.len() && lingua_label(all@[i]) == a;
                                let j = choose|j: int|
                                    0 <= j < all@.len() && lingua_label(all@[j]) == b;
                                let ka = choose|k: int|
                                    0 <= k < kept@.len() && kept@[k] == all@[i];
                                let kb = choose|k: int|
                                    0 <= k < kept@.len() && kept@[k] == all@[j];
                                assert(lingua_label(kept@[ka]) == a);
                                assert(lingua_label(kept@[kb]) == b);
                                assert(ka != kb);
                            }
                        }
                        return Err(DetectError::InvalidRestriction);
                    }
                    proof {
                        assert forall|lab: Seq<char>|
                            backends::label_set_of(kept@).contains(lab) == lingua_without(
                            deny_langs@,
                        ).contains(lab) by {
                            if backends::label_set_of(kept@).contains(lab) {
                                let k = choose|k: int|
                                    0 <= k < kept@.len() && lingua_label(kept@[k]) == lab;
                                let i = choose|i: int|
                                    0 <= i < all@.len() && kept@[k] == all@[i];
                                assert(lingua_label(all@[i]) == lab);
                                assert(backends::label_set_of(all@).contains(lab));
                                assert(!lingua_labels_of(deny_langs@).contains(lab));
                            }
                            if lingua_without(deny_langs@).contains(lab) {
                                assert(backends::label_set_of(all@).contains(lab));
                                let i = choose|i: int|
                                    0 <= i < all@.len() && lingua_label(all@[i]) == lab;
                                let k = choose|k: int|
                                    0 <= k < kept@.len() && kept@[k] == all@[i];
                                assert(lingua_label(kept@[k]) == lab);
                                assert(backends::label_set_of(kept@).contains(lab));
                            }
                        }
                        assert(backends::label_set_of(kept@) =~= lingua_without(deny_langs@));
                        assert(lingua_without(deny_langs@).contains(lingua_label(kept@[0])));
                        assert(lingua_without(deny_langs@).contains(lingua_label(kept@[1])));
                        assert(lingua_label(kept@[0]) != lingua_label(kept@[1]));
                        assert(lingua_deny_leaves_two(deny_langs@));
                    }
                    langs = kept;
                } else {
                    langs = backends::lingua_all_languages();
                    proof {
                        assert forall|lab: Seq<char>|
                            backends::label_set_of(langs@).contains(lab) == lingua_universe_labels().contains(
                            lab,
                        ) by {}
                        assert(backends::label_set_of(langs@) =~= lingua_universe_labels());
                    }
                }
                let detector = if *low_accuracy {
                    backends::lingua_build_low_accuracy(&langs)
                } else {
                    backends::lingua_build(&langs)
                };
                if *in_parallel {
                    Ok(DetectorType::LinguaInParallel(LinguaInParallel { detector }))
                } else {
                    Ok(DetectorType::LinguaSequential(LinguaSequential { detector }))
                }
            },
            Algorithm::WhichLang { allow_langs, deny_langs } => {
                if allow_langs.len() > 0 && deny_langs.len() > 0 {
                    return Err(DetectError::InvalidRestriction);
                }
                if allow_langs.len() > 0 {
                    match builder::process_language_list(allow_langs) {
                        Ok(list) => {
                            let filter = LabelFilter {
                                allow_labels: whatlang_labels_vec(&list),
                                deny_labels: Vec::new(),
                            };
                            proof {
                                lemma_whatlang_filter_labels(
                                    filter.allow_labels@,
                                    list@,
                                    allow_langs@,
                                );
                                lemma_empty_label_sets(filter.deny_labels@, deny_langs@);
                            }
                            Ok(DetectorType::WhichLang(filter))
                        },
                        Err(e) => Err(e),
                    }
                } else if deny_langs.len() > 0 {
                    match builder::process_language_list(deny_langs) {
                        Ok(list) => {
                            let filter = LabelFilter {
                                allow_labels: Vec::new(),
                                deny_labels: whatlang_labels_vec(&list),
                            };
                            proof {
                                lemma_whatlang_filter_labels(
                                    filter.deny_labels@,
                                    list@,
                                    deny_langs@,
                                );
                                lemma_empty_label_sets(filter.allow_labels@, allow_langs@);
                            }
                            Ok(DetectorType::WhichLang(filter))
                        },
                        Err(e) => Err(e),
                    }
                } else {
                    let filter = LabelFilter { allow_labels: Vec::new(), deny_labels: Vec::new() };
                    proof {
                        lemma_empty_label_sets(filter.allow_labels@, allow_langs@);
                        lemma_empty_label_sets(filter.deny_labels@, deny_langs@);
                    }
                    Ok(DetectorType::WhichLang(filter))
                }
            },
        }
    }
}

/// The view of an optional output cell.
pub open spec fn opt_view(o: Option<String>) -> Option<Seq<char>> {
    match o {
        Some(s) => Some(s@),
        None => None,
    }
}

/// The text a batch submission carries for a cell: nulls are substituted
/// with the empty string.
pub open spec fn padded_text(t: Option<String>) -> Seq<char> {
    match t {
        Some(s) => s@,
        None => Seq::empty(),
    }
}

/// The cell a deterministic backend owes after the output-boundary
/// restriction: the backend's raw label when the restriction admits it,
/// null otherwise.
pub open spec fn filtered_value(raw: Option<Seq<char>>, f: LabelFilter, out: Option<String>) -> bool {
    match raw {
        Some(lab) => if filter_admits(f, lab) {
            opt_view(out) == Some(lab)
        } else {
            out is None
        },
        None => out is None,
    }
}

/// What a detected lingua cell may hold: lingua's per-text result is not a
/// named function of the inputs (its scoring walks a per-call hash map), so
/// only membership in the candidate set is owed.
pub open spec fn lingua_row_ok(d: lingua::LanguageDetector, out: Option<String>) -> bool {
    out matches Some(lab) ==> lingua_candidates(d).contains(lab@)
}

/// What a detector owes for one input cell. Row-by-row backends never invoke
/// the backend on a null cell; the batch-parallel backend classifies the
/// null-substituted empty string instead, so a null cell's output is the
/// backend's answer for the empty string. The whatlang and whichlang results
/// are pinned exactly, modulo the output-boundary restriction; a lingua
/// result is pinned to its candidate set.
pub open spec fn row_ok(d: DetectorType, t: Option<String>, out: Option<String>) -> bool {
    match d {
        DetectorType::WhatLang(w, f) => match t {
            Some(s) => filtered_value(whatlang_detect_label(whatlang_filter(w), s@), f, out),
            None => out is None,
        },
        DetectorType::LinguaSequential(ls) => match t {
            Some(_) => lingua_row_ok(ls.detector, out),
            None => out is None,
        },
        DetectorType::LinguaInParallel(lp) => lingua_row_ok(lp.detector, out),
        DetectorType::WhichLang(f) => match t {
            Some(s) => filtered_value(whatlang_code_lookup(whichlang_code_of(s@)), f, out),
            None => out is None,
        },
    }
}

/// Row-by-row classification with a whatlang detector: nulls pass through,
/// other cells get the detector's English-name label where the
/// output-boundary restriction admits it, and null otherwise.
fn what_lang_detect_language(
    d: &whatlang::Detector,
    f: &LabelFilter,
    texts: &Vec<Option<String>>,
) -> (r: Vec<Option<String>>)
    ensures
        r@.len() == texts@.len(),
        forall|i: int|
            0 <= i < r@.len() ==> row_ok(
                DetectorType::WhatLang(*d, *f),
                texts@[i],
                #[trigger] r@[i],
            ),
{
    let mut out: Vec<Option<String>> = Vec::new();
    let mut idx: usize = 0;
    while idx < texts.len()
        invariant
            idx <= texts@.len(),
            out@.len() == idx,
            forall|i: int|
                0 <= i < idx as int ==> row_ok(
                    DetectorType::WhatLang(*d, *f),
                    texts@[i],
                    #[trigger] out@[i],
                ),
        decreases texts@.len() - idx,
    {
        match &texts[idx] {
            Some(s) => {
                match backends::whatlang_detect_one(d, s.as_str()) {
                    Some(lab) => {
                        if admits(f, &lab) {
                            out.push(Some(lab));
                        } else {
                            out.push(None);
                        }
                    },
                    None => out.push(None),
                }
            },
            None => out.push(None),
        }
        idx += 1;
    }
    out
}

/// Row-by-row classification with the whichlang backend: nulls pass through;
/// every other cell gets the code whichlang assigns, rendered as the
/// canonical English label where the output-boundary restriction admits it,
/// and null otherwise.
pub fn which_lang_detect_language(f: &LabelFilter, texts: &Vec<Option<String>>) -> (r: Vec<
    Option<String>,
>)
    ensures
        r@.len() == texts@.len(),
        forall|i: int|
            0 <= i < r@.len() ==> row_ok(DetectorType::WhichLang(*f), texts@[i], #[trigger] r@[i]),
{
    let mut out: Vec<Option<String>> = Vec::new();
    let mut idx: usize = 0;
    while idx < texts.len()
        invariant
            idx <= texts@.len(),
            out@.len() == idx,
            forall|i: int|
                0 <= i < idx as int ==> row_ok(
                    DetectorType::WhichLang(*f),
                    texts@[i],
                    #[trigger] out@[i],
                ),
        decreases texts@.len() - idx,
    {
        match &texts[idx] {
            Some(s) => {
                let code = backends::whichlang_detect_code(s.as_str());
                match backends::whatlang_from_code(code.as_str()) {
                    Some(l) => {
                        let lab = backends::whatlang_label_of(&l);
                        if admits(f, &lab) {
                            out.push(Some(lab));
                        } else {
                            out.push(None);
                        }
                    },
                    None => out.push(None),
                }
            },
            None => out.push(None),
        }
        idx += 1;
    }
    out
}

impl LinguaSequential {
    /// Row-by-row classification: nulls pass through without a backend call,
    /// and every produced label is one of the detector's candidate languages.
    pub fn detect_language(&self, texts: &Vec<Option<String>>) -> (r: Vec<Option<String>>)
        ensures
            r@.len() == texts@.len(),
            forall|i: int|
                0 <= i < r@.len() ==> (texts@[i] is None ==> (#[trigger] r@[i]) is None),
            forall|i: int|
                0 <= i < r@.len() ==> (#[trigger] r@[i] matches Some(lab) ==> lingua_candidates(
                    self.detector,
                ).contains(lab@)),
    {
        let mut out: Vec<Option<String>> = Vec::new();
        let mut idx: usize = 0;
        while idx < texts.len()
            invariant
                idx <= texts@.len(),
                out@.len() == idx,
                forall|i: int|
                    0 <= i < idx as int ==> (texts@[i] is None ==> (#[trigger] out@[i]) is None),
                forall|i: int|
                    0 <= i < idx as int ==> (#[trigger] out@[i] matches Some(lab)
                        ==> lingua_candidates(self.detector).contains(lab@)),
            decreases texts@.len() - idx,
        {
            match &texts[idx] {
                Some(s) => out.push(backends::lingua_detect_one(&self.detector, s.as_str())),
                None => out.push(None),
            }
            idx += 1;
        }
        out
    }
}

impl LinguaInParallel {
    /// Batch-parallel classification: the whole column, with nulls
    /// substituted by empty strings, goes to the backend as one batch; the
    /// backend's order-preserving result is returned unchanged, every
    /// produced label one of the detector's candidate languages.
    pub fn detect_language(&self, texts: &Vec<Option<String>>) -> (r: Vec<Option<String>>)
        ensures
            r@.len() == texts@.len(),
            forall|i: int|
                0 <= i < r@.len() ==> (#[trigger] r@[i] matches Some(lab) ==> lingua_candidates(
                    self.detector,
                ).contains(lab@)),
    {
        let mut padded: Vec<String> = Vec::new();
        let mut idx: usize = 0;
        while idx < texts.len()
            invariant
                idx <= texts@.len(),
                padded@.len() == idx,
                forall|i: int|
                    0 <= i < idx as int ==> (#[trigger] padded@[i])@ == padded_text(texts@[i]),
            decreases texts@.len() - idx,
        {
            match &texts[idx] {
                Some(s) => padded.push(s.clone()),
                None => padded.push(String::new()),
            }
            idx += 1;
        }
        backends::lingua_detect_batch(&self.detector, &padded)
    }
}

impl DetectorType {
    /// Backends offering the confidence capability.
    pub open spec fn spec_supports_confidence(self) -> bool {
        self is WhatLang || self is LinguaSequential
    }

    /// The configured name of the backend this detector came from.
    pub open spec fn spec_backend_name(self) -> Seq<char> {
        match self {
            DetectorType::WhatLang(_, _) => "what_lang"@,
            DetectorType::LinguaSequential(_) => "lingua"@,
            DetectorType::LinguaInParallel(_) => "lingua"@,
            DetectorType::WhichLang(_) => "which_lang"@,
        }
    }

    /// The configured name of the backend this detector came from.
    pub fn backend_name(&self) -> (r: String)
        ensures
            r@ == self.spec_backend_name(),
    {
        match self {
            DetectorType::WhatLang(_, _) => "what_lang".to_owned(),
            DetectorType::LinguaSequential(_) => "lingua".to_owned(),
            DetectorType::LinguaInParallel(_) => "lingua".to_owned(),
            DetectorType::WhichLang(_) => "which_lang".to_owned(),
        }
    }

    /// Whether this detector offers confidence scoring.
    pub fn supports_confidence(&self) -> (r: bool)
        ensures
            r == self.spec_supports_confidence(),
    {
        match self {
            DetectorType::WhatLang(_, _) => true,
            DetectorType::LinguaSequential(_) => true,
            DetectorType::LinguaInParallel(_) => false,
            DetectorType::WhichLang(_) => false,
        }
    }

    /// The capability gate for confidence scoring: a capability mismatch is
    /// an UnsupportedCapability error naming the backend, raised before any
    /// row is processed.
    pub fn check_confidence_capability(&self) -> (r: Result<(), DetectError>)
        ensures
            r is Ok <==> self.spec_supports_confidence(),
            r matches Err(e) ==> (e matches DetectError::UnsupportedCapability(n) && n@
                == self.spec_backend_name()),
    {
        if self.supports_confidence() {
            Ok(())
        } else {
            Err(DetectError::UnsupportedCapability(self.backend_name()))
        }
    }

    /// The whatlang detector inside, for the confidence pass.
    pub fn whatlang_detector(&self) -> (r: Option<&whatlang::Detector>)
        ensures
            r is Some <==> self is WhatLang,
            r matches Some(d) ==> (*self matches DetectorType::WhatLang(w, _) && *d == w),
    {
        match self {
            DetectorType::WhatLang(d, _) => Some(d),
            _ => None,
        }
    }

    /// The row-by-row lingua detector inside, for the confidence pass.
    pub fn lingua_sequential_detector(&self) -> (r: Option<&lingua::LanguageDetector>)
        ensures
            r is Some <==> self is LinguaSequential,
            r matches Some(d) ==> (*self matches DetectorType::LinguaSequential(ls) && *d
                == ls.detector),
    {
        match self {
            DetectorType::LinguaSequential(ls) => Some(&ls.detector),
            _ => None,
        }
    }

    /// Applies this detector to a whole column, preserving its length. Each
    /// cell satisfies the per-strategy row contract: whatlang and whichlang
    /// cells are pinned exactly modulo the output-boundary restriction, and a
    /// lingua detector only ever produces labels from its candidate set.
    pub fn detect_language(&self, texts: &Vec<Option<String>>) -> (r: Vec<Option<String>>)
        ensures
            r@.len() == texts@.len(),
            forall|i: int| 0 <= i < r@.len() ==> row_ok(*self, texts@[i], #[trigger] r@[i]),
            forall|i: int|
                0 <= i < r@.len() ==> (candidate_labels(*self) matches Some(c) ==> ((
                #[trigger] r@[i]) matches Some(lab) ==> c.contains(lab@))),
    {
        match self {
            DetectorType::WhatLang(d, f) => what_lang_detect_language(d, f, texts),
            DetectorType::LinguaInParallel(lp) => lp.detect_language(texts),
            DetectorType::LinguaSequential(ls) => ls.detect_language(texts),
            DetectorType::WhichLang(f) => which_lang_detect_language(f, texts),
        }
    }
}

/// The restriction list the factory will act on for this configuration.
pub open spec fn kwargs_used_names(kwargs: AddAlgoKwargs) -> Seq<String> {
    if kwargs.allow_langs@.len() > 0 {
        kwargs.allow_langs@
    } else {
        kwargs.deny_langs@
    }
}

/// Allow- and deny-list are not both supplied.
pub open spec fn kwargs_no_conflict(kwargs: AddAlgoKwargs) -> bool {
    !(kwargs.allow_langs@.len() > 0 && kwargs.deny_langs@.len() > 0)
}

/// Whether one name is recognized by the backend the configuration selects.
/// The whichlang backend reports whatlang labels, so its lists resolve
/// through the same two-hop chain as whatlang's.
pub open spec fn kwargs_resolves(kwargs: AddAlgoKwargs, name: Seq<char>) -> bool {
    &&& (kwargs.algorithm@ == "what_lang"@ ==> builder::whatlang_resolve(name) is Some)
    &&& (kwargs.algorithm@ == "lingua"@ ==> lingua_lang_of(name) is Some)
    &&& (kwargs.algorithm@ == "which_lang"@ ==> builder::whatlang_resolve(name) is Some)
}

/// Every name of the restriction list the factory acts on is recognized by
/// the backend the configuration selects.
pub open spec fn kwargs_names_resolve(kwargs: AddAlgoKwargs) -> bool {
    &&& (kwargs.algorithm@ == "what_lang"@ ==> builder::all_resolve_whatlang(
        kwargs_used_names(kwargs),
    ))
    &&& (kwargs.algorithm@ == "lingua"@ ==> builder::all_resolve_lingua(kwargs_used_names(kwargs)))
    &&& (kwargs.algorithm@ == "which_lang"@ ==> builder::all_resolve_whatlang(
        kwargs_used_names(kwargs),
    ))
}

/// The labels a restriction list denotes under the selected backend's
/// normalization scheme.
pub open spec fn resolved_labels_of(kwargs: AddAlgoKwargs, names: Seq<String>) -> Set<Seq<char>> {
    if kwargs.algorithm@ == "lingua"@ {
        lingua_labels_of(names)
    } else {
        whatlang_labels_of(names)
    }
}

/// How the detector built for a configuration is constrained: its variant
/// follows the backend name and the strategy flag, and a lingua detector's
/// candidate set and accuracy mode follow the configuration exactly. The
/// whatlang variant carries no candidate bound: whatlang's single-script
/// shortcut answers without consulting its allow/deny filter.
pub open spec fn detector_for_kwargs(d: DetectorType, kwargs: AddAlgoKwargs) -> bool {
    &&& (kwargs.algorithm@ == "what_lang"@ ==> d is WhatLang)
    &&& (kwargs.algorithm@ == "lingua"@ ==> (if kwargs.in_parallel {
        d is LinguaInParallel
    } else {
        d is LinguaSequential
    }))
    &&& (kwargs.algorithm@ == "which_lang"@ ==> d is WhichLang)
    &&& (kwargs.algorithm@ == "lingua"@ ==> reduced_accuracy_mode(d) == Some(kwargs.low_accuracy))
    &&& ((kwargs.algorithm@ == "lingua"@ && kwargs.allow_langs@.len() > 0) ==> candidate_labels(d)
        == Some(lingua_labels_of(kwargs.allow_langs@)))
    &&& ((kwargs.algorithm@ == "lingua"@ && kwargs.allow_langs@.len() == 0
        && kwargs.deny_langs@.len() > 0) ==> candidate_labels(d) == Some(
        lingua_without(kwargs.deny_langs@),
    ))
    &&& ((kwargs.algorithm@ == "lingua"@ && kwargs.allow_langs@.len() == 0
        && kwargs.deny_langs@.len() == 0) ==> candidate_labels(d) == Some(
        lingua_universe_labels(),
    ))
    &&& ((kwargs.algorithm@ == "what_lang"@ && kwargs.allow_langs@.len() > 0) ==> (
    d matches DetectorType::WhatLang(w, _) && whatlang_filter(w) == Some(
        (true, whatlang_labels_of(kwargs.allow_langs@)),
    )))
    &&& ((kwargs.algorithm@ == "what_lang"@ && kwargs.allow_langs@.len() == 0
        && kwargs.deny_langs@.len() > 0) ==> (d matches DetectorType::WhatLang(w, _)
        && whatlang_filter(w) == Some((false, whatlang_labels_of(kwargs.deny_langs@)))))
    &&& ((kwargs.algorithm@ == "what_lang"@ && kwargs.allow_langs@.len() == 0
        && kwargs.deny_langs@.len() == 0) ==> (d matches DetectorType::WhatLang(w, _)
        && whatlang_filter(w) is None))
    &&& ((kwargs.algorithm@ == "what_lang"@ || kwargs.algorithm@ == "which_lang"@) ==> (
    output_filter(d) matches Some(f) && f.allow_labels@.len() == kwargs.allow_langs@.len()
        && f.deny_labels@.len() == kwargs.deny_langs@.len() && name_set(f.allow_labels@)
        == whatlang_labels_of(kwargs.allow_langs@) && name_set(f.deny_labels@)
        == whatlang_labels_of(kwargs.deny_langs@)))
}

/// The whole label-detection engine as one pure pass: validate the
/// configuration, build one detector, run it over the column.
///
/// The contract carries the engine's laws: an unrecognized backend name, and
/// only that, is an InvalidBackend error; a conflicting allow/deny pair is
/// an InvalidRestriction error; well-formed requests are owed success; on
/// success the output column has the input's length; under every row-by-row
/// strategy a null cell yields a null cell; and a restricted lingua backend
/// only produces labels that the allow-list resolves to, and none that the
/// deny-list resolves to.
pub fn detect_language(texts: &Vec<Option<String>>, kwargs: &AddAlgoKwargs) -> (r: Result<
    Vec<Option<String>>,
    DetectError,
>)
    ensures
        !recognized_backend(kwargs.algorithm@) ==> (r matches Err(e)
            && e matches DetectError::InvalidBackend(n) && n@ == kwargs.algorithm@),
        r matches Err(e) ==> (e is InvalidBackend ==> !recognized_backend(kwargs.algorithm@)),
        r matches Err(e) ==> !(e is UnsupportedCapability),
        (kwargs.algorithm@ == "which_lang"@ && kwargs_no_conflict(*kwargs)
            && builder::all_resolve_whatlang(kwargs_used_names(*kwargs))) ==> r is Ok,
        (kwargs.algorithm@ == "what_lang"@ && kwargs_no_conflict(*kwargs)
            && builder::all_resolve_whatlang(kwargs_used_names(*kwargs))) ==> r is Ok,
        (kwargs.algorithm@ == "lingua"@ && kwargs.deny_langs@.len() == 0
            && builder::all_resolve_lingua(kwargs.allow_langs@) && (kwargs.allow_langs@.len() > 0
            ==> lingua_two_distinct(kwargs.allow_langs@))) ==> r is Ok,
        (recognized_backend(kwargs.algorithm@) && !kwargs_no_conflict(*kwargs)) ==> (r matches Err(
            e,
        ) && e is InvalidRestriction),
        (recognized_backend(kwargs.algorithm@) && kwargs_no_conflict(*kwargs)
            && !kwargs_names_resolve(*kwargs)) ==> (r matches Err(e)
            && e matches DetectError::LanguageNotFound(n) && !kwargs_resolves(*kwargs, n@)
            && exists|i: int|
            0 <= i < kwargs_used_names(*kwargs).len() && (#[trigger] kwargs_used_names(
                *kwargs,
            )[i])@ == n@ && (forall|j: int|
                0 <= j < i ==> kwargs_resolves(*kwargs, kwargs_used_names(*kwargs)[j]@))),
        r matches Err(e) ==> (e is LanguageNotFound ==> !kwargs_names_resolve(*kwargs)),
        (kwargs.algorithm@ == "lingua"@ && kwargs.allow_langs@.len() == 0
            && kwargs.deny_langs@.len() > 0 && builder::all_resolve_lingua(kwargs.deny_langs@)
            && lingua_deny_leaves_two(kwargs.deny_langs@)) ==> r is Ok,
        (kwargs.algorithm@ == "lingua"@ && kwargs.allow_langs@.len() == 0
            && kwargs.deny_langs@.len() > 0 && builder::all_resolve_lingua(kwargs.deny_langs@)
            && !lingua_deny_leaves_two(kwargs.deny_langs@)) ==> (r matches Err(e)
            && e is InvalidRestriction),
        r matches Ok(out) ==> out@.len() == texts@.len(),
        r matches Ok(out) ==> (exists|d: DetectorType|
            #[trigger] detector_for_kwargs(d, *kwargs) && forall|i: int|
                0 <= i < out@.len() ==> row_ok(d, texts@[i], #[trigger] out@[i])),
        r matches Ok(out) ==> (!(kwargs.algorithm@ == "lingua"@ && kwargs.in_parallel)
            ==> forall|i: int|
            0 <= i < texts@.len() && texts@[i] is None ==> (#[trigger] out@[i]) is None),
        r matches Ok(out) ==> ((recognized_backend(kwargs.algorithm@) && kwargs.allow_langs@.len()
            > 0) ==> forall|i: int|
            0 <= i < out@.len() ==> ((#[trigger] out@[i]) matches Some(lab) ==> resolved_labels_of(
                *kwargs,
                kwargs.allow_langs@,
            ).contains(lab@))),
        r matches Ok(out) ==> ((recognized_backend(kwargs.algorithm@) && kwargs.deny_langs@.len()
            > 0) ==> forall|i: int|
            0 <= i < out@.len() ==> ((#[trigger] out@[i]) matches Some(lab)
                ==> !resolved_labels_of(*kwargs, kwargs.deny_langs@).contains(lab@))),
{
    proof {
        lemma_backend_names_distinct();
    }
    let algorithm = match Algorithm::from_kwargs(kwargs) {
        Ok(a) => a,
        Err(e) => {
            return Err(e);
        },
    };
    let detector = match algorithm.build() {
        Ok(d) => d,
        Err(e) => {
            return Err(e);
        },
    };
    proof {
        assert(detector_for_kwargs(detector, *kwargs));
    }
    let out = detector.detect_language(texts);
    proof {
        if recognized_backend(kwargs.algorithm@) && kwargs.allow_langs@.len() > 0 {
            assert forall|i: int|
                0 <= i < out@.len() implies ((#[trigger] out@[i]) matches Some(lab)
                ==> resolved_labels_of(*kwargs, kwargs.allow_langs@).contains(lab@)) by {
                assert(row_ok(detector, texts@[i], out@[i]));
            }
        }
        if recognized_backend(kwargs.algorithm@) && kwargs.deny_langs@.len() > 0 {
            assert forall|i: int|
                0 <= i < out@.len() implies ((#[trigger] out@[i]) matches Some(lab)
                ==> !resolved_labels_of(*kwargs, kwargs.deny_langs@).contains(lab@)) by {
                assert(row_ok(detector, texts@[i], out@[i]));
            }
        }
    }
    Ok(out)
}

/// Resolves and builds the backend for a confidence request. A backend
/// without the confidence capability is rejected with UnsupportedCapability
/// here, before any row could be processed; configuration and construction
/// errors are surfaced exactly as for label detection.
pub fn build_confidence_detector(kwargs: &AddAlgoKwargs) -> (r: Result<DetectorType, DetectError>)
    ensures
        !recognized_backend(kwargs.algorithm@) ==> (r matches Err(e)
            && e matches DetectError::InvalidBackend(n) && n@ == kwargs.algorithm@),
        r matches Ok(d) ==> d.spec_supports_confidence(),
        (kwargs.algorithm@ == "which_lang"@ && kwargs_no_conflict(*kwargs)
            && kwargs_names_resolve(*kwargs)) ==> (r matches Err(e)
            && e matches DetectError::UnsupportedCapability(n) && n@ == "which_lang"@),
        (kwargs.algorithm@ == "lingua"@ && kwargs.in_parallel) ==> (r matches Err(e) && (
        e is UnsupportedCapability || e is LanguageNotFound || e is InvalidRestriction)),
        (kwargs.algorithm@ == "lingua"@ && kwargs.in_parallel && kwargs_no_conflict(*kwargs)
            && kwargs_names_resolve(*kwargs) && (kwargs.allow_langs@.len() > 0
            ==> lingua_two_distinct(kwargs.allow_langs@)) && ((kwargs.allow_langs@.len() == 0
            && kwargs.deny_langs@.len() > 0) ==> lingua_deny_leaves_two(kwargs.deny_langs@))) ==> (
        r matches Err(e) && e matches DetectError::UnsupportedCapability(n) && n@ == "lingua"@),
        (recognized_backend(kwargs.algorithm@) && !kwargs_no_conflict(*kwargs)) ==> (r matches Err(
            e,
        ) && e is InvalidRestriction),
        (recognized_backend(kwargs.algorithm@) && kwargs_no_conflict(*kwargs)
            && !kwargs_names_resolve(*kwargs)) ==> (r matches Err(e)
            && e matches DetectError::LanguageNotFound(n) && !kwargs_resolves(*kwargs, n@)
            && exists|i: int|
            0 <= i < kwargs_used_names(*kwargs).len() && (#[trigger] kwargs_used_names(
                *kwargs,
            )[i])@ == n@ && (forall|j: int|
                0 <= j < i ==> kwargs_resolves(*kwargs, kwargs_used_names(*kwargs)[j]@))),
        r matches Err(e) ==> (e is LanguageNotFound ==> !kwargs_names_resolve(*kwargs)),
        r matches Ok(d) ==> detector_for_kwargs(d, *kwargs),
        (kwargs.algorithm@ == "lingua"@ && !kwargs.in_parallel && kwargs.allow_langs@.len() == 0
            && kwargs.deny_langs@.len() > 0 && builder::all_resolve_lingua(kwargs.deny_langs@)
            && lingua_deny_leaves_two(kwargs.deny_langs@)) ==> r is Ok,
        (kwargs.algorithm@ == "what_lang"@ && kwargs_no_conflict(*kwargs)
            && builder::all_resolve_whatlang(kwargs_used_names(*kwargs))) ==> r is Ok,
        (kwargs.algorithm@ == "lingua"@ && !kwargs.in_parallel && kwargs.deny_langs@.len() == 0
            && builder::all_resolve_lingua(kwargs.allow_langs@) && (kwargs.allow_langs@.len() > 0
            ==> lingua_two_distinct(kwargs.allow_langs@))) ==> r is Ok,
        r matches Ok(d) ==> (kwargs.algorithm@ == "what_lang"@ ==> d is WhatLang),
        r matches Ok(d) ==> (kwargs.algorithm@ == "lingua"@ ==> d is LinguaSequential),
{
    proof {
        lemma_backend_names_distinct();
    }
    let algorithm = match Algorithm::from_kwargs(kwargs) {
        Ok(a) => a,
        Err(e) => {
            return Err(e);
        },
    };
    let detector = match algorithm.build() {
        Ok(d) => d,
        Err(e) => {
            return Err(e);
        },
    };
    proof {
        assert(detector_for_kwargs(detector, *kwargs));
    }
    match detector.check_confidence_capability() {
        Ok(_) => Ok(detector),
        Err(e) => Err(e),
    }
}

/// The three recognized backend names are pairwise distinct.
proof fn lemma_backend_names_distinct()
    ensures
        "what_lang"@ != "lingua"@,
        "what_lang"@ != "which_lang"@,
        "lingua"@ != "which_lang"@,
{
    reveal_strlit("what_lang");
    reveal_strlit("lingua");
    reveal_strlit("which_lang");
    assert("what_lang"@.len() == 9);
    assert("lingua"@.len() == 6);
    assert("which_lang"@.len() == 10);
}

/// Engine determinism for the whatlang and whichlang backends: their
/// detection results are named functions of the configuration and the text,
/// so any two detectors built from one configuration owe a cell the same
/// value. No such law is claimed for the lingua backend: lingua's scoring
/// feeds a per-call hash map's walk order into its float comparisons, so its
/// result is not a stated function of the inputs.
pub proof fn lemma_engine_deterministic(
    d1: DetectorType,
    d2: DetectorType,
    kwargs: AddAlgoKwargs,
    t: Option<String>,
    out1: Option<String>,
    out2: Option<String>,
)
    requires
        kwargs.algorithm@ == "what_lang"@ || kwargs.algorithm@ == "which_lang"@,
        detector_for_kwargs(d1, kwargs),
        detector_for_kwargs(d2, kwargs),
        row_ok(d1, t, out1),
        row_ok(d2, t, out2),
    ensures
        opt_view(out1) == opt_view(out2),
{
    lemma_backend_names_distinct();
}

} // verus!
