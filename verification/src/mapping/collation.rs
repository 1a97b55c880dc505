//! Collations: the resource's settings and the driver's, each as the other.

use crate::collation::{
    Collation, CollationAlternate, CollationCaseFirst, CollationMaxVariable, CollationStrength,
    CollationView,
};
use crate::driver;
use vstd::prelude::*;

verus! {

pub open spec fn alternate_model(a: CollationAlternate) -> driver::CollationAlternate {
    match a {
        CollationAlternate::NonIgnorable => driver::CollationAlternate::NonIgnorable,
        CollationAlternate::Shifted => driver::CollationAlternate::Shifted,
    }
}

pub open spec fn case_first_model(c: CollationCaseFirst) -> driver::CollationCaseFirst {
    match c {
        CollationCaseFirst::Lower => driver::CollationCaseFirst::Lower,
        CollationCaseFirst::Off => driver::CollationCaseFirst::Off,
        CollationCaseFirst::Upper => driver::CollationCaseFirst::Upper,
    }
}

pub open spec fn max_variable_model(c: CollationMaxVariable) -> driver::CollationMaxVariable {
    match c {
        CollationMaxVariable::Punct => driver::CollationMaxVariable::Punct,
        CollationMaxVariable::Space => driver::CollationMaxVariable::Space,
    }
}

pub open spec fn strength_model(c: CollationStrength) -> driver::CollationStrength {
    match c {
        CollationStrength::Identical => driver::CollationStrength::Identical,
        CollationStrength::Primary => driver::CollationStrength::Primary,
        CollationStrength::Quaternary => driver::CollationStrength::Quaternary,
        CollationStrength::Secondary => driver::CollationStrength::Secondary,
        CollationStrength::Tertiary => driver::CollationStrength::Tertiary,
    }
}

/// The driver's alternate as the resource's; an absent one is the default.
pub open spec fn alternate_of(a: Option<driver::CollationAlternate>) -> CollationAlternate {
    match a {
        Some(driver::CollationAlternate::Shifted) => CollationAlternate::Shifted,
        Some(driver::CollationAlternate::NonIgnorable) => CollationAlternate::NonIgnorable,
        None => CollationAlternate::NonIgnorable,
    }
}

/// The driver's case ordering as the resource's; an absent one is the
/// default.
pub open spec fn case_first_of(c: Option<driver::CollationCaseFirst>) -> CollationCaseFirst {
    match c {
        Some(driver::CollationCaseFirst::Lower) => CollationCaseFirst::Lower,
        Some(driver::CollationCaseFirst::Off) => CollationCaseFirst::Off,
        Some(driver::CollationCaseFirst::Upper) => CollationCaseFirst::Upper,
        None => CollationCaseFirst::Off,
    }
}

/// The driver's choice of ignorable characters as the resource's; an absent
/// one is the default.
pub open spec fn max_variable_of(m: Option<driver::CollationMaxVariable>) -> CollationMaxVariable {
    match m {
        Some(driver::CollationMaxVariable::Punct) => CollationMaxVariable::Punct,
        Some(driver::CollationMaxVariable::Space) => CollationMaxVariable::Space,
        None => CollationMaxVariable::Punct,
    }
}

/// The driver's strength as the resource's; an absent one is the default.
pub open spec fn strength_of(s: Option<driver::CollationStrength>) -> CollationStrength {
    match s {
        Some(driver::CollationStrength::Identical) => CollationStrength::Identical,
        Some(driver::CollationStrength::Primary) => CollationStrength::Primary,
        Some(driver::CollationStrength::Quaternary) => CollationStrength::Quaternary,
        Some(driver::CollationStrength::Secondary) => CollationStrength::Secondary,
        Some(driver::CollationStrength::Tertiary) => CollationStrength::Tertiary,
        None => CollationStrength::Tertiary,
    }
}

/// An absent flag is off.
pub open spec fn flag_of(b: Option<bool>) -> bool {
    match b {
        Some(v) => v,
        None => false,
    }
}

/// The driver's collation for a collation of the resource: every setting
/// is handed over.
pub open spec fn collation_model(c: CollationView) -> driver::CollationView {
    driver::CollationView {
        locale: c.locale,
        strength: Some(strength_model(c.strength)),
        case_level: Some(c.case_level),
        case_first: Some(case_first_model(c.case_first)),
        numeric_ordering: Some(c.numeric_ordering),
        alternate: Some(alternate_model(c.alternate)),
        max_variable: Some(max_variable_model(c.max_variable)),
        normalization: Some(c.normalization),
        backwards: Some(c.backwards),
    }
}

/// The resource's collation for a collation of the driver: each setting
/// that the driver leaves out is at its default.
pub open spec fn collation_of(c: driver::CollationView) -> CollationView {
    CollationView {
        alternate: alternate_of(c.alternate),
        backwards: flag_of(c.backwards),
        case_first: case_first_of(c.case_first),
        case_level: flag_of(c.case_level),
        locale: c.locale,
        max_variable: max_variable_of(c.max_variable),
        normalization: flag_of(c.normalization),
        numeric_ordering: flag_of(c.numeric_ordering),
        strength: strength_of(c.strength),
    }
}

pub fn collation_alternate_to_model(a: CollationAlternate) -> (r: driver::CollationAlternate)
    ensures
        r == alternate_model(a),
{
    match a {
        CollationAlternate::NonIgnorable => driver::CollationAlternate::NonIgnorable,
        CollationAlternate::Shifted => driver::CollationAlternate::Shifted,
    }
}

pub fn collation_case_first_to_model(c: CollationCaseFirst) -> (r: driver::CollationCaseFirst)
    ensures
        r == case_first_model(c),
{
    match c {
        CollationCaseFirst::Lower => driver::CollationCaseFirst::Lower,
        CollationCaseFirst::Off => driver::CollationCaseFirst::Off,
        CollationCaseFirst::Upper => driver::CollationCaseFirst::Upper,
    }
}

pub fn collation_max_variable_to_model(c: CollationMaxVariable) -> (r:
    driver::CollationMaxVariable)
    ensures
        r == max_variable_model(c),
{
    match c {
        CollationMaxVariable::Punct => driver::CollationMaxVariable::Punct,
        CollationMaxVariable::Space => driver::CollationMaxVariable::Space,
    }
}

pub fn collation_strength_to_model(c: CollationStrength) -> (r: driver::CollationStrength)
    ensures
        r == strength_model(c),
{
    match c {
        CollationStrength::Identical => driver::CollationStrength::Identical,
        CollationStrength::Primary => driver::CollationStrength::Primary,
        CollationStrength::Quaternary => driver::CollationStrength::Quaternary,
        CollationStrength::Secondary => driver::CollationStrength::Secondary,
        CollationStrength::Tertiary => driver::CollationStrength::Tertiary,
    }
}

/// The driver's collation for a collation of the resource.
pub fn collation_to_model(c: &Collation) -> (r: driver::Collation)
    ensures
        r@ == collation_model(c@),
{
    driver::Collation {
        locale: c.locale.clone(),
        strength: Some(collation_strength_to_model(c.strength)),
        case_level: Some(c.case_level),
        case_first: Some(collation_case_first_to_model(c.case_first)),
        numeric_ordering: Some(c.numeric_ordering),
        alternate: Some(collation_alternate_to_model(c.alternate)),
        max_variable: Some(collation_max_variable_to_model(c.max_variable)),
        normalization: Some(c.normalization),
        backwards: Some(c.backwards),
    }
}

pub fn model_to_collation_alternate(a: Option<driver::CollationAlternate>) -> (r:
    CollationAlternate)
    ensures
        r == alternate_of(a),
{
    match a {
        Some(driver::CollationAlternate::Shifted) => CollationAlternate::Shifted,
        Some(driver::CollationAlternate::NonIgnorable) => CollationAlternate::NonIgnorable,
        None => Collation::default_alternate(),
    }
}

pub fn model_to_collation_case_first(c: Option<driver::CollationCaseFirst>) -> (r:
    CollationCaseFirst)
    ensures
        r == case_first_of(c),
{
    match c {
        Some(driver::CollationCaseFirst::Lower) => CollationCaseFirst::Lower,
        Some(driver::CollationCaseFirst::Off) => CollationCaseFirst::Off,
        Some(driver::CollationCaseFirst::Upper) => CollationCaseFirst::Upper,
        None => Collation::default_case_first(),
    }
}

pub fn model_to_collation_max_variable(m: Option<driver::CollationMaxVariable>) -> (r:
    CollationMaxVariable)
    ensures
        r == max_variable_of(m),
{
    match m {
        Some(driver::CollationMaxVariable::Punct) => CollationMaxVariable::Punct,
        Some(driver::CollationMaxVariable::Space) => CollationMaxVariable::Space,
        None => Collation::default_max_variable(),
    }
}

pub fn model_to_collation_strength(s: Option<driver::CollationStrength>) -> (r: CollationStrength)
    ensures
        r == strength_of(s),
{
    match s {
        Some(driver::CollationStrength::Identical) => CollationStrength::Identical,
        Some(driver::CollationStrength::Primary) => CollationStrength::Primary,
        Some(driver::CollationStrength::Quaternary) => CollationStrength::Quaternary,
        Some(driver::CollationStrength::Secondary) => CollationStrength::Secondary,
        Some(driver::CollationStrength::Tertiary) => CollationStrength::Tertiary,
        None => Collation::default_strength(),
    }
}

/// The resource's collation for a collation of the driver.
pub fn model_to_collation(collation: &driver::Collation) -> (r: Collation)
    ensures
        r@ == collation_of(collation@),
{
    Collation {
        alternate: model_to_collation_alternate(collation.alternate),
        backwards: match collation.backwards {
            Some(b) => b,
            None => Collation::default_backwards(),
        },
        case_first: model_to_collation_case_first(collation.case_first),
        case_level: match collation.case_level {
            Some(b) => b,
            None => Collation::default_case_level(),
        },
        locale: collation.locale.clone(),
        max_variable: model_to_collation_max_variable(collation.max_variable),
        normalization: match collation.normalization {
            Some(b) => b,
            None => Collation::default_normalization(),
        },
        numeric_ordering: match collation.numeric_ordering {
            Some(b) => b,
            None => Collation::default_numeric_ordering(),
        },
        strength: model_to_collation_strength(collation.strength),
    }
}

/// Handing a collation to the driver and reading it back changes nothing.
pub proof fn lemma_collation_round_trip(c: CollationView)
    ensures
        collation_of(collation_model(c)) == c,
{
}

} // verus!
