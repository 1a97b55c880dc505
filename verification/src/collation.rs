//! Collation settings of a collection or an index.

use vstd::prelude::*;

verus! {

/// Whether whitespace and punctuation count as base characters.
#[derive(Clone, Copy, Debug, PartialEq, Eq, Structural)]
pub enum CollationAlternate {
    NonIgnorable,
    Shifted,
}

/// Sort order of case differences at the tertiary level.
#[derive(Clone, Copy, Debug, PartialEq, Eq, Structural)]
pub enum CollationCaseFirst {
    Upper,
    Lower,
    Off,
}

/// Which characters are ignorable when the alternate is shifted.
#[derive(Clone, Copy, Debug, PartialEq, Eq, Structural)]
pub enum CollationMaxVariable {
    Punct,
    Space,
}

/// Comparison level; written as the numbers 1 to 5.
#[derive(Clone, Copy, Debug, PartialEq, Eq, Structural)]
pub enum CollationStrength {
    Primary,
    Secondary,
    Tertiary,
    Quaternary,
    Identical,
}

impl CollationStrength {
    /// The number a strength is written as.
    pub open spec fn level(self) -> int {
        match self {
            CollationStrength::Primary => 1,
            CollationStrength::Secondary => 2,
            CollationStrength::Tertiary => 3,
            CollationStrength::Quaternary => 4,
            CollationStrength::Identical => 5,
        }
    }

    /// The number a strength is written as.
    pub fn to_level(self) -> (n: i32)
        ensures
            n == self.level(),
    {
        match self {
            CollationStrength::Primary => 1,
            CollationStrength::Secondary => 2,
            CollationStrength::Tertiary => 3,
            CollationStrength::Quaternary => 4,
            CollationStrength::Identical => 5,
        }
    }

    /// The strength written as `n`, if there is one.
    pub fn from_level(n: i32) -> (s: Option<CollationStrength>)
        ensures
            s is Some <==> 1 <= n <= 5,
            s matches Some(v) ==> v.level() == n,
    {
        if n == 1 {
            Some(CollationStrength::Primary)
        } else if n == 2 {
            Some(CollationStrength::Secondary)
        } else if n == 3 {
            Some(CollationStrength::Tertiary)
        } else if n == 4 {
            Some(CollationStrength::Quaternary)
        } else if n == 5 {
            Some(CollationStrength::Identical)
        } else {
            None
        }
    }
}

/// Locale-aware string ordering parameters.
#[derive(Clone, Debug)]
pub struct Collation {
    pub alternate: CollationAlternate,
    pub backwards: bool,
    pub case_first: CollationCaseFirst,
    pub case_level: bool,
    pub locale: String,
    pub max_variable: CollationMaxVariable,
    pub normalization: bool,
    pub numeric_ordering: bool,
    pub strength: CollationStrength,
}

/// What two collations are compared by.
pub struct CollationView {
    pub alternate: CollationAlternate,
    pub backwards: bool,
    pub case_first: CollationCaseFirst,
    pub case_level: bool,
    pub locale: Seq<char>,
    pub max_variable: CollationMaxVariable,
    pub normalization: bool,
    pub numeric_ordering: bool,
    pub strength: CollationStrength,
}

impl View for Collation {
    type V = CollationView;

    open spec fn view(&self) -> CollationView {
        CollationView {
            alternate: self.alternate,
            backwards: self.backwards,
            case_first: self.case_first,
            case_level: self.case_level,
            locale: self.locale@,
            max_variable: self.max_variable,
            normalization: self.normalization,
            numeric_ordering: self.numeric_ordering,
            strength: self.strength,
        }
    }
}

impl Collation {
    pub fn default_alternate() -> (r: CollationAlternate)
        ensures
            r == CollationAlternate::NonIgnorable,
    {
        CollationAlternate::NonIgnorable
    }

    pub fn default_backwards() -> (r: bool)
        ensures
            !r,
    {
        false
    }

    pub fn default_case_first() -> (r: CollationCaseFirst)
        ensures
            r == CollationCaseFirst::Off,
    {
        CollationCaseFirst::Off
    }

    pub fn default_case_level() -> (r: bool)
        ensures
            !r,
    {
        false
    }

    pub fn default_max_variable() -> (r: CollationMaxVariable)
        ensures
            r == CollationMaxVariable::Punct,
    {
        CollationMaxVariable::Punct
    }

    pub fn default_normalization() -> (r: bool)
        ensures
            !r,
    {
        false
    }

    pub fn default_numeric_ordering() -> (r: bool)
        ensures
            !r,
    {
        false
    }

    pub fn default_strength() -> (r: CollationStrength)
        ensures
            r == CollationStrength::Tertiary,
    {
        CollationStrength::Tertiary
    }

    /// A collation for `locale` with every other setting at its default.
    pub fn new(locale: String) -> (c: Collation)
        ensures
            c@ == Collation::defaults(locale@),
    {
        Collation {
            alternate: Collation::default_alternate(),
            backwards: Collation::default_backwards(),
            case_first: Collation::default_case_first(),
            case_level: Collation::default_case_level(),
            locale,
            max_variable: Collation::default_max_variable(),
            normalization: Collation::default_normalization(),
            numeric_ordering: Collation::default_numeric_ordering(),
            strength: Collation::default_strength(),
        }
    }

    /// The collation of `locale` that sets nothing else.
    pub open spec fn defaults(locale: Seq<char>) -> CollationView {
        CollationView {
            alternate: CollationAlternate::NonIgnorable,
            backwards: false,
            case_first: CollationCaseFirst::Off,
            case_level: false,
            locale,
            max_variable: CollationMaxVariable::Punct,
            normalization: false,
            numeric_ordering: false,
            strength: CollationStrength::Tertiary,
        }
    }

    /// Whether two collations agree in every setting.
    pub fn same(&self, other: &Collation) -> (r: bool)
        ensures
            r == (self@ == other@),
    {
        self.alternate == other.alternate && self.backwards == other.backwards && self.case_first
            == other.case_first && self.case_level == other.case_level && self.locale
            == other.locale && self.max_variable == other.max_variable && self.normalization
            == other.normalization && self.numeric_ordering == other.numeric_ordering
            && self.strength == other.strength
    }
}

} // verus!
