//! The database driver's option types, as plain values: what the
//! mapping hands to the driver and what it reads of the driver's
//! answers.

use crate::double::Double;
use crate::field_map::{Entries, FieldMap, with_entry};
use crate::json::{JsonValue, JsonView};
use crate::text::text;
use mongodb::bson::Document;
use vstd::prelude::*;

verus! {

/// A value in a document of keys, weights or wildcard projections. The
/// mapping tells 32-bit and 64-bit integers, strings and null apart;
/// any other value is `Other`.
#[derive(Debug)]
pub enum Bson {
    Int32(i32),
    Int64(i64),
    String(String),
    Null,
    Other,
}

/// The mathematical value of a `Bson`.
pub enum BsonView {
    Int32(i32),
    Int64(i64),
    String(Seq<char>),
    Null,
    Other,
}

impl View for Bson {
    type V = BsonView;

    open spec fn view(&self) -> BsonView {
        match self {
            Bson::Int32(v) => BsonView::Int32(*v),
            Bson::Int64(v) => BsonView::Int64(*v),
            Bson::String(v) => BsonView::String(v@),
            Bson::Null => BsonView::Null,
            Bson::Other => BsonView::Other,
        }
    }
}

impl Bson {
    /// Whether two values are of the same kind and hold the same.
    pub fn same(&self, other: &Bson) -> (r: bool)
        ensures
            r == (self@ == other@),
    {
        match (self, other) {
            (Bson::Int32(a), Bson::Int32(b)) => *a == *b,
            (Bson::Int64(a), Bson::Int64(b)) => *a == *b,
            (Bson::String(a), Bson::String(b)) => *a == *b,
            (Bson::Null, Bson::Null) => true,
            (Bson::Other, Bson::Other) => true,
            _ => false,
        }
    }

    /// A copy of the value.
    pub fn duplicate(&self) -> (r: Bson)
        ensures
            r@ == self@,
    {
        match self {
            Bson::Int32(v) => Bson::Int32(*v),
            Bson::Int64(v) => Bson::Int64(*v),
            Bson::String(v) => Bson::String(v.clone()),
            Bson::Null => Bson::Null,
            Bson::Other => Bson::Other,
        }
    }
}

impl Clone for Bson {
    fn clone(&self) -> (r: Bson)
        ensures
            r@ == self@,
    {
        self.duplicate()
    }
}

/// `mongodb::bson::Document`, the driver's ordered document: field names
/// with their values, each name once, in the order in which the names were
/// first set. Its inside is not read here; `document_entries` stands for
/// what it holds.
#[verifier::external_type_specification]
#[verifier::external_body]
pub struct ExDocument(mongodb::bson::Document);

/// The entries that a `mongodb::bson::Document` holds, in the order in
/// which it hands them out: each name with its value, where a 32-bit
/// integer, a 64-bit integer, a string and null stand for themselves and
/// every other value is `Other`.
pub uninterp spec fn document_entries(document: Document) -> Seq<(Seq<char>, BsonView)>;

/// The entries of an optional document.
pub open spec fn entries_of_document(document: Option<Document>) -> Option<Entries<BsonView>> {
    match document {
        Some(d) => Some(document_entries(d)),
        None => None,
    }
}

/// `mongodb::bson::Document::new`: gives a document without entries.
#[verifier::external_body]
pub(crate) fn document_new() -> (document: Document)
    ensures
        document_entries(document) == Seq::<(Seq<char>, BsonView)>::empty(),
{
    Document::new()
}

/// `mongodb::bson::Document::insert`, called with a 32-bit integer, a
/// 64-bit integer, a string or null: a name that is in the document keeps
/// its place and takes the value, a new name goes to the end with it, and
/// no other entry changes.
#[verifier::external_body]
pub(crate) fn document_insert(document: &mut Document, name: String, value: Bson)
    requires
        !(value is Other),
    ensures
        document_entries(*final(document)) == with_entry(
            document_entries(*old(document)),
            name@,
            value@,
        ),
{
    let value = match value {
        Bson::Int32(v) => mongodb::bson::Bson::Int32(v),
        Bson::Int64(v) => mongodb::bson::Bson::Int64(v),
        Bson::String(v) => mongodb::bson::Bson::String(v),
        Bson::Null => mongodb::bson::Bson::Null,
        Bson::Other => mongodb::bson::Bson::Null,
    };
    document.insert(name, value);
}

/// `mongodb::bson::Document::len`: gives the number of entries.
#[verifier::external_body]
pub(crate) fn document_len(document: &Document) -> (n: usize)
    ensures
        n == document_entries(*document).len(),
{
    document.len()
}

/// `mongodb::bson::Document::iter`, taken to its entry at `i`: gives a
/// copy of the name and what the value stands for.
#[verifier::external_body]
pub(crate) fn document_entry(document: &Document, i: usize) -> (entry: (String, Bson))
    requires
        i < document_entries(*document).len(),
    ensures
        (entry.0@, entry.1@) == document_entries(*document)[i as int],
{
    let (name, value) = document.iter().nth(i).unwrap();
    let value = match value {
        mongodb::bson::Bson::Int32(v) => Bson::Int32(*v),
        mongodb::bson::Bson::Int64(v) => Bson::Int64(*v),
        mongodb::bson::Bson::String(v) => Bson::String(v.clone()),
        mongodb::bson::Bson::Null => Bson::Null,
        _ => Bson::Other,
    };
    (name.clone(), value)
}

/// `Clone::clone` of `mongodb::bson::Document`: gives a document with the
/// same entries in the same order.
pub assume_specification[ <mongodb::bson::Document as Clone>::clone ](
    document: &Document,
) -> (copy: Document)
    ensures
        document_entries(copy) == document_entries(*document),
;

/// A value of a partial filter expression as the database reports it. The
/// driver's own serialisers have done their part: an array is held as the
/// JSON that they render it to, a date as the RFC 3339 text, if there is
/// one for it, and an object id as the document, if any, that they give for
/// it. A value of any other kind than these is `Other`.
#[derive(Debug)]
pub enum FilterValue {
    Array(JsonValue),
    Boolean(bool),
    DateTime(Option<String>),
    Double(Double),
    Document(Vec<(String, FilterValue)>),
    Int32(i32),
    Int64(i64),
    Null,
    ObjectId(Option<Vec<(String, FilterValue)>>),
    String(String),
    Other,
}

/// The mathematical value of a `FilterValue`.
pub enum FilterValueView {
    Array(JsonView),
    Boolean(bool),
    DateTime(Option<Seq<char>>),
    Double(Double),
    Document(Seq<(Seq<char>, FilterValueView)>),
    Int32(i32),
    Int64(i64),
    Null,
    ObjectId(Option<Seq<(Seq<char>, FilterValueView)>>),
    String(Seq<char>),
    Other,
}

impl View for FilterValue {
    type V = FilterValueView;

    open spec fn view(&self) -> FilterValueView
        decreases self,
    {
        match self {
            FilterValue::Array(j) => FilterValueView::Array(j@),
            FilterValue::Boolean(b) => FilterValueView::Boolean(*b),
            FilterValue::DateTime(t) => FilterValueView::DateTime(text(*t)),
            FilterValue::Double(d) => FilterValueView::Double(*d),
            FilterValue::Document(entries) => FilterValueView::Document(
                FilterValue::view_entries(entries@),
            ),
            FilterValue::Int32(v) => FilterValueView::Int32(*v),
            FilterValue::Int64(v) => FilterValueView::Int64(*v),
            FilterValue::Null => FilterValueView::Null,
            FilterValue::ObjectId(document) => FilterValueView::ObjectId(
                match document {
                    Some(entries) => Some(FilterValue::view_entries(entries@)),
                    None => None,
                },
            ),
            FilterValue::String(s) => FilterValueView::String(s@),
            FilterValue::Other => FilterValueView::Other,
        }
    }
}

impl FilterValue {
    /// The names and values of the entries of a reported document.
    pub open spec fn view_entries(entries: Seq<(String, FilterValue)>) -> Seq<
        (Seq<char>, FilterValueView),
    >
        decreases entries,
    {
        Seq::new(
            entries.len(),
            |i: int|
                if 0 <= i < entries.len() {
                    (entries[i].0@, entries[i].1.view())
                } else {
                    (Seq::empty(), FilterValueView::Null)
                },
        )
    }

    /// A copy of the entries of a reported document.
    #[verifier::loop_isolation(false)]
    pub fn duplicate_entries(entries: &Vec<(String, FilterValue)>) -> (r: Vec<
        (String, FilterValue),
    >)
        ensures
            Self::view_entries(r@) == Self::view_entries(entries@),
        decreases entries,
    {
        let mut out: Vec<(String, FilterValue)> = Vec::new();
        let mut i: usize = 0;
        while i < entries.len()
            invariant
                i <= entries.len(),
                out.len() == i,
                forall|k: int|
                    0 <= k < i ==> (#[trigger] out[k]).0@ == entries[k].0@ && out[k].1@
                        == entries[k].1@,
            decreases entries.len() - i,
        {
            out.push((entries[i].0.clone(), entries[i].1.duplicate()));
            i += 1;
        }
        assert(Self::view_entries(out@) =~= Self::view_entries(entries@));
        out
    }

    /// A copy of the value.
    pub fn duplicate(&self) -> (r: FilterValue)
        ensures
            r@ == self@,
        decreases self,
    {
        match self {
            FilterValue::Array(j) => FilterValue::Array(j.duplicate()),
            FilterValue::Boolean(b) => FilterValue::Boolean(*b),
            FilterValue::DateTime(t) => FilterValue::DateTime(crate::text::copy_text(t)),
            FilterValue::Double(d) => FilterValue::Double(*d),
            FilterValue::Document(entries) => FilterValue::Document(
                Self::duplicate_entries(entries),
            ),
            FilterValue::Int32(v) => FilterValue::Int32(*v),
            FilterValue::Int64(v) => FilterValue::Int64(*v),
            FilterValue::Null => FilterValue::Null,
            FilterValue::ObjectId(document) => FilterValue::ObjectId(
                match document {
                    Some(entries) => Some(Self::duplicate_entries(entries)),
                    None => None,
                },
            ),
            FilterValue::String(s) => FilterValue::String(s.clone()),
            FilterValue::Other => FilterValue::Other,
        }
    }
}

impl Clone for FilterValue {
    fn clone(&self) -> (r: FilterValue)
        ensures
            r@ == self@,
    {
        self.duplicate()
    }
}

/// The partial filter expression of the driver's index options: as the
/// resource declares it, in JSON that the driver reads as extended JSON on
/// its way to the database, or as the database reports it.
#[derive(Clone, Debug)]
pub enum PartialFilter {
    Declared(FieldMap<JsonValue>),
    Reported(Vec<(String, FilterValue)>),
}

/// The mathematical value of a `PartialFilter`.
pub enum PartialFilterView {
    Declared(Entries<JsonView>),
    Reported(Seq<(Seq<char>, FilterValueView)>),
}

impl View for PartialFilter {
    type V = PartialFilterView;

    open spec fn view(&self) -> PartialFilterView {
        match self {
            PartialFilter::Declared(m) => PartialFilterView::Declared(m@),
            PartialFilter::Reported(d) => PartialFilterView::Reported(
                FilterValue::view_entries(d@),
            ),
        }
    }
}

impl PartialFilter {
    /// A copy of the expression.
    pub fn duplicate(&self) -> (r: PartialFilter)
        ensures
            r@ == self@,
    {
        match self {
            PartialFilter::Declared(m) => PartialFilter::Declared(m.duplicate()),
            PartialFilter::Reported(d) => PartialFilter::Reported(
                FilterValue::duplicate_entries(d),
            ),
        }
    }
}

/// The driver's comparison level.
#[derive(Clone, Copy, Debug, PartialEq, Eq, Structural)]
pub enum CollationStrength {
    Primary,
    Secondary,
    Tertiary,
    Quaternary,
    Identical,
}

/// The driver's case ordering.
#[derive(Clone, Copy, Debug, PartialEq, Eq, Structural)]
pub enum CollationCaseFirst {
    Upper,
    Lower,
    Off,
}

/// The driver's treatment of whitespace and punctuation.
#[derive(Clone, Copy, Debug, PartialEq, Eq, Structural)]
pub enum CollationAlternate {
    NonIgnorable,
    Shifted,
}

/// The driver's choice of ignorable characters.
#[derive(Clone, Copy, Debug, PartialEq, Eq, Structural)]
pub enum CollationMaxVariable {
    Punct,
    Space,
}

/// The driver's collation: a locale, and settings that may each be absent.
#[derive(Clone, Debug)]
pub struct Collation {
    pub locale: String,
    pub strength: Option<CollationStrength>,
    pub case_level: Option<bool>,
    pub case_first: Option<CollationCaseFirst>,
    pub numeric_ordering: Option<bool>,
    pub alternate: Option<CollationAlternate>,
    pub max_variable: Option<CollationMaxVariable>,
    pub normalization: Option<bool>,
    pub backwards: Option<bool>,
}

/// The mathematical value of the driver's collation.
pub struct CollationView {
    pub locale: Seq<char>,
    pub strength: Option<CollationStrength>,
    pub case_level: Option<bool>,
    pub case_first: Option<CollationCaseFirst>,
    pub numeric_ordering: Option<bool>,
    pub alternate: Option<CollationAlternate>,
    pub max_variable: Option<CollationMaxVariable>,
    pub normalization: Option<bool>,
    pub backwards: Option<bool>,
}

impl View for Collation {
    type V = CollationView;

    open spec fn view(&self) -> CollationView {
        CollationView {
            locale: self.locale@,
            strength: self.strength,
            case_level: self.case_level,
            case_first: self.case_first,
            numeric_ordering: self.numeric_ordering,
            alternate: self.alternate,
            max_variable: self.max_variable,
            normalization: self.normalization,
            backwards: self.backwards,
        }
    }
}

/// The version of a text index: one of the three known ones, or a number
/// that the driver does not know.
#[derive(Clone, Copy, Debug, PartialEq, Eq, Structural)]
pub enum TextIndexVersion {
    V1,
    V2,
    V3,
    Custom(u32),
}

/// The version of a `2dsphere` index: one of the two known ones, or a
/// number that the driver does not know.
#[derive(Clone, Copy, Debug, PartialEq, Eq, Structural)]
pub enum Sphere2DIndexVersion {
    V2,
    V3,
    Custom(u32),
}

/// The driver's index options, as far as the resource speaks of them. The
/// time to live is in whole seconds.
#[derive(Clone, Debug)]
pub struct IndexOptions {
    pub expire_after: Option<u64>,
    pub name: Option<String>,
    pub sparse: Option<bool>,
    pub unique: Option<bool>,
    pub default_language: Option<String>,
    pub language_override: Option<String>,
    pub text_index_version: Option<TextIndexVersion>,
    pub weights: Option<Document>,
    pub sphere_2d_index_version: Option<Sphere2DIndexVersion>,
    pub bits: Option<u32>,
    pub max: Option<Double>,
    pub min: Option<Double>,
    pub partial_filter_expression: Option<PartialFilter>,
    pub collation: Option<Collation>,
    pub wildcard_projection: Option<Document>,
    pub hidden: Option<bool>,
}

/// The mathematical value of the driver's index options.
pub struct IndexOptionsView {
    pub expire_after: Option<u64>,
    pub name: Option<Seq<char>>,
    pub sparse: Option<bool>,
    pub unique: Option<bool>,
    pub default_language: Option<Seq<char>>,
    pub language_override: Option<Seq<char>>,
    pub text_index_version: Option<TextIndexVersion>,
    pub weights: Option<Entries<BsonView>>,
    pub sphere_2d_index_version: Option<Sphere2DIndexVersion>,
    pub bits: Option<u32>,
    pub max: Option<Double>,
    pub min: Option<Double>,
    pub partial_filter_expression: Option<PartialFilterView>,
    pub collation: Option<CollationView>,
    pub wildcard_projection: Option<Entries<BsonView>>,
    pub hidden: Option<bool>,
}

/// The view of an optional driver collation.
pub open spec fn collation_view(c: Option<Collation>) -> Option<CollationView> {
    match c {
        Some(v) => Some(v@),
        None => None,
    }
}

impl View for IndexOptions {
    type V = IndexOptionsView;

    open spec fn view(&self) -> IndexOptionsView {
        IndexOptionsView {
            expire_after: self.expire_after,
            name: text(self.name),
            sparse: self.sparse,
            unique: self.unique,
            default_language: text(self.default_language),
            language_override: text(self.language_override),
            text_index_version: self.text_index_version,
            weights: entries_of_document(self.weights),
            sphere_2d_index_version: self.sphere_2d_index_version,
            bits: self.bits,
            max: self.max,
            min: self.min,
            partial_filter_expression: match self.partial_filter_expression {
                Some(f) => Some(f@),
                None => None,
            },
            collation: collation_view(self.collation),
            wildcard_projection: entries_of_document(self.wildcard_projection),
            hidden: self.hidden,
        }
    }
}

/// The driver's description of an index: a document of keys and options.
#[derive(Clone, Debug)]
pub struct IndexModel {
    pub keys: Document,
    pub options: Option<IndexOptions>,
}

/// The mathematical value of the driver's description of an index.
pub struct IndexModelView {
    pub keys: Entries<BsonView>,
    pub options: Option<IndexOptionsView>,
}

/// The view of optional driver index options.
pub open spec fn index_options_view(o: Option<IndexOptions>) -> Option<IndexOptionsView> {
    match o {
        Some(v) => Some(v@),
        None => None,
    }
}

impl View for IndexModel {
    type V = IndexModelView;

    open spec fn view(&self) -> IndexModelView {
        IndexModelView {
            keys: document_entries(self.keys),
            options: index_options_view(self.options),
        }
    }
}

/// The driver's bucket granularity.
#[derive(Clone, Copy, Debug, PartialEq, Eq, Structural)]
pub enum TimeseriesGranularity {
    Seconds,
    Minutes,
    Hours,
}

/// The driver's time-series options; the spans are in whole seconds.
#[derive(Clone, Debug)]
pub struct TimeseriesOptions {
    pub time_field: String,
    pub meta_field: Option<String>,
    pub granularity: Option<TimeseriesGranularity>,
    pub bucket_max_span: Option<u64>,
    pub bucket_rounding: Option<u64>,
}

/// The driver's validation level.
#[derive(Clone, Copy, Debug, PartialEq, Eq, Structural)]
pub enum ValidationLevel {
    Off,
    Strict,
    Moderate,
}

/// The driver's validation action.
#[derive(Clone, Copy, Debug, PartialEq, Eq, Structural)]
pub enum ValidationAction {
    Error,
    Warn,
}

/// A request to create a collection. An absent field leaves the choice to
/// the driver; `capped` is always given. The validator is held as the JSON
/// object that the resource gives.
#[derive(Clone, Debug)]
pub struct CreateCollection {
    pub name: String,
    pub capped: bool,
    pub change_stream_pre_and_post_images: Option<bool>,
    pub clustered_index: bool,
    pub collation: Option<Collation>,
    pub expire_after_seconds: Option<u64>,
    pub max: Option<u64>,
    pub size: Option<u64>,
    pub timeseries: Option<TimeseriesOptions>,
    pub validator: Option<FieldMap<JsonValue>>,
    pub validation_action: Option<ValidationAction>,
    pub validation_level: Option<ValidationLevel>,
}

/// The mathematical value of the driver's time-series options.
pub struct TimeseriesOptionsView {
    pub time_field: Seq<char>,
    pub meta_field: Option<Seq<char>>,
    pub granularity: Option<TimeseriesGranularity>,
    pub bucket_max_span: Option<u64>,
    pub bucket_rounding: Option<u64>,
}

impl View for TimeseriesOptions {
    type V = TimeseriesOptionsView;

    open spec fn view(&self) -> TimeseriesOptionsView {
        TimeseriesOptionsView {
            time_field: self.time_field@,
            meta_field: text(self.meta_field),
            granularity: self.granularity,
            bucket_max_span: self.bucket_max_span,
            bucket_rounding: self.bucket_rounding,
        }
    }
}

/// The mathematical value of a request to create a collection.
pub struct CreateCollectionView {
    pub name: Seq<char>,
    pub capped: bool,
    pub change_stream_pre_and_post_images: Option<bool>,
    pub clustered_index: bool,
    pub collation: Option<CollationView>,
    pub expire_after_seconds: Option<u64>,
    pub max: Option<u64>,
    pub size: Option<u64>,
    pub timeseries: Option<TimeseriesOptionsView>,
    pub validator: Option<Entries<JsonView>>,
    pub validation_action: Option<ValidationAction>,
    pub validation_level: Option<ValidationLevel>,
}

impl View for CreateCollection {
    type V = CreateCollectionView;

    open spec fn view(&self) -> CreateCollectionView {
        CreateCollectionView {
            name: self.name@,
            capped: self.capped,
            change_stream_pre_and_post_images: self.change_stream_pre_and_post_images,
            clustered_index: self.clustered_index,
            collation: collation_view(self.collation),
            expire_after_seconds: self.expire_after_seconds,
            max: self.max,
            size: self.size,
            timeseries: match self.timeseries {
                Some(t) => Some(t@),
                None => None,
            },
            validator: crate::resource::entries_of(self.validator),
            validation_action: self.validation_action,
            validation_level: self.validation_level,
        }
    }
}

impl Collation {
    /// A copy of the collation.
    pub fn duplicate(&self) -> (r: Collation)
        ensures
            r@ == self@,
    {
        Collation {
            locale: self.locale.clone(),
            strength: self.strength,
            case_level: self.case_level,
            case_first: self.case_first,
            numeric_ordering: self.numeric_ordering,
            alternate: self.alternate,
            max_variable: self.max_variable,
            normalization: self.normalization,
            backwards: self.backwards,
        }
    }
}

impl IndexOptions {
    /// A copy of the options.
    pub fn duplicate(&self) -> (r: IndexOptions)
        ensures
            r@ == self@,
    {
        IndexOptions {
            expire_after: self.expire_after,
            name: crate::text::copy_text(&self.name),
            sparse: self.sparse,
            unique: self.unique,
            default_language: crate::text::copy_text(&self.default_language),
            language_override: crate::text::copy_text(&self.language_override),
            text_index_version: self.text_index_version,
            weights: match &self.weights {
                Some(d) => Some(d.clone()),
                None => None,
            },
            sphere_2d_index_version: self.sphere_2d_index_version,
            bits: self.bits,
            max: self.max,
            min: self.min,
            partial_filter_expression: match &self.partial_filter_expression {
                Some(f) => Some(f.duplicate()),
                None => None,
            },
            collation: match &self.collation {
                Some(c) => Some(c.duplicate()),
                None => None,
            },
            wildcard_projection: match &self.wildcard_projection {
                Some(d) => Some(d.clone()),
                None => None,
            },
            hidden: self.hidden,
        }
    }
}

impl IndexModel {
    /// A copy of the description.
    pub fn duplicate(&self) -> (r: IndexModel)
        ensures
            r@ == self@,
    {
        IndexModel {
            keys: self.keys.clone(),
            options: match &self.options {
                Some(o) => Some(o.duplicate()),
                None => None,
            },
        }
    }
}

} // verus!
