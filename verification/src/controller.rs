//! The custom resource as the controller sees it, the controller's errors,
//! and what it writes to the resource's status and publishes as events.

use crate::driver;
use crate::mapping::collation::{collation_model, collation_to_model};
use crate::mapping::collections::{
    time_series, time_series_model, validation_action, validation_action_model, validation_level,
    validation_level_model,
};
use crate::mapping::keys::invalid_key;
use crate::resource::{
    Index, index_views, IndexView, key_views, KeyView, MongoCollectionSpec,
    MongoCollectionSpecView,
};
use crate::text::{copy_map, copy_text, same_str, text, texts};
use vstd::prelude::*;
use vstd::string::StringExecFns;

verus! {

/// Seconds to wait before a resource whose status is not ready is
/// reconciled again.
pub const BACK_OFF: u64 = 5;

/// Seconds after which a reconciled resource is looked at again.
pub const INTERVAL: u64 = 60;

/// Seconds after which a failed reconciliation is tried again.
pub const ERROR_INTERVAL: u64 = 5;

/// The field manager under which the controller writes the status.
pub open spec fn controller_name() -> Seq<char> {
    "mongo-collections"@
}

/// The API version of the custom resource.
pub open spec fn api_version() -> Seq<char> {
    "pincette.net/v1"@
}

/// The kind of the custom resource.
pub open spec fn kind() -> Seq<char> {
    "MongoCollection"@
}

/// The identity of a resource in the cluster.
#[derive(Clone, Debug)]
pub struct Metadata {
    pub name: Option<String>,
    pub generate_name: Option<String>,
    pub namespace: Option<String>,
    pub resource_version: Option<String>,
    pub uid: Option<String>,
}

/// The mathematical value of a `Metadata`.
pub struct MetadataView {
    pub name: Option<Seq<char>>,
    pub generate_name: Option<Seq<char>>,
    pub namespace: Option<Seq<char>>,
    pub resource_version: Option<Seq<char>>,
    pub uid: Option<Seq<char>>,
}

impl View for Metadata {
    type V = MetadataView;

    open spec fn view(&self) -> MetadataView {
        MetadataView {
            name: text(self.name),
            generate_name: text(self.generate_name),
            namespace: text(self.namespace),
            resource_version: text(self.resource_version),
            uid: text(self.uid),
        }
    }
}

/// What the controller reads of the status that the last reconciliation
/// left: whether its phase is ready.
#[derive(Clone, Copy, Debug, PartialEq, Eq, Structural)]
pub struct Status {
    pub ready: bool,
}

/// The custom resource: identity, desired state and last status.
#[derive(Clone, Debug)]
pub struct MongoCollection {
    pub metadata: Metadata,
    pub spec: MongoCollectionSpec,
    pub status: Option<Status>,
}

/// The mathematical value of a `MongoCollection`.
pub struct MongoCollectionView {
    pub metadata: MetadataView,
    pub spec: MongoCollectionSpecView,
    pub status: Option<Status>,
}

impl View for MongoCollection {
    type V = MongoCollectionView;

    open spec fn view(&self) -> MongoCollectionView {
        MongoCollectionView { metadata: self.metadata@, spec: self.spec@, status: self.status }
    }
}

impl MongoCollectionView {
    /// The name of the collection: the one in the desired state, else the
    /// name of the resource, else the empty string.
    pub open spec fn collection_name(self) -> Seq<char> {
        match self.spec.name {
            Some(n) => n,
            None => match self.metadata.name {
                Some(n) => n,
                None => Seq::empty(),
            },
        }
    }

    /// The name under which the resource is addressed: its name, else the
    /// name it is generated from, else the empty string.
    pub open spec fn name_any(self) -> Seq<char> {
        match self.metadata.name {
            Some(n) => n,
            None => match self.metadata.generate_name {
                Some(n) => n,
                None => Seq::empty(),
            },
        }
    }

    /// There is a status and it is not ready.
    pub open spec fn is_not_ready(self) -> bool {
        self.status matches Some(s) && !s.ready
    }
}

/// The text of an optional string, or the empty string.
pub fn name(s: &Option<String>) -> (r: &str)
    ensures
        r@ == match text(*s) {
            Some(n) => n,
            None => Seq::<char>::empty(),
        },
{
    match s {
        Some(n) => n.as_str(),
        None => {
            let empty: &str = "";
            proof {
                reveal_strlit("");
            }
            assert(empty@.len() == 0);
            assert(empty@ =~= Seq::<char>::empty());
            empty
        },
    }
}

/// The name of the collection that a resource describes.
pub fn collection_name(obj: &MongoCollection) -> (r: &str)
    ensures
        r@ == obj@.collection_name(),
{
    match &obj.spec.name {
        Some(n) => n.as_str(),
        None => name(&obj.metadata.name),
    }
}

/// Whether the last reconciliation left a status that is not ready.
pub fn is_not_ready(obj: &MongoCollection) -> (r: bool)
    ensures
        r == obj@.is_not_ready(),
{
    match obj.status {
        Some(s) => !s.ready,
        None => false,
    }
}

/// Whether a collection is among the names that the database lists.
pub fn collection_exists(names: &[String], collection: &str) -> (r: bool)
    ensures
        r == texts(names@).contains(collection@),
{
    let mut i: usize = 0;
    while i < names.len()
        invariant
            i <= names.len(),
            forall|k: int| 0 <= k < i ==> (#[trigger] texts(names@)[k]) != collection@,
        decreases names.len() - i,
    {
        if same_str(names[i].as_str(), collection) {
            assert(texts(names@)[i as int] == collection@);
            return true;
        }
        i += 1;
    }
    false
}

// ---------------------------------------------------------------------
// Validation
// ---------------------------------------------------------------------
/// The fields of those of the first `n` keys that have both a direction
/// and an index type, in their order.
pub open spec fn invalid_fields(keys: Seq<KeyView>, n: int) -> Seq<Seq<char>>
    decreases n,
{
    if n <= 0 {
        Seq::empty()
    } else if keys[n - 1].is_invalid() {
        invalid_fields(keys, n - 1).push(keys[n - 1].field)
    } else {
        invalid_fields(keys, n - 1)
    }
}

/// The fields of the invalid keys of the first `n` indexes, in their
/// order.
pub open spec fn invalid_in(indexes: Seq<IndexView>, n: int) -> Seq<Seq<char>>
    decreases n,
{
    if n <= 0 {
        Seq::empty()
    } else {
        invalid_in(indexes, n - 1) + invalid_fields(
            indexes[n - 1].keys,
            indexes[n - 1].keys.len() as int,
        )
    }
}

/// The fields of all invalid keys of a resource's indexes.
pub open spec fn invalid_key_fields(indexes: Option<Seq<IndexView>>) -> Seq<Seq<char>> {
    match indexes {
        Some(i) => invalid_in(i, i.len() as int),
        None => Seq::empty(),
    }
}

/// The fields of the keys that have both a direction and an index type.
pub fn invalid_keys(indexes: Option<&[Index]>) -> (fields: Vec<String>)
    ensures
        texts(fields@) == invalid_key_fields(
            match indexes {
                Some(i) => Some(index_views(i@)),
                None => None,
            },
        ),
{
    let mut fields: Vec<String> = Vec::new();
    match indexes {
        Some(list) => {
            let mut i: usize = 0;
            assert(texts(fields@) =~= invalid_in(index_views(list@), 0));
            while i < list.len()
                invariant
                    i <= list@.len(),
                    texts(fields@) == invalid_in(index_views(list@), i as int),
                decreases list@.len() - i,
            {
                let keys = &list[i].keys;
                let ghost start = texts(fields@);
                let mut j: usize = 0;
                assert(texts(fields@) =~= start + invalid_fields(key_views(keys@), 0));
                while j < keys.len()
                    invariant
                        j <= keys@.len(),
                        texts(fields@) == start + invalid_fields(key_views(keys@), j as int),
                    decreases keys@.len() - j,
                {
                    let ghost before = fields@;
                    if invalid_key(&keys[j]) {
                        fields.push(keys[j].field.clone());
                        assert(texts(fields@) =~= texts(before).push(keys[j as int].field@));
                        assert(texts(fields@) =~= start + invalid_fields(
                            key_views(keys@),
                            j + 1,
                        ));
                    }
                    j += 1;
                }
                assert(index_views(list@)[i as int].keys == key_views(keys@));
                i += 1;
            }
            fields
        },
        None => {
            assert(texts(fields@) =~= Seq::<Seq<char>>::empty());
            fields
        },
    }
}

/// Whether some key of some index has both a direction and an index type.
pub open spec fn has_invalid_key(indexes: Option<Seq<IndexView>>) -> bool {
    indexes matches Some(list) && exists|i: int, j: int|
        0 <= i < list.len() && 0 <= j < list[i].keys.len() && (
        #[trigger] list[i].keys[j]).is_invalid()
}

/// The invalid fields of the first `n` keys are empty exactly where none of
/// those keys is invalid.
pub proof fn lemma_invalid_fields(keys: Seq<KeyView>, n: int)
    requires
        0 <= n <= keys.len(),
    ensures
        invalid_fields(keys, n).len() > 0 <==> exists|j: int|
            0 <= j < n && (#[trigger] keys[j]).is_invalid(),
    decreases n,
{
    if n > 0 {
        lemma_invalid_fields(keys, n - 1);
        if keys[n - 1].is_invalid() {
        } else {
            if exists|j: int| 0 <= j < n && (#[trigger] keys[j]).is_invalid() {
                let j = choose|j: int| 0 <= j < n && (#[trigger] keys[j]).is_invalid();
                assert(j < n - 1);
            }
        }
    }
}

/// The invalid fields of the first `n` indexes are empty exactly where
/// none of their keys is invalid.
pub proof fn lemma_invalid_in(indexes: Seq<IndexView>, n: int)
    requires
        0 <= n <= indexes.len(),
    ensures
        invalid_in(indexes, n).len() > 0 <==> exists|i: int, j: int|
            0 <= i < n && 0 <= j < indexes[i].keys.len() && (
            #[trigger] indexes[i].keys[j]).is_invalid(),
    decreases n,
{
    if n > 0 {
        lemma_invalid_in(indexes, n - 1);
        let keys = indexes[n - 1].keys;
        lemma_invalid_fields(keys, keys.len() as int);
        if invalid_in(indexes, n).len() > 0 {
            if invalid_in(indexes, n - 1).len() > 0 {
                let (i, j) = choose|i: int, j: int|
                    0 <= i < n - 1 && 0 <= j < indexes[i].keys.len() && (
                    #[trigger] indexes[i].keys[j]).is_invalid();
                assert(0 <= i < n && indexes[i].keys[j].is_invalid());
            } else {
                let j = choose|j: int| 0 <= j < keys.len() && (#[trigger] keys[j]).is_invalid();
                assert(indexes[n - 1].keys[j].is_invalid());
            }
        }
        if exists|i: int, j: int|
            0 <= i < n && 0 <= j < indexes[i].keys.len() && (
            #[trigger] indexes[i].keys[j]).is_invalid() {
            let (i, j) = choose|i: int, j: int|
                0 <= i < n && 0 <= j < indexes[i].keys.len() && (
                #[trigger] indexes[i].keys[j]).is_invalid();
            if i < n - 1 {
                assert(invalid_in(indexes, n - 1).len() > 0);
            } else {
                assert(keys[j].is_invalid());
                assert(invalid_fields(keys, keys.len() as int).len() > 0);
            }
        }
    }
}

/// A resource has invalid key fields exactly where one of its keys has
/// both a direction and an index type.
pub proof fn lemma_invalid_key_fields(indexes: Option<Seq<IndexView>>)
    ensures
        invalid_key_fields(indexes).len() > 0 <==> has_invalid_key(indexes),
{
    if let Some(list) = indexes {
        lemma_invalid_in(list, list.len() as int);
    }
}

// ---------------------------------------------------------------------
// Errors
// ---------------------------------------------------------------------
/// What can go wrong in a reconciliation.
#[derive(Debug)]
pub enum OperatorError {
    /// Some keys have both a direction and an index type; holds their
    /// fields, separated by commas.
    InvalidKeys(String),
    /// The database driver failed; holds the driver's message.
    MongoDB(String),
    /// The Kubernetes API failed; holds its message.
    Kube(String),
    /// The status could not be written; holds the cause.
    StatusPatch(String),
}

/// The mathematical value of an `OperatorError`.
pub enum OperatorErrorView {
    InvalidKeys(Seq<char>),
    MongoDB(Seq<char>),
    Kube(Seq<char>),
    StatusPatch(Seq<char>),
}

impl View for OperatorError {
    type V = OperatorErrorView;

    open spec fn view(&self) -> OperatorErrorView {
        match self {
            OperatorError::InvalidKeys(s) => OperatorErrorView::InvalidKeys(s@),
            OperatorError::MongoDB(s) => OperatorErrorView::MongoDB(s@),
            OperatorError::Kube(s) => OperatorErrorView::Kube(s@),
            OperatorError::StatusPatch(s) => OperatorErrorView::StatusPatch(s@),
        }
    }
}

impl OperatorErrorView {
    /// The message of an error.
    pub open spec fn message(self) -> Seq<char> {
        match self {
            OperatorErrorView::InvalidKeys(keys) => "the keys "@ + keys
                + " have both the fields direction and indexType set"@,
            OperatorErrorView::MongoDB(cause) => "MongoDB error: "@ + cause,
            OperatorErrorView::Kube(_) => "kube API error"@,
            OperatorErrorView::StatusPatch(cause) => "the status of "@ + cause
                + " could not be updated"@,
        }
    }

    /// The message of the cause, where the error wraps a failure of the
    /// driver or of the Kubernetes API; else the error's own message.
    pub open spec fn source_message(self) -> Seq<char> {
        match self {
            OperatorErrorView::MongoDB(cause) => cause,
            OperatorErrorView::Kube(cause) => cause,
            _ => self.message(),
        }
    }
}

impl OperatorError {
    /// The message of the error.
    pub fn message(&self) -> (r: String)
        ensures
            r@ == self@.message(),
    {
        match self {
            OperatorError::InvalidKeys(keys) => {
                let mut s = String::from_str("the keys ");
                s.append(keys.as_str());
                s.append(" have both the fields direction and indexType set");
                s
            },
            OperatorError::MongoDB(cause) => {
                let mut s = String::from_str("MongoDB error: ");
                s.append(cause.as_str());
                s
            },
            OperatorError::Kube(_) => String::from_str("kube API error"),
            OperatorError::StatusPatch(cause) => {
                let mut s = String::from_str("the status of ");
                s.append(cause.as_str());
                s.append(" could not be updated");
                s
            },
        }
    }

    /// A copy of the error.
    pub fn duplicate(&self) -> (r: OperatorError)
        ensures
            r@ == self@,
    {
        match self {
            OperatorError::InvalidKeys(s) => OperatorError::InvalidKeys(s.clone()),
            OperatorError::MongoDB(s) => OperatorError::MongoDB(s.clone()),
            OperatorError::Kube(s) => OperatorError::Kube(s.clone()),
            OperatorError::StatusPatch(s) => OperatorError::StatusPatch(s.clone()),
        }
    }
}

impl Clone for OperatorError {
    fn clone(&self) -> (r: OperatorError)
        ensures
            r@ == self@,
    {
        self.duplicate()
    }
}

/// The message of the cause of an error, or the error's own message where
/// it has no cause.
pub fn source_message(error: &OperatorError) -> (r: String)
    ensures
        r@ == error@.source_message(),
{
    match error {
        OperatorError::MongoDB(cause) => cause.clone(),
        OperatorError::Kube(cause) => cause.clone(),
        _ => error.message(),
    }
}

/// Seconds after which the runtime tries a failed reconciliation again,
/// whatever the error.
pub fn error_policy(error: &OperatorError) -> (seconds: u64)
    ensures
        seconds == ERROR_INTERVAL,
{
    ERROR_INTERVAL
}

// ---------------------------------------------------------------------
// Status and events
// ---------------------------------------------------------------------
/// What a reconciliation writes to the status of the resource.
#[derive(Debug)]
pub enum StatusUpdate {
    /// The resource is reconciled.
    Ready,
    /// The reconciliation failed, with the message of the error.
    Error(String),
}

/// The mathematical value of a `StatusUpdate`.
pub enum StatusUpdateView {
    Ready,
    Error(Seq<char>),
}

impl View for StatusUpdate {
    type V = StatusUpdateView;

    open spec fn view(&self) -> StatusUpdateView {
        match self {
            StatusUpdate::Ready => StatusUpdateView::Ready,
            StatusUpdate::Error(m) => StatusUpdateView::Error(m@),
        }
    }
}

/// The status to write after a reconciliation: ready where there was no
/// error, else the error's message.
pub open spec fn next_status(error: Option<OperatorErrorView>) -> StatusUpdateView {
    match error {
        Some(e) => StatusUpdateView::Error(e.message()),
        None => StatusUpdateView::Ready,
    }
}

/// A patch of the status of a resource: a merge patch of the resource of
/// that name in that namespace, under the controller's field manager,
/// neither forced nor a dry run.
#[derive(Debug)]
pub struct StatusPatch {
    pub name: String,
    pub namespace: String,
    pub field_manager: String,
    pub dry_run: bool,
    pub force: bool,
    pub status: StatusUpdate,
}

/// The mathematical value of a `StatusPatch`.
pub struct StatusPatchView {
    pub name: Seq<char>,
    pub namespace: Seq<char>,
    pub field_manager: Seq<char>,
    pub dry_run: bool,
    pub force: bool,
    pub status: StatusUpdateView,
}

impl View for StatusPatch {
    type V = StatusPatchView;

    open spec fn view(&self) -> StatusPatchView {
        StatusPatchView {
            name: self.name@,
            namespace: self.namespace@,
            field_manager: self.field_manager@,
            dry_run: self.dry_run,
            force: self.force,
            status: self.status@,
        }
    }
}

/// The patch that writes the outcome of a reconciliation to the status of
/// a resource, in the namespace of the resource.
pub open spec fn status_patch(
    resource: MongoCollectionView,
    error: Option<OperatorErrorView>,
) -> StatusPatchView {
    StatusPatchView {
        name: resource.name_any(),
        namespace: match resource.metadata.namespace {
            Some(n) => n,
            None => Seq::empty(),
        },
        field_manager: controller_name(),
        dry_run: false,
        force: false,
        status: next_status(error),
    }
}

pub fn patch_status(obj: &MongoCollection, error: Option<&OperatorError>) -> (patch: StatusPatch)
    ensures
        patch@ == status_patch(
            obj@,
            match error {
                Some(e) => Some(e@),
                None => None,
            },
        ),
{
    StatusPatch {
        name: String::from_str(
            match &obj.metadata.name {
                Some(n) => n.as_str(),
                None => name(&obj.metadata.generate_name),
            },
        ),
        namespace: String::from_str(name(&obj.metadata.namespace)),
        field_manager: String::from_str(controller()),
        dry_run: false,
        force: false,
        status: match error {
            Some(e) => StatusUpdate::Error(e.message()),
            None => StatusUpdate::Ready,
        },
    }
}

/// The type of an event.
#[derive(Clone, Copy, Debug, PartialEq, Eq, Structural)]
pub enum EventType {
    Normal,
    Warning,
}

/// An event to publish about a resource.
#[derive(Debug)]
pub struct Event {
    pub type_: EventType,
    pub reason: String,
    pub note: Option<String>,
    pub action: String,
}

/// The mathematical value of an `Event`.
pub struct EventView {
    pub type_: EventType,
    pub reason: Seq<char>,
    pub note: Option<Seq<char>>,
    pub action: Seq<char>,
}

impl View for Event {
    type V = EventView;

    open spec fn view(&self) -> EventView {
        EventView {
            type_: self.type_,
            reason: self.reason@,
            note: text(self.note),
            action: self.action@,
        }
    }
}

/// The event for an error: a warning with the reason `Error`, the action
/// `update` and the error's message as its note.
pub open spec fn error_event(error: OperatorErrorView) -> EventView {
    EventView {
        type_: EventType::Warning,
        reason: "Error"@,
        note: Some(error.message()),
        action: "update"@,
    }
}

pub fn event(error: &OperatorError) -> (r: Event)
    ensures
        r@ == error_event(error@),
{
    Event {
        type_: EventType::Warning,
        reason: String::from_str("Error"),
        note: Some(error.message()),
        action: String::from_str("update"),
    }
}

/// What an event is about.
#[derive(Debug)]
pub struct ObjectReference {
    pub api_version: Option<String>,
    pub kind: Option<String>,
    pub name: Option<String>,
    pub namespace: Option<String>,
    pub resource_version: Option<String>,
    pub uid: Option<String>,
}

/// The mathematical value of an `ObjectReference`.
pub struct ObjectReferenceView {
    pub api_version: Option<Seq<char>>,
    pub kind: Option<Seq<char>>,
    pub name: Option<Seq<char>>,
    pub namespace: Option<Seq<char>>,
    pub resource_version: Option<Seq<char>>,
    pub uid: Option<Seq<char>>,
}

impl View for ObjectReference {
    type V = ObjectReferenceView;

    open spec fn view(&self) -> ObjectReferenceView {
        ObjectReferenceView {
            api_version: text(self.api_version),
            kind: text(self.kind),
            name: text(self.name),
            namespace: text(self.namespace),
            resource_version: text(self.resource_version),
            uid: text(self.uid),
        }
    }
}

/// The reference to a resource: its identity, under the API version and
/// the kind of the custom resource.
pub open spec fn reference_to(metadata: MetadataView) -> ObjectReferenceView {
    ObjectReferenceView {
        api_version: Some(api_version()),
        kind: Some(kind()),
        name: metadata.name,
        namespace: metadata.namespace,
        resource_version: metadata.resource_version,
        uid: metadata.uid,
    }
}

pub fn object_reference(obj: &MongoCollection) -> (r: ObjectReference)
    ensures
        r@ == reference_to(obj@.metadata),
{
    ObjectReference {
        api_version: Some(String::from_str("pincette.net/v1")),
        kind: Some(String::from_str("MongoCollection")),
        name: copy_text(&obj.metadata.name),
        namespace: copy_text(&obj.metadata.namespace),
        resource_version: copy_text(&obj.metadata.resource_version),
        uid: copy_text(&obj.metadata.uid),
    }
}

// ---------------------------------------------------------------------
// Creating the collection
// ---------------------------------------------------------------------
/// The request that creates the collection `name` as a desired state
/// describes it. Only what the resource sets is handed to the driver;
/// `capped` is off where the resource leaves it out, and the index on
/// `_id` is clustered where the resource says so.
pub open spec fn collection_request(
    name: Seq<char>,
    spec: MongoCollectionSpecView,
) -> driver::CreateCollectionView {
    driver::CreateCollectionView {
        name,
        capped: match spec.capped {
            Some(c) => c,
            None => false,
        },
        change_stream_pre_and_post_images: spec.change_stream_pre_and_post_images,
        clustered_index: spec.clustered == Some(true),
        collation: match spec.collation {
            Some(c) => Some(collation_model(c)),
            None => None,
        },
        expire_after_seconds: spec.expire_after_seconds,
        max: spec.max,
        size: spec.size,
        timeseries: match spec.time_series {
            Some(t) => Some(time_series_model(t)),
            None => None,
        },
        validator: spec.validator,
        validation_action: match spec.validation_action {
            Some(a) => Some(validation_action_model(a)),
            None => None,
        },
        validation_level: match spec.validation_level {
            Some(l) => Some(validation_level_model(l)),
            None => None,
        },
    }
}

pub fn create_collection(name: &str, obj: &MongoCollection) -> (r: driver::CreateCollection)
    ensures
        r@ == collection_request(name@, obj@.spec),
{
    driver::CreateCollection {
        name: String::from_str(name),
        capped: match obj.spec.capped {
            Some(c) => c,
            None => false,
        },
        change_stream_pre_and_post_images: obj.spec.change_stream_pre_and_post_images,
        clustered_index: match obj.spec.clustered {
            Some(c) => c,
            None => false,
        },
        collation: match &obj.spec.collation {
            Some(c) => Some(collation_to_model(c)),
            None => None,
        },
        expire_after_seconds: obj.spec.expire_after_seconds,
        max: obj.spec.max,
        size: obj.spec.size,
        timeseries: match &obj.spec.time_series {
            Some(t) => Some(time_series(t)),
            None => None,
        },
        validator: copy_map(&obj.spec.validator),
        validation_action: match obj.spec.validation_action {
            Some(a) => Some(validation_action(a)),
            None => None,
        },
        validation_level: match obj.spec.validation_level {
            Some(l) => Some(validation_level(l)),
            None => None,
        },
    }
}

// ---------------------------------------------------------------------
// Start-up
// ---------------------------------------------------------------------
/// Where the controller watches.
#[derive(Debug)]
pub enum Scope {
    /// Every namespace of the cluster, with one controller.
    Cluster,
    /// The listed namespaces, with one controller for each.
    Namespaces(Vec<String>),
}

/// Whether a list of namespaces stands for the whole cluster: it is empty
/// or holds only `*`.
pub open spec fn is_cluster_wide(namespaces: Seq<Seq<char>>) -> bool {
    namespaces.len() == 0 || (namespaces.len() == 1 && namespaces[0] == "*"@)
}

/// The scope for the configured namespaces.
pub fn watch(namespaces: Vec<String>) -> (scope: Scope)
    ensures
        is_cluster_wide(texts(namespaces@)) ==> scope is Cluster,
        !is_cluster_wide(texts(namespaces@)) ==> scope == Scope::Namespaces(namespaces),
{
    assert(texts(namespaces@).len() == namespaces@.len());
    if namespaces.len() == 0 {
        Scope::Cluster
    } else if namespaces.len() == 1 && same_str(namespaces[0].as_str(), "*") {
        assert(texts(namespaces@)[0] == namespaces[0]@);
        Scope::Cluster
    } else {
        assert(namespaces.len() == 1 ==> texts(namespaces@)[0] == namespaces[0]@);
        Scope::Namespaces(namespaces)
    }
}

/// The path of the configuration file where the environment names none.
pub open spec fn default_config_file() -> Seq<char> {
    "conf/application"@
}

/// The path of the configuration file: the one that the environment
/// names, else the default.
pub fn config_filename(configured: Option<String>) -> (r: String)
    ensures
        r@ == match text(configured) {
            Some(v) => v,
            None => default_config_file(),
        },
{
    match configured {
        Some(v) => v,
        None => String::from_str("conf/application"),
    }
}

/// The environment variable that names the configuration file.
pub fn config_file_variable() -> (r: &'static str)
    ensures
        r@ == "CONFIG_FILE"@,
{
    "CONFIG_FILE"
}

/// The key of the configuration under which the connection URL stands.
pub fn config_url_key() -> (r: &'static str)
    ensures
        r@ == "url"@,
{
    "url"
}

/// The key of the configuration under which the name of the database
/// stands.
pub fn config_database_key() -> (r: &'static str)
    ensures
        r@ == "database"@,
{
    "database"
}

/// The name under which the controller writes the status and reports its
/// events.
pub fn controller() -> (r: &'static str)
    ensures
        r@ == controller_name(),
{
    "mongo-collections"
}

/// Where the database is: the connection URL and the name of the
/// database.
#[derive(Clone, Debug)]
pub struct MongoConfig {
    pub database: String,
    pub url: String,
}

/// The settings of the database from what the configuration holds under
/// `url` and under `database`. A setting that is missing fails, the URL
/// first.
pub fn mongo_config<E>(url: Result<String, E>, database: Result<String, E>) -> (r: Result<
    MongoConfig,
    E,
>)
    ensures
        match (url, database) {
            (Ok(u), Ok(d)) => r matches Ok(c) && c.url == u && c.database == d,
            (Err(e), _) => r == Err::<MongoConfig, E>(e),
            (Ok(_), Err(e)) => r == Err::<MongoConfig, E>(e),
        },
{
    match url {
        Ok(u) => match database {
            Ok(d) => Ok(MongoConfig { database: d, url: u }),
            Err(e) => Err(e),
        },
        Err(e) => Err(e),
    }
}

} // verus!
