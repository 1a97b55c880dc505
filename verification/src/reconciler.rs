//! The reconciler: one pass of the control loop for a resource, as a
//! machine that is handed the outcome of each request and answers with the
//! next one. Whoever drives it carries out the requests, in the order in
//! which they come.

use crate::controller::{
    BACK_OFF, collection_exists, collection_name, collection_request, create_collection,
    error_event, event, Event, EventView, has_invalid_key, INTERVAL, invalid_key_fields,
    invalid_keys, is_not_ready, lemma_invalid_key_fields, MongoCollection, MongoCollectionView,
    object_reference, ObjectReference, ObjectReferenceView, OperatorError, OperatorErrorView,
    patch_status, reference_to, Status, status_patch, StatusPatch, StatusPatchView,
    StatusUpdateView,
};
use crate::differ::{
    declared_indexes, in_sync, index_models, indexes_to_create, lemma_in_sync_changes_nothing,
    names_to_drop, reconcile_indexes,
};
use crate::driver::{CreateCollection, CreateCollectionView, IndexModel, IndexModelView};
use crate::mapping::indexes::{model_views, observed_indexes};
use crate::text::{join, joined, texts};
use vstd::prelude::*;
use vstd::string::StringExecFns;

verus! {

/// What the reconciler asks for.
#[derive(Debug)]
pub enum Request {
    /// Wait for so many seconds.
    Sleep(u64),
    /// List the names of the collections of the database.
    ListCollectionNames,
    /// Create the collection.
    CreateCollection(CreateCollection),
    /// List the indexes of the collection.
    ListIndexes { collection: String },
    /// Drop the index of that name.
    DropIndex { collection: String, name: String },
    /// Create the index.
    CreateIndex { collection: String, index: IndexModel },
    /// Write the status of the resource.
    PatchStatus(StatusPatch),
    /// Publish the event about the resource.
    PublishEvent { event: Event, reference: ObjectReference },
    /// The reconciliation is over: look at the resource again after so
    /// many seconds.
    Requeue(u64),
    /// The reconciliation is over: it failed.
    Fail(OperatorError),
}

/// The mathematical value of a `Request`.
pub enum RequestView {
    Sleep(u64),
    ListCollectionNames,
    CreateCollection(CreateCollectionView),
    ListIndexes { collection: Seq<char> },
    DropIndex { collection: Seq<char>, name: Seq<char> },
    CreateIndex { collection: Seq<char>, index: IndexModelView },
    PatchStatus(StatusPatchView),
    PublishEvent { event: EventView, reference: ObjectReferenceView },
    Requeue(u64),
    Fail(OperatorErrorView),
}

impl View for Request {
    type V = RequestView;

    open spec fn view(&self) -> RequestView {
        match self {
            Request::Sleep(s) => RequestView::Sleep(*s),
            Request::ListCollectionNames => RequestView::ListCollectionNames,
            Request::CreateCollection(c) => RequestView::CreateCollection(c@),
            Request::ListIndexes { collection } => RequestView::ListIndexes {
                collection: collection@,
            },
            Request::DropIndex { collection, name } => RequestView::DropIndex {
                collection: collection@,
                name: name@,
            },
            Request::CreateIndex { collection, index } => RequestView::CreateIndex {
                collection: collection@,
                index: index@,
            },
            Request::PatchStatus(s) => RequestView::PatchStatus(s@),
            Request::PublishEvent { event, reference } => RequestView::PublishEvent {
                event: event@,
                reference: reference@,
            },
            Request::Requeue(s) => RequestView::Requeue(*s),
            Request::Fail(e) => RequestView::Fail(e@),
        }
    }
}

impl RequestView {
    /// Whether the request changes the database.
    pub open spec fn touches_database(self) -> bool {
        self is CreateCollection || self is DropIndex || self is CreateIndex
    }

    /// Whether the request ends the reconciliation.
    pub open spec fn is_final(self) -> bool {
        self is Requeue || self is Fail
    }
}

/// The outcome of the last request.
#[derive(Debug)]
pub enum Response {
    /// There was no request yet.
    Start,
    /// The request was carried out.
    Done,
    /// The names of the collections of the database.
    CollectionNames(Vec<String>),
    /// The indexes of the collection.
    Indexes(Vec<IndexModel>),
    /// The database driver failed, with its message.
    DatabaseError(String),
    /// The Kubernetes API failed, with the message of the cause.
    KubeError(String),
}

/// The mathematical value of a `Response`.
pub enum ResponseView {
    Start,
    Done,
    CollectionNames(Seq<Seq<char>>),
    Indexes(Seq<IndexModelView>),
    DatabaseError(Seq<char>),
    KubeError(Seq<char>),
}

impl View for Response {
    type V = ResponseView;

    open spec fn view(&self) -> ResponseView {
        match self {
            Response::Start => ResponseView::Start,
            Response::Done => ResponseView::Done,
            Response::CollectionNames(n) => ResponseView::CollectionNames(texts(n@)),
            Response::Indexes(i) => ResponseView::Indexes(model_views(i@)),
            Response::DatabaseError(m) => ResponseView::DatabaseError(m@),
            Response::KubeError(m) => ResponseView::KubeError(m@),
        }
    }
}

/// Where a reconciliation stands: what it asked for last.
#[derive(Clone, Copy, Debug, PartialEq, Eq, Structural)]
pub enum Phase {
    Start,
    Sleeping,
    ListingCollections,
    CreatingCollection,
    ListingIndexes,
    Dropping,
    Creating,
    PatchingReady,
    PatchingError,
    Publishing,
    Done,
}

/// The state of a reconciliation: its phase, the plan for the indexes with
/// the place of the drop or the creation that was asked for last, and the
/// error that ended the work on the database.
#[derive(Debug)]
pub struct State {
    pub phase: Phase,
    pub drops: Vec<String>,
    pub creates: Vec<IndexModel>,
    pub position: usize,
    pub error: Option<OperatorError>,
}

/// The mathematical value of a `State`.
pub struct StateView {
    pub phase: Phase,
    pub drops: Seq<Seq<char>>,
    pub creates: Seq<IndexModelView>,
    pub position: nat,
    pub error: Option<OperatorErrorView>,
}

impl View for State {
    type V = StateView;

    open spec fn view(&self) -> StateView {
        StateView {
            phase: self.phase,
            drops: texts(self.drops@),
            creates: model_views(self.creates@),
            position: self.position as nat,
            error: match self.error {
                Some(e) => Some(e@),
                None => None,
            },
        }
    }
}

impl StateView {
    /// The state in `phase` with no plan and no error.
    pub open spec fn at(phase: Phase) -> StateView {
        StateView { phase, drops: Seq::empty(), creates: Seq::empty(), position: 0, error: None }
    }

    /// Whether the outcome `response` can follow what the state asked for.
    pub open spec fn expects(self, response: ResponseView) -> bool {
        match self.phase {
            Phase::Start => response is Start,
            Phase::Sleeping => response is Done,
            Phase::ListingCollections => response is CollectionNames || response is DatabaseError,
            Phase::CreatingCollection => response is Done || response is DatabaseError,
            Phase::ListingIndexes => response is Indexes || response is DatabaseError,
            Phase::Dropping => (response is Done || response is DatabaseError) && self.position
                < self.drops.len(),
            Phase::Creating => (response is Done || response is DatabaseError) && self.position
                < self.creates.len(),
            Phase::PatchingReady => response is Done || response is KubeError,
            Phase::PatchingError => (response is Done || response is KubeError) && self.error
                is Some,
            Phase::Publishing => (response is Done || response is KubeError) && self.error
                is Some,
            Phase::Done => false,
        }
    }

    /// Whether the work on the database has ended in an error.
    pub open spec fn has_failed(self) -> bool {
        self.phase == Phase::PatchingError || self.phase == Phase::Publishing
    }
}

/// What follows an error. A failure to write the status ends the
/// reconciliation at once. Any other error is first written to the
/// status.
pub open spec fn fail_with(resource: MongoCollectionView, error: OperatorErrorView) -> (
    StateView,
    RequestView,
) {
    if error is StatusPatch {
        (StateView::at(Phase::Done), RequestView::Fail(error))
    } else {
        (
            StateView { error: Some(error), ..StateView::at(Phase::PatchingError) },
            RequestView::PatchStatus(status_patch(resource, Some(error))),
        )
    }
}

/// The start of the work: a resource with an invalid key fails with the
/// fields of all such keys, separated by a comma and a space; any other has
/// the collections listed.
pub open spec fn validate(resource: MongoCollectionView) -> (StateView, RequestView) {
    let invalid = invalid_key_fields(resource.spec.indexes);
    if invalid.len() > 0 {
        fail_with(
            resource,
            OperatorErrorView::InvalidKeys(joined(invalid, ", "@, invalid.len() as int)),
        )
    } else {
        (StateView::at(Phase::ListingCollections), RequestView::ListCollectionNames)
    }
}

/// The plan for the indexes of a resource against what the database
/// reports: the names to drop and the indexes to create. A resource
/// without a list of indexes declares none.
pub open spec fn plan_for(resource: MongoCollectionView, found: Seq<IndexModelView>) -> (
    Seq<Seq<char>>,
    Seq<IndexModelView>,
) {
    let declared = declared_indexes(resource.spec.indexes);
    let observed = observed_indexes(found, found.len() as int);
    (
        names_to_drop(declared, observed, observed.len() as int),
        index_models(indexes_to_create(declared, observed, declared.len() as int)),
    )
}

/// The end of the work on the indexes. The status is written where
/// anything was dropped or created, where the resource has no status yet
/// and where its status is not ready; else it is left alone and the
/// reconciliation is over.
pub open spec fn finish(resource: MongoCollectionView, changed: bool) -> (StateView, RequestView) {
    if changed || resource.status is None || resource.is_not_ready() {
        (
            StateView::at(Phase::PatchingReady),
            RequestView::PatchStatus(status_patch(resource, None)),
        )
    } else {
        (StateView::at(Phase::Done), RequestView::Requeue(INTERVAL))
    }
}

/// The next step of a plan of which `dropped` drops and `created`
/// creations are done: the drops go first, each list in its order.
pub open spec fn carry_on(
    resource: MongoCollectionView,
    drops: Seq<Seq<char>>,
    creates: Seq<IndexModelView>,
    dropped: nat,
    created: nat,
) -> (StateView, RequestView) {
    if dropped < drops.len() {
        (
            StateView { phase: Phase::Dropping, drops, creates, position: dropped, error: None },
            RequestView::DropIndex {
                collection: resource.collection_name(),
                name: drops[dropped as int],
            },
        )
    } else if created < creates.len() {
        (
            StateView { phase: Phase::Creating, drops, creates, position: created, error: None },
            RequestView::CreateIndex {
                collection: resource.collection_name(),
                index: creates[created as int],
            },
        )
    } else {
        finish(resource, drops.len() + creates.len() > 0)
    }
}

/// One step of the work of a reconciliation: validation, the collection,
/// the indexes and the status of a reconciled resource. The work begins
/// with the validation.
pub open spec fn action_step(
    resource: MongoCollectionView,
    state: StateView,
    response: ResponseView,
) -> (StateView, RequestView) {
    match state.phase {
        Phase::ListingCollections => match response {
            ResponseView::CollectionNames(names) => if names.contains(resource.collection_name()) {
                (
                    StateView::at(Phase::ListingIndexes),
                    RequestView::ListIndexes { collection: resource.collection_name() },
                )
            } else {
                (
                    StateView::at(Phase::CreatingCollection),
                    RequestView::CreateCollection(
                        collection_request(resource.collection_name(), resource.spec),
                    ),
                )
            },
            ResponseView::DatabaseError(m) => fail_with(resource, OperatorErrorView::MongoDB(m)),
            _ => validate(resource),
        },
        Phase::CreatingCollection => match response {
            ResponseView::DatabaseError(m) => fail_with(resource, OperatorErrorView::MongoDB(m)),
            _ => (
                StateView::at(Phase::ListingIndexes),
                RequestView::ListIndexes { collection: resource.collection_name() },
            ),
        },
        Phase::ListingIndexes => match response {
            ResponseView::Indexes(found) => carry_on(
                resource,
                plan_for(resource, found).0,
                plan_for(resource, found).1,
                0,
                0,
            ),
            ResponseView::DatabaseError(m) => fail_with(resource, OperatorErrorView::MongoDB(m)),
            _ => validate(resource),
        },
        Phase::Dropping => match response {
            ResponseView::DatabaseError(m) => fail_with(resource, OperatorErrorView::MongoDB(m)),
            _ => carry_on(resource, state.drops, state.creates, state.position + 1, 0),
        },
        Phase::Creating => match response {
            ResponseView::DatabaseError(m) => fail_with(resource, OperatorErrorView::MongoDB(m)),
            _ => carry_on(
                resource,
                state.drops,
                state.creates,
                state.drops.len(),
                state.position + 1,
            ),
        },
        Phase::PatchingReady => match response {
            ResponseView::KubeError(m) => fail_with(resource, OperatorErrorView::StatusPatch(m)),
            _ => (StateView::at(Phase::Done), RequestView::Requeue(INTERVAL)),
        },
        _ => validate(resource),
    }
}

/// One step of the reconciliation of `resource`: the state and the request
/// that follow `state` on an outcome `response` that the state expects. A
/// resource whose status is not ready is made to wait before anything
/// else. An error of the work is written to the status and published as
/// an event before the reconciliation fails with it; where that writing or
/// publishing fails, the reconciliation fails with that failure instead.
pub open spec fn step(resource: MongoCollectionView, state: StateView, response: ResponseView) -> (
    StateView,
    RequestView,
) {
    match state.phase {
        Phase::Start => if resource.is_not_ready() {
            (StateView::at(Phase::Sleeping), RequestView::Sleep(BACK_OFF))
        } else {
            action_step(resource, state, response)
        },
        Phase::PatchingError => match response {
            ResponseView::KubeError(m) => fail_with(resource, OperatorErrorView::StatusPatch(m)),
            _ => (
                StateView { error: state.error, ..StateView::at(Phase::Publishing) },
                RequestView::PublishEvent {
                    event: error_event(state.error->0),
                    reference: reference_to(resource.metadata),
                },
            ),
        },
        Phase::Publishing => match response {
            ResponseView::KubeError(m) => (
                StateView::at(Phase::Done),
                RequestView::Fail(OperatorErrorView::Kube(m)),
            ),
            _ => (StateView::at(Phase::Done), RequestView::Fail(state.error->0)),
        },
        _ => action_step(resource, state, response),
    }
}

impl State {
    /// The state of a reconciliation that has not begun.
    pub fn new() -> (s: State)
        ensures
            s@ == StateView::at(Phase::Start),
    {
        State::at(Phase::Start)
    }

    fn at(phase: Phase) -> (s: State)
        ensures
            s@ == StateView::at(phase),
    {
        let s = State {
            phase,
            drops: Vec::new(),
            creates: Vec::new(),
            position: 0,
            error: None,
        };
        assert(s@.drops =~= Seq::<Seq<char>>::empty());
        assert(s@.creates =~= Seq::<IndexModelView>::empty());
        s
    }

    /// Whether the outcome `response` can follow what the state asked for.
    pub fn accepts(&self, response: &Response) -> (r: bool)
        ensures
            r == self@.expects(response@),
    {
        assert(texts(self.drops@).len() == self.drops@.len());
        assert(model_views(self.creates@).len() == self.creates@.len());
        match self.phase {
            Phase::Start => match response {
                Response::Start => true,
                _ => false,
            },
            Phase::Sleeping => match response {
                Response::Done => true,
                _ => false,
            },
            Phase::ListingCollections => match response {
                Response::CollectionNames(_) => true,
                Response::DatabaseError(_) => true,
                _ => false,
            },
            Phase::CreatingCollection => match response {
                Response::Done => true,
                Response::DatabaseError(_) => true,
                _ => false,
            },
            Phase::ListingIndexes => match response {
                Response::Indexes(_) => true,
                Response::DatabaseError(_) => true,
                _ => false,
            },
            Phase::Dropping => (match response {
                Response::Done => true,
                Response::DatabaseError(_) => true,
                _ => false,
            }) && self.position < self.drops.len(),
            Phase::Creating => (match response {
                Response::Done => true,
                Response::DatabaseError(_) => true,
                _ => false,
            }) && self.position < self.creates.len(),
            Phase::PatchingReady => match response {
                Response::Done => true,
                Response::KubeError(_) => true,
                _ => false,
            },
            Phase::PatchingError => (match response {
                Response::Done => true,
                Response::KubeError(_) => true,
                _ => false,
            }) && self.error.is_some(),
            Phase::Publishing => (match response {
                Response::Done => true,
                Response::KubeError(_) => true,
                _ => false,
            }) && self.error.is_some(),
            Phase::Done => false,
        }
    }

    /// Whether the reconciliation is over.
    pub fn is_done(&self) -> (r: bool)
        ensures
            r == (self@.phase == Phase::Done),
    {
        self.phase == Phase::Done
    }
}

fn fail(obj: &MongoCollection, error: OperatorError) -> (r: (State, Request))
    ensures
        (r.0@, r.1@) == fail_with(obj@, error@),
{
    match error {
        OperatorError::StatusPatch(m) => (
            State::at(Phase::Done),
            Request::Fail(OperatorError::StatusPatch(m)),
        ),
        other => {
            let patch = patch_status(obj, Some(&other));
            let mut state = State::at(Phase::PatchingError);
            state.error = Some(other);
            (state, Request::PatchStatus(patch))
        },
    }
}

fn begin(obj: &MongoCollection) -> (r: (State, Request))
    ensures
        (r.0@, r.1@) == validate(obj@),
{
    let invalid = invalid_keys(
        match &obj.spec.indexes {
            Some(v) => Some(v.as_slice()),
            None => None,
        },
    );
    assert(texts(invalid@).len() == invalid@.len());
    if invalid.len() > 0 {
        fail(obj, OperatorError::InvalidKeys(join(&invalid, ", ")))
    } else {
        (State::at(Phase::ListingCollections), Request::ListCollectionNames)
    }
}

fn complete(obj: &MongoCollection, changed: bool) -> (r: (State, Request))
    ensures
        (r.0@, r.1@) == finish(obj@, changed),
{
    if changed || obj.status.is_none() || is_not_ready(obj) {
        (State::at(Phase::PatchingReady), Request::PatchStatus(patch_status(obj, None)))
    } else {
        (State::at(Phase::Done), Request::Requeue(INTERVAL))
    }
}

fn proceed(
    obj: &MongoCollection,
    drops: Vec<String>,
    creates: Vec<IndexModel>,
    dropped: usize,
    created: usize,
) -> (r: (State, Request))
    ensures
        (r.0@, r.1@) == carry_on(
            obj@,
            texts(drops@),
            model_views(creates@),
            dropped as nat,
            created as nat,
        ),
{
    assert(texts(drops@).len() == drops@.len());
    assert(model_views(creates@).len() == creates@.len());
    if dropped < drops.len() {
        let name = drops[dropped].clone();
        assert(texts(drops@)[dropped as int] == name@);
        (
            State { phase: Phase::Dropping, drops, creates, position: dropped, error: None },
            Request::DropIndex { collection: String::from_str(collection_name(obj)), name },
        )
    } else if created < creates.len() {
        let index = creates[created].duplicate();
        assert(model_views(creates@)[created as int] == index@);
        (
            State { phase: Phase::Creating, drops, creates, position: created, error: None },
            Request::CreateIndex { collection: String::from_str(collection_name(obj)), index },
        )
    } else {
        complete(obj, drops.len() > 0 || creates.len() > 0)
    }
}

/// One step of the work of a reconciliation, for a state in which the
/// work has not failed.
pub fn reconcile_action(obj: &MongoCollection, state: State, response: Response) -> (r: (
    State,
    Request,
))
    requires
        state@.expects(response@),
        !state@.has_failed(),
    ensures
        (r.0@, r.1@) == action_step(obj@, state@, response@),
{
    assert(texts(state.drops@).len() == state.drops@.len());
    assert(model_views(state.creates@).len() == state.creates@.len());
    match state.phase {
        Phase::ListingCollections => match response {
            Response::CollectionNames(names) => {
                if collection_exists(names.as_slice(), collection_name(obj)) {
                    (
                        State::at(Phase::ListingIndexes),
                        Request::ListIndexes { collection: String::from_str(collection_name(obj)) },
                    )
                } else {
                    (
                        State::at(Phase::CreatingCollection),
                        Request::CreateCollection(create_collection(collection_name(obj), obj)),
                    )
                }
            },
            Response::DatabaseError(m) => fail(obj, OperatorError::MongoDB(m)),
            _ => begin(obj),
        },
        Phase::CreatingCollection => match response {
            Response::DatabaseError(m) => fail(obj, OperatorError::MongoDB(m)),
            _ => (
                State::at(Phase::ListingIndexes),
                Request::ListIndexes { collection: String::from_str(collection_name(obj)) },
            ),
        },
        Phase::ListingIndexes => match response {
            Response::Indexes(found) => {
                let plan = reconcile_indexes(obj.spec.indexes.as_ref(), found.as_slice());
                assert(texts(plan.drops@) == plan_for(obj@, model_views(found@)).0);
                assert(model_views(plan.creates@) == plan_for(obj@, model_views(found@)).1);
                proceed(obj, plan.drops, plan.creates, 0, 0)
            },
            Response::DatabaseError(m) => fail(obj, OperatorError::MongoDB(m)),
            _ => begin(obj),
        },
        Phase::Dropping => match response {
            Response::DatabaseError(m) => fail(obj, OperatorError::MongoDB(m)),
            _ => {
                let planned = state.drops.len();
                assert(state.position < planned);
                let position = state.position + 1;
                proceed(obj, state.drops, state.creates, position, 0)
            },
        },
        Phase::Creating => match response {
            Response::DatabaseError(m) => fail(obj, OperatorError::MongoDB(m)),
            _ => {
                let planned = state.creates.len();
                assert(state.position < planned);
                let dropped = state.drops.len();
                let position = state.position + 1;
                proceed(obj, state.drops, state.creates, dropped, position)
            },
        },
        Phase::PatchingReady => match response {
            Response::KubeError(m) => fail(obj, OperatorError::StatusPatch(m)),
            _ => (State::at(Phase::Done), Request::Requeue(INTERVAL)),
        },
        _ => begin(obj),
    }
}

/// One step of the reconciliation of a resource: takes the state and the
/// outcome of the last request, and gives the next state and request. It
/// begins in `State::new()` with `Response::Start` and is over with a
/// request to requeue or to fail.
pub fn reconcile(obj: &MongoCollection, state: State, response: Response) -> (r: (State, Request))
    requires
        state@.expects(response@),
    ensures
        (r.0@, r.1@) == step(obj@, state@, response@),
{
    match state.phase {
        Phase::Start => {
            if is_not_ready(obj) {
                (State::at(Phase::Sleeping), Request::Sleep(BACK_OFF))
            } else {
                reconcile_action(obj, state, response)
            }
        },
        Phase::PatchingError => match response {
            Response::KubeError(m) => fail(obj, OperatorError::StatusPatch(m)),
            _ => {
                match state.error {
                    Some(e) => {
                        let request = Request::PublishEvent {
                            event: event(&e),
                            reference: object_reference(obj),
                        };
                        let mut next = State::at(Phase::Publishing);
                        next.error = Some(e);
                        (next, request)
                    },
                    None => (State::at(Phase::Done), Request::Requeue(INTERVAL)),
                }
            },
        },
        Phase::Publishing => match response {
            Response::KubeError(m) => (
                State::at(Phase::Done),
                Request::Fail(OperatorError::Kube(m)),
            ),
            _ => match state.error {
                Some(e) => (State::at(Phase::Done), Request::Fail(e)),
                None => (State::at(Phase::Done), Request::Requeue(INTERVAL)),
            },
        },
        _ => reconcile_action(obj, state, response),
    }
}

// ---------------------------------------------------------------------
// What holds of every reconciliation
// ---------------------------------------------------------------------
/// The state after the first `n` of the outcomes `responses`, beginning
/// with the state of a reconciliation that has not begun.
pub open spec fn state_after(
    resource: MongoCollectionView,
    responses: Seq<ResponseView>,
    n: int,
) -> StateView
    decreases n,
{
    if n <= 0 {
        StateView::at(Phase::Start)
    } else {
        step(resource, state_after(resource, responses, n - 1), responses[n - 1]).0
    }
}

/// The request that answers the `n`-th of the outcomes `responses`,
/// counted from one.
pub open spec fn request_after(
    resource: MongoCollectionView,
    responses: Seq<ResponseView>,
    n: int,
) -> RequestView {
    step(resource, state_after(resource, responses, n - 1), responses[n - 1]).1
}

/// The error that a resource with an invalid key fails with.
pub open spec fn invalid_keys_error(resource: MongoCollectionView) -> OperatorErrorView {
    OperatorErrorView::InvalidKeys(
        joined(
            invalid_key_fields(resource.spec.indexes),
            ", "@,
            invalid_key_fields(resource.spec.indexes).len() as int,
        ),
    )
}

/// Where a reconciliation of a resource with an invalid key stands: it
/// waits, or it has failed with the error for the invalid keys, or it is
/// over.
pub open spec fn rejected(resource: MongoCollectionView, state: StateView) -> bool {
    ||| state.phase == Phase::Start
    ||| state.phase == Phase::Sleeping
    ||| state.phase == Phase::Done
    ||| (state.has_failed() && state.error == Some(invalid_keys_error(resource)))
}

/// One step of the reconciliation of a resource with an invalid key never
/// asks for a change of the database and never ends well: it ends with
/// the error for the invalid keys, or with the failure to write the status
/// or to publish the event.
pub proof fn lemma_invalid_keys_step(
    resource: MongoCollectionView,
    state: StateView,
    response: ResponseView,
)
    requires
        has_invalid_key(resource.spec.indexes),
        rejected(resource, state),
    ensures
        rejected(resource, step(resource, state, response).0),
        !step(resource, state, response).1.touches_database(),
        !(step(resource, state, response).1 is Requeue),
        !(step(resource, state, response).1 is ListCollectionNames),
        !(step(resource, state, response).1 is ListIndexes),
        step(resource, state, response).1 matches RequestView::Fail(e) ==> e
            == invalid_keys_error(resource) || e is StatusPatch || e is Kube,
        step(resource, state, response).1 matches RequestView::PatchStatus(p) ==> p.status
            == StatusUpdateView::Error(invalid_keys_error(resource).message()),
{
    lemma_invalid_key_fields(resource.spec.indexes);
}

/// A resource of which some key has both a direction and an index type is
/// rejected: whatever the outcomes of its requests, the reconciliation
/// asks for no change of the collection or of its indexes, and it does not
/// end well.
pub proof fn lemma_invalid_keys_touch_nothing(
    resource: MongoCollectionView,
    responses: Seq<ResponseView>,
    n: int,
)
    requires
        has_invalid_key(resource.spec.indexes),
        1 <= n <= responses.len(),
    ensures
        rejected(resource, state_after(resource, responses, n)),
        !request_after(resource, responses, n).touches_database(),
        !(request_after(resource, responses, n) is Requeue),
        request_after(resource, responses, n) matches RequestView::Fail(e) ==> e
            == invalid_keys_error(resource) || e is StatusPatch || e is Kube,
    decreases n,
{
    if n > 1 {
        lemma_invalid_keys_touch_nothing(resource, responses, n - 1);
    }
    lemma_invalid_keys_step(
        resource,
        state_after(resource, responses, n - 1),
        responses[n - 1],
    );
}

/// The status follows the outcome. A reconciliation ends well only after
/// it has written a ready status, or for a resource whose status is ready
/// already. An error status holds the message of the error that the state
/// keeps, and only that error or a failure to write or to publish it ends
/// the reconciliation.
pub proof fn lemma_status_follows_outcome(
    resource: MongoCollectionView,
    state: StateView,
    response: ResponseView,
)
    requires
        state.expects(response),
    ensures
        step(resource, state, response).1 is Requeue ==> step(resource, state, response).1
            == RequestView::Requeue(INTERVAL) && (state.phase == Phase::PatchingReady
            || resource.status == Some(Status { ready: true })),
        step(resource, state, response).1 matches RequestView::PatchStatus(p) ==> p
            == status_patch(resource, step(resource, state, response).0.error) && (p.status
            is Ready <==> step(resource, state, response).0.phase == Phase::PatchingReady) && (
        p.status is Error <==> step(resource, state, response).0.phase == Phase::PatchingError),
        step(resource, state, response).0.phase == Phase::Publishing ==> state.phase
            == Phase::PatchingError && response is Done && step(resource, state, response).0.error
            == state.error,
        step(resource, state, response).1 matches RequestView::Fail(e) ==> e is StatusPatch || (
        state.phase == Phase::Publishing && (e is Kube || state.error == Some(e))),
{
}

/// The place of a phase in the order of the work.
pub open spec fn rank(phase: Phase) -> int {
    match phase {
        Phase::Start => 0,
        Phase::Sleeping => 1,
        Phase::ListingCollections => 2,
        Phase::CreatingCollection => 3,
        Phase::ListingIndexes => 4,
        Phase::Dropping => 5,
        Phase::Creating => 6,
        Phase::PatchingReady => 7,
        Phase::PatchingError => 8,
        Phase::Publishing => 9,
        Phase::Done => 10,
    }
}

/// A reconciliation never goes back: each step stays in its phase or
/// moves to a later one, and it asks for a drop only in the phase of the
/// drops and for a creation only in the phase of the creations. So within
/// one reconciliation every drop is done before the first creation is
/// asked for, and the collection is there before its indexes are touched.
pub proof fn lemma_phases_advance(
    resource: MongoCollectionView,
    state: StateView,
    response: ResponseView,
)
    requires
        state.expects(response),
    ensures
        rank(state.phase) <= rank(step(resource, state, response).0.phase),
        step(resource, state, response).1 is CreateCollection <==> step(
            resource,
            state,
            response,
        ).0.phase == Phase::CreatingCollection,
        step(resource, state, response).1 is DropIndex <==> step(resource, state, response).0.phase
            == Phase::Dropping,
        step(resource, state, response).1 is CreateIndex <==> step(
            resource,
            state,
            response,
        ).0.phase == Phase::Creating,
        step(resource, state, response).1.is_final() <==> step(resource, state, response).0.phase
            == Phase::Done,
        step(resource, state, response).0.phase == Phase::Dropping ==> step(
            resource,
            state,
            response,
        ).0.position < step(resource, state, response).0.drops.len(),
        step(resource, state, response).0.phase == Phase::Creating ==> step(
            resource,
            state,
            response,
        ).0.position < step(resource, state, response).0.creates.len(),
        step(resource, state, response).0.has_failed() ==> step(resource, state, response).0.error
            is Some,
{
}

/// A drop or a creation that was carried out is followed by the next one
/// of the plan, which stays as it is: the drops are asked for one by one
/// in the order of the plan, then the creations.
pub proof fn lemma_plan_is_followed(
    resource: MongoCollectionView,
    state: StateView,
    response: ResponseView,
)
    requires
        state.expects(response),
        response is Done,
        state.phase == Phase::Dropping || state.phase == Phase::Creating,
    ensures
        ({
            let next = step(resource, state, response).0;
            let request = step(resource, state, response).1;
            &&& (next.phase == Phase::Dropping || next.phase == Phase::Creating) ==> next.drops
                == state.drops && next.creates == state.creates
            &&& next.phase == Phase::Dropping ==> state.phase == Phase::Dropping && next.position
                == state.position + 1 && request == (RequestView::DropIndex {
                collection: resource.collection_name(),
                name: state.drops[state.position as int + 1],
            })
            &&& next.phase == Phase::Creating ==> next.position == (if state.phase
                == Phase::Creating {
                state.position + 1
            } else {
                0
            }) && request == (RequestView::CreateIndex {
                collection: resource.collection_name(),
                index: state.creates[next.position as int],
            })
            &&& state.phase == Phase::Dropping && state.position + 1 < state.drops.len()
                ==> next.phase == Phase::Dropping
            &&& state.phase == Phase::Creating && state.position + 1 < state.creates.len()
                ==> next.phase == Phase::Creating
        }),
{
}

/// A reconciliation that finds the declared and the observed indexes in
/// step asks for no drop and no creation: it goes on to the status.
pub proof fn lemma_in_sync_asks_for_no_change(
    resource: MongoCollectionView,
    state: StateView,
    found: Seq<IndexModelView>,
)
    requires
        state.phase == Phase::ListingIndexes,
        in_sync(
            declared_indexes(resource.spec.indexes),
            observed_indexes(found, found.len() as int),
        ),
    ensures
        ({
            let next = step(resource, state, ResponseView::Indexes(found));
            &&& !next.1.touches_database()
            &&& next.0.phase == Phase::PatchingReady || next.0.phase == Phase::Done
            &&& next.1 is Requeue <==> resource.status == Some(Status { ready: true })
        }),
{
    lemma_in_sync_changes_nothing(
        declared_indexes(resource.spec.indexes),
        observed_indexes(found, found.len() as int),
    );
}

} // verus!
