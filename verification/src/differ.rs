//! The index differ: which observed indexes to drop and which declared
//! indexes to create.

use crate::driver;
use crate::mapping::indexes::{
    clustered_name, index_model, index_models_to_indexes, index_to_model, model_views,
    not_clustered, observed_indexes,
};
use crate::resource::{Index, index_views, IndexView};
use crate::text::texts;
use vstd::prelude::*;

verus! {

/// Whether `list` holds an index that is equivalent to `index`.
pub open spec fn has_equivalent(list: Seq<IndexView>, index: IndexView) -> bool {
    exists|j: int| 0 <= j < list.len() && (#[trigger] list[j]).equivalent(index)
}

/// Among the first `n` observed indexes, the names of those that no
/// declared index is equivalent to, in their order. An index without a
/// name cannot be dropped and is passed over.
pub open spec fn names_to_drop(specified: Seq<IndexView>, found: Seq<IndexView>, n: int) -> Seq<
    Seq<char>,
>
    decreases n,
{
    if n <= 0 {
        Seq::empty()
    } else if !has_equivalent(specified, found[n - 1]) && found[n - 1].name() is Some {
        names_to_drop(specified, found, n - 1).push(found[n - 1].name()->0)
    } else {
        names_to_drop(specified, found, n - 1)
    }
}

/// Among the first `n` declared indexes, those that no observed index is
/// equivalent to, in their order.
pub open spec fn indexes_to_create(specified: Seq<IndexView>, found: Seq<IndexView>, n: int) -> Seq<
    IndexView,
>
    decreases n,
{
    if n <= 0 {
        Seq::empty()
    } else if !has_equivalent(found, specified[n - 1]) {
        indexes_to_create(specified, found, n - 1).push(specified[n - 1])
    } else {
        indexes_to_create(specified, found, n - 1)
    }
}

/// The driver's descriptions of a list of indexes.
pub open spec fn index_models(indexes: Seq<IndexView>) -> Seq<driver::IndexModelView> {
    Seq::new(indexes.len(), |i: int| index_model(indexes[i]))
}

/// Whether `list` holds an index that is equivalent to `index`.
pub fn contains_index(list: &[Index], index: &Index) -> (r: bool)
    ensures
        r == has_equivalent(index_views(list@), index@),
{
    let mut j: usize = 0;
    while j < list.len()
        invariant
            j <= list.len(),
            forall|k: int| 0 <= k < j ==> !(#[trigger] index_views(list@)[k]).equivalent(index@),
        decreases list.len() - j,
    {
        if list[j].same(index) {
            assert(index_views(list@)[j as int].equivalent(index@));
            return true;
        }
        j += 1;
    }
    false
}

/// The names of the observed indexes to drop: those that have a name and
/// that no declared index is equivalent to.
pub fn drop_not_specified(specified: &[Index], found: &[Index]) -> (names: Vec<String>)
    ensures
        texts(names@) == names_to_drop(
            index_views(specified@),
            index_views(found@),
            found@.len() as int,
        ),
{
    let mut names: Vec<String> = Vec::new();
    let mut i: usize = 0;
    while i < found.len()
        invariant
            i <= found@.len(),
            texts(names@) == names_to_drop(
                index_views(specified@),
                index_views(found@),
                i as int,
            ),
        decreases found@.len() - i,
    {
        let ghost before = names@;
        if !contains_index(specified, &found[i]) {
            match &found[i].options {
                Some(o) => match &o.name {
                    Some(n) => {
                        names.push(n.clone());
                        assert(texts(names@) =~= texts(before).push(n@));
                    },
                    None => {},
                },
                None => {},
            }
        }
        i += 1;
    }
    names
}

/// The driver's descriptions of the declared indexes to create: those that
/// no observed index is equivalent to.
pub fn create_new_indexes(specified: &[Index], found: &[Index]) -> (models: Vec<
    driver::IndexModel,
>)
    ensures
        model_views(models@) == index_models(
            indexes_to_create(
                index_views(specified@),
                index_views(found@),
                specified@.len() as int,
            ),
        ),
{
    let mut models: Vec<driver::IndexModel> = Vec::new();
    let mut i: usize = 0;
    while i < specified.len()
        invariant
            i <= specified@.len(),
            model_views(models@) == index_models(
                indexes_to_create(index_views(specified@), index_views(found@), i as int),
            ),
        decreases specified@.len() - i,
    {
        let ghost before = models@;
        let ghost chosen = indexes_to_create(
            index_views(specified@),
            index_views(found@),
            i as int,
        );
        if !contains_index(found, &specified[i]) {
            let model = index_to_model(&specified[i]);
            models.push(model);
            proof {
                let after = index_models(chosen.push(specified[i as int]@));
                assert(model_views(before) == index_models(chosen));
                assert(model_views(before).len() == before.len());
                assert(index_models(chosen).len() == chosen.len());
                assert(model_views(models@).len() == after.len());
                assert forall|k: int| 0 <= k < after.len() implies model_views(models@)[k]
                    == after[k] by {
                    if k < before.len() {
                        assert(model_views(models@)[k] == model_views(before)[k]);
                        assert(after[k] == index_models(chosen)[k]);
                    }
                }
                assert(model_views(models@) =~= after);
                assert(index_views(specified@)[i as int] == specified[i as int]@);
            }
        }
        i += 1;
    }
    models
}

/// What one reconciliation does to the indexes of a collection: first the
/// drops, then the creations, each list in its order.
#[derive(Debug)]
pub struct IndexPlan {
    pub drops: Vec<String>,
    pub creates: Vec<driver::IndexModel>,
}

impl IndexPlan {
    /// Whether the plan drops or creates anything.
    pub open spec fn changes(self) -> bool {
        self.drops@.len() + self.creates@.len() > 0
    }

    pub fn changed(&self) -> (r: bool)
        ensures
            r == self.changes(),
    {
        self.drops.len() > 0 || self.creates.len() > 0
    }
}

/// The indexes that a resource declares: its list of indexes, and none
/// where it has no list.
pub open spec fn declared_indexes(indexes: Option<Seq<IndexView>>) -> Seq<IndexView> {
    match indexes {
        Some(declared) => declared,
        None => Seq::empty(),
    }
}

/// The plan for the declared indexes against the indexes that the database
/// reports. The index on `_id` takes no part. A resource without a list of
/// indexes declares none, so that every other observed index that has a
/// name is dropped.
pub fn reconcile_indexes(indexes: Option<&Vec<Index>>, found: &[driver::IndexModel]) -> (plan:
    IndexPlan)
    ensures
        ({
            let declared = declared_indexes(
                match indexes {
                    Some(list) => Some(index_views(list@)),
                    None => None,
                },
            );
            let observed = observed_indexes(model_views(found@), found@.len() as int);
            &&& texts(plan.drops@) == names_to_drop(declared, observed, observed.len() as int)
            &&& model_views(plan.creates@) == index_models(
                indexes_to_create(declared, observed, declared.len() as int),
            )
        }),
{
    let observed = index_models_to_indexes(found);
    assert(index_views(observed@).len() == observed@.len());
    match indexes {
        Some(declared) => {
            assert(index_views(declared@).len() == declared@.len());
            IndexPlan {
                drops: drop_not_specified(declared.as_slice(), observed.as_slice()),
                creates: create_new_indexes(declared.as_slice(), observed.as_slice()),
            }
        },
        None => {
            let declared: Vec<Index> = Vec::new();
            assert(index_views(declared@) =~= Seq::<IndexView>::empty());
            IndexPlan {
                drops: drop_not_specified(declared.as_slice(), observed.as_slice()),
                creates: create_new_indexes(declared.as_slice(), observed.as_slice()),
            }
        },
    }
}

/// Every declared index has an equivalent among the observed ones, and no
/// observed index lacks an equivalent among the declared ones.
pub open spec fn in_sync(specified: Seq<IndexView>, found: Seq<IndexView>) -> bool {
    &&& forall|i: int| 0 <= i < found.len() ==> has_equivalent(specified, #[trigger] found[i])
    &&& forall|i: int| 0 <= i < specified.len() ==> has_equivalent(found, #[trigger] specified[i])
}

/// Nothing is dropped of observed indexes that all have an equivalent
/// among the declared ones.
pub proof fn lemma_nothing_to_drop(specified: Seq<IndexView>, found: Seq<IndexView>, n: int)
    requires
        0 <= n <= found.len(),
        forall|i: int| 0 <= i < found.len() ==> has_equivalent(specified, #[trigger] found[i]),
    ensures
        names_to_drop(specified, found, n) == Seq::<Seq<char>>::empty(),
    decreases n,
{
    if n > 0 {
        lemma_nothing_to_drop(specified, found, n - 1);
        assert(has_equivalent(specified, found[n - 1]));
    }
}

/// Nothing is created of declared indexes that all have an equivalent
/// among the observed ones.
pub proof fn lemma_nothing_to_create(specified: Seq<IndexView>, found: Seq<IndexView>, n: int)
    requires
        0 <= n <= specified.len(),
        forall|i: int| 0 <= i < specified.len() ==> has_equivalent(found, #[trigger] specified[i]),
    ensures
        indexes_to_create(specified, found, n) == Seq::<IndexView>::empty(),
    decreases n,
{
    if n > 0 {
        lemma_nothing_to_create(specified, found, n - 1);
        assert(has_equivalent(found, specified[n - 1]));
    }
}

/// A reconciliation that finds the declared and the observed indexes in
/// step drops nothing and creates nothing: run twice with nothing changed
/// in between, the second run leaves the database as it is.
pub proof fn lemma_in_sync_changes_nothing(specified: Seq<IndexView>, found: Seq<IndexView>)
    requires
        in_sync(specified, found),
    ensures
        names_to_drop(specified, found, found.len() as int) == Seq::<Seq<char>>::empty(),
        indexes_to_create(specified, found, specified.len() as int) == Seq::<IndexView>::empty(),
{
    lemma_nothing_to_drop(specified, found, found.len() as int);
    lemma_nothing_to_create(specified, found, specified.len() as int);
}

/// Every name to drop is the name of an observed index that no declared
/// index is equivalent to.
pub proof fn lemma_dropped_names(
    specified: Seq<IndexView>,
    found: Seq<IndexView>,
    n: int,
    name: Seq<char>,
)
    requires
        0 <= n <= found.len(),
        names_to_drop(specified, found, n).contains(name),
    ensures
        exists|i: int|
            0 <= i < n && (#[trigger] found[i]).name() == Some(name) && !has_equivalent(
                specified,
                found[i],
            ),
    decreases n,
{
    if n > 0 {
        let rest = names_to_drop(specified, found, n - 1);
        if !has_equivalent(specified, found[n - 1]) && found[n - 1].name() is Some {
            let all = rest.push(found[n - 1].name()->0);
            let k = choose|k: int| 0 <= k < all.len() && all[k] == name;
            if k < rest.len() {
                assert(rest[k] == name);
                lemma_dropped_names(specified, found, n - 1, name);
            } else {
                assert(found[n - 1].name() == Some(name));
            }
        } else {
            lemma_dropped_names(specified, found, n - 1, name);
        }
    }
}

/// No observed index is the index on `_id`.
pub proof fn lemma_observed_not_clustered(models: Seq<driver::IndexModelView>, n: int, i: int)
    requires
        0 <= n <= models.len(),
        0 <= i < observed_indexes(models, n).len(),
    ensures
        not_clustered(observed_indexes(models, n)[i]),
    decreases n,
{
    if n > 0 {
        let rest = observed_indexes(models, n - 1);
        if i < rest.len() {
            lemma_observed_not_clustered(models, n - 1, i);
        }
    }
}

/// The index on `_id` is never dropped, whatever the resource declares
/// and whatever the database reports.
pub proof fn lemma_clustered_never_dropped(
    specified: Seq<IndexView>,
    models: Seq<driver::IndexModelView>,
)
    ensures
        !names_to_drop(
            specified,
            observed_indexes(models, models.len() as int),
            observed_indexes(models, models.len() as int).len() as int,
        ).contains(clustered_name()),
{
    let observed = observed_indexes(models, models.len() as int);
    let names = names_to_drop(specified, observed, observed.len() as int);
    if names.contains(clustered_name()) {
        lemma_dropped_names(specified, observed, observed.len() as int, clustered_name());
        let i = choose|i: int|
            0 <= i < observed.len() && (#[trigger] observed[i]).name() == Some(clustered_name())
                && !has_equivalent(specified, observed[i]);
        lemma_observed_not_clustered(models, models.len() as int, i);
    }
}

/// An observed index stays where some declared index is equivalent to it.
pub open spec fn is_kept(specified: Seq<IndexView>, index: IndexView) -> bool {
    has_equivalent(specified, index)
}

/// A declared index is created where no observed index is equivalent to
/// it.
pub open spec fn is_created(found: Seq<IndexView>, index: IndexView) -> bool {
    !has_equivalent(found, index)
}

/// Whether `after` is what the database may report once the plan for
/// `specified` against `found` was carried out and nothing else changed
/// the collection: the kept indexes are still there, each created index is
/// there in a form equivalent to its declaration, and nothing else is.
pub open spec fn carried_out(
    specified: Seq<IndexView>,
    found: Seq<IndexView>,
    after: Seq<IndexView>,
) -> bool {
    &&& forall|i: int|
        0 <= i < found.len() && is_kept(specified, #[trigger] found[i]) ==> after.contains(
            found[i],
        )
    &&& forall|j: int|
        0 <= j < specified.len() && is_created(found, #[trigger] specified[j]) ==> has_equivalent(
            after,
            specified[j],
        )
    &&& forall|k: int|
        0 <= k < after.len() ==> (found.contains(#[trigger] after[k]) && is_kept(
            specified,
            after[k],
        )) || has_equivalent(specified, after[k])
}

/// After a successful reconciliation the observed indexes are in step
/// with the declared ones, where the indexes that the database reported
/// before are valid.
pub proof fn lemma_convergence(
    specified: Seq<IndexView>,
    found: Seq<IndexView>,
    after: Seq<IndexView>,
)
    requires
        carried_out(specified, found, after),
        forall|i: int| 0 <= i < found.len() ==> (#[trigger] found[i]).valid(),
    ensures
        in_sync(specified, after),
{
    assert forall|k: int| 0 <= k < after.len() implies has_equivalent(
        specified,
        #[trigger] after[k],
    ) by {}
    assert forall|j: int| 0 <= j < specified.len() implies has_equivalent(
        after,
        #[trigger] specified[j],
    ) by {
        if !is_created(found, specified[j]) {
            let i = choose|i: int|
                0 <= i < found.len() && (#[trigger] found[i]).equivalent(specified[j]);
            found[i].lemma_equivalent_symmetric(specified[j]);
            assert(specified[j].equivalent(found[i]));
            assert(is_kept(specified, found[i]));
            assert(after.contains(found[i]));
            let k = choose|k: int| 0 <= k < after.len() && after[k] == found[i];
            assert(after[k].equivalent(specified[j]));
        }
    }
}

/// Reconciling twice with nothing else changing the collection leaves
/// the indexes alone the second time: the plan against what the database
/// reports after the first plan was carried out drops nothing and creates
/// nothing.
pub proof fn lemma_second_plan_changes_nothing(
    specified: Seq<IndexView>,
    found: Seq<IndexView>,
    after: Seq<IndexView>,
)
    requires
        carried_out(specified, found, after),
        forall|i: int| 0 <= i < found.len() ==> (#[trigger] found[i]).valid(),
    ensures
        names_to_drop(specified, after, after.len() as int) == Seq::<Seq<char>>::empty(),
        indexes_to_create(specified, after, specified.len() as int) == Seq::<IndexView>::empty(),
{
    lemma_convergence(specified, found, after);
    lemma_in_sync_changes_nothing(specified, after);
}

} // verus!
