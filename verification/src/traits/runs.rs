//! Whole runs of the write protocol: what a caller that runs every request
//! and hands back every reply asks the store for, and what it ends with.

use vstd::prelude::*;
use crate::error::{classify, DataInsertErrorView, DUPLICATE_KEY_CODE};
use crate::store::{IndexRequestView, InsertOneResult, StoreErrorView};
use crate::traits::model_traits::{
    index_request_at, index_step_after, index_step_at, save_first_step, save_result,
    save_step_after, save_step_for, IndexStepView, SaveStepView,
};
use crate::validation::ValidationErrorsView;

verus! {

/// A request that a save puts to the store.
pub enum WriteRequestView {
    EnsureIndex(IndexRequestView),
    Insert { collection: Seq<char> },
}

/// The requests of a run, in the order in which they are put, and what the
/// run ends with.
pub struct IndexRun {
    pub requests: Seq<IndexRequestView>,
    pub result: Result<(), DataInsertErrorView>,
}

/// The requests of a save, in the order in which they are put, and what the
/// save ends with.
pub struct SaveRun {
    pub requests: Seq<WriteRequestView>,
    pub result: Result<InsertOneResult, DataInsertErrorView>,
}

/// A bound on the requests that are still to come after `position`.
pub open spec fn requests_left(fields: Seq<Seq<char>>, position: int) -> nat {
    if -1 <= position < fields.len() - 1 {
        (fields.len() - position) as nat
    } else {
        1
    }
}

/// The run of ensuring the unique indexes from `step` on, against a store
/// that answers an index request `r` with `index_reply(r)`.
pub open spec fn index_run(
    collection: Seq<char>,
    fields: Seq<Seq<char>>,
    step: IndexStepView,
    index_reply: spec_fn(IndexRequestView) -> Result<(), StoreErrorView>,
) -> IndexRun
    decreases
            (match step {
                IndexStepView::Ensure { position, .. } => requests_left(fields, position),
                IndexStepView::Done(_) => 0,
            }),
{
    match step {
        IndexStepView::Done(result) => IndexRun { requests: Seq::empty(), result },
        IndexStepView::Ensure { request, position } => {
            let rest = index_run(
                collection,
                fields,
                index_step_after(collection, fields, position, index_reply(request)),
                index_reply,
            );
            IndexRun { requests: seq![request] + rest.requests, result: rest.result }
        },
    }
}

/// The run of a save from `step` on, against a store that answers an index
/// request `r` with `index_reply(r)` and the insert with `insert_reply`.
pub open spec fn save_run(
    collection: Seq<char>,
    fields: Seq<Seq<char>>,
    step: SaveStepView,
    index_reply: spec_fn(IndexRequestView) -> Result<(), StoreErrorView>,
    insert_reply: Result<InsertOneResult, StoreErrorView>,
) -> SaveRun
    decreases
            (match step {
                SaveStepView::EnsureIndex { position, .. } => requests_left(fields, position),
                _ => 0,
            }),
{
    match step {
        SaveStepView::Done(result) => SaveRun { requests: Seq::empty(), result },
        SaveStepView::Insert { collection: into } => SaveRun {
            requests: seq![WriteRequestView::Insert { collection: into }],
            result: save_result(insert_reply),
        },
        SaveStepView::EnsureIndex { request, position } => {
            let rest = save_run(
                collection,
                fields,
                save_step_after(collection, fields, position, index_reply(request)),
                index_reply,
                insert_reply,
            );
            SaveRun {
                requests: seq![WriteRequestView::EnsureIndex(request)] + rest.requests,
                result: rest.result,
            }
        },
    }
}

/// The store accepts whatever index it is asked for.
pub open spec fn accepts_every_index(
    index_reply: spec_fn(IndexRequestView) -> Result<(), StoreErrorView>,
) -> bool {
    forall|request: IndexRequestView| (#[trigger] index_reply(request)) is Ok
}

/// The index requests for the unique fields from `position` on, one for each
/// field, in the order of the fields.
pub open spec fn index_requests_from(
    collection: Seq<char>,
    fields: Seq<Seq<char>>,
    position: int,
) -> Seq<IndexRequestView> {
    Seq::new(
        (fields.len() - position) as nat,
        |i: int| index_request_at(collection, fields, position + i),
    )
}

/// An entity that breaks a rule is turned away with its violations, and the
/// store is asked for nothing: no index is ensured and nothing is written.
pub proof fn lemma_invalid_entity_reaches_no_store(
    collection: Seq<char>,
    fields: Seq<Seq<char>>,
    violations: ValidationErrorsView,
    index_reply: spec_fn(IndexRequestView) -> Result<(), StoreErrorView>,
    insert_reply: Result<InsertOneResult, StoreErrorView>,
)
    requires
        violations.len() > 0,
    ensures
        save_run(
            collection,
            fields,
            save_first_step(collection, fields, violations),
            index_reply,
            insert_reply,
        ) == (SaveRun {
            requests: Seq::empty(),
            result: Err(DataInsertErrorView::FieldValidationError(violations)),
        }),
{
}

/// Against a store that accepts every index request, ensuring the unique
/// indexes from `position` on asks once for each remaining field, in order,
/// and succeeds.
pub proof fn lemma_indexes_ensured_one_per_field(
    collection: Seq<char>,
    fields: Seq<Seq<char>>,
    position: int,
    index_reply: spec_fn(IndexRequestView) -> Result<(), StoreErrorView>,
)
    requires
        0 <= position <= fields.len(),
        accepts_every_index(index_reply),
    ensures
        index_run(collection, fields, index_step_at(collection, fields, position), index_reply)
            == (IndexRun {
            requests: index_requests_from(collection, fields, position),
            result: Ok(()),
        }),
    decreases fields.len() - position,
{
    let step = index_step_at(collection, fields, position);
    let run = index_run(collection, fields, step, index_reply);
    if position < fields.len() {
        lemma_indexes_ensured_one_per_field(collection, fields, position + 1, index_reply);
        let request = index_request_at(collection, fields, position);
        assert(index_reply(request) is Ok);
        assert(index_step_after(collection, fields, position, index_reply(request))
            == index_step_at(collection, fields, position + 1));
        assert(run.requests =~= index_requests_from(collection, fields, position));
    } else {
        assert(run.requests =~= index_requests_from(collection, fields, position));
    }
}

/// Against a store that accepts every index request, a save from the index
/// at `position` on asks once for each remaining unique field, in order,
/// then for the insert, and ends with what the store's reply to the insert
/// comes to.
pub proof fn lemma_save_reaches_insert(
    collection: Seq<char>,
    fields: Seq<Seq<char>>,
    position: int,
    index_reply: spec_fn(IndexRequestView) -> Result<(), StoreErrorView>,
    insert_reply: Result<InsertOneResult, StoreErrorView>,
)
    requires
        0 <= position <= fields.len(),
        accepts_every_index(index_reply),
    ensures
        save_run(
            collection,
            fields,
            save_step_for(collection, index_step_at(collection, fields, position)),
            index_reply,
            insert_reply,
        ) == (SaveRun {
            requests: index_requests_from(collection, fields, position).map_values(
                |r: IndexRequestView| WriteRequestView::EnsureIndex(r),
            ).push(WriteRequestView::Insert { collection }),
            result: save_result(insert_reply),
        }),
    decreases fields.len() - position,
{
    let step = save_step_for(collection, index_step_at(collection, fields, position));
    let run = save_run(collection, fields, step, index_reply, insert_reply);
    let expected = index_requests_from(collection, fields, position).map_values(
        |r: IndexRequestView| WriteRequestView::EnsureIndex(r),
    ).push(WriteRequestView::Insert { collection });
    if position < fields.len() {
        lemma_save_reaches_insert(collection, fields, position + 1, index_reply, insert_reply);
        let request = index_request_at(collection, fields, position);
        assert(index_reply(request) is Ok);
        assert(save_step_after(collection, fields, position, index_reply(request))
            == save_step_for(collection, index_step_at(collection, fields, position + 1)));
        assert(run.requests =~= expected);
    } else {
        assert(run.requests =~= expected);
    }
}

/// A valid entity, saved against a store that accepts every request, is
/// written: the save ensures one unique index for each unique field, in
/// order, then inserts, and ends with the identifier that the store gave.
pub proof fn lemma_valid_entity_is_written(
    collection: Seq<char>,
    fields: Seq<Seq<char>>,
    violations: ValidationErrorsView,
    index_reply: spec_fn(IndexRequestView) -> Result<(), StoreErrorView>,
    inserted: InsertOneResult,
)
    requires
        violations.len() == 0,
        accepts_every_index(index_reply),
    ensures
        save_run(
            collection,
            fields,
            save_first_step(collection, fields, violations),
            index_reply,
            Ok(inserted),
        ) == (SaveRun {
            requests: index_requests_from(collection, fields, 0).map_values(
                |r: IndexRequestView| WriteRequestView::EnsureIndex(r),
            ).push(WriteRequestView::Insert { collection }),
            result: Ok(inserted),
        }),
{
    lemma_save_reaches_insert(collection, fields, 0, index_reply, Ok(inserted));
}

/// A valid entity whose insert the store refuses with the code for a
/// duplicate key is reported as a duplicate key, with the store's text.
pub proof fn lemma_refused_duplicate_is_reported(
    collection: Seq<char>,
    fields: Seq<Seq<char>>,
    violations: ValidationErrorsView,
    index_reply: spec_fn(IndexRequestView) -> Result<(), StoreErrorView>,
    store_text: Seq<char>,
)
    requires
        violations.len() == 0,
        accepts_every_index(index_reply),
    ensures
        save_run(
            collection,
            fields,
            save_first_step(collection, fields, violations),
            index_reply,
            Err(StoreErrorView::Write { code: DUPLICATE_KEY_CODE, message: store_text }),
        ).result == Err::<InsertOneResult, DataInsertErrorView>(
            DataInsertErrorView::DuplicateKeyError(store_text),
        ),
{
    lemma_save_reaches_insert(
        collection,
        fields,
        0,
        index_reply,
        Err(StoreErrorView::Write { code: DUPLICATE_KEY_CODE, message: store_text }),
    );
}

/// The first failure of the store ends a save at once: the failure is
/// classified, and neither a further index nor the insert is asked for.
pub proof fn lemma_failed_index_ends_save(
    collection: Seq<char>,
    fields: Seq<Seq<char>>,
    position: int,
    index_reply: spec_fn(IndexRequestView) -> Result<(), StoreErrorView>,
    insert_reply: Result<InsertOneResult, StoreErrorView>,
)
    requires
        0 <= position < fields.len(),
        index_reply(index_request_at(collection, fields, position)) is Err,
    ensures
        save_run(
            collection,
            fields,
            save_step_for(collection, index_step_at(collection, fields, position)),
            index_reply,
            insert_reply,
        ) == (SaveRun {
            requests: seq![
                WriteRequestView::EnsureIndex(index_request_at(collection, fields, position)),
            ],
            result: Err(
                classify(index_reply(index_request_at(collection, fields, position))->Err_0),
            ),
        }),
{
    let request = index_request_at(collection, fields, position);
    let step = save_step_for(collection, index_step_at(collection, fields, position));
    let run = save_run(collection, fields, step, index_reply, insert_reply);
    let next = save_step_after(collection, fields, position, index_reply(request));
    let rest = save_run(collection, fields, next, index_reply, insert_reply);
    assert(next is Done);
    assert(rest.requests =~= Seq::empty());
    assert(run.requests =~= seq![WriteRequestView::EnsureIndex(request)]);
}

/// Ensuring the unique indexes a second time, against a store that accepts
/// every index request, asks for the same indexes as the first time and
/// succeeds as the first time did.
pub proof fn lemma_ensuring_indexes_twice(
    collection: Seq<char>,
    fields: Seq<Seq<char>>,
    first_reply: spec_fn(IndexRequestView) -> Result<(), StoreErrorView>,
    second_reply: spec_fn(IndexRequestView) -> Result<(), StoreErrorView>,
)
    requires
        accepts_every_index(first_reply),
        accepts_every_index(second_reply),
    ensures
        index_run(collection, fields, index_step_at(collection, fields, 0), first_reply)
            == index_run(collection, fields, index_step_at(collection, fields, 0), second_reply),
        index_run(collection, fields, index_step_at(collection, fields, 0), second_reply).result
            is Ok,
        index_run(
            collection,
            fields,
            index_step_at(collection, fields, 0),
            second_reply,
        ).requests.len() == fields.len(),
{
    lemma_indexes_ensured_one_per_field(collection, fields, 0, first_reply);
    lemma_indexes_ensured_one_per_field(collection, fields, 0, second_reply);
}

} // verus!
