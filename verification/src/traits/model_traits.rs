//! What every stored entity has in common: a collection, rules, unique
//! fields, and the protocol by which it is written and read.
//!
//! The store is reached by a caller, not from here. An operation that needs
//! the store hands out the request to run, and is continued with the store's
//! reply: the decisions lie here, the calls with the caller.

use vstd::prelude::*;
use crate::error::{classify, DataInsertError, DataInsertErrorView};
use crate::pagination::{
    effective_page, effective_page_size, page_offset, page_plan, paginate, PendingPage,
};
use crate::store::{
    CountRequest, CountRequestView, FieldValueView, FindOptions, FindOptionsView, FindRequest,
    FindRequestView, IndexRequest, IndexRequestView, InsertOneResult, QueryDocument, StoreError,
    StoreErrorView,
};
use crate::text::{lowercase, to_lowercase};
use crate::validation::{outcome, outcome_view, ValidationErrors, ValidationErrorsView};

verus! {

/// The plural of a noun, as the inflector forms it.
pub uninterp spec fn plural_form(noun: Seq<char>) -> Seq<char>;

/// `inflector::string::pluralize::to_plural`. The contract claims that the
/// text it returns depends on the noun alone.
#[verifier::external_body]
pub(crate) fn to_plural(noun: &str) -> (plural: String)
    ensures
        plural@ == plural_form(noun@),
{
    inflector::string::pluralize::to_plural(noun)
}

/// The collection that holds the entities of a type: the type's name in
/// lower case, in the plural.
pub open spec fn collection_name(struct_name: Seq<char>) -> Seq<char> {
    plural_form(lowercase(struct_name))
}

/// The collection that holds the entities of the type named `struct_name`.
pub fn collection_for(struct_name: &str) -> (name: String)
    ensures
        name@ == collection_name(struct_name@),
{
    let lower = to_lowercase(struct_name);
    to_plural(lower.as_str())
}

/// Where the ensuring of an entity's unique indexes stands.
#[derive(Debug, PartialEq, Eq)]
pub enum IndexStep {
    /// The store is to run `request`; its reply, with `position`, continues
    /// the operation.
    Ensure { request: IndexRequest, position: usize },
    /// The operation is over.
    Done(Result<(), DataInsertError>),
}

pub enum IndexStepView {
    Ensure { request: IndexRequestView, position: int },
    Done(Result<(), DataInsertErrorView>),
}

impl DeepView for IndexStep {
    type V = IndexStepView;

    open spec fn deep_view(&self) -> IndexStepView {
        match self {
            IndexStep::Ensure { request, position } => IndexStepView::Ensure {
                request: request.deep_view(),
                position: *position as int,
            },
            IndexStep::Done(Ok(())) => IndexStepView::Done(Ok(())),
            IndexStep::Done(Err(e)) => IndexStepView::Done(Err(e.deep_view())),
        }
    }
}

/// Where a save stands.
#[derive(Debug, PartialEq, Eq)]
pub enum SaveStep {
    /// The store is to run `request`; its reply, with `position`, continues
    /// the save.
    EnsureIndex { request: IndexRequest, position: usize },
    /// The store is to insert the entity into `collection`; its reply ends
    /// the save.
    Insert { collection: String },
    /// The save is over, and the store is not asked again.
    Done(Result<InsertOneResult, DataInsertError>),
}

pub enum SaveStepView {
    EnsureIndex { request: IndexRequestView, position: int },
    Insert { collection: Seq<char> },
    Done(Result<InsertOneResult, DataInsertErrorView>),
}

impl DeepView for SaveStep {
    type V = SaveStepView;

    open spec fn deep_view(&self) -> SaveStepView {
        match self {
            SaveStep::EnsureIndex { request, position } => SaveStepView::EnsureIndex {
                request: request.deep_view(),
                position: *position as int,
            },
            SaveStep::Insert { collection } => SaveStepView::Insert { collection: collection@ },
            SaveStep::Done(Ok(id)) => SaveStepView::Done(Ok(*id)),
            SaveStep::Done(Err(e)) => SaveStepView::Done(Err(e.deep_view())),
        }
    }
}

/// The view of what the store answers to an index request.
pub open spec fn index_reply_view(reply: Result<(), StoreError>) -> Result<(), StoreErrorView> {
    match reply {
        Ok(()) => Ok(()),
        Err(e) => Err(e.deep_view()),
    }
}

/// The view of what the store answers to an insert.
pub open spec fn insert_reply_view(reply: Result<InsertOneResult, StoreError>) -> Result<
    InsertOneResult,
    StoreErrorView,
> {
    match reply {
        Ok(id) => Ok(id),
        Err(e) => Err(e.deep_view()),
    }
}

/// The view of what a save ends with.
pub open spec fn save_result_view(result: Result<InsertOneResult, DataInsertError>) -> Result<
    InsertOneResult,
    DataInsertErrorView,
> {
    match result {
        Ok(id) => Ok(id),
        Err(e) => Err(e.deep_view()),
    }
}

/// The request for the unique index on the field at `position` among the
/// unique fields `fields` of the entities in `collection`.
pub open spec fn index_request_at(
    collection: Seq<char>,
    fields: Seq<Seq<char>>,
    position: int,
) -> IndexRequestView {
    IndexRequestView { collection, field: fields[position], unique: true }
}

/// The step that asks for the index at `position`, or ends the operation
/// where the unique fields are used up.
pub open spec fn index_step_at(
    collection: Seq<char>,
    fields: Seq<Seq<char>>,
    position: int,
) -> IndexStepView {
    if 0 <= position < fields.len() {
        IndexStepView::Ensure { request: index_request_at(collection, fields, position), position }
    } else {
        IndexStepView::Done(Ok(()))
    }
}

/// The step after the store's reply to the index request at `position`: the
/// first failure ends the operation, classified; a success leads on to the
/// next unique field.
pub open spec fn index_step_after(
    collection: Seq<char>,
    fields: Seq<Seq<char>>,
    position: int,
    reply: Result<(), StoreErrorView>,
) -> IndexStepView {
    match reply {
        Err(e) => IndexStepView::Done(Err(classify(e))),
        Ok(()) => index_step_at(collection, fields, position + 1),
    }
}

/// A save's step for a step of ensuring the indexes: once the indexes are
/// ensured, the entity is inserted.
pub open spec fn save_step_for(collection: Seq<char>, step: IndexStepView) -> SaveStepView {
    match step {
        IndexStepView::Ensure { request, position } => SaveStepView::EnsureIndex {
            request,
            position,
        },
        IndexStepView::Done(Ok(())) => SaveStepView::Insert { collection },
        IndexStepView::Done(Err(e)) => SaveStepView::Done(Err(e)),
    }
}

/// The first step of saving an entity with the given violations: an entity
/// that broke a rule is turned away before the store is asked for anything.
pub open spec fn save_first_step(
    collection: Seq<char>,
    fields: Seq<Seq<char>>,
    violations: ValidationErrorsView,
) -> SaveStepView {
    if violations.len() > 0 {
        SaveStepView::Done(Err(DataInsertErrorView::FieldValidationError(violations)))
    } else {
        save_step_for(collection, index_step_at(collection, fields, 0))
    }
}

/// The step of a save after the store's reply to the index request at
/// `position`.
pub open spec fn save_step_after(
    collection: Seq<char>,
    fields: Seq<Seq<char>>,
    position: int,
    reply: Result<(), StoreErrorView>,
) -> SaveStepView {
    save_step_for(collection, index_step_after(collection, fields, position, reply))
}

/// What a save ends with, given the store's reply to the insert.
pub open spec fn save_result(reply: Result<InsertOneResult, StoreErrorView>) -> Result<
    InsertOneResult,
    DataInsertErrorView,
> {
    match reply {
        Ok(id) => Ok(id),
        Err(e) => Err(classify(e)),
    }
}

/// The query for the documents in `collection` that match `filter`, narrowed
/// by the given projection, sort and limit.
pub open spec fn find_request(
    collection: Seq<char>,
    filter: Seq<(Seq<char>, FieldValueView)>,
    projection: Option<Seq<(Seq<char>, FieldValueView)>>,
    sort: Option<Seq<(Seq<char>, FieldValueView)>>,
    limit: i64,
) -> FindRequestView {
    FindRequestView {
        collection,
        filter,
        options: FindOptionsView { projection, sort, limit: Some(limit), skip: None },
    }
}

/// A stored entity: its name, its rules and its unique fields, and with them
/// the operations by which it is written and read.
pub trait ModelTraits: Sized {
    /// The entity's name, as its type spells it.
    spec fn struct_name() -> Seq<char>;

    /// The fields whose values no two stored entities share, in the order in
    /// which their indexes are ensured.
    spec fn unique_field_names() -> Seq<Seq<char>>;

    /// The rules that this entity breaks.
    spec fn violations(&self) -> ValidationErrorsView;

    /// The name of the collection that holds the entities of this type.
    fn get_struct_name_as_plural_string() -> (name: String)
        ensures
            name@ == collection_name(Self::struct_name()),
    ;

    /// The fields whose values no two stored entities share.
    fn unique_fields() -> (fields: Vec<String>)
        ensures
            fields.deep_view() == Self::unique_field_names(),
    ;

    /// Holds the entity to its rules.
    fn validate(&self) -> (r: Result<(), ValidationErrors>)
        ensures
            outcome_view(r) == outcome(self.violations()),
    ;

    /// The step that asks for the unique index at `position`.
    fn index_step(position: usize) -> (step: IndexStep)
        ensures
            step.deep_view() == index_step_at(
                collection_name(Self::struct_name()),
                Self::unique_field_names(),
                position as int,
            ),
    {
        let fields = Self::unique_fields();
        if position < fields.len() {
            let request = IndexRequest {
                collection: Self::get_struct_name_as_plural_string(),
                field: fields[position].clone(),
                unique: true,
            };
            assert(fields.deep_view()[position as int] == fields[position as int]@);
            IndexStep::Ensure { request, position }
        } else {
            IndexStep::Done(Ok(()))
        }
    }

    /// Begins to ensure a unique index on each unique field, one index per
    /// field, in the order of the fields.
    fn set_unique_fields() -> (step: IndexStep)
        ensures
            step.deep_view() == index_step_at(
                collection_name(Self::struct_name()),
                Self::unique_field_names(),
                0,
            ),
    {
        Self::index_step(0)
    }

    /// Continues with the store's reply to the index request at `position`.
    fn index_ensured(position: usize, reply: Result<(), StoreError>) -> (step: IndexStep)
        ensures
            step.deep_view() == index_step_after(
                collection_name(Self::struct_name()),
                Self::unique_field_names(),
                position as int,
                index_reply_view(reply),
            ),
    {
        match reply {
            Err(e) => IndexStep::Done(Err(DataInsertError::of_store_error(e))),
            Ok(()) => {
                if position < usize::MAX {
                    Self::index_step(position + 1)
                } else {
                    let fields = Self::unique_fields();
                    assert(fields.deep_view().len() == fields.len());
                    IndexStep::Done(Ok(()))
                }
            },
        }
    }

    /// A save's step for a step of ensuring the indexes.
    fn save_step(step: IndexStep) -> (next: SaveStep)
        ensures
            next.deep_view() == save_step_for(
                collection_name(Self::struct_name()),
                step.deep_view(),
            ),
    {
        match step {
            IndexStep::Ensure { request, position } => SaveStep::EnsureIndex { request, position },
            IndexStep::Done(Ok(())) => SaveStep::Insert {
                collection: Self::get_struct_name_as_plural_string(),
            },
            IndexStep::Done(Err(e)) => SaveStep::Done(Err(e)),
        }
    }

    /// Begins to save the entity: validates it, and only if it is valid goes
    /// on to ensure the unique indexes and then to insert it.
    fn save(&self) -> (step: SaveStep)
        ensures
            step.deep_view() == save_first_step(
                collection_name(Self::struct_name()),
                Self::unique_field_names(),
                self.violations(),
            ),
    {
        match self.validate() {
            Err(errors) => SaveStep::Done(Err(DataInsertError::FieldValidationError(errors))),
            Ok(()) => Self::save_step(Self::set_unique_fields()),
        }
    }

    /// Continues a save with the store's reply to the index request at
    /// `position`.
    fn save_index_ensured(position: usize, reply: Result<(), StoreError>) -> (step: SaveStep)
        ensures
            step.deep_view() == save_step_after(
                collection_name(Self::struct_name()),
                Self::unique_field_names(),
                position as int,
                index_reply_view(reply),
            ),
    {
        Self::save_step(Self::index_ensured(position, reply))
    }

    /// Ends a save with the store's reply to the insert.
    fn save_inserted(reply: Result<InsertOneResult, StoreError>) -> (result: Result<
        InsertOneResult,
        DataInsertError,
    >)
        ensures
            save_result_view(result) == save_result(insert_reply_view(reply)),
    {
        match reply {
            Ok(id) => Ok(id),
            Err(e) => Err(DataInsertError::of_store_error(e)),
        }
    }

    /// The query for at most `limit` documents that match `filter`.
    fn find(
        filter: QueryDocument,
        projection: Option<QueryDocument>,
        sort: Option<QueryDocument>,
        limit: i64,
    ) -> (request: FindRequest)
        ensures
            request.deep_view() == find_request(
                collection_name(Self::struct_name()),
                filter.deep_view(),
                projection.deep_view(),
                sort.deep_view(),
                limit,
            ),
    {
        FindRequest {
            collection: Self::get_struct_name_as_plural_string(),
            filter,
            options: FindOptions { projection, sort, limit: Some(limit), skip: None },
        }
    }

    /// The query for the number of documents that match `filter`.
    fn count_documents(filter: QueryDocument) -> (request: CountRequest)
        ensures
            request.deep_view() == (CountRequestView {
                collection: collection_name(Self::struct_name()),
                filter: filter.deep_view(),
            }),
    {
        CountRequest { collection: Self::get_struct_name_as_plural_string(), filter }
    }

    /// Begins a paginated find: normalises the page and its size, and hands
    /// out the count of all matches together with the find for the page.
    fn find_paginated(
        filter: QueryDocument,
        projection: Option<QueryDocument>,
        sort: Option<QueryDocument>,
        current_page: Option<i64>,
        items_per_page: Option<i64>,
    ) -> (pending: PendingPage)
        requires
            page_offset(effective_page(current_page), effective_page_size(items_per_page))
                <= u64::MAX,
        ensures
            pending@ == page_plan(
                collection_name(Self::struct_name()),
                filter.deep_view(),
                projection.deep_view(),
                sort.deep_view(),
                current_page,
                items_per_page,
            ),
    {
        paginate(
            Self::get_struct_name_as_plural_string(),
            filter,
            projection,
            sort,
            current_page,
            items_per_page,
        )
    }
}

} // verus!
