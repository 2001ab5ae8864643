//! What the data-access layer exchanges with the document store, as plain
//! values: query documents, the requests that a caller is to run, and the
//! failures that the store reports back.

use vstd::prelude::*;

verus! {

/// A scalar that a query document binds a field to.
#[derive(Debug, PartialEq, Eq)]
pub enum FieldValue {
    Bool(bool),
    Int32(i32),
    Text(String),
}

pub enum FieldValueView {
    Bool(bool),
    Int32(i32),
    Text(Seq<char>),
}

impl DeepView for FieldValue {
    type V = FieldValueView;

    open spec fn deep_view(&self) -> FieldValueView {
        match self {
            FieldValue::Bool(b) => FieldValueView::Bool(*b),
            FieldValue::Int32(n) => FieldValueView::Int32(*n),
            FieldValue::Text(s) => FieldValueView::Text(s@),
        }
    }
}

/// A filter, projection or sort: field names bound to scalars, in the order
/// in which they were added.
#[derive(Debug, PartialEq, Eq)]
pub struct QueryDocument {
    pub entries: Vec<(String, FieldValue)>,
}

impl DeepView for QueryDocument {
    type V = Seq<(Seq<char>, FieldValueView)>;

    open spec fn deep_view(&self) -> Seq<(Seq<char>, FieldValueView)> {
        self.entries.deep_view()
    }
}

impl QueryDocument {
    /// The document without fields, which as a filter matches everything.
    pub fn new() -> (d: QueryDocument)
        ensures
            d.deep_view() == Seq::<(Seq<char>, FieldValueView)>::empty(),
    {
        let d = QueryDocument { entries: Vec::new() };
        assert(d.deep_view() =~= Seq::empty());
        d
    }

    /// This document with `key` bound to `value` after the fields it has.
    pub fn with(self, key: &str, value: FieldValue) -> (d: QueryDocument)
        ensures
            d.deep_view() == self.deep_view().push((key@, value.deep_view())),
    {
        let mut entries = self.entries;
        entries.push((key.to_owned(), value));
        let d = QueryDocument { entries };
        assert(d.deep_view() =~= self.deep_view().push((key@, value.deep_view())));
        d
    }

    /// A copy of this document.
    pub fn copy(&self) -> (d: QueryDocument)
        ensures
            d.deep_view() == self.deep_view(),
    {
        let mut entries: Vec<(String, FieldValue)> = Vec::new();
        let mut i: usize = 0;
        while i < self.entries.len()
            invariant
                i <= self.entries.len(),
                entries.len() == i,
                forall|j: int| 0 <= j < i ==> entries[j].deep_view() == self.entries[j].deep_view(),
            decreases self.entries.len() - i,
        {
            let value = match &self.entries[i].1 {
                FieldValue::Bool(b) => FieldValue::Bool(*b),
                FieldValue::Int32(n) => FieldValue::Int32(*n),
                FieldValue::Text(s) => FieldValue::Text(s.clone()),
            };
            entries.push((self.entries[i].0.clone(), value));
            i += 1;
        }
        let d = QueryDocument { entries };
        assert(d.deep_view() =~= self.deep_view());
        d
    }

    /// This document with `key` bound to the boolean `value`.
    pub fn with_bool(self, key: &str, value: bool) -> (d: QueryDocument)
        ensures
            d.deep_view() == self.deep_view().push((key@, FieldValueView::Bool(value))),
    {
        self.with(key, FieldValue::Bool(value))
    }

    /// This document with `key` bound to the integer `value`.
    pub fn with_int32(self, key: &str, value: i32) -> (d: QueryDocument)
        ensures
            d.deep_view() == self.deep_view().push((key@, FieldValueView::Int32(value))),
    {
        self.with(key, FieldValue::Int32(value))
    }

    /// This document with `key` bound to the text `value`.
    pub fn with_text(self, key: &str, value: String) -> (d: QueryDocument)
        ensures
            d.deep_view() == self.deep_view().push((key@, FieldValueView::Text(value@))),
    {
        self.with(key, FieldValue::Text(value))
    }
}

/// How a find is narrowed: which fields come back, in what order, how many
/// documents are passed over and how many are returned at most.
#[derive(Debug, PartialEq, Eq)]
pub struct FindOptions {
    pub projection: Option<QueryDocument>,
    pub sort: Option<QueryDocument>,
    pub limit: Option<i64>,
    pub skip: Option<u64>,
}

pub struct FindOptionsView {
    pub projection: Option<Seq<(Seq<char>, FieldValueView)>>,
    pub sort: Option<Seq<(Seq<char>, FieldValueView)>>,
    pub limit: Option<i64>,
    pub skip: Option<u64>,
}

impl DeepView for FindOptions {
    type V = FindOptionsView;

    open spec fn deep_view(&self) -> FindOptionsView {
        FindOptionsView {
            projection: self.projection.deep_view(),
            sort: self.sort.deep_view(),
            limit: self.limit,
            skip: self.skip,
        }
    }
}

/// A query for the documents of `collection` that match `filter`.
#[derive(Debug, PartialEq, Eq)]
pub struct FindRequest {
    pub collection: String,
    pub filter: QueryDocument,
    pub options: FindOptions,
}

pub struct FindRequestView {
    pub collection: Seq<char>,
    pub filter: Seq<(Seq<char>, FieldValueView)>,
    pub options: FindOptionsView,
}

impl DeepView for FindRequest {
    type V = FindRequestView;

    open spec fn deep_view(&self) -> FindRequestView {
        FindRequestView {
            collection: self.collection@,
            filter: self.filter.deep_view(),
            options: self.options.deep_view(),
        }
    }
}

/// A query for the number of documents of `collection` that match `filter`.
#[derive(Debug, PartialEq, Eq)]
pub struct CountRequest {
    pub collection: String,
    pub filter: QueryDocument,
}

pub struct CountRequestView {
    pub collection: Seq<char>,
    pub filter: Seq<(Seq<char>, FieldValueView)>,
}

impl DeepView for CountRequest {
    type V = CountRequestView;

    open spec fn deep_view(&self) -> CountRequestView {
        CountRequestView { collection: self.collection@, filter: self.filter.deep_view() }
    }
}

/// A request to create, or confirm, an ascending index on one field of
/// `collection`; `unique` asks the store to refuse a second document with a
/// value that the field already has.
#[derive(Debug, PartialEq, Eq)]
pub struct IndexRequest {
    pub collection: String,
    pub field: String,
    pub unique: bool,
}

pub struct IndexRequestView {
    pub collection: Seq<char>,
    pub field: Seq<char>,
    pub unique: bool,
}

impl DeepView for IndexRequest {
    type V = IndexRequestView;

    open spec fn deep_view(&self) -> IndexRequestView {
        IndexRequestView { collection: self.collection@, field: self.field@, unique: self.unique }
    }
}

/// The twelve bytes by which the store identifies a document.
#[derive(Clone, Copy, Debug, PartialEq, Eq)]
pub struct ObjectId {
    pub bytes: [u8; 12],
}

/// What the store answers to an insert that it accepted.
#[derive(Clone, Copy, Debug, PartialEq, Eq)]
pub struct InsertOneResult {
    pub inserted_id: ObjectId,
}

/// A failure that the store reported. A write that the store itself refused
/// comes with the store's numeric code; everything else (no connection, a
/// failed query, a driver fault) comes with its description only.
#[derive(Debug, PartialEq, Eq)]
pub enum StoreError {
    Write { code: i32, message: String },
    Other { message: String },
}

pub enum StoreErrorView {
    Write { code: i32, message: Seq<char> },
    Other { message: Seq<char> },
}

impl DeepView for StoreError {
    type V = StoreErrorView;

    open spec fn deep_view(&self) -> StoreErrorView {
        match self {
            StoreError::Write { code, message } => StoreErrorView::Write {
                code: *code,
                message: message@,
            },
            StoreError::Other { message } => StoreErrorView::Other { message: message@ },
        }
    }
}

} // verus!
