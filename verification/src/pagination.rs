//! The paginated query engine: how a page request is normalised, which part
//! of the matches it asks the store for, and what it reports about the whole.

use vstd::prelude::*;
use crate::json;
use crate::store::{
    CountRequest, CountRequestView, FieldValueView, FindOptions, FindOptionsView, FindRequest,
    FindRequestView, QueryDocument, StoreError, StoreErrorView,
};

verus! {

/// The page that a request means: the first one where none is named, or one
/// below the first is.
pub open spec fn effective_page(current_page: Option<i64>) -> int {
    match current_page {
        Some(p) => if p < 1 {
            1
        } else {
            p as int
        },
        None => 1,
    }
}

/// The page size that a request means: ten where none is named, one where a
/// size below one is.
pub open spec fn effective_page_size(items_per_page: Option<i64>) -> int {
    match items_per_page {
        Some(n) => if n < 1 {
            1
        } else {
            n as int
        },
        None => 10,
    }
}

/// The number of pages of `page_size` items that `total_items` items fill,
/// the last one possibly in part.
pub open spec fn total_pages(total_items: int, page_size: int) -> int
    recommends
        total_items >= 0,
        page_size >= 1,
{
    (total_items + page_size - 1) / page_size
}

/// The number of matches that lie before page `page`.
pub open spec fn page_offset(page: int, page_size: int) -> int {
    (page - 1) * page_size
}

/// `total_pages` is the ceiling of `total_items / page_size`: the least number
/// of pages that hold every item.
pub proof fn lemma_total_pages_is_ceiling(total_items: int, page_size: int)
    requires
        total_items >= 0,
        page_size >= 1,
    ensures
        total_pages(total_items, page_size) >= 0,
        total_pages(total_items, page_size) * page_size >= total_items,
        (total_pages(total_items, page_size) - 1) * page_size < total_items,
{
    let n = total_pages(total_items, page_size);
    let m = total_items + page_size - 1;
    assert(m == page_size * (m / page_size) + m % page_size && 0 <= m % page_size < page_size)
        by (nonlinear_arith)
        requires
            page_size >= 1,
    ;
    assert(n * page_size == page_size * n) by (nonlinear_arith);
    assert((n - 1) * page_size == n * page_size - page_size) by (nonlinear_arith);
    assert(n >= 0) by (nonlinear_arith)
        requires
            n * page_size >= 0 - page_size + 1,
            page_size >= 1,
    ;
}

/// What a page reports about the query it belongs to. Every field is unset
/// on a page that came back without documents.
#[derive(Clone, Copy, Debug, PartialEq, Eq)]
pub struct PaginationMetadata {
    pub current_page: Option<u64>,
    pub total_pages: Option<u64>,
    pub total_items: Option<u64>,
    pub items_per_page: Option<u64>,
}

impl PaginationMetadata {
    /// The metadata with every field unset.
    pub open spec fn unset() -> PaginationMetadata {
        PaginationMetadata {
            current_page: None,
            total_pages: None,
            total_items: None,
            items_per_page: None,
        }
    }

    /// The metadata of page `page` among `total_items` matches, `page_size` to
    /// a page.
    pub open spec fn of(page: int, page_size: int, total_items: int) -> PaginationMetadata {
        PaginationMetadata {
            current_page: Some(page as u64),
            total_pages: Some(total_pages(total_items, page_size) as u64),
            total_items: Some(total_items as u64),
            items_per_page: Some(page_size as u64),
        }
    }
}

/// The JSON text of an optional count: `null` where it is unset.
pub open spec fn optional_number(n: Option<u64>) -> Seq<char> {
    match n {
        Some(v) => json::decimal(v as nat),
        None => "null"@,
    }
}

/// The JSON members of a page's metadata.
pub open spec fn metadata_members(metadata: PaginationMetadata) -> Seq<(Seq<char>, Seq<char>)> {
    seq![
        ("\"current_page\""@, optional_number(metadata.current_page)),
        ("\"total_pages\""@, optional_number(metadata.total_pages)),
        ("\"total_items\""@, optional_number(metadata.total_items)),
        ("\"items_per_page\""@, optional_number(metadata.items_per_page)),
    ]
}

/// The JSON text of a page's metadata.
pub open spec fn metadata_json(metadata: PaginationMetadata) -> Seq<char> {
    json::object_text(metadata_members(metadata))
}

fn number_or_null(n: Option<u64>) -> (text: String)
    ensures
        text@ == optional_number(n),
{
    match n {
        Some(v) => json::number(v),
        None => "null".to_owned(),
    }
}

impl PaginationMetadata {
    /// The metadata as JSON text.
    pub fn to_json(&self) -> (text: String)
        ensures
            text@ == metadata_json(*self),
    {
        let mut members: Vec<(String, String)> = Vec::new();
        members.push(("\"current_page\"".to_owned(), number_or_null(self.current_page)));
        members.push(("\"total_pages\"".to_owned(), number_or_null(self.total_pages)));
        members.push(("\"total_items\"".to_owned(), number_or_null(self.total_items)));
        members.push(("\"items_per_page\"".to_owned(), number_or_null(self.items_per_page)));
        assert(members.deep_view() =~= metadata_members(*self));
        json::object(&members)
    }
}

impl Default for PaginationMetadata {
    fn default() -> (m: PaginationMetadata)
        ensures
            m == PaginationMetadata::unset(),
    {
        PaginationMetadata {
            current_page: None,
            total_pages: None,
            total_items: None,
            items_per_page: None,
        }
    }
}

/// One page of matches, in the order in which the store returned them, with
/// what the page reports about the whole.
#[derive(Debug, PartialEq, Eq)]
pub struct PaginatedData<D> {
    pub documents: Vec<D>,
    pub metadata: PaginationMetadata,
}

/// The items of `items` that arrived intact, in their order.
pub open spec fn successes<D, E>(items: Seq<Result<D, E>>) -> Seq<D>
    decreases items.len(),
{
    if items.len() == 0 {
        Seq::empty()
    } else {
        let before = successes(items.drop_last());
        match items.last() {
            Ok(d) => before.push(d),
            Err(_) => before,
        }
    }
}

/// What arrived intact of two runs of items, one after the other, is what
/// arrived intact of the first and then of the second: no document is lost,
/// none is added, and none changes its place.
pub proof fn lemma_successes_of_both<D, E>(first: Seq<Result<D, E>>, second: Seq<Result<D, E>>)
    ensures
        successes(first + second) == successes(first) + successes(second),
    decreases second.len(),
{
    if second.len() == 0 {
        assert(first + second =~= first);
        assert(successes(first) + successes(second) =~= successes(first));
    } else {
        lemma_successes_of_both(first, second.drop_last());
        assert((first + second).drop_last() =~= first + second.drop_last());
        assert((first + second).last() == second.last());
        match second.last() {
            Ok(d) => {
                assert((successes(first) + successes(second.drop_last())).push(d) =~= successes(
                    first,
                ) + successes(second.drop_last()).push(d));
            },
            Err(_) => {},
        }
    }
}

/// A document that arrived intact is kept, and an item that did not arrive
/// is passed by.
pub proof fn lemma_successes_of_one<D, E>(item: Result<D, E>)
    ensures
        successes(seq![item]) == match item {
            Ok(d) => seq![d],
            Err(_) => Seq::<D>::empty(),
        },
{
    assert(seq![item].drop_last() =~= Seq::<Result<D, E>>::empty());
    assert(successes(seq![item].drop_last()) =~= Seq::<D>::empty());
    match item {
        Ok(d) => {
            assert(Seq::<D>::empty().push(d) =~= seq![d]);
        },
        Err(_) => {},
    }
}

/// The page that is reported for `documents` fetched as page `page`: the
/// metadata is filled in only if the page holds a document.
pub open spec fn page_of<D>(documents: Seq<D>, page: int, page_size: int, total_items: int) -> (
    Seq<D>,
    PaginationMetadata,
) {
    if documents.len() == 0 {
        (documents, PaginationMetadata::unset())
    } else {
        (documents, PaginationMetadata::of(page, page_size, total_items))
    }
}

/// The two queries that make up a paginated find in `collection`: the count
/// of all matches of `filter`, and the find for the one page that is asked
/// for, which passes over the pages before it and is limited to the page's
/// size. Projection and sort bear on the find alone.
pub open spec fn page_plan(
    collection: Seq<char>,
    filter: Seq<(Seq<char>, FieldValueView)>,
    projection: Option<Seq<(Seq<char>, FieldValueView)>>,
    sort: Option<Seq<(Seq<char>, FieldValueView)>>,
    current_page: Option<i64>,
    items_per_page: Option<i64>,
) -> PendingPageView {
    let page = effective_page(current_page);
    let size = effective_page_size(items_per_page);
    PendingPageView {
        count: CountRequestView { collection, filter },
        find: FindRequestView {
            collection,
            filter,
            options: FindOptionsView {
                projection,
                sort,
                limit: Some(size as i64),
                skip: Some(page_offset(page, size) as u64),
            },
        },
        current_page: page,
        items_per_page: size,
    }
}

/// Where a paginated find stands after the store's reply to the count: a
/// failed count ends it; a count leads on to the find for the page.
pub open spec fn after_count(
    pending: PendingPageView,
    count_reply: Result<u64, StoreErrorView>,
) -> Result<CountedPageView, StoreErrorView> {
    match count_reply {
        Err(e) => Err(e),
        Ok(total_items) => Ok(
            CountedPageView {
                find: pending.find,
                current_page: pending.current_page,
                items_per_page: pending.items_per_page,
                total_items: total_items as int,
            },
        ),
    }
}

/// What a paginated find ends with after the store's reply to the find: the
/// failure, or else the page of the documents that arrived intact.
pub open spec fn after_find<D>(
    counted: CountedPageView,
    find_reply: Result<Seq<Result<D, StoreError>>, StoreErrorView>,
) -> Result<(Seq<D>, PaginationMetadata), StoreErrorView> {
    match find_reply {
        Err(e) => Err(e),
        Ok(items) => Ok(
            page_of(
                successes(items),
                counted.current_page,
                counted.items_per_page,
                counted.total_items,
            ),
        ),
    }
}

/// What a paginated find ends with, given the store's replies to the count
/// and to the find. The find is put to the store only once the count has
/// come back.
pub open spec fn paginate_outcome<D>(
    pending: PendingPageView,
    count_reply: Result<u64, StoreErrorView>,
    find_reply: Result<Seq<Result<D, StoreError>>, StoreErrorView>,
) -> Result<(Seq<D>, PaginationMetadata), StoreErrorView> {
    match after_count(pending, count_reply) {
        Err(e) => Err(e),
        Ok(counted) => after_find(counted, find_reply),
    }
}

/// A page or a page size below one is taken as one: such a request asks the
/// store for the same and ends with the same as the request for page one,
/// one item to a page.
pub proof fn lemma_page_and_size_below_one_mean_one<D>(
    collection: Seq<char>,
    filter: Seq<(Seq<char>, FieldValueView)>,
    projection: Option<Seq<(Seq<char>, FieldValueView)>>,
    sort: Option<Seq<(Seq<char>, FieldValueView)>>,
    current_page: i64,
    items_per_page: i64,
    count_reply: Result<u64, StoreErrorView>,
    find_reply: Result<Seq<Result<D, StoreError>>, StoreErrorView>,
)
    requires
        current_page < 1,
        items_per_page < 1,
    ensures
        page_plan(collection, filter, projection, sort, Some(current_page), Some(items_per_page))
            == page_plan(collection, filter, projection, sort, Some(1), Some(1)),
        paginate_outcome(
            page_plan(
                collection,
                filter,
                projection,
                sort,
                Some(current_page),
                Some(items_per_page),
            ),
            count_reply,
            find_reply,
        ) == paginate_outcome(
            page_plan(collection, filter, projection, sort, Some(1), Some(1)),
            count_reply,
            find_reply,
        ),
{
}

/// A request without page and page size is the request for the first page,
/// ten items to a page.
pub proof fn lemma_absent_page_and_size(
    collection: Seq<char>,
    filter: Seq<(Seq<char>, FieldValueView)>,
    projection: Option<Seq<(Seq<char>, FieldValueView)>>,
    sort: Option<Seq<(Seq<char>, FieldValueView)>>,
)
    ensures
        page_plan(collection, filter, projection, sort, None, None) == page_plan(
            collection,
            filter,
            projection,
            sort,
            Some(1),
            Some(10),
        ),
{
}

/// A page that holds a document reports the page and size that were asked
/// for, the number of matches, and the number of pages that the matches
/// fill; a page that holds none reports nothing.
pub proof fn lemma_metadata_of_a_page<D>(
    documents: Seq<D>,
    page: int,
    page_size: int,
    total_items: int,
)
    requires
        1 <= page <= i64::MAX,
        1 <= page_size <= i64::MAX,
        0 <= total_items <= u64::MAX,
    ensures
        documents.len() == 0 ==> page_of(documents, page, page_size, total_items).1
            == PaginationMetadata::unset(),
        documents.len() > 0 ==> page_of(documents, page, page_size, total_items).1
            == (PaginationMetadata {
            current_page: Some(page as u64),
            total_pages: Some(total_pages(total_items, page_size) as u64),
            total_items: Some(total_items as u64),
            items_per_page: Some(page_size as u64),
        }),
        0 <= total_pages(total_items, page_size) <= total_items,
{
    lemma_total_pages_is_ceiling(total_items, page_size);
    let n = total_pages(total_items, page_size);
    assert(n <= total_items) by (nonlinear_arith)
        requires
            (n - 1) * page_size < total_items,
            page_size >= 1,
            total_items >= 0,
            n >= 0,
    ;
}

/// A paginated find that has yet to learn how many documents match.
#[derive(Debug, PartialEq, Eq)]
pub struct PendingPage {
    count: CountRequest,
    find: FindRequest,
    current_page: i64,
    items_per_page: i64,
}

pub struct PendingPageView {
    pub count: CountRequestView,
    pub find: FindRequestView,
    pub current_page: int,
    pub items_per_page: int,
}

/// A paginated find that knows how many documents match, and has yet to
/// fetch its page.
#[derive(Debug, PartialEq, Eq)]
pub struct CountedPage {
    find: FindRequest,
    current_page: i64,
    items_per_page: i64,
    total_items: u64,
}

pub struct CountedPageView {
    pub find: FindRequestView,
    pub current_page: int,
    pub items_per_page: int,
    pub total_items: int,
}

/// The view of what the store answers to a count.
pub open spec fn count_reply_view(reply: Result<u64, StoreError>) -> Result<u64, StoreErrorView> {
    match reply {
        Ok(n) => Ok(n),
        Err(e) => Err(e.deep_view()),
    }
}

/// The view of what the store answers to a find: the items in the order of
/// arrival, each a document or the failure to hand one over.
pub open spec fn find_reply_view<D>(
    reply: Result<Vec<Result<D, StoreError>>, StoreError>,
) -> Result<Seq<Result<D, StoreError>>, StoreErrorView> {
    match reply {
        Ok(items) => Ok(items@),
        Err(e) => Err(e.deep_view()),
    }
}

/// The view of a counted find, or of the failure to count.
pub open spec fn counted_view(result: Result<CountedPage, StoreError>) -> Result<
    CountedPageView,
    StoreErrorView,
> {
    match result {
        Ok(counted) => Ok(counted@),
        Err(e) => Err(e.deep_view()),
    }
}

/// The view of a page that was found, or of the failure to find it.
pub open spec fn page_result_view<D>(result: Result<PaginatedData<D>, StoreError>) -> Result<
    (Seq<D>, PaginationMetadata),
    StoreErrorView,
> {
    match result {
        Ok(page) => Ok((page.documents@, page.metadata)),
        Err(e) => Err(e.deep_view()),
    }
}

/// The view of the documents that were found, or of the failure to find
/// them.
pub open spec fn documents_result_view<D>(result: Result<Vec<D>, StoreError>) -> Result<
    Seq<D>,
    StoreErrorView,
> {
    match result {
        Ok(documents) => Ok(documents@),
        Err(e) => Err(e.deep_view()),
    }
}

impl View for PendingPage {
    type V = PendingPageView;

    closed spec fn view(&self) -> PendingPageView {
        PendingPageView {
            count: self.count.deep_view(),
            find: self.find.deep_view(),
            current_page: self.current_page as int,
            items_per_page: self.items_per_page as int,
        }
    }
}

impl View for CountedPage {
    type V = CountedPageView;

    closed spec fn view(&self) -> CountedPageView {
        CountedPageView {
            find: self.find.deep_view(),
            current_page: self.current_page as int,
            items_per_page: self.items_per_page as int,
            total_items: self.total_items as int,
        }
    }
}

impl PendingPage {
    #[verifier::type_invariant]
    spec fn well_formed(&self) -> bool {
        self.current_page >= 1 && self.items_per_page >= 1
    }

    /// The count that the store is to run first.
    pub fn count_request(&self) -> (request: &CountRequest)
        ensures
            request.deep_view() == self@.count,
    {
        &self.count
    }

    /// Continues with the store's reply to the count. A failed count ends
    /// the find, and the page is not fetched.
    pub fn counted(self, reply: Result<u64, StoreError>) -> (r: Result<CountedPage, StoreError>)
        ensures
            counted_view(r) == after_count(self@, count_reply_view(reply)),
            match reply {
                Err(e) => r == Err::<CountedPage, StoreError>(e),
                Ok(total_items) => r matches Ok(counted) && counted@ == (CountedPageView {
                    find: self@.find,
                    current_page: self@.current_page,
                    items_per_page: self@.items_per_page,
                    total_items: total_items as int,
                }),
            },
    {
        proof {
            use_type_invariant(&self);
        }
        match reply {
            Err(e) => Err(e),
            Ok(total_items) => Ok(
                CountedPage {
                    find: self.find,
                    current_page: self.current_page,
                    items_per_page: self.items_per_page,
                    total_items,
                },
            ),
        }
    }
}

impl CountedPage {
    #[verifier::type_invariant]
    spec fn well_formed(&self) -> bool {
        self.current_page >= 1 && self.items_per_page >= 1
    }

    /// The find that the store is to run for the page.
    pub fn find_request(&self) -> (request: &FindRequest)
        ensures
            request.deep_view() == self@.find,
    {
        &self.find
    }

    /// Ends the find with the store's reply to the find for the page: the
    /// documents that arrived intact, with the page's metadata if there is
    /// any document, and with unset metadata if there is none.
    pub fn fetched<D>(self, reply: Result<Vec<Result<D, StoreError>>, StoreError>) -> (r: Result<
        PaginatedData<D>,
        StoreError,
    >)
        ensures
            page_result_view(r) == after_find(self@, find_reply_view(reply)),
            match reply {
                Err(e) => r == Err::<PaginatedData<D>, StoreError>(e),
                Ok(items) => r matches Ok(page) && (page.documents@, page.metadata) == page_of(
                    successes(items@),
                    self@.current_page,
                    self@.items_per_page,
                    self@.total_items,
                ),
            },
    {
        proof {
            use_type_invariant(&self);
        }
        match reply {
            Err(e) => Err(e),
            Ok(items) => {
                let documents = collect_documents(items);
                if documents.len() < 1 {
                    return Ok(PaginatedData { documents, metadata: PaginationMetadata::default() });
                }
                let metadata = PaginationMetadata {
                    current_page: Some(self.current_page as u64),
                    total_pages: Some(count_pages(self.total_items, self.items_per_page)),
                    total_items: Some(self.total_items),
                    items_per_page: Some(self.items_per_page as u64),
                };
                Ok(PaginatedData { documents, metadata })
            },
        }
    }
}

/// Begins a paginated find in `collection`: normalises the page and its
/// size, and hands out the count of all matches together with the find for
/// the page.
pub fn paginate(
    collection: String,
    filter: QueryDocument,
    projection: Option<QueryDocument>,
    sort: Option<QueryDocument>,
    current_page: Option<i64>,
    items_per_page: Option<i64>,
) -> (pending: PendingPage)
    requires
        page_offset(effective_page(current_page), effective_page_size(items_per_page)) <= u64::MAX,
    ensures
        pending@ == page_plan(
            collection@,
            filter.deep_view(),
            projection.deep_view(),
            sort.deep_view(),
            current_page,
            items_per_page,
        ),
{
    let page = normalize_page(current_page);
    let size = normalize_page_size(items_per_page);
    let skip = offset_of_page(page, size);
    let count = CountRequest { collection: collection.clone(), filter: filter.copy() };
    let find = FindRequest {
        collection,
        filter,
        options: FindOptions { projection, sort, limit: Some(size), skip },
    };
    PendingPage { count, find, current_page: page, items_per_page: size }
}

/// Ends a find with the store's reply: the documents that arrived intact, in
/// the order of arrival. An item that the store could not hand over is
/// passed by and fails nothing.
pub fn found<D>(reply: Result<Vec<Result<D, StoreError>>, StoreError>) -> (r: Result<
    Vec<D>,
    StoreError,
>)
    ensures
        documents_result_view(r) == match find_reply_view(reply) {
            Ok(items) => Ok(successes(items)),
            Err(e) => Err(e),
        },
        match reply {
            Err(e) => r == Err::<Vec<D>, StoreError>(e),
            Ok(items) => r matches Ok(documents) && documents@ == successes(items@),
        },
{
    match reply {
        Err(e) => Err(e),
        Ok(items) => Ok(collect_documents(items)),
    }
}

/// The page that `current_page` names, never below the first.
pub fn normalize_page(current_page: Option<i64>) -> (page: i64)
    ensures
        page == effective_page(current_page),
        page >= 1,
{
    match current_page {
        Some(p) => if p < 1 {
            1
        } else {
            p
        },
        None => 1,
    }
}

/// The page size that `items_per_page` names, never below one.
pub fn normalize_page_size(items_per_page: Option<i64>) -> (size: i64)
    ensures
        size == effective_page_size(items_per_page),
        size >= 1,
{
    match items_per_page {
        Some(n) => if n < 1 {
            1
        } else {
            n
        },
        None => 10,
    }
}

/// The number of pages that `total_items` matches fill.
pub fn count_pages(total_items: u64, page_size: i64) -> (pages: u64)
    requires
        page_size >= 1,
    ensures
        pages == total_pages(total_items as int, page_size as int),
{
    let size: u64 = page_size as u64;
    let whole: u64 = total_items / size;
    let part: u64 = total_items % size;
    proof {
        let t = total_items as int;
        let s = size as int;
        assert(t == s * (t / s) + t % s && 0 <= t % s < s) by (nonlinear_arith)
            requires
                s >= 1,
        ;
        if t % s == 0 {
            assert((t + s - 1) / s == t / s) by (nonlinear_arith)
                requires
                    s >= 1,
                    t == s * (t / s),
            ;
        } else {
            assert((t + s - 1) / s == t / s + 1) by (nonlinear_arith)
                requires
                    s >= 1,
                    t == s * (t / s) + t % s,
                    0 < t % s < s,
            ;
            assert(t / s < t) by (nonlinear_arith)
                requires
                    s >= 1,
                    t == s * (t / s) + t % s,
                    0 < t % s < s,
                    t >= 0,
            ;
        }
    }
    if part == 0 {
        whole
    } else {
        whole + 1
    }
}

/// The number of matches before page `page`, where a `u64` holds it.
pub fn offset_of_page(page: i64, page_size: i64) -> (offset: Option<u64>)
    requires
        page >= 1,
        page_size >= 1,
    ensures
        offset == if page_offset(page as int, page_size as int) <= u64::MAX {
            Some(page_offset(page as int, page_size as int) as u64)
        } else {
            None
        },
{
    let before: u64 = (page - 1) as u64;
    let size: u64 = page_size as u64;
    before.checked_mul(size)
}

/// The documents that arrived intact, in the order of arrival; an item that
/// the store could not hand over is passed by.
pub fn collect_documents<D, E>(items: Vec<Result<D, E>>) -> (documents: Vec<D>)
    ensures
        documents@ == successes(items@),
{
    let mut documents: Vec<D> = Vec::new();
    let ghost all = items@;
    for item in it: items
        invariant
            it.seq() == all,
            documents@ == successes(all.take(it.index() as int)),
    {
        proof {
            let n = it.index() as int;
            assert(all.take(n + 1).drop_last() =~= all.take(n));
        }
        match item {
            Ok(document) => documents.push(document),
            Err(_) => {},
        }
    }
    assert(all.take(all.len() as int) =~= all);
    documents
}

} // verus!
