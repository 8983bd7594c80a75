use vstd::prelude::*;

verus! {

/// Page size used when the caller gives none.
pub const DEFAULT_PAGE_SIZE: usize = 100;

/// Sort direction of one ordering clause.
#[derive(Debug, Clone, Copy, PartialEq, Eq)]
pub enum FirestoreQueryDirection {
    Ascending,
    Descending,
}

/// One ordering clause: a field path and a direction.
#[derive(Debug, Clone, PartialEq, Eq)]
pub struct FirestoreQueryOrder {
    pub field_name: String,
    pub direction: FirestoreQueryDirection,
}

/// Parameters of a document listing; a new value is derived for each page.
#[derive(Debug, Clone, PartialEq, Eq)]
pub struct FirestoreListDocParams {
    pub collection_id: String,
    pub parent: Option<String>,
    pub page_size: usize,
    pub page_token: Option<String>,
    pub order_by: Option<Vec<FirestoreQueryOrder>>,
    pub return_only_fields: Option<Vec<String>>,
}

/// One page of documents and the cursor of the next page, if any.
#[derive(Debug, Clone, PartialEq, Eq)]
pub struct FirestoreListDocResult<D> {
    pub documents: Vec<D>,
    pub page_token: Option<String>,
}

/// Parameters of a listing of collection ids under a parent.
#[derive(Debug, Clone, PartialEq, Eq)]
pub struct FirestoreListCollectionIdsParams {
    pub parent: Option<String>,
    pub page_size: usize,
    pub page_token: Option<String>,
}

/// One page of collection ids and the cursor of the next page, if any.
#[derive(Debug, Clone, PartialEq, Eq)]
pub struct FirestoreListCollectionIdsResult {
    pub collection_ids: Vec<String>,
    pub page_token: Option<String>,
}

/// A page as the pagination engine sees it, whatever its items are.
#[derive(Debug, Clone, PartialEq, Eq)]
pub struct ListPage<D> {
    pub items: Vec<D>,
    pub next_page_token: Option<String>,
}

/// The view of an optional string.
pub open spec fn opt_view(s: Option<String>) -> Option<Seq<char>> {
    match s {
        Some(t) => Some(t@),
        None => None,
    }
}

/// The cursor that a transport's `next_page_token` field stands for: an empty
/// string marks the last page.
pub open spec fn cursor_of(token: Seq<char>) -> Option<Seq<char>> {
    if token.len() == 0 {
        None
    } else {
        Some(token)
    }
}

/// Turns the transport's cursor field into an optional cursor.
pub fn cursor_from_field(token: String) -> (r: Option<String>)
    ensures
        opt_view(r) == cursor_of(token@),
{
    if token.as_str().is_empty() {
        None
    } else {
        Some(token)
    }
}

/// Parameters that a paginated walk can re-issue with another cursor.
pub trait PagedParams: Sized {
    /// The cursor these parameters start from.
    spec fn cursor(&self) -> Option<Seq<char>>;

    /// Whether two parameter values ask for the same listing, cursor aside.
    spec fn same_query(&self, other: &Self) -> bool;

    /// The same listing, resumed at `token`.
    fn resume_at(self, token: String) -> (r: Self)
        ensures
            r.cursor() == Some(token@),
            r.same_query(&self),
    ;
}

impl FirestoreQueryOrder {
    pub fn new(field_name: String, direction: FirestoreQueryDirection) -> (r: Self)
        ensures
            r.field_name == field_name,
            r.direction == direction,
    {
        FirestoreQueryOrder { field_name, direction }
    }
}

impl FirestoreListDocParams {
    /// Parameters for the first page of `collection_id`, with the default page size.
    pub fn new(collection_id: String) -> (r: Self)
        ensures
            r.collection_id == collection_id,
            r.parent is None,
            r.page_size == DEFAULT_PAGE_SIZE,
            r.page_token is None,
            r.order_by is None,
            r.return_only_fields is None,
    {
        FirestoreListDocParams {
            collection_id,
            parent: None,
            page_size: DEFAULT_PAGE_SIZE,
            page_token: None,
            order_by: None,
            return_only_fields: None,
        }
    }

    pub fn with_page_token(self, token: String) -> (r: Self)
        ensures
            r == (FirestoreListDocParams { page_token: Some(token), ..self }),
    {
        FirestoreListDocParams { page_token: Some(token), ..self }
    }

    pub fn opt_page_token(self, token: Option<String>) -> (r: Self)
        ensures
            r == (FirestoreListDocParams { page_token: token, ..self }),
    {
        FirestoreListDocParams { page_token: token, ..self }
    }

    pub fn with_parent(self, parent: String) -> (r: Self)
        ensures
            r == (FirestoreListDocParams { parent: Some(parent), ..self }),
    {
        FirestoreListDocParams { parent: Some(parent), ..self }
    }

    pub fn opt_parent(self, parent: Option<String>) -> (r: Self)
        ensures
            r == (FirestoreListDocParams { parent, ..self }),
    {
        FirestoreListDocParams { parent, ..self }
    }

    pub fn with_page_size(self, page_size: usize) -> (r: Self)
        ensures
            r == (FirestoreListDocParams { page_size, ..self }),
    {
        FirestoreListDocParams { page_size, ..self }
    }

    pub fn with_order_by(self, order_by: Vec<FirestoreQueryOrder>) -> (r: Self)
        ensures
            r == (FirestoreListDocParams { order_by: Some(order_by), ..self }),
    {
        FirestoreListDocParams { order_by: Some(order_by), ..self }
    }

    pub fn with_return_only_fields(self, fields: Vec<String>) -> (r: Self)
        ensures
            r == (FirestoreListDocParams { return_only_fields: Some(fields), ..self }),
    {
        FirestoreListDocParams { return_only_fields: Some(fields), ..self }
    }
}

impl PagedParams for FirestoreListDocParams {
    open spec fn cursor(&self) -> Option<Seq<char>> {
        opt_view(self.page_token)
    }

    open spec fn same_query(&self, other: &Self) -> bool {
        &&& self.collection_id == other.collection_id
        &&& self.parent == other.parent
        &&& self.page_size == other.page_size
        &&& self.order_by == other.order_by
        &&& self.return_only_fields == other.return_only_fields
    }

    fn resume_at(self, token: String) -> (r: Self) {
        self.with_page_token(token)
    }
}

impl FirestoreListCollectionIdsParams {
    /// Parameters for the first page of the collections under the session root.
    pub fn new() -> (r: Self)
        ensures
            r.parent is None,
            r.page_size == DEFAULT_PAGE_SIZE,
            r.page_token is None,
    {
        FirestoreListCollectionIdsParams { parent: None, page_size: DEFAULT_PAGE_SIZE, page_token: None }
    }

    pub fn with_page_token(self, token: String) -> (r: Self)
        ensures
            r == (FirestoreListCollectionIdsParams { page_token: Some(token), ..self }),
    {
        FirestoreListCollectionIdsParams { page_token: Some(token), ..self }
    }

    pub fn opt_page_token(self, token: Option<String>) -> (r: Self)
        ensures
            r == (FirestoreListCollectionIdsParams { page_token: token, ..self }),
    {
        FirestoreListCollectionIdsParams { page_token: token, ..self }
    }

    pub fn with_parent(self, parent: String) -> (r: Self)
        ensures
            r == (FirestoreListCollectionIdsParams { parent: Some(parent), ..self }),
    {
        FirestoreListCollectionIdsParams { parent: Some(parent), ..self }
    }

    pub fn with_page_size(self, page_size: usize) -> (r: Self)
        ensures
            r == (FirestoreListCollectionIdsParams { page_size, ..self }),
    {
        FirestoreListCollectionIdsParams { page_size, ..self }
    }
}

impl PagedParams for FirestoreListCollectionIdsParams {
    open spec fn cursor(&self) -> Option<Seq<char>> {
        opt_view(self.page_token)
    }

    open spec fn same_query(&self, other: &Self) -> bool {
        &&& self.parent == other.parent
        &&& self.page_size == other.page_size
    }

    fn resume_at(self, token: String) -> (r: Self) {
        self.with_page_token(token)
    }
}

impl<D> FirestoreListDocResult<D> {
    pub fn new(documents: Vec<D>) -> (r: Self)
        ensures
            r.documents == documents,
            r.page_token is None,
    {
        FirestoreListDocResult { documents, page_token: None }
    }

    pub fn opt_page_token(self, page_token: Option<String>) -> (r: Self)
        ensures
            r.documents == self.documents,
            r.page_token == page_token,
    {
        FirestoreListDocResult { documents: self.documents, page_token }
    }

    /// The result of one transport response: an empty cursor field means no next page.
    pub fn from_response(documents: Vec<D>, next_page_token: String) -> (r: Self)
        ensures
            r.documents == documents,
            opt_view(r.page_token) == cursor_of(next_page_token@),
    {
        FirestoreListDocResult { documents, page_token: cursor_from_field(next_page_token) }
    }

    pub fn into_page(self) -> (r: ListPage<D>)
        ensures
            r.items == self.documents,
            r.next_page_token == self.page_token,
    {
        ListPage { items: self.documents, next_page_token: self.page_token }
    }
}

impl FirestoreListCollectionIdsResult {
    pub fn new(collection_ids: Vec<String>) -> (r: Self)
        ensures
            r.collection_ids == collection_ids,
            r.page_token is None,
    {
        FirestoreListCollectionIdsResult { collection_ids, page_token: None }
    }

    pub fn opt_page_token(self, page_token: Option<String>) -> (r: Self)
        ensures
            r.collection_ids == self.collection_ids,
            r.page_token == page_token,
    {
        FirestoreListCollectionIdsResult { collection_ids: self.collection_ids, page_token }
    }

    /// The result of one transport response: an empty cursor field means no next page.
    pub fn from_response(collection_ids: Vec<String>, next_page_token: String) -> (r: Self)
        ensures
            r.collection_ids == collection_ids,
            opt_view(r.page_token) == cursor_of(next_page_token@),
    {
        FirestoreListCollectionIdsResult {
            collection_ids,
            page_token: cursor_from_field(next_page_token),
        }
    }

    pub fn into_page(self) -> (r: ListPage<String>)
        ensures
            r.items == self.collection_ids,
            r.next_page_token == self.page_token,
    {
        ListPage { items: self.collection_ids, next_page_token: self.page_token }
    }
}

} // verus!
