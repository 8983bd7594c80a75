use vstd::prelude::*;
use vstd::string::*;
use crate::db::{FirestoreConsistencySelector, FirestoreDb};
use crate::error::{FirestoreError, FirestoreResult, SelectorProblem};
use crate::params::{
    FirestoreListCollectionIdsParams, FirestoreListDocParams, FirestoreQueryDirection,
    FirestoreQueryOrder,
};

verus! {

/// Largest nanosecond count a transport timestamp holds.
pub const MAX_NANOS: u32 = 999_999_999;

/// Largest page size the transport's 32-bit field holds.
pub const MAX_PAGE_SIZE: usize = 2_147_483_647;

/// A transport timestamp.
#[derive(Debug, Clone, Copy, PartialEq, Eq)]
pub struct Timestamp {
    pub seconds: i64,
    pub nanos: i32,
}

/// The consistency field of a transport request.
#[derive(Debug, Clone, PartialEq, Eq)]
pub enum RequestConsistency {
    Transaction(Vec<u8>),
    ReadTime(Timestamp),
}

/// A transport request for one page of documents.
#[derive(Debug, Clone, PartialEq, Eq)]
pub struct ListDocumentsRequest {
    pub parent: String,
    pub collection_id: String,
    pub page_size: i32,
    pub page_token: String,
    pub order_by: String,
    pub mask: Option<Vec<String>>,
    pub consistency_selector: Option<RequestConsistency>,
    pub show_missing: bool,
}

/// A transport request for one page of collection ids.
#[derive(Debug, Clone, PartialEq, Eq)]
pub struct ListCollectionIdsRequest {
    pub parent: String,
    pub page_size: i32,
    pub page_token: String,
    pub consistency_selector: Option<RequestConsistency>,
}

/// The text of a direction in the transport's ordering grammar.
pub open spec fn direction_text(d: FirestoreQueryDirection) -> Seq<char> {
    match d {
        FirestoreQueryDirection::Ascending => seq!['a', 's', 'c'],
        FirestoreQueryDirection::Descending => seq!['d', 'e', 's', 'c'],
    }
}

/// One ordering clause as text: the field path, a space, the direction.
pub open spec fn order_clause(o: FirestoreQueryOrder) -> Seq<char> {
    o.field_name@ + seq![' '] + direction_text(o.direction)
}

/// The clauses joined by a comma and a space.
pub open spec fn order_text(orders: Seq<FirestoreQueryOrder>) -> Seq<char>
    decreases orders.len(),
{
    if orders.len() == 0 {
        Seq::empty()
    } else if orders.len() == 1 {
        order_clause(orders[0])
    } else {
        order_text(orders.drop_last()) + seq![',', ' '] + order_clause(orders.last())
    }
}

/// The ordering field of a request: empty when no ordering is asked for.
pub open spec fn order_by_text(order_by: Option<Vec<FirestoreQueryOrder>>) -> Seq<char> {
    match order_by {
        Some(v) => order_text(v@),
        None => Seq::empty(),
    }
}

/// What keeps a selector out of a request, if anything; `allow_transaction`
/// says whether the request takes a transaction handle.
pub open spec fn selector_problem(s: FirestoreConsistencySelector, allow_transaction: bool) -> Option<
    SelectorProblem,
> {
    match s {
        FirestoreConsistencySelector::Transaction(_) => if allow_transaction {
            None
        } else {
            Some(SelectorProblem::TransactionNotAllowed)
        },
        FirestoreConsistencySelector::ReadTime { seconds, nanos } => if nanos <= MAX_NANOS {
            None
        } else {
            Some(SelectorProblem::ReadTimeOutOfRange { seconds, nanos })
        },
    }
}

/// What keeps the session's selector, if any, out of a request.
pub open spec fn session_selector_problem(db: FirestoreDb, allow_transaction: bool) -> Option<SelectorProblem> {
    match db.consistency_selector {
        Some(s) => selector_problem(s, allow_transaction),
        None => None,
    }
}

/// Whether `r` is the transport form of the convertible selector `s`.
pub open spec fn converted_selector(r: RequestConsistency, s: FirestoreConsistencySelector) -> bool {
    match (r, s) {
        (RequestConsistency::Transaction(a), FirestoreConsistencySelector::Transaction(b)) => a@ == b@,
        (RequestConsistency::ReadTime(t), FirestoreConsistencySelector::ReadTime { seconds, nanos }) => {
            t.seconds == seconds && t.nanos == nanos as int
        },
        _ => false,
    }
}

/// Whether `r` is the consistency field that the session's requests carry.
pub open spec fn session_consistency(r: Option<RequestConsistency>, db: FirestoreDb) -> bool {
    match (r, db.consistency_selector) {
        (Some(c), Some(s)) => converted_selector(c, s),
        (None, None) => true,
        _ => false,
    }
}

/// Whether a page size fits the transport's positive 32-bit field.
pub open spec fn page_size_ok(page_size: usize) -> bool {
    1 <= page_size <= MAX_PAGE_SIZE
}

/// The parent path a request resolves to: the given one, else the session root.
pub open spec fn resolved_parent(db: FirestoreDb, parent: Option<String>) -> Seq<char> {
    match parent {
        Some(p) => p@,
        None => db.documents_path@,
    }
}

/// The cursor field of a request: empty for the first page.
pub open spec fn token_field(token: Option<String>) -> Seq<char> {
    match token {
        Some(t) => t@,
        None => Seq::empty(),
    }
}

/// Whether `req` is the request for one page of documents at `params` in this session.
pub open spec fn doc_request_of(req: ListDocumentsRequest, db: FirestoreDb, params: FirestoreListDocParams) -> bool {
    &&& req.parent@ == resolved_parent(db, params.parent)
    &&& req.collection_id == params.collection_id
    &&& req.page_size == params.page_size as int
    &&& req.page_token@ == token_field(params.page_token)
    &&& req.order_by@ == order_by_text(params.order_by)
    &&& req.mask == params.return_only_fields
    &&& session_consistency(req.consistency_selector, db)
    &&& !req.show_missing
}

/// Whether `req` is the request for one page of collection ids at `params` in this session.
pub open spec fn collection_ids_request_of(
    req: ListCollectionIdsRequest,
    db: FirestoreDb,
    params: FirestoreListCollectionIdsParams,
) -> bool {
    &&& req.parent@ == resolved_parent(db, params.parent)
    &&& req.page_size == params.page_size as int
    &&& req.page_token@ == token_field(params.page_token)
    &&& session_consistency(req.consistency_selector, db)
}

/// Whether two consistency fields say the same thing.
pub open spec fn same_consistency(a: Option<RequestConsistency>, b: Option<RequestConsistency>) -> bool {
    match (a, b) {
        (Some(RequestConsistency::Transaction(x)), Some(RequestConsistency::Transaction(y))) => x@ == y@,
        (Some(RequestConsistency::ReadTime(x)), Some(RequestConsistency::ReadTime(y))) => x == y,
        (None, None) => true,
        _ => false,
    }
}

/// Whether two document requests carry the same content.
pub open spec fn same_doc_request(a: ListDocumentsRequest, b: ListDocumentsRequest) -> bool {
    &&& a.parent@ == b.parent@
    &&& a.collection_id == b.collection_id
    &&& a.page_size == b.page_size
    &&& a.page_token@ == b.page_token@
    &&& a.order_by@ == b.order_by@
    &&& a.mask == b.mask
    &&& same_consistency(a.consistency_selector, b.consistency_selector)
    &&& a.show_missing == b.show_missing
}

/// Building the request for one page twice, with the same parameters in the
/// same session, gives the same request: a single-page fetch sends the same
/// thing each time.
pub proof fn lemma_doc_request_deterministic(
    db: FirestoreDb,
    params: FirestoreListDocParams,
    a: ListDocumentsRequest,
    b: ListDocumentsRequest,
)
    requires
        doc_request_of(a, db, params),
        doc_request_of(b, db, params),
    ensures
        same_doc_request(a, b),
{
}

impl FirestoreQueryOrder {
    /// The clause in the transport's ordering grammar.
    pub fn to_string_format(&self) -> (r: String)
        ensures
            r@ == order_clause(*self),
    {
        let mut r = self.field_name.clone();
        r.append(" ");
        match self.direction {
            FirestoreQueryDirection::Ascending => r.append("asc"),
            FirestoreQueryDirection::Descending => r.append("desc"),
        }
        proof {
            reveal_strlit(" ");
            reveal_strlit("asc");
            reveal_strlit("desc");
        }
        r
    }
}

/// The ordering field for a list of clauses.
pub fn format_order_by(orders: &Vec<FirestoreQueryOrder>) -> (r: String)
    ensures
        r@ == order_text(orders@),
{
    let mut r = String::new();
    let mut i: usize = 0;
    while i < orders.len()
        invariant
            i <= orders.len(),
            r@ == order_text(orders@.subrange(0, i as int)),
        decreases orders.len() - i,
    {
        let clause = orders[i].to_string_format();
        if i > 0 {
            r.append(", ");
        }
        r.append(clause.as_str());
        proof {
            reveal_strlit(", ");
            let next = orders@.subrange(0, i + 1);
            assert(next.drop_last() =~= orders@.subrange(0, i as int));
            assert(next.last() == orders@[i as int]);
        }
        i = i + 1;
    }
    assert(orders@.subrange(0, orders.len() as int) =~= orders@);
    r
}

/// The ordering field of a request, empty when none is asked for.
pub fn format_opt_order_by(order_by: &Option<Vec<FirestoreQueryOrder>>) -> (r: String)
    ensures
        r@ == order_by_text(*order_by),
{
    match order_by {
        Some(v) => format_order_by(v),
        None => String::new(),
    }
}

/// Converts a consistency selector to its transport form.
pub fn convert_selector(s: &FirestoreConsistencySelector, allow_transaction: bool) -> (r: FirestoreResult<
    RequestConsistency,
>)
    ensures
        selector_problem(*s, allow_transaction) matches Some(p) ==> r == Err::<RequestConsistency, FirestoreError>(
            FirestoreError::ConsistencySelector(p),
        ),
        selector_problem(*s, allow_transaction) is None ==> (r matches Ok(c) && converted_selector(c, *s)),
{
    match s {
        FirestoreConsistencySelector::Transaction(h) => {
            if allow_transaction {
                let handle = h.clone();
                assert(handle@ =~= h@);
                Ok(RequestConsistency::Transaction(handle))
            } else {
                Err(FirestoreError::ConsistencySelector(SelectorProblem::TransactionNotAllowed))
            }
        },
        FirestoreConsistencySelector::ReadTime { seconds, nanos } => {
            if *nanos <= MAX_NANOS {
                Ok(RequestConsistency::ReadTime(Timestamp { seconds: *seconds, nanos: *nanos as i32 }))
            } else {
                Err(
                    FirestoreError::ConsistencySelector(
                        SelectorProblem::ReadTimeOutOfRange { seconds: *seconds, nanos: *nanos },
                    ),
                )
            }
        },
    }
}

impl FirestoreDb {
    /// The consistency field of this session's requests.
    pub fn request_consistency(&self, allow_transaction: bool) -> (r: FirestoreResult<Option<RequestConsistency>>)
        ensures
            session_selector_problem(*self, allow_transaction) matches Some(p) ==> r == Err::<
                Option<RequestConsistency>,
                FirestoreError,
            >(FirestoreError::ConsistencySelector(p)),
            session_selector_problem(*self, allow_transaction) is None ==> (r matches Ok(c)
                && session_consistency(c, *self)),
    {
        match &self.consistency_selector {
            Some(s) => match convert_selector(s, allow_transaction) {
                Ok(c) => Ok(Some(c)),
                Err(e) => Err(e),
            },
            None => Ok(None),
        }
    }

    /// The parent path of a request: the given one, else the session root.
    pub fn resolve_parent(&self, parent: Option<String>) -> (r: String)
        ensures
            r@ == resolved_parent(*self, parent),
    {
        match parent {
            Some(p) => p,
            None => self.documents_path.clone(),
        }
    }

    /// Builds the transport request for one page of documents.
    pub fn create_list_doc_request(&self, params: FirestoreListDocParams) -> (r: FirestoreResult<ListDocumentsRequest>)
        ensures
            !page_size_ok(params.page_size) ==> r == Err::<ListDocumentsRequest, FirestoreError>(
                FirestoreError::InvalidPageSize(params.page_size),
            ),
            page_size_ok(params.page_size) && session_selector_problem(*self, true) is Some ==> r == Err::<
                ListDocumentsRequest,
                FirestoreError,
            >(FirestoreError::ConsistencySelector(session_selector_problem(*self, true).unwrap())),
            page_size_ok(params.page_size) && session_selector_problem(*self, true) is None ==> (r matches Ok(
                req,
            ) && doc_request_of(req, *self, params)),
    {
        if params.page_size == 0 || params.page_size > MAX_PAGE_SIZE {
            return Err(FirestoreError::InvalidPageSize(params.page_size));
        }
        let consistency_selector = match self.request_consistency(true) {
            Ok(c) => c,
            Err(e) => return Err(e),
        };
        let order_by = format_opt_order_by(&params.order_by);
        let page_token = match params.page_token {
            Some(t) => t,
            None => String::new(),
        };
        Ok(ListDocumentsRequest {
            parent: self.resolve_parent(params.parent),
            collection_id: params.collection_id,
            page_size: params.page_size as i32,
            page_token,
            order_by,
            mask: params.return_only_fields,
            consistency_selector,
            show_missing: false,
        })
    }

    /// Builds the transport request for one page of collection ids.
    pub fn create_list_collection_ids_request(&self, params: &FirestoreListCollectionIdsParams) -> (r:
        FirestoreResult<ListCollectionIdsRequest>)
        ensures
            !page_size_ok(params.page_size) ==> r == Err::<ListCollectionIdsRequest, FirestoreError>(
                FirestoreError::InvalidPageSize(params.page_size),
            ),
            page_size_ok(params.page_size) && session_selector_problem(*self, false) is Some ==> r == Err::<
                ListCollectionIdsRequest,
                FirestoreError,
            >(FirestoreError::ConsistencySelector(session_selector_problem(*self, false).unwrap())),
            page_size_ok(params.page_size) && session_selector_problem(*self, false) is None ==> (r matches Ok(
                req,
            ) && collection_ids_request_of(req, *self, *params)),
    {
        if params.page_size == 0 || params.page_size > MAX_PAGE_SIZE {
            return Err(FirestoreError::InvalidPageSize(params.page_size));
        }
        let consistency_selector = match self.request_consistency(false) {
            Ok(c) => c,
            Err(e) => return Err(e),
        };
        let parent = match &params.parent {
            Some(p) => p.clone(),
            None => self.documents_path.clone(),
        };
        let page_token = match &params.page_token {
            Some(t) => t.clone(),
            None => String::new(),
        };
        Ok(ListCollectionIdsRequest {
            parent,
            page_size: params.page_size as i32,
            page_token,
            consistency_selector,
        })
    }
}

} // verus!
