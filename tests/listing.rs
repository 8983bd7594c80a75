use firestore_listing::cache::{CacheLookupOutcome, ListingPlan};
use firestore_listing::db::{CacheMode, FirestoreConsistencySelector, FirestoreDb};
use firestore_listing::decode::{decode_lossy, decode_strict, keep_ok};
use firestore_listing::error::{FirestoreError, FirestoreResult, SelectorProblem, TransportError};
use firestore_listing::params::{
    cursor_from_field, FirestoreListCollectionIdsParams, FirestoreListCollectionIdsResult,
    FirestoreListDocParams, FirestoreListDocResult, FirestoreQueryDirection, FirestoreQueryOrder,
    ListPage,
};
use firestore_listing::request::{format_order_by, RequestConsistency, Timestamp};
use firestore_listing::retry::{RetryDecision, RetryState};
use firestore_listing::stream::{wrap_ok, ListingState};

fn db() -> FirestoreDb {
    FirestoreDb::new("projects/p/databases/(default)/documents".to_string(), 3)
}

fn retryable() -> FirestoreError {
    FirestoreError::Transport(TransportError::new(true, "unavailable".to_string()))
}

fn fatal() -> FirestoreError {
    FirestoreError::Transport(TransportError::new(false, "permission denied".to_string()))
}

/// A fixed data set served page by page; the cursor is the index of the next item.
struct StaticServer {
    data: Vec<u32>,
    fetches: Vec<Option<String>>,
    fail_at_page: Option<usize>,
}

impl StaticServer {
    fn new(n: u32) -> Self {
        StaticServer { data: (0..n).collect(), fetches: Vec::new(), fail_at_page: None }
    }

    fn fetch(&mut self, params: &FirestoreListDocParams) -> FirestoreResult<ListPage<u32>> {
        let page_no = self.fetches.len();
        self.fetches.push(params.page_token.clone());
        if self.fail_at_page == Some(page_no) {
            return Err(fatal());
        }
        let start: usize = params.page_token.as_ref().map(|t| t.parse().unwrap()).unwrap_or(0);
        let end = (start + params.page_size).min(self.data.len());
        let next = if end < self.data.len() { end.to_string() } else { String::new() };
        let result = FirestoreListDocResult::from_response(self.data[start..end].to_vec(), next);
        Ok(result.into_page())
    }
}

fn walk(server: &mut StaticServer, params: FirestoreListDocParams) -> Vec<FirestoreResult<u32>> {
    let mut state = ListingState::start(params);
    let mut out = Vec::new();
    while let Some(p) = state.next_request() {
        let outcome = server.fetch(p);
        let (next, items) = state.advance(outcome);
        out.extend(items);
        state = next;
    }
    out
}

/// Runs the retry state machine against scripted attempt outcomes; returns
/// the result and the number of attempts made.
fn run_retries(max: usize, script: Vec<FirestoreResult<u32>>) -> (FirestoreResult<u32>, usize) {
    let mut state = RetryState::new(max);
    let mut attempts = 0;
    let mut script = script.into_iter();
    loop {
        let outcome = script.next().expect("script ran out");
        attempts += 1;
        match state.on_result(outcome) {
            RetryDecision::Retry(next) => state = next,
            RetryDecision::Finish(r) => return (r, attempts),
        }
    }
}

#[test]
fn order_by_is_comma_joined_clauses() {
    let orders = vec![
        FirestoreQueryOrder::new("name".to_string(), FirestoreQueryDirection::Ascending),
        FirestoreQueryOrder::new("age".to_string(), FirestoreQueryDirection::Descending),
    ];
    assert_eq!(format_order_by(&orders), "name asc, age desc");
    assert_eq!(format_order_by(&Vec::new()), "");
}

#[test]
fn doc_request_defaults_to_session_root() {
    let params = FirestoreListDocParams::new("users".to_string())
        .with_page_token("abc".to_string())
        .with_order_by(vec![FirestoreQueryOrder::new(
            "created".to_string(),
            FirestoreQueryDirection::Descending,
        )])
        .with_return_only_fields(vec!["name".to_string()]);
    let req = db().create_list_doc_request(params).unwrap();
    assert_eq!(req.parent, "projects/p/databases/(default)/documents");
    assert_eq!(req.collection_id, "users");
    assert_eq!(req.page_size, 100);
    assert_eq!(req.page_token, "abc");
    assert_eq!(req.order_by, "created desc");
    assert_eq!(req.mask, Some(vec!["name".to_string()]));
    assert_eq!(req.consistency_selector, None);
    assert!(!req.show_missing);
}

#[test]
fn doc_request_keeps_given_parent_and_empty_first_token() {
    let params = FirestoreListDocParams::new("items".to_string())
        .with_parent("projects/p/databases/(default)/documents/shops/s1".to_string())
        .with_page_size(7);
    let req = db().create_list_doc_request(params).unwrap();
    assert_eq!(req.parent, "projects/p/databases/(default)/documents/shops/s1");
    assert_eq!(req.page_size, 7);
    assert_eq!(req.page_token, "");
    assert_eq!(req.order_by, "");
    assert_eq!(req.mask, None);
}

#[test]
fn doc_request_rejects_bad_page_size() {
    let zero = FirestoreListDocParams::new("users".to_string()).with_page_size(0);
    assert_eq!(db().create_list_doc_request(zero), Err(FirestoreError::InvalidPageSize(0)));
    let huge = FirestoreListDocParams::new("users".to_string()).with_page_size(1usize << 31);
    assert_eq!(
        db().create_list_doc_request(huge),
        Err(FirestoreError::InvalidPageSize(1usize << 31))
    );
}

#[test]
fn doc_request_carries_consistency_selector() {
    let session = db().with_consistency_selector(FirestoreConsistencySelector::ReadTime {
        seconds: 1_700_000_000,
        nanos: 5,
    });
    let req = session.create_list_doc_request(FirestoreListDocParams::new("c".to_string())).unwrap();
    assert_eq!(
        req.consistency_selector,
        Some(RequestConsistency::ReadTime(Timestamp { seconds: 1_700_000_000, nanos: 5 }))
    );
    let tx = db().with_consistency_selector(FirestoreConsistencySelector::Transaction(vec![1, 2, 3]));
    let req = tx.create_list_doc_request(FirestoreListDocParams::new("c".to_string())).unwrap();
    assert_eq!(req.consistency_selector, Some(RequestConsistency::Transaction(vec![1, 2, 3])));
}

#[test]
fn doc_request_fails_on_unconvertible_selector() {
    let session = db().with_consistency_selector(FirestoreConsistencySelector::ReadTime {
        seconds: 10,
        nanos: 1_500_000_000,
    });
    assert_eq!(
        session.create_list_doc_request(FirestoreListDocParams::new("c".to_string())),
        Err(FirestoreError::ConsistencySelector(SelectorProblem::ReadTimeOutOfRange {
            seconds: 10,
            nanos: 1_500_000_000
        }))
    );
}

#[test]
fn collection_ids_request_refuses_transaction() {
    let tx = db().with_consistency_selector(FirestoreConsistencySelector::Transaction(vec![9]));
    assert_eq!(
        tx.create_list_collection_ids_request(&FirestoreListCollectionIdsParams::new()),
        Err(FirestoreError::ConsistencySelector(SelectorProblem::TransactionNotAllowed))
    );
    let rt = db().with_consistency_selector(FirestoreConsistencySelector::ReadTime { seconds: 3, nanos: 4 });
    let req = rt.create_list_collection_ids_request(&FirestoreListCollectionIdsParams::new()).unwrap();
    assert_eq!(req.consistency_selector, Some(RequestConsistency::ReadTime(Timestamp { seconds: 3, nanos: 4 })));
}

#[test]
fn collection_ids_request_fields() {
    let params = FirestoreListCollectionIdsParams::new().with_page_size(20).with_page_token("t1".to_string());
    let req = db().create_list_collection_ids_request(&params).unwrap();
    assert_eq!(req.parent, "projects/p/databases/(default)/documents");
    assert_eq!(req.page_size, 20);
    assert_eq!(req.page_token, "t1");
    let bad = FirestoreListCollectionIdsParams::new().with_page_size(0);
    assert_eq!(db().create_list_collection_ids_request(&bad), Err(FirestoreError::InvalidPageSize(0)));
}

#[test]
fn same_params_give_same_request() {
    let params = FirestoreListDocParams::new("users".to_string()).with_page_token("x".to_string());
    let a = db().create_list_doc_request(params.clone()).unwrap();
    let b = db().create_list_doc_request(params).unwrap();
    assert_eq!(a, b);
}

#[test]
fn single_page_fetch_is_repeatable() {
    let params = FirestoreListDocParams::new("c".to_string()).with_page_size(4);
    let mut server = StaticServer::new(10);
    let first = server.fetch(&params).unwrap();
    let second = server.fetch(&params).unwrap();
    assert_eq!(first, second);
    assert_eq!(first.items, vec![0, 1, 2, 3]);
}

#[test]
fn empty_cursor_field_means_last_page() {
    assert_eq!(cursor_from_field(String::new()), None);
    assert_eq!(cursor_from_field("next".to_string()), Some("next".to_string()));
    let r = FirestoreListCollectionIdsResult::from_response(vec!["a".to_string()], String::new());
    assert_eq!(r.page_token, None);
    assert_eq!(r.into_page().items, vec!["a".to_string()]);
}

#[test]
fn walk_yields_every_item_once_in_order() {
    let mut server = StaticServer::new(10);
    let items = walk(&mut server, FirestoreListDocParams::new("c".to_string()).with_page_size(3));
    let expected: Vec<FirestoreResult<u32>> = (0..10).map(Ok).collect();
    assert_eq!(items, expected);
    assert_eq!(server.fetches.len(), 4);
}

#[test]
fn walk_of_exact_multiple_fetches_no_extra_page() {
    let mut server = StaticServer::new(6);
    let items = walk(&mut server, FirestoreListDocParams::new("c".to_string()).with_page_size(3));
    assert_eq!(items.len(), 6);
    assert_eq!(server.fetches.len(), 2);
}

#[test]
fn walk_of_empty_collection_fetches_one_page() {
    let mut server = StaticServer::new(0);
    let items = walk(&mut server, FirestoreListDocParams::new("c".to_string()).with_page_size(3));
    assert!(items.is_empty());
    assert_eq!(server.fetches.len(), 1);
}

#[test]
fn each_request_uses_previous_cursor() {
    let mut server = StaticServer::new(7);
    walk(&mut server, FirestoreListDocParams::new("c".to_string()).with_page_size(3));
    assert_eq!(server.fetches, vec![None, Some("3".to_string()), Some("6".to_string())]);
}

#[test]
fn advance_resumes_same_query_at_cursor() {
    let params = FirestoreListDocParams::new("c".to_string()).with_page_size(2);
    let page = ListPage { items: vec![1u32, 2], next_page_token: Some("tok".to_string()) };
    let (next, items) = ListingState::start(params.clone()).advance(Ok(page));
    assert_eq!(items, vec![Ok(1), Ok(2)]);
    assert_eq!(next, ListingState::Continue(params.with_page_token("tok".to_string())));
}

#[test]
fn advance_on_empty_cursor_ends_walk() {
    let params = FirestoreListDocParams::new("c".to_string());
    let page = ListPage { items: vec![9u32], next_page_token: Some(String::new()) };
    let (next, items) = ListingState::start(params).advance(Ok(page));
    assert_eq!(items, vec![Ok(9)]);
    assert!(next.is_done());
    assert!(next.next_request().is_none());
}

#[test]
fn failure_is_last_item_and_no_page_follows() {
    let mut server = StaticServer::new(10);
    server.fail_at_page = Some(1);
    let items = walk(&mut server, FirestoreListDocParams::new("c".to_string()).with_page_size(3));
    assert_eq!(items, vec![Ok(0), Ok(1), Ok(2), Err(fatal())]);
    assert_eq!(server.fetches.len(), 2);
    assert_eq!(keep_ok(items), vec![0, 1, 2]);
}

#[test]
fn retry_recovers_after_k_failures() {
    let (r, attempts) = run_retries(3, vec![Err(retryable()), Err(retryable()), Ok(5)]);
    assert_eq!(r, Ok(5));
    assert_eq!(attempts, 3);
}

#[test]
fn retry_exhausts_after_max_plus_one_attempts() {
    let script = vec![Err(retryable()), Err(retryable()), Err(retryable()), Err(retryable()), Ok(1)];
    let (r, attempts) = run_retries(3, script);
    assert_eq!(
        r,
        Err(FirestoreError::ExhaustedRetries {
            retries: 3,
            last: TransportError::new(true, "unavailable".to_string())
        })
    );
    assert_eq!(attempts, 4);
}

#[test]
fn retry_gives_up_on_non_retryable() {
    let (r, attempts) = run_retries(3, vec![Err(fatal()), Ok(1)]);
    assert_eq!(r, Err(fatal()));
    assert_eq!(attempts, 1);
    let (r, attempts) = run_retries(0, vec![Err(retryable()), Ok(1)]);
    assert!(matches!(r, Err(FirestoreError::ExhaustedRetries { retries: 0, .. })));
    assert_eq!(attempts, 1);
}

#[test]
fn retry_state_starts_at_zero() {
    let st = db().retry_state();
    assert_eq!(st, RetryState { attempt: 0, max_retries: 3 });
    match st.on_result::<u32>(Err(retryable())) {
        RetryDecision::Retry(next) => assert_eq!(next.attempt, 1),
        RetryDecision::Finish(_) => panic!("expected a retry"),
    }
}

#[test]
fn cache_disabled_goes_to_network() {
    let params = FirestoreListDocParams::new("users".to_string());
    assert_eq!(db().cache_lookup_path(&params), None);
    assert_eq!(db().list_docs_from_cache(Some(vec![1u32])), CacheLookupOutcome::SkipCache);
    assert_eq!(
        db().plan_listing::<u32>(params.clone(), None),
        ListingPlan::Network(ListingState::Continue(params))
    );
}

#[test]
fn cache_hit_serves_cached_list() {
    let session = db().with_cache_mode(CacheMode::ReadCachedOnly);
    let params = FirestoreListDocParams::new("users".to_string());
    assert_eq!(
        session.cache_lookup_path(&params),
        Some("projects/p/databases/(default)/documents/users".to_string())
    );
    assert_eq!(
        session.list_docs_from_cache(Some(vec![4u32, 5])),
        CacheLookupOutcome::UseCached(vec![4, 5])
    );
    assert_eq!(session.plan_listing(params, Some(vec![4u32, 5])), ListingPlan::Cached(vec![Ok(4), Ok(5)]));
}

#[test]
fn cache_miss_serves_empty_list() {
    let session = db().with_cache_mode(CacheMode::ReadCachedOnly);
    let params = FirestoreListDocParams::new("users".to_string()).with_parent("root/x".to_string());
    assert_eq!(session.collection_path(&params), "root/x/users");
    assert_eq!(session.list_docs_from_cache::<u32>(None), CacheLookupOutcome::UseCached(vec![]));
    assert_eq!(session.plan_listing::<u32>(params, None), ListingPlan::Cached(vec![]));
}

fn parse_doc(d: &String) -> FirestoreResult<u32> {
    d.parse::<u32>().map_err(|_| FirestoreError::Decode(d.clone()))
}

#[test]
fn strict_decode_keeps_failure_in_place() {
    let items = vec![Ok("1".to_string()), Ok("x".to_string()), Ok("3".to_string()), Err(fatal())];
    let out = decode_strict(items, &parse_doc);
    assert_eq!(out, vec![Ok(1), Err(FirestoreError::Decode("x".to_string())), Ok(3), Err(fatal())]);
}

#[test]
fn lossy_decode_drops_only_the_bad_document() {
    let items = vec![Ok("1".to_string()), Ok("x".to_string()), Ok("3".to_string()), Ok("4".to_string())];
    assert_eq!(decode_lossy(items, &parse_doc), vec![1, 3, 4]);
}

#[test]
fn wrap_ok_keeps_order() {
    assert_eq!(wrap_ok(vec![3u8, 1, 2]), vec![Ok(3), Ok(1), Ok(2)]);
    assert_eq!(keep_ok::<u8>(vec![Err(fatal()), Ok(7), Err(retryable()), Ok(8)]), vec![7, 8]);
}
