use vstd::prelude::*;
use vstd::string::*;
use crate::db::{CacheMode, FirestoreDb};
use crate::error::FirestoreResult;
use crate::params::FirestoreListDocParams;
use crate::request::resolved_parent;
use crate::stream::{oks, wrap_ok, ListingState};

verus! {

/// What the cache gate decided for a listing.
#[derive(Debug, Clone, PartialEq, Eq)]
pub enum CacheLookupOutcome<D> {
    /// Serve these documents; the network is not asked.
    UseCached(Vec<D>),
    /// Go to the network.
    SkipCache,
}

/// How a document listing is served: from items at hand, or by a paginated walk.
#[derive(Debug, Clone, PartialEq, Eq)]
pub enum ListingPlan<D> {
    Cached(Vec<FirestoreResult<D>>),
    Network(ListingState<FirestoreListDocParams>),
}

/// The path of the listed collection: its parent, else the session root, a
/// slash, and the collection id.
pub open spec fn collection_path_of(db: FirestoreDb, params: FirestoreListDocParams) -> Seq<char> {
    resolved_parent(db, params.parent) + seq!['/'] + params.collection_id@
}

/// The documents served in read-cached-only mode: what the cache
/// holds, or nothing on a miss.
pub open spec fn cached_or_empty<D>(cached: Option<Vec<D>>) -> Seq<D> {
    match cached {
        Some(v) => v@,
        None => Seq::empty(),
    }
}

impl FirestoreDb {
    /// The path of the collection a listing reads.
    pub fn collection_path(&self, params: &FirestoreListDocParams) -> (r: String)
        ensures
            r@ == collection_path_of(*self, *params),
    {
        let mut r = match &params.parent {
            Some(p) => p.clone(),
            None => self.documents_path.clone(),
        };
        r.append("/");
        r.append(params.collection_id.as_str());
        proof {
            reveal_strlit("/");
        }
        r
    }

    /// The path to look up in the cache, when this session reads from it.
    pub fn cache_lookup_path(&self, params: &FirestoreListDocParams) -> (r: Option<String>)
        ensures
            self.cache_mode == CacheMode::Disabled ==> r is None,
            self.cache_mode == CacheMode::ReadCachedOnly ==> (r matches Some(p) && p@
                == collection_path_of(*self, *params)),
    {
        match self.cache_mode {
            CacheMode::Disabled => None,
            CacheMode::ReadCachedOnly => Some(self.collection_path(params)),
        }
    }

    /// The cache gate, given what the cache returned for `cache_lookup_path`
    /// (`None` on a miss). Without cache the listing goes to the network; in
    /// read-cached-only mode it never does: a hit is served as it stands and a
    /// miss as an empty listing.
    pub fn list_docs_from_cache<D>(&self, cached: Option<Vec<D>>) -> (r:
        CacheLookupOutcome<D>)
        ensures
            self.cache_mode == CacheMode::Disabled ==> r is SkipCache,
            self.cache_mode == CacheMode::ReadCachedOnly ==> (r matches CacheLookupOutcome::UseCached(v)
                && v@ == cached_or_empty(cached)),
    {
        match self.cache_mode {
            CacheMode::Disabled => CacheLookupOutcome::SkipCache,
            CacheMode::ReadCachedOnly => match cached {
                Some(v) => CacheLookupOutcome::UseCached(v),
                None => CacheLookupOutcome::UseCached(Vec::new()),
            },
        }
    }

    /// How a document listing is served: the cached items, each a success,
    /// when the listing is served from cache; else a walk from `params`.
    pub fn plan_listing<D>(&self, params: FirestoreListDocParams, cached: Option<Vec<D>>) -> (r: ListingPlan<D>)
        ensures
            self.cache_mode == CacheMode::Disabled ==> r == ListingPlan::<D>::Network(
                ListingState::Continue(params),
            ),
            self.cache_mode == CacheMode::ReadCachedOnly ==> (r matches ListingPlan::Cached(items)
                && items@ == oks(cached_or_empty(cached))),
    {
        match self.list_docs_from_cache(cached) {
            CacheLookupOutcome::UseCached(v) => ListingPlan::Cached(wrap_ok(v)),
            CacheLookupOutcome::SkipCache => ListingPlan::Network(ListingState::start(params)),
        }
    }
}

} // verus!
