use vstd::prelude::*;

verus! {

/// Whether listings may be answered from the local cache.
#[derive(Debug, Clone, Copy, PartialEq, Eq)]
pub enum CacheMode {
    /// Every listing goes to the network.
    Disabled,
    /// Listings are answered from the cache alone, never from the network.
    ReadCachedOnly,
}

/// The consistency a session reads at.
#[derive(Debug, Clone, PartialEq, Eq)]
pub enum FirestoreConsistencySelector {
    /// Read inside the transaction with this handle.
    Transaction(Vec<u8>),
    /// Read the data as of this instant: seconds since the epoch and nanoseconds.
    ReadTime { seconds: i64, nanos: u32 },
}

/// The session state that listings depend on: everything of a client but its
/// transport and cache handles.
#[derive(Debug, Clone, PartialEq, Eq)]
pub struct FirestoreDb {
    pub documents_path: String,
    pub max_retries: usize,
    pub consistency_selector: Option<FirestoreConsistencySelector>,
    pub cache_mode: CacheMode,
}

impl FirestoreDb {
    /// A session rooted at `documents_path`, reading the latest data, without cache.
    pub fn new(documents_path: String, max_retries: usize) -> (r: Self)
        ensures
            r.documents_path == documents_path,
            r.max_retries == max_retries,
            r.consistency_selector is None,
            r.cache_mode == CacheMode::Disabled,
    {
        FirestoreDb {
            documents_path,
            max_retries,
            consistency_selector: None,
            cache_mode: CacheMode::Disabled,
        }
    }

    pub fn with_consistency_selector(self, selector: FirestoreConsistencySelector) -> (r: Self)
        ensures
            r == (FirestoreDb { consistency_selector: Some(selector), ..self }),
    {
        FirestoreDb { consistency_selector: Some(selector), ..self }
    }

    pub fn with_cache_mode(self, cache_mode: CacheMode) -> (r: Self)
        ensures
            r == (FirestoreDb { cache_mode, ..self }),
    {
        FirestoreDb { cache_mode, ..self }
    }

    pub fn get_documents_path(&self) -> (r: &String)
        ensures
            r == &self.documents_path,
    {
        &self.documents_path
    }
}

} // verus!
