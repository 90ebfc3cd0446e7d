//! The discovery snapshot read once from disk, and what it answers.
use vstd::prelude::*;

use crate::discovery::{ApiGroup, ApiResourceList};

verus! {

/// A persisted discovery snapshot: the group list and the resource lists.
#[derive(Clone, Debug, PartialEq)]
pub struct DiscoverySnapshot {
    pub groups: Vec<ApiGroup>,
    pub resources: Vec<ApiResourceList>,
}

/// What reading the cache file gave.
#[derive(Clone, Debug, PartialEq)]
pub enum CacheFile {
    /// There is no cache file.
    Absent,
    /// There is one, and it could not be read or parsed; the reason.
    Malformed(String),
    /// There is one, and it parsed.
    Present(DiscoverySnapshot),
}

/// A cache file that exists but cannot be used.
#[derive(Clone, Debug, PartialEq, Eq)]
pub enum LoadError {
    DiscoveryLoadFailure(String),
}

/// The discovery data known without asking the server; fixed once loaded.
#[derive(Clone, Debug, PartialEq)]
pub struct Cache {
    pub snapshot: Option<DiscoverySnapshot>,
}

/// The cache that a cache file gives: empty where there is no file, an error
/// where the file cannot be used, its snapshot otherwise.
pub open spec fn loaded(file: CacheFile) -> Result<Cache, LoadError> {
    match file {
        CacheFile::Absent => Ok(Cache { snapshot: None }),
        CacheFile::Malformed(reason) => Err(LoadError::DiscoveryLoadFailure(reason)),
        CacheFile::Present(s) => Ok(Cache { snapshot: Some(s) }),
    }
}

/// The resource lists a cache answers, if any.
pub open spec fn cached_resources(c: Cache) -> Option<Seq<ApiResourceList>> {
    match c.snapshot {
        Some(s) => Some(s.resources@),
        None => None,
    }
}

/// The group list a cache answers, if any.
pub open spec fn cached_groups(c: Cache) -> Option<Seq<ApiGroup>> {
    match c.snapshot {
        Some(s) => Some(s.groups@),
        None => None,
    }
}

impl Cache {
    /// A cache that knows nothing: every query goes to the server.
    pub fn empty() -> (r: Cache)
        ensures
            r.snapshot is None,
    {
        Cache { snapshot: None }
    }

    /// The cache that a cache file gives.
    pub fn load(file: CacheFile) -> (r: Result<Cache, LoadError>)
        ensures
            r == loaded(file),
    {
        match file {
            CacheFile::Absent => Ok(Cache { snapshot: None }),
            CacheFile::Malformed(reason) => Err(LoadError::DiscoveryLoadFailure(reason)),
            CacheFile::Present(s) => Ok(Cache { snapshot: Some(s) }),
        }
    }

    /// The cached resource lists; `None` means they must be fetched.
    pub fn api_resources(&self) -> (r: Option<&Vec<ApiResourceList>>)
        ensures
            match r {
                Some(v) => cached_resources(*self) == Some(v@),
                None => cached_resources(*self) is None,
            },
    {
        match &self.snapshot {
            Some(s) => Some(&s.resources),
            None => None,
        }
    }

    /// The cached group list; `None` means it must be fetched.
    pub fn api_groups(&self) -> (r: Option<&Vec<ApiGroup>>)
        ensures
            match r {
                Some(v) => cached_groups(*self) == Some(v@),
                None => cached_groups(*self) is None,
            },
    {
        match &self.snapshot {
            Some(s) => Some(&s.groups),
            None => None,
        }
    }
}

/// Without a cache file, loading succeeds with an empty cache, so both the
/// resource lists and the group list are fetched from the server.
pub proof fn lemma_absent_cache_falls_back()
    ensures
        loaded(CacheFile::Absent) is Ok,
        cached_resources(loaded(CacheFile::Absent)->Ok_0) is None,
        cached_groups(loaded(CacheFile::Absent)->Ok_0) is None,
{
}

/// With a valid cache file, the resource lists and the group list are
/// answered from it, so no discovery request reaches the server.
pub proof fn lemma_valid_cache_answers(s: DiscoverySnapshot)
    ensures
        loaded(CacheFile::Present(s)) is Ok,
        cached_resources(loaded(CacheFile::Present(s))->Ok_0) == Some(s.resources@),
        cached_groups(loaded(CacheFile::Present(s))->Ok_0) == Some(s.groups@),
{
}

} // verus!
