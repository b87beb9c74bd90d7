use vstd::prelude::*;
use std::time::Duration;
use crate::config::CrawlCache;
use crate::error::CrawlCacheError;
use crate::error::ErrorModel;
use crate::paths::parent_dir;
use crate::paths::parent_dir_spec;

verus! {

/// One step of the cache orchestration, decided by the planners below and
/// carried out by an unverified driver:
///
/// - `EnsureDir`: create the named directory and every missing parent of it,
///   then report the outcome to [`CrawlCache::plan_dir_outcome`].
/// - `Fetch`: issue the HTTP GET and report the outcome to
///   [`CrawlCache::plan_fetch_outcome`].
/// - `Write`: store `content` in the cache file and report the outcome to
///   [`CrawlCache::plan_write_outcome`].
/// - `Delay`: sleep for `duration`, then return `Ok(content)`.
/// - `Done`: return `result` as the outcome of the whole operation.
#[derive(Debug, PartialEq, Eq)]
pub enum CacheStep {
    EnsureDir { dir: String },
    Fetch,
    Write { content: String },
    Delay { duration: Duration, content: String },
    Done { result: Result<String, CrawlCacheError> },
}

/// The mathematical model of [`CacheStep`], over character sequences.
pub enum StepModel {
    EnsureDir { dir: Seq<char> },
    Fetch,
    Write { content: Seq<char> },
    Delay { duration: Duration, content: Seq<char> },
    Done { result: Result<Seq<char>, ErrorModel> },
}

impl View for CacheStep {
    type V = StepModel;

    open spec fn view(&self) -> StepModel {
        match self {
            CacheStep::EnsureDir { dir } => StepModel::EnsureDir { dir: dir@ },
            CacheStep::Fetch => StepModel::Fetch,
            CacheStep::Write { content } => StepModel::Write { content: content@ },
            CacheStep::Delay { duration, content } => StepModel::Delay {
                duration: *duration,
                content: content@,
            },
            CacheStep::Done { result } => StepModel::Done { result: result_view(result) },
        }
    }
}

/// The model of an operation result: body text on success, an
/// [`ErrorModel`] otherwise.
pub open spec fn result_view(r: &Result<String, CrawlCacheError>) -> Result<Seq<char>, ErrorModel> {
    match r {
        Ok(content) => Ok(content@),
        Err(e) => Err(e@),
    }
}

/// The model of a raw transport outcome: body text on success, the
/// transport's own description of the failure otherwise.
pub open spec fn outcome_view(r: Result<String, String>) -> Result<Seq<char>, Seq<char>> {
    match r {
        Ok(content) => Ok(content@),
        Err(msg) => Err(msg@),
    }
}

/// The description a failed directory creation reports.
pub open spec fn dir_failure_message() -> Seq<char> {
    "failed to create the cache directory"@
}

/// The description a failed cache-file write reports.
pub open spec fn write_failure_message() -> Seq<char> {
    "failed to write the cache file"@
}

/// What the planner decides once the cache lookup has been made.
pub open spec fn lookup_step_model(cache_path: Seq<char>, found: Option<Seq<char>>) -> StepModel {
    match found {
        Some(content) => StepModel::Done { result: Ok(content) },
        None => {
            let dir = parent_dir_spec(cache_path);
            if dir.len() > 0 {
                StepModel::EnsureDir { dir }
            } else {
                StepModel::Fetch
            }
        },
    }
}

/// What the planner decides once the directory creation has been attempted.
pub open spec fn dir_step_model(ok: bool) -> StepModel {
    if ok {
        StepModel::Fetch
    } else {
        StepModel::Done { result: Err(ErrorModel::Storage(dir_failure_message())) }
    }
}

/// What the planner decides once the fetch has been attempted.
pub open spec fn fetch_step_model(fetched: Result<Seq<char>, Seq<char>>) -> StepModel {
    match fetched {
        Ok(body) => StepModel::Write { content: body },
        Err(msg) => StepModel::Done { result: Err(ErrorModel::Client(msg)) },
    }
}

/// What the planner decides once the cache-file write has been attempted.
pub open spec fn write_step_model(delay: Option<Duration>, ok: bool, content: Seq<char>) -> StepModel {
    if !ok {
        StepModel::Done { result: Err(ErrorModel::Storage(write_failure_message())) }
    } else {
        match delay {
            Some(duration) => StepModel::Delay { duration, content },
            None => StepModel::Done { result: Ok(content) },
        }
    }
}

impl CrawlCache {
    /// Decides the first step of `get_or_fetch` from the cache lookup:
    /// existing content is returned as-is (a hit performs no further work);
    /// on a miss, the parent directory of the cache path is ensured first
    /// when there is one, otherwise the fetch is next.
    pub fn plan_lookup(&self, cache_path: &str, found: Option<String>) -> (step: CacheStep)
        ensures
            step@ == lookup_step_model(cache_path@, found.deep_view()),
    {
        match found {
            Some(content) => CacheStep::Done { result: Ok(content) },
            None => {
                let dir = parent_dir(cache_path);
                if dir.as_str().unicode_len() > 0 {
                    CacheStep::EnsureDir { dir }
                } else {
                    CacheStep::Fetch
                }
            },
        }
    }

    /// Decides what follows the directory creation: on success the fetch,
    /// on failure a storage error that ends the operation.
    pub fn plan_dir_outcome(&self, ok: bool) -> (step: CacheStep)
        ensures
            step@ == dir_step_model(ok),
    {
        if ok {
            CacheStep::Fetch
        } else {
            CacheStep::Done {
                result: Err(CrawlCacheError::Storage("failed to create the cache directory".to_owned())),
            }
        }
    }

    /// Decides what follows the fetch: a fetched body is written to the cache
    /// file; a transport failure becomes a client error that ends the
    /// operation, carrying the transport's description unchanged.
    pub fn plan_fetch_outcome(&self, fetched: Result<String, String>) -> (step: CacheStep)
        ensures
            step@ == fetch_step_model(outcome_view(fetched)),
    {
        match fetched {
            Ok(body) => CacheStep::Write { content: body },
            Err(msg) => CacheStep::Done { result: Err(CrawlCacheError::Client(msg)) },
        }
    }

    /// Decides what follows the cache-file write: on success the fetched body
    /// is returned, after the configured post-fetch delay when there is one;
    /// on failure a storage error ends the operation.
    pub fn plan_write_outcome(&self, ok: bool, content: String) -> (step: CacheStep)
        ensures
            step@ == write_step_model(self.duration_spec(), ok, content@),
    {
        if !ok {
            CacheStep::Done {
                result: Err(CrawlCacheError::Storage("failed to write the cache file".to_owned())),
            }
        } else {
            match self.post_fetch_delay() {
                Some(duration) => CacheStep::Delay { duration, content },
                None => CacheStep::Done { result: Ok(content) },
            }
        }
    }
}

/// The verdict of an explicit cache removal: removing an absent file is
/// trivially a success; removing a present file succeeds exactly when the
/// deletion did.
pub open spec fn removal_verdict_spec(existed: bool, delete_ok: bool) -> bool {
    !existed || delete_ok
}

/// Reports whether an explicit cache removal counts as a success, from
/// whether the file existed and whether its deletion succeeded.
pub fn removal_verdict(existed: bool, delete_ok: bool) -> (r: bool)
    ensures
        r == removal_verdict_spec(existed, delete_ok),
{
    !existed || delete_ok
}

} // verus!
