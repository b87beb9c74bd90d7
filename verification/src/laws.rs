use vstd::prelude::*;
use std::time::Duration;
use crate::error::ErrorModel;
use crate::paths::parent_dir_spec;
use crate::plan::StepModel;
use crate::plan::dir_failure_message;
use crate::plan::dir_step_model;
use crate::plan::fetch_step_model;
use crate::plan::lookup_step_model;
use crate::plan::removal_verdict_spec;
use crate::plan::write_failure_message;
use crate::plan::write_step_model;

verus! {

/// Everything one `get_or_fetch` run does, as a function of the configured
/// delay and of what the environment answered at each step:
///
/// - `found`: what the cache lookup returned,
/// - `dir_ok`: whether the directory creation succeeded (read only when a
///   directory had to be created),
/// - `fetched`: what the transport returned (read only when a fetch was
///   planned),
/// - `write_ok`: whether the cache-file write succeeded (read only when a
///   write was planned).
#[verifier::ext_equal]
pub struct RunModel {
    /// What the caller receives.
    pub result: Result<Seq<char>, ErrorModel>,
    /// Whether a network request was issued.  The orchestration plans at most
    /// one fetch, so this also counts them: `false` is zero requests, `true`
    /// exactly one.
    pub fetched: bool,
    /// The directory whose existence was ensured, if any.
    pub dir_ensured: Option<Seq<char>>,
    /// The content now stored at the cache path, if the run stored one.
    pub wrote: Option<Seq<char>>,
    /// The delay the run slept for, if it slept.
    pub slept: Option<Duration>,
}

/// The outcome of one `get_or_fetch` run, obtained by chaining the step
/// planners: hit, failed directory creation, failed fetch, failed write, and
/// the successful miss path, in that order of decision.
pub open spec fn run_model(
    delay: Option<Duration>,
    cache_path: Seq<char>,
    found: Option<Seq<char>>,
    dir_ok: bool,
    fetched: Result<Seq<char>, Seq<char>>,
    write_ok: bool,
) -> RunModel {
    match found {
        Some(content) => RunModel {
            result: Ok(content),
            fetched: false,
            dir_ensured: None,
            wrote: None,
            slept: None,
        },
        None => {
            let dir = parent_dir_spec(cache_path);
            let dir_ensured = if dir.len() > 0 {
                Some(dir)
            } else {
                None
            };
            if dir.len() > 0 && !dir_ok {
                RunModel {
                    result: Err(ErrorModel::Storage(dir_failure_message())),
                    fetched: false,
                    dir_ensured,
                    wrote: None,
                    slept: None,
                }
            } else {
                match fetched {
                    Err(msg) => RunModel {
                        result: Err(ErrorModel::Client(msg)),
                        fetched: true,
                        dir_ensured,
                        wrote: None,
                        slept: None,
                    },
                    Ok(body) => if !write_ok {
                        RunModel {
                            result: Err(ErrorModel::Storage(write_failure_message())),
                            fetched: true,
                            dir_ensured,
                            wrote: None,
                            slept: None,
                        }
                    } else {
                        RunModel {
                            result: Ok(body),
                            fetched: true,
                            dir_ensured,
                            wrote: Some(body),
                            slept: delay,
                        }
                    },
                }
            }
        },
    }
}

/// The run model is exactly what a driver that follows the step planners
/// produces: the step each planner decides, on the answers the run model is
/// parameterised over, leads to the next planner or to the run's result.
pub proof fn lemma_run_follows_steps(
    delay: Option<Duration>,
    cache_path: Seq<char>,
    found: Option<Seq<char>>,
    dir_ok: bool,
    fetched: Result<Seq<char>, Seq<char>>,
    write_ok: bool,
)
    ensures
        ({
            let run = run_model(delay, cache_path, found, dir_ok, fetched, write_ok);
            match lookup_step_model(cache_path, found) {
                StepModel::Done { result } => run == (RunModel {
                    result,
                    fetched: false,
                    dir_ensured: None,
                    wrote: None,
                    slept: None,
                }),
                StepModel::EnsureDir { dir } => run.dir_ensured == Some(dir) && match dir_step_model(
                    dir_ok,
                ) {
                    StepModel::Done { result } => run.result == result && !run.fetched,
                    _ => after_fetch_matches(run, delay, fetched, write_ok),
                },
                _ => run.dir_ensured is None && after_fetch_matches(run, delay, fetched, write_ok),
            }
        }),
{
}

/// How a run relates to the fetch and write planners once a fetch was
/// decided: the fetch happened, and the fetch and write outcomes decide the
/// rest exactly as the planners say.
pub open spec fn after_fetch_matches(
    run: RunModel,
    delay: Option<Duration>,
    fetched: Result<Seq<char>, Seq<char>>,
    write_ok: bool,
) -> bool {
    run.fetched && match fetch_step_model(fetched) {
        StepModel::Done { result } => run.result == result && run.wrote is None && run.slept is None,
        StepModel::Write { content } => match write_step_model(delay, write_ok, content) {
            StepModel::Done { result } => run.result == result && run.slept is None && (write_ok
                ==> run.wrote == Some(content)),
            StepModel::Delay { duration, content } => run.result == Ok::<Seq<char>, ErrorModel>(
                content,
            ) && run.wrote
                == Some(content) && run.slept == Some(duration),
            _ => false,
        },
        _ => false,
    }
}

/// A cache hit is pure and idempotent: when the lookup finds content, the
/// run returns exactly that content, issues no network request, touches no
/// directory, writes nothing and never sleeps — whatever the environment
/// would have answered — so two hits on the same path behave identically.
pub proof fn lemma_idempotent_hit(
    delay: Option<Duration>,
    cache_path: Seq<char>,
    content: Seq<char>,
    dir_ok1: bool,
    fetched1: Result<Seq<char>, Seq<char>>,
    write_ok1: bool,
    dir_ok2: bool,
    fetched2: Result<Seq<char>, Seq<char>>,
    write_ok2: bool,
)
    ensures
        ({
            let run = run_model(delay, cache_path, Some(content), dir_ok1, fetched1, write_ok1);
            run.result == Ok::<Seq<char>, ErrorModel>(content) && !run.fetched && run.dir_ensured
                is None && run.wrote is None && run.slept is None
        }),
        run_model(delay, cache_path, Some(content), dir_ok1, fetched1, write_ok1) == run_model(
            delay,
            cache_path,
            Some(content),
            dir_ok2,
            fetched2,
            write_ok2,
        ),
{
}

/// A miss populates the cache and a later hit serves what it stored: when no
/// content was found, the directory step succeeded (or none was needed), the
/// fetch returned a body and the write succeeded, the run issues exactly one
/// network request, stores exactly that body at the cache path and returns
/// it; a subsequent run that finds the stored body returns it again without
/// any network request.
pub proof fn lemma_miss_populates_then_hit(
    delay: Option<Duration>,
    cache_path: Seq<char>,
    body: Seq<char>,
    dir_ok: bool,
    dir_ok2: bool,
    fetched2: Result<Seq<char>, Seq<char>>,
    write_ok2: bool,
)
    requires
        parent_dir_spec(cache_path).len() == 0 || dir_ok,
    ensures
        ({
            let first = run_model(delay, cache_path, None, dir_ok, Ok(body), true);
            first.result == Ok::<Seq<char>, ErrorModel>(body) && first.fetched && first.wrote
                == Some(body)
        }),
        ({
            let second = run_model(delay, cache_path, Some(body), dir_ok2, fetched2, write_ok2);
            second.result == Ok::<Seq<char>, ErrorModel>(body) && !second.fetched
        }),
{
}

/// A miss ensures exactly the parent directory of the cache path (and none
/// when the path has no parent); a hit ensures no directory at all.
pub proof fn lemma_miss_ensures_parent_dir(
    delay: Option<Duration>,
    cache_path: Seq<char>,
    dir_ok: bool,
    fetched: Result<Seq<char>, Seq<char>>,
    write_ok: bool,
)
    ensures
        run_model(delay, cache_path, None, dir_ok, fetched, write_ok).dir_ensured == (
        if parent_dir_spec(cache_path).len() > 0 {
            Some(parent_dir_spec(cache_path))
        } else {
            None::<Seq<char>>
        }),
        forall|content: Seq<char>|
            run_model(delay, cache_path, Some(content), dir_ok, fetched, write_ok).dir_ensured
                is None,
{
}

/// The post-fetch delay is observed on the successful miss path alone: the
/// run sleeps exactly the configured delay when the lookup missed, the
/// needed directory was created, the fetch succeeded and the write
/// succeeded; in every other case — a hit above all — it never sleeps.
pub proof fn lemma_delay_on_miss_only(
    delay: Option<Duration>,
    cache_path: Seq<char>,
    found: Option<Seq<char>>,
    dir_ok: bool,
    fetched: Result<Seq<char>, Seq<char>>,
    write_ok: bool,
)
    ensures
        run_model(delay, cache_path, found, dir_ok, fetched, write_ok).slept == (
        if found is None && (parent_dir_spec(cache_path).len() == 0 || dir_ok) && fetched is Ok
            && write_ok {
            delay
        } else {
            None::<Duration>
        }),
{
}

/// A transport failure propagates to the caller unchanged: the run reports a
/// client error carrying exactly the transport's description, and nothing
/// was stored or slept for.
pub proof fn lemma_fetch_errors_propagate(
    delay: Option<Duration>,
    cache_path: Seq<char>,
    msg: Seq<char>,
    dir_ok: bool,
    write_ok: bool,
)
    requires
        parent_dir_spec(cache_path).len() == 0 || dir_ok,
    ensures
        ({
            let run = run_model(delay, cache_path, None, dir_ok, Err(msg), write_ok);
            run.result == Err::<Seq<char>, ErrorModel>(ErrorModel::Client(msg)) && run.wrote
                is None && run.slept is None
        }),
{
}

/// Removing an absent cache file is trivially a success, so removal is
/// idempotent once it has succeeded: after a removal deletes the file, a
/// second removal of the now-absent path still reports success.
pub proof fn lemma_removal_round_trip(delete_ok: bool)
    ensures
        removal_verdict_spec(true, true),
        removal_verdict_spec(false, delete_ok),
{
}

} // verus!
