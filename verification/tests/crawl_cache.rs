use std::time::Duration;

use crawl_cache::parent_dir;
use crawl_cache::removal_verdict;
use crawl_cache::CacheStep;
use crawl_cache::CrawlCache;
use crawl_cache::CrawlCacheError;

const DEFAULT_UA: &str = "Mozilla/5.0 (Windows NT 10.0; WOW64) AppleWebKit/537.36 (KHTML, like Gecko) Chrome/121.0.0.0 Safari/537.36";

#[test]
fn new_has_browser_user_agent_and_no_durations() {
    let cache = CrawlCache::new();
    assert_eq!(cache.user_agent(), DEFAULT_UA);
    assert_eq!(cache.timeout(), None);
    assert_eq!(cache.post_fetch_delay(), None);
}

#[test]
fn set_user_agent_replaces_only_the_user_agent() {
    let cache = CrawlCache::new()
        .set_timeout(Duration::from_secs(4))
        .set_user_agent("X".to_string());
    assert_eq!(cache.user_agent(), "X");
    assert_eq!(cache.timeout(), Some(Duration::from_secs(4)));
    assert_eq!(cache.post_fetch_delay(), None);
}

#[test]
fn set_duration_sets_the_post_fetch_delay() {
    let cache = CrawlCache::new().set_duration(Duration::from_millis(250));
    assert_eq!(cache.post_fetch_delay(), Some(Duration::from_millis(250)));
    assert_eq!(cache.user_agent(), DEFAULT_UA);
    assert_eq!(cache.timeout(), None);
}

#[test]
fn set_timeout_sets_the_timeout() {
    let cache = CrawlCache::new().set_timeout(Duration::from_secs(30));
    assert_eq!(cache.timeout(), Some(Duration::from_secs(30)));
    assert_eq!(cache.post_fetch_delay(), None);
}

#[test]
fn builder_chain_keeps_every_setting() {
    let cache = CrawlCache::new()
        .set_user_agent("crawler/1.0".to_string())
        .set_duration(Duration::from_millis(10))
        .set_timeout(Duration::from_secs(5));
    assert_eq!(cache.user_agent(), "crawler/1.0");
    assert_eq!(cache.post_fetch_delay(), Some(Duration::from_millis(10)));
    assert_eq!(cache.timeout(), Some(Duration::from_secs(5)));
}

#[test]
fn parent_dir_of_nested_path() {
    assert_eq!(parent_dir("a/b/c/file.html"), "a/b/c");
}

#[test]
fn parent_dir_of_bare_file_name_is_empty() {
    assert_eq!(parent_dir("file.html"), "");
}

#[test]
fn parent_dir_of_relative_path() {
    assert_eq!(parent_dir("./yahoo.co.jp/index.html"), "./yahoo.co.jp");
}

#[test]
fn parent_dir_of_empty_path_is_empty() {
    assert_eq!(parent_dir(""), "");
}

#[test]
fn parent_dir_of_trailing_slash_drops_it() {
    assert_eq!(parent_dir("a/b/"), "a/b");
}

#[test]
fn hit_returns_the_cached_content_unchanged() {
    let cache = CrawlCache::new();
    let step = cache.plan_lookup("a/b.html", Some("body".to_string()));
    assert_eq!(
        step,
        CacheStep::Done {
            result: Ok("body".to_string())
        }
    );
}

#[test]
fn hit_is_idempotent() {
    let cache = CrawlCache::new().set_duration(Duration::from_millis(50));
    let first = cache.plan_lookup("p.html", Some("same".to_string()));
    let second = cache.plan_lookup("p.html", Some("same".to_string()));
    assert_eq!(first, second);
    // A hit is immediately done: no fetch, no write, no delay is planned.
    assert_eq!(
        first,
        CacheStep::Done {
            result: Ok("same".to_string())
        }
    );
}

#[test]
fn miss_with_nested_path_ensures_the_parent_dir_first() {
    let cache = CrawlCache::new();
    let step = cache.plan_lookup("a/b/c/file.html", None);
    assert_eq!(
        step,
        CacheStep::EnsureDir {
            dir: "a/b/c".to_string()
        }
    );
}

#[test]
fn miss_with_bare_file_name_fetches_directly() {
    let cache = CrawlCache::new();
    let step = cache.plan_lookup("file.html", None);
    assert_eq!(step, CacheStep::Fetch);
}

#[test]
fn dir_success_leads_to_the_fetch() {
    let cache = CrawlCache::new();
    assert_eq!(cache.plan_dir_outcome(true), CacheStep::Fetch);
}

#[test]
fn dir_failure_is_a_storage_error() {
    let cache = CrawlCache::new();
    assert_eq!(
        cache.plan_dir_outcome(false),
        CacheStep::Done {
            result: Err(CrawlCacheError::Storage(
                "failed to create the cache directory".to_string()
            ))
        }
    );
}

#[test]
fn fetched_body_is_written_to_the_cache() {
    let cache = CrawlCache::new();
    let step = cache.plan_fetch_outcome(Ok("<html></html>".to_string()));
    assert_eq!(
        step,
        CacheStep::Write {
            content: "<html></html>".to_string()
        }
    );
}

#[test]
fn fetch_failure_keeps_the_transport_description() {
    let cache = CrawlCache::new();
    let step = cache.plan_fetch_outcome(Err("connection refused".to_string()));
    assert_eq!(
        step,
        CacheStep::Done {
            result: Err(CrawlCacheError::Client("connection refused".to_string()))
        }
    );
}

#[test]
fn write_success_without_delay_returns_the_body() {
    let cache = CrawlCache::new();
    let step = cache.plan_write_outcome(true, "body".to_string());
    assert_eq!(
        step,
        CacheStep::Done {
            result: Ok("body".to_string())
        }
    );
}

#[test]
fn write_success_with_delay_sleeps_before_returning() {
    let d = Duration::from_millis(75);
    let cache = CrawlCache::new().set_duration(d);
    let step = cache.plan_write_outcome(true, "body".to_string());
    assert_eq!(
        step,
        CacheStep::Delay {
            duration: d,
            content: "body".to_string()
        }
    );
}

#[test]
fn write_failure_is_a_storage_error() {
    let cache = CrawlCache::new().set_duration(Duration::from_millis(75));
    let step = cache.plan_write_outcome(false, "body".to_string());
    assert_eq!(
        step,
        CacheStep::Done {
            result: Err(CrawlCacheError::Storage(
                "failed to write the cache file".to_string()
            ))
        }
    );
}

#[test]
fn miss_path_plans_one_fetch_then_writes_then_returns() {
    // The whole miss path on a nested cache path, step by step, as the
    // driver would chain it: lookup, directory, fetch, write, done.
    let cache = CrawlCache::new();
    let step = cache.plan_lookup("site/pages/index.html", None);
    let step = match step {
        CacheStep::EnsureDir { dir } => {
            assert_eq!(dir, "site/pages");
            cache.plan_dir_outcome(true)
        }
        other => other,
    };
    assert_eq!(step, CacheStep::Fetch);
    let step = cache.plan_fetch_outcome(Ok("body".to_string()));
    let step = match step {
        CacheStep::Write { content } => {
            assert_eq!(content, "body");
            cache.plan_write_outcome(true, content)
        }
        other => other,
    };
    assert_eq!(
        step,
        CacheStep::Done {
            result: Ok("body".to_string())
        }
    );
}

#[test]
fn removal_of_absent_file_is_a_success() {
    assert!(removal_verdict(false, true));
    assert!(removal_verdict(false, false));
}

#[test]
fn removal_of_present_file_reports_the_deletion() {
    assert!(removal_verdict(true, true));
    assert!(!removal_verdict(true, false));
}

#[test]
fn error_kind_and_message_are_kept() {
    let client = CrawlCacheError::Client("dns failure".to_string());
    let storage = CrawlCacheError::Storage("disk full".to_string());
    assert!(client.is_client());
    assert!(!storage.is_client());
    assert_eq!(client.message(), "dns failure");
    assert_eq!(storage.message(), "disk full");
}
