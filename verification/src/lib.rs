//! A small fetch-cache library: an HTTP resource is fetched once and then
//! served from a file on disk, the file's path being the only cache key.
//!
//! The verified core holds the configuration value, the error taxonomy, the
//! parent-directory computation for cache paths, and the decision logic of the
//! cache orchestration, modelled as a sequence of planning steps.  The I/O
//! driver (HTTP client, filesystem, sleeping) lives outside the library and
//! only carries out the steps that the planners here decide.

pub mod config;
pub mod error;
pub mod laws;
pub mod paths;
pub mod plan;

pub use config::CrawlCache;
pub use error::CrawlCacheError;
pub use error::ErrorModel;
pub use paths::parent_dir;
pub use plan::CacheStep;
pub use plan::StepModel;
pub use plan::removal_verdict;
