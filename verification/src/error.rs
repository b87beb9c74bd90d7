use vstd::prelude::*;

verus! {

/// The error a cache operation can report.
///
/// `Client` covers everything the HTTP side can fail with — building the
/// client, the transport itself, or decoding the body as text — as a single
/// kind carrying a human-readable description.  `Storage` covers the
/// filesystem failures of the miss path: a parent directory that could not be
/// created, or a cache file that could not be created or written.
#[derive(Debug, Clone, PartialEq, Eq)]
pub enum CrawlCacheError {
    Client(String),
    Storage(String),
}

/// The mathematical model of [`CrawlCacheError`]: the same two kinds over
/// character sequences.
pub enum ErrorModel {
    Client(Seq<char>),
    Storage(Seq<char>),
}

impl View for CrawlCacheError {
    type V = ErrorModel;

    open spec fn view(&self) -> ErrorModel {
        match self {
            CrawlCacheError::Client(msg) => ErrorModel::Client(msg@),
            CrawlCacheError::Storage(msg) => ErrorModel::Storage(msg@),
        }
    }
}

impl CrawlCacheError {
    /// True exactly for the client/transport kind.
    pub fn is_client(&self) -> (r: bool)
        ensures
            r == (self@ is Client),
    {
        match self {
            CrawlCacheError::Client(_) => true,
            CrawlCacheError::Storage(_) => false,
        }
    }

    /// The human-readable description the error carries.
    pub fn message(&self) -> (r: &String)
        ensures
            match self@ {
                ErrorModel::Client(msg) => r@ == msg,
                ErrorModel::Storage(msg) => r@ == msg,
            },
    {
        match self {
            CrawlCacheError::Client(msg) => msg,
            CrawlCacheError::Storage(msg) => msg,
        }
    }
}

} // verus!
