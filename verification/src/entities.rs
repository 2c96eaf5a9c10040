//! Plain configuration and record types.
use vstd::prelude::*;
use core::time::Duration;
use std::path::PathBuf;

verus! {

#[verifier::external_type_specification]
#[verifier::external_body]
pub struct ExPathBuf(PathBuf);

/// How to reach the document store.
#[derive(Debug, Default)]
pub struct MongoDbConfig {
    pub address: String,
    pub username: String,
    pub password: String,
    pub port: u16,
    pub source: String,
    pub use_tls: bool,
}

/// Credentials of an outgoing proxy.
#[derive(Debug)]
pub struct SuperProxyConfig {
    pub address: String,
    pub username: String,
    pub password: String,
}

/// One proxy as the proxy pool service describes it.
#[derive(Debug)]
pub struct ProxyPoolGetResponse {
    pub anonymous: String,
    pub check_count: i64,
    pub fail_count: i64,
    pub https: bool,
    pub last_status: bool,
    pub last_time: String,
    pub proxy: String,
    pub region: String,
    pub source: String,
}

/// A live stream announcement.
#[derive(Debug)]
pub struct Message {
    pub url: String,
    pub live_stream_id: String,
}

/// Where a download is being handled and stored.
#[derive(Debug, Eq, PartialEq)]
pub struct DownloadState {
    pub server_id: String,
    pub file_path: String,
}

/// Limits and retry policy of a task.
pub struct TaskOptions {
    pub time_limit: Duration,
    pub hard_time_limit: Duration,
    pub max_retries: u32,
    pub min_retry_delay: Duration,
    pub max_retry_delay: Duration,
    pub retry_for_unexpected: bool,
}

/// Basic command line configuration: an optional configuration directory.
#[derive(Debug)]
pub struct CommandlineOptions {
    pub config_directory: Option<PathBuf>,
}

/// Fetches proxies from a proxy pool service.
pub struct ProxyPoolManager {}

/// The query that asks the pool at `address` for an HTTPS proxy.
pub open spec fn proxy_query(address: Seq<char>) -> Seq<char> {
    address + "/get/?type=https"@
}

impl ProxyPoolManager {
    /// The URL that asks the pool at `address` for an HTTPS proxy.
    pub fn query_url(address: &str) -> (r: String)
        ensures
            r@ == proxy_query(address@),
    {
        let mut url = address.to_owned();
        url.append("/get/?type=https");
        url
    }
}

} // verus!
