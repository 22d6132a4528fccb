//! Fetching over HTTP, by a plain GET or through a headless browser.

use vstd::prelude::*;

use crate::fetcher::FetchError;

verus! {

/// HTTP fetch modes
#[derive(Clone, Copy, Debug, PartialEq, Eq, Structural)]
pub enum HttpFetchMode {
    Headless,
    Get,
}

impl HttpFetchMode {
    /// The mode's name on the command line.
    pub fn as_str(&self) -> (r: &'static str)
        ensures
            r@ == match self {
                HttpFetchMode::Headless => "headless"@,
                HttpFetchMode::Get => "get"@,
            },
    {
        match self {
            HttpFetchMode::Headless => "headless",
            HttpFetchMode::Get => "get",
        }
    }
}

/// Options for HttpFetcher
#[derive(Clone, Copy, Debug, PartialEq, Eq, Structural)]
pub struct HttpFetcherOptions {
    pub mode: HttpFetchMode,
}

impl Default for HttpFetcherOptions {
    fn default() -> (r: Self)
        ensures
            r.mode == HttpFetchMode::Get,
    {
        HttpFetcherOptions { mode: HttpFetchMode::Get }
    }
}

/// Fetcher for HTTP resources
pub struct HttpFetcher<'a> {
    options: &'a HttpFetcherOptions,
}

impl<'a> HttpFetcher<'a> {
    pub fn new(options: &'a HttpFetcherOptions) -> (r: Self)
        ensures
            r.mode() == options.mode,
    {
        HttpFetcher { options }
    }

    pub closed spec fn mode(&self) -> HttpFetchMode {
        self.options.mode
    }

    /// The configured fetch mode.
    pub fn fetch_mode(&self) -> (r: HttpFetchMode)
        ensures
            r == self.mode(),
    {
        self.options.mode
    }

    /// A response counts as fetched only with a status in 200..=299.
    pub fn check_status(&self, status: u16) -> (r: Result<(), FetchError>)
        ensures
            r is Ok <==> 200 <= status <= 299,
            r matches Err(e) ==> e matches FetchError::Status(s) && s == status,
    {
        if 200 <= status && status <= 299 {
            Ok(())
        } else {
            Err(FetchError::Status(status))
        }
    }
}

} // verus!
