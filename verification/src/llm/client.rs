//! Settings of the Ollama endpoint used for local LLM inference.

use vstd::prelude::*;
use crate::text::{str_chars, string_from_chars};

verus! {

pub const DEFAULT_OLLAMA_URL: &'static str = "http://localhost:11434";

pub const DEFAULT_MODEL: &'static str = "llama3";

/// Seconds an HTTP request to the endpoint may take.
pub const REQUEST_TIMEOUT_SECS: u64 = 120;

/// Where and which model to ask. The HTTP calls themselves are made by the
/// application layer with these settings.
#[derive(Clone, Debug)]
pub struct OllamaClient {
    base_url: String,
    model: String,
    timeout_secs: u64,
}

/// `s` without its trailing `/` characters (`str::trim_end_matches('/')`).
pub open spec fn trim_trailing_slashes(s: Seq<char>) -> Seq<char>
    decreases s.len(),
{
    if s.len() > 0 && s.last() == '/' {
        trim_trailing_slashes(s.drop_last())
    } else {
        s
    }
}

fn trim_slashes(s: &str) -> (r: String)
    ensures
        r@ == trim_trailing_slashes(s@),
{
    let cs = str_chars(s);
    let mut n = cs.len();
    assert(cs@.take(n as int) =~= cs@);
    while n > 0 && cs[n - 1] == '/'
        invariant
            n <= cs@.len(),
            cs@ == s@,
            trim_trailing_slashes(s@) == trim_trailing_slashes(cs@.take(n as int)),
        decreases n,
    {
        assert(cs@.take(n as int).drop_last() =~= cs@.take(n - 1));
        n = n - 1;
    }
    assert(cs@.take(n as int) =~= cs@.subrange(0, n as int));
    string_from_chars(cs.as_slice().split_at(n).0)
}

impl OllamaClient {
    pub closed spec fn base_url_text(&self) -> Seq<char> {
        self.base_url@
    }

    pub closed spec fn model_text(&self) -> Seq<char> {
        self.model@
    }

    pub closed spec fn timeout(&self) -> u64 {
        self.timeout_secs
    }

    /// Settings for the given endpoint and model, or the defaults; the URL
    /// loses any trailing `/`.
    pub fn new(base_url: Option<&str>, model: Option<&str>) -> (c: Self)
        ensures
            c.base_url_text() == trim_trailing_slashes(
                match base_url {
                    Some(u) => u@,
                    None => DEFAULT_OLLAMA_URL@,
                },
            ),
            c.model_text() == match model {
                Some(m) => m@,
                None => DEFAULT_MODEL@,
            },
            c.timeout() == REQUEST_TIMEOUT_SECS,
    {
        let url = match base_url {
            Some(u) => u,
            None => DEFAULT_OLLAMA_URL,
        };
        let m = match model {
            Some(m) => m,
            None => DEFAULT_MODEL,
        };
        OllamaClient {
            base_url: trim_slashes(url),
            model: m.to_string(),
            timeout_secs: REQUEST_TIMEOUT_SECS,
        }
    }

    pub fn model(&self) -> (r: &str)
        ensures
            r@ == self.model_text(),
    {
        self.model.as_str()
    }

    pub fn base_url(&self) -> (r: &str)
        ensures
            r@ == self.base_url_text(),
    {
        self.base_url.as_str()
    }

    pub fn timeout_secs(&self) -> (r: u64)
        ensures
            r == self.timeout(),
    {
        self.timeout_secs
    }
}

} // verus!
