//! The result-set data model, the error taxonomy, and the start-up
//! configuration with its credential checks.

use vstd::prelude::*;

verus! {

use vstd::string::StrSliceExecFns;

/// One matching repository: its display URL and its description
/// (empty when the response carries none).
pub struct Repository {
    pub html_url: String,
    pub description: String,
}

/// One search hit, holding the repository it belongs to.
pub struct Items {
    pub repository: Repository,
}

/// The decoded result set: the hits in the order the server returned them.
pub struct Repo {
    pub items: Vec<Items>,
}

/// Mathematical model of `Repository`.
pub struct RepositoryV {
    pub html_url: Seq<char>,
    pub description: Seq<char>,
}

/// Mathematical model of `Items`.
pub struct ItemsV {
    pub repository: RepositoryV,
}

impl View for Repository {
    type V = RepositoryV;

    open spec fn view(&self) -> RepositoryV {
        RepositoryV { html_url: self.html_url@, description: self.description@ }
    }
}

impl View for Items {
    type V = ItemsV;

    open spec fn view(&self) -> ItemsV {
        ItemsV { repository: self.repository@ }
    }
}

/// The model of a sequence of hits: each hit replaced by its model.
pub open spec fn items_seq(v: Seq<Items>) -> Seq<ItemsV> {
    Seq::new(v.len(), |i: int| v[i]@)
}

impl View for Repo {
    type V = Seq<ItemsV>;

    open spec fn view(&self) -> Seq<ItemsV> {
        items_seq(self.items@)
    }
}

/// Everything that aborts a run: a missing or unusable credential,
/// a rejected request, or a response body of the wrong shape.
#[derive(Clone, Copy, Debug, PartialEq, Eq, Structural)]
pub enum ApiError {
    /// The credential environment value is absent.
    MissingCredential,
    /// The client-identifier environment value is absent.
    MissingUsername,
    /// The credential cannot be sent as a header value.
    InvalidCredential,
    /// The client identifier cannot be sent as a header value.
    InvalidUsername,
    /// The server answered with a status other than 200.
    Status(u16),
    /// The response body does not match the expected JSON shape.
    Decode,
}

/// A character that may appear in an HTTP header value: horizontal tab or
/// anything at or above the space character, except delete.
pub open spec fn valid_header_char(c: char) -> bool {
    c == '\t' || (c as u32 >= 32 && c as u32 != 127)
}

/// A string usable as an HTTP header value.
pub open spec fn valid_header_seq(s: Seq<char>) -> bool {
    forall|i: int| 0 <= i < s.len() ==> valid_header_char(s[i])
}

/// Decides whether `s` can be sent as an HTTP header value.
pub fn is_valid_header_value(s: &str) -> (r: bool)
    ensures
        r == valid_header_seq(s@),
{
    let n = s.unicode_len();
    let mut i: usize = 0;
    while i < n
        invariant
            n as nat == s@.len(),
            i <= n,
            forall|j: int| 0 <= j < i ==> valid_header_char(s@[j]),
        decreases n - i,
    {
        let c = s.get_char(i);
        let u = c as u32;
        if !(c == '\t' || (u >= 32 && u != 127)) {
            assert(!valid_header_char(s@[i as int]));
            return false;
        }
        i = i + 1;
    }
    true
}

/// The start-up configuration: the authorization credential and the
/// client identifier, both checked to be sendable as header values.
pub struct Config {
    pub api_key: String,
    pub username: String,
}

/// Builds the configuration from the two environment values, or says
/// exactly which of them is missing or unusable.
pub fn load_config(api_key: Option<String>, username: Option<String>) -> (r: Result<
    Config,
    ApiError,
>)
    ensures
        match (api_key, username) {
            (None, _) => r == Err::<Config, ApiError>(ApiError::MissingCredential),
            (Some(_), None) => r == Err::<Config, ApiError>(ApiError::MissingUsername),
            (Some(k), Some(u)) => {
                if !valid_header_seq(k@) {
                    r == Err::<Config, ApiError>(ApiError::InvalidCredential)
                } else if !valid_header_seq(u@) {
                    r == Err::<Config, ApiError>(ApiError::InvalidUsername)
                } else {
                    r matches Ok(c) && c.api_key@ == k@ && c.username@ == u@
                }
            },
        },
{
    let k = match api_key {
        Some(k) => k,
        None => {
            return Err(ApiError::MissingCredential);
        },
    };
    let u = match username {
        Some(u) => u,
        None => {
            return Err(ApiError::MissingUsername);
        },
    };
    if !is_valid_header_value(k.as_str()) {
        return Err(ApiError::InvalidCredential);
    }
    if !is_valid_header_value(u.as_str()) {
        return Err(ApiError::InvalidUsername);
    }
    Ok(Config { api_key: k, username: u })
}

} // verus!
