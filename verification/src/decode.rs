//! The decoder for the search response: a recursive descent over the
//! response text that reads the `items` list, and inside each hit the
//! `repository` object with its `html_url` and optional `description`.
//! Every other member is skipped. A missing `items` list, a missing
//! `html_url`, a repeated recognized member, or text that does not
//! follow the JSON shape is a decode error. The shape is taken as
//! fixed, so skipped values are walked with the lexer's lenient token
//! runs rather than validated field by field.
//!
//! As in the lexer, each executable function mirrors a spec function,
//! and the spec functions carry range guards that always hold.

use vstd::prelude::*;

verus! {

use vstd::string::StrSliceExecFns;
use crate::json::spec_skip_ws;
use crate::json::spec_parse_string;
use crate::json::spec_skip_value;
use crate::json::spec_null_at;
use crate::json::skip_ws;
use crate::json::parse_string;
use crate::json::skip_value;
use crate::json::null_at;
use crate::json::str_eq;
use crate::model::Repository;
use crate::model::RepositoryV;
use crate::model::Items;
use crate::model::ItemsV;
use crate::model::Repo;
use crate::model::ApiError;
use crate::model::items_seq;

/// The model of an optional string.
pub open spec fn opt_seq(o: Option<String>) -> Option<Seq<char>> {
    match o {
        Some(x) => Some(x@),
        None => None,
    }
}

/// The model of an optional repository.
pub open spec fn opt_rep(o: Option<Repository>) -> Option<RepositoryV> {
    match o {
        Some(x) => Some(x@),
        None => None,
    }
}

/// The model of an optional list of hits.
pub open spec fn opt_items(o: Option<Vec<Items>>) -> Option<Seq<ItemsV>> {
    match o {
        Some(v) => Some(items_seq(v@)),
        None => None,
    }
}

/// A finished repository object: the URL must have been seen; a
/// description that was never seen is the empty text.
pub open spec fn finish_repository(url: Option<Seq<char>>, desc: Option<Seq<char>>) -> Option<
    RepositoryV,
> {
    match url {
        Some(u) => Some(
            RepositoryV {
                html_url: u,
                description: match desc {
                    Some(d) => d,
                    None => Seq::empty(),
                },
            },
        ),
        None => None,
    }
}

/// The members of a repository object, read from just after `{` or `,`:
/// the finished repository and the index just past the closing brace.
/// `url` and `desc` hold what earlier members bound.
pub open spec fn spec_repository_members(
    s: Seq<char>,
    i: int,
    url: Option<Seq<char>>,
    desc: Option<Seq<char>>,
) -> Option<(RepositoryV, int)>
    decreases s.len() - i,
{
    let j: int = spec_skip_ws(s, i);
    if !(i <= j <= s.len()) {
        None
    } else if j < s.len() && s[j] == '}' {
        match finish_repository(url, desc) {
            Some(rv) => Some((rv, j + 1)),
            None => None,
        }
    } else {
        match spec_parse_string(s, j) {
            None => None,
            Some((key, k)) => if j < k <= s.len() {
                let m: int = spec_skip_ws(s, k);
                if !(k <= m <= s.len()) {
                    None
                } else if m < s.len() && s[m] == ':' {
                    let v: int = spec_skip_ws(s, m + 1);
                    if !(m + 1 <= v <= s.len()) {
                        None
                    } else if key == "html_url"@ {
                        if url is Some {
                            None
                        } else {
                            match spec_parse_string(s, v) {
                                None => None,
                                Some((val, w)) => if v < w <= s.len() {
                                    spec_repository_after(s, w, Some(val), desc)
                                } else {
                                    None
                                },
                            }
                        }
                    } else if key == "description"@ {
                        if desc is Some {
                            None
                        } else if v < s.len() && s[v] == '"' {
                            match spec_parse_string(s, v) {
                                None => None,
                                Some((val, w)) => if v < w <= s.len() {
                                    spec_repository_after(s, w, url, Some(val))
                                } else {
                                    None
                                },
                            }
                        } else if spec_null_at(s, v) {
                            spec_repository_after(s, v + 4, url, Some(Seq::empty()))
                        } else {
                            None
                        }
                    } else {
                        match spec_skip_value(s, v) {
                            None => None,
                            Some(w) => if v < w <= s.len() {
                                spec_repository_after(s, w, url, desc)
                            } else {
                                None
                            },
                        }
                    }
                } else {
                    None
                }
            } else {
                None
            },
        }
    }
}

/// After one repository member: a comma continues the members, a brace
/// finishes the repository.
pub open spec fn spec_repository_after(
    s: Seq<char>,
    w: int,
    url: Option<Seq<char>>,
    desc: Option<Seq<char>>,
) -> Option<(RepositoryV, int)>
    decreases s.len() - w,
{
    let x: int = spec_skip_ws(s, w);
    if !(w <= x <= s.len()) {
        None
    } else if x < s.len() && s[x] == ',' {
        spec_repository_members(s, x + 1, url, desc)
    } else if x < s.len() && s[x] == '}' {
        match finish_repository(url, desc) {
            Some(rv) => Some((rv, x + 1)),
            None => None,
        }
    } else {
        None
    }
}

/// A repository object with its opening brace at `i`.
pub open spec fn spec_parse_repository(s: Seq<char>, i: int) -> Option<(RepositoryV, int)> {
    if 0 <= i < s.len() && s[i] == '{' {
        spec_repository_members(s, i + 1, None, None)
    } else {
        None
    }
}

/// Takes the description out, or the empty string where none was seen.
fn unwrap_or_empty(o: Option<String>) -> (r: String)
    ensures
        r@ == match o {
            Some(d) => d@,
            None => Seq::<char>::empty(),
        },
{
    match o {
        Some(d) => d,
        None => String::new(),
    }
}

/// Reads repository members, exactly as `spec_repository_members` says.
fn repository_members(s: &str, n: usize, i: usize, url: Option<String>, desc: Option<String>) -> (r:
    Option<(Repository, usize)>)
    requires
        n as nat == s@.len(),
        i <= n,
    ensures
        match r {
            Some((rep, j)) => spec_repository_members(s@, i as int, opt_seq(url), opt_seq(desc))
                == Some((rep@, j as int)) && i < j <= n,
            None => spec_repository_members(s@, i as int, opt_seq(url), opt_seq(desc)) is None,
        },
    decreases n - i,
{
    let j = skip_ws(s, n, i);
    if j < n && s.get_char(j) == '}' {
        return match url {
            Some(u) => Some(
                (Repository { html_url: u, description: unwrap_or_empty(desc) }, j + 1),
            ),
            None => None,
        };
    }
    match parse_string(s, n, j) {
        None => None,
        Some((key, k)) => {
            let m = skip_ws(s, n, k);
            if m < n && s.get_char(m) == ':' {
                let v = skip_ws(s, n, m + 1);
                if str_eq(key.as_str(), "html_url") {
                    if url.is_some() {
                        return None;
                    }
                    match parse_string(s, n, v) {
                        None => None,
                        Some((val, w)) => repository_after(s, n, w, Some(val), desc),
                    }
                } else if str_eq(key.as_str(), "description") {
                    if desc.is_some() {
                        return None;
                    }
                    if v < n && s.get_char(v) == '"' {
                        match parse_string(s, n, v) {
                            None => None,
                            Some((val, w)) => repository_after(s, n, w, url, Some(val)),
                        }
                    } else if null_at(s, n, v) {
                        repository_after(s, n, v + 4, url, Some(String::new()))
                    } else {
                        None
                    }
                } else {
                    match skip_value(s, n, v) {
                        None => None,
                        Some(w) => repository_after(s, n, w, url, desc),
                    }
                }
            } else {
                None
            }
        },
    }
}

/// Continues after one repository member, as `spec_repository_after` says.
fn repository_after(s: &str, n: usize, w: usize, url: Option<String>, desc: Option<String>) -> (r:
    Option<(Repository, usize)>)
    requires
        n as nat == s@.len(),
        w <= n,
    ensures
        match r {
            Some((rep, j)) => spec_repository_after(s@, w as int, opt_seq(url), opt_seq(desc))
                == Some((rep@, j as int)) && w < j <= n,
            None => spec_repository_after(s@, w as int, opt_seq(url), opt_seq(desc)) is None,
        },
    decreases n - w,
{
    let x = skip_ws(s, n, w);
    if x < n && s.get_char(x) == ',' {
        repository_members(s, n, x + 1, url, desc)
    } else if x < n && s.get_char(x) == '}' {
        match url {
            Some(u) => Some((Repository { html_url: u, description: unwrap_or_empty(desc) }, x + 1)),
            None => None,
        }
    } else {
        None
    }
}

/// Reads a repository object, exactly as `spec_parse_repository` says.
fn parse_repository(s: &str, n: usize, i: usize) -> (r: Option<(Repository, usize)>)
    requires
        n as nat == s@.len(),
        i <= n,
    ensures
        match r {
            Some((rep, j)) => spec_parse_repository(s@, i as int) == Some((rep@, j as int)) && i < j
                <= n,
            None => spec_parse_repository(s@, i as int) is None,
        },
{
    if i < n && s.get_char(i) == '{' {
        repository_members(s, n, i + 1, None, None)
    } else {
        None
    }
}

/// The members of one hit, read from just after `{` or `,`: the hit and
/// the index just past the closing brace. `rep` holds the repository an
/// earlier member bound.
pub open spec fn spec_item_members(s: Seq<char>, i: int, rep: Option<RepositoryV>) -> Option<
    (ItemsV, int),
>
    decreases s.len() - i,
{
    let j: int = spec_skip_ws(s, i);
    if !(i <= j <= s.len()) {
        None
    } else if j < s.len() && s[j] == '}' {
        match rep {
            Some(rv) => Some((ItemsV { repository: rv }, j + 1)),
            None => None,
        }
    } else {
        match spec_parse_string(s, j) {
            None => None,
            Some((key, k)) => if j < k <= s.len() {
                let m: int = spec_skip_ws(s, k);
                if !(k <= m <= s.len()) {
                    None
                } else if m < s.len() && s[m] == ':' {
                    let v: int = spec_skip_ws(s, m + 1);
                    if !(m + 1 <= v <= s.len()) {
                        None
                    } else if key == "repository"@ {
                        if rep is Some {
                            None
                        } else {
                            match spec_parse_repository(s, v) {
                                None => None,
                                Some((rv, w)) => if v < w <= s.len() {
                                    spec_item_after(s, w, Some(rv))
                                } else {
                                    None
                                },
                            }
                        }
                    } else {
                        match spec_skip_value(s, v) {
                            None => None,
                            Some(w) => if v < w <= s.len() {
                                spec_item_after(s, w, rep)
                            } else {
                                None
                            },
                        }
                    }
                } else {
                    None
                }
            } else {
                None
            },
        }
    }
}

/// After one hit member: a comma continues, a brace finishes the hit.
pub open spec fn spec_item_after(s: Seq<char>, w: int, rep: Option<RepositoryV>) -> Option<
    (ItemsV, int),
>
    decreases s.len() - w,
{
    let x: int = spec_skip_ws(s, w);
    if !(w <= x <= s.len()) {
        None
    } else if x < s.len() && s[x] == ',' {
        spec_item_members(s, x + 1, rep)
    } else if x < s.len() && s[x] == '}' {
        match rep {
            Some(rv) => Some((ItemsV { repository: rv }, x + 1)),
            None => None,
        }
    } else {
        None
    }
}

/// One hit with its opening brace at `i`.
pub open spec fn spec_parse_item(s: Seq<char>, i: int) -> Option<(ItemsV, int)> {
    if 0 <= i < s.len() && s[i] == '{' {
        spec_item_members(s, i + 1, None)
    } else {
        None
    }
}

/// Reads hit members, exactly as `spec_item_members` says.
fn item_members(s: &str, n: usize, i: usize, rep: Option<Repository>) -> (r: Option<
    (Items, usize),
>)
    requires
        n as nat == s@.len(),
        i <= n,
    ensures
        match r {
            Some((it, j)) => spec_item_members(s@, i as int, opt_rep(rep)) == Some(
                (it@, j as int),
            ) && i < j <= n,
            None => spec_item_members(s@, i as int, opt_rep(rep)) is None,
        },
    decreases n - i,
{
    let j = skip_ws(s, n, i);
    if j < n && s.get_char(j) == '}' {
        return match rep {
            Some(rv) => Some((Items { repository: rv }, j + 1)),
            None => None,
        };
    }
    match parse_string(s, n, j) {
        None => None,
        Some((key, k)) => {
            let m = skip_ws(s, n, k);
            if m < n && s.get_char(m) == ':' {
                let v = skip_ws(s, n, m + 1);
                if str_eq(key.as_str(), "repository") {
                    if rep.is_some() {
                        return None;
                    }
                    match parse_repository(s, n, v) {
                        None => None,
                        Some((rv, w)) => item_after(s, n, w, Some(rv)),
                    }
                } else {
                    match skip_value(s, n, v) {
                        None => None,
                        Some(w) => item_after(s, n, w, rep),
                    }
                }
            } else {
                None
            }
        },
    }
}

/// Continues after one hit member, as `spec_item_after` says.
fn item_after(s: &str, n: usize, w: usize, rep: Option<Repository>) -> (r: Option<(Items, usize)>)
    requires
        n as nat == s@.len(),
        w <= n,
    ensures
        match r {
            Some((it, j)) => spec_item_after(s@, w as int, opt_rep(rep)) == Some((it@, j as int))
                && w < j <= n,
            None => spec_item_after(s@, w as int, opt_rep(rep)) is None,
        },
    decreases n - w,
{
    let x = skip_ws(s, n, w);
    if x < n && s.get_char(x) == ',' {
        item_members(s, n, x + 1, rep)
    } else if x < n && s.get_char(x) == '}' {
        match rep {
            Some(rv) => Some((Items { repository: rv }, x + 1)),
            None => None,
        }
    } else {
        None
    }
}

/// Reads one hit, exactly as `spec_parse_item` says.
fn parse_item(s: &str, n: usize, i: usize) -> (r: Option<(Items, usize)>)
    requires
        n as nat == s@.len(),
        i <= n,
    ensures
        match r {
            Some((it, j)) => spec_parse_item(s@, i as int) == Some((it@, j as int)) && i < j <= n,
            None => spec_parse_item(s@, i as int) is None,
        },
{
    if i < n && s.get_char(i) == '{' {
        item_members(s, n, i + 1, None)
    } else {
        None
    }
}

/// The elements of the `items` list, read from just after `[` or `,`,
/// appended to `acc`: the whole list and the index just past the
/// closing bracket.
pub open spec fn spec_items_rest(s: Seq<char>, i: int, acc: Seq<ItemsV>) -> Option<
    (Seq<ItemsV>, int),
>
    decreases s.len() - i,
{
    let j: int = spec_skip_ws(s, i);
    if !(i <= j <= s.len()) {
        None
    } else if j < s.len() && s[j] == ']' {
        Some((acc, j + 1))
    } else {
        match spec_parse_item(s, j) {
            None => None,
            Some((it, k)) => if j < k <= s.len() {
                let m: int = spec_skip_ws(s, k);
                if !(k <= m <= s.len()) {
                    None
                } else if m < s.len() && s[m] == ',' {
                    spec_items_rest(s, m + 1, acc.push(it))
                } else if m < s.len() && s[m] == ']' {
                    Some((acc.push(it), m + 1))
                } else {
                    None
                }
            } else {
                None
            },
        }
    }
}

/// Reads list elements, exactly as `spec_items_rest` says.
fn items_rest(s: &str, n: usize, i: usize, acc: Vec<Items>) -> (r: Option<(Vec<Items>, usize)>)
    requires
        n as nat == s@.len(),
        i <= n,
    ensures
        match r {
            Some((v, j)) => spec_items_rest(s@, i as int, items_seq(acc@)) == Some(
                (items_seq(v@), j as int),
            ) && i < j <= n,
            None => spec_items_rest(s@, i as int, items_seq(acc@)) is None,
        },
    decreases n - i,
{
    let j = skip_ws(s, n, i);
    if j < n && s.get_char(j) == ']' {
        return Some((acc, j + 1));
    }
    match parse_item(s, n, j) {
        None => None,
        Some((it, k)) => {
            let m = skip_ws(s, n, k);
            if m < n && s.get_char(m) == ',' {
                let ghost old_acc = acc@;
                let ghost itv = it@;
                let mut acc2 = acc;
                acc2.push(it);
                proof {
                    assert(items_seq(acc2@) =~= items_seq(old_acc).push(itv));
                }
                items_rest(s, n, m + 1, acc2)
            } else if m < n && s.get_char(m) == ']' {
                let ghost old_acc = acc@;
                let ghost itv = it@;
                let mut acc2 = acc;
                acc2.push(it);
                proof {
                    assert(items_seq(acc2@) =~= items_seq(old_acc).push(itv));
                }
                Some((acc2, m + 1))
            } else {
                None
            }
        },
    }
}

/// The members of the top response object, read from just after `{` or
/// `,`: the decoded `items` list and the index just past the closing
/// brace. `items` holds what an earlier member bound.
pub open spec fn spec_repo_members(s: Seq<char>, i: int, items: Option<Seq<ItemsV>>) -> Option<
    (Seq<ItemsV>, int),
>
    decreases s.len() - i,
{
    let j: int = spec_skip_ws(s, i);
    if !(i <= j <= s.len()) {
        None
    } else if j < s.len() && s[j] == '}' {
        match items {
            Some(sq) => Some((sq, j + 1)),
            None => None,
        }
    } else {
        match spec_parse_string(s, j) {
            None => None,
            Some((key, k)) => if j < k <= s.len() {
                let m: int = spec_skip_ws(s, k);
                if !(k <= m <= s.len()) {
                    None
                } else if m < s.len() && s[m] == ':' {
                    let v: int = spec_skip_ws(s, m + 1);
                    if !(m + 1 <= v <= s.len()) {
                        None
                    } else if key == "items"@ {
                        if items is Some {
                            None
                        } else if v < s.len() && s[v] == '[' {
                            match spec_items_rest(s, v + 1, Seq::empty()) {
                                None => None,
                                Some((sq, w)) => if v < w <= s.len() {
                                    spec_repo_after(s, w, Some(sq))
                                } else {
                                    None
                                },
                            }
                        } else {
                            None
                        }
                    } else {
                        match spec_skip_value(s, v) {
                            None => None,
                            Some(w) => if v < w <= s.len() {
                                spec_repo_after(s, w, items)
                            } else {
                                None
                            },
                        }
                    }
                } else {
                    None
                }
            } else {
                None
            },
        }
    }
}

/// After one top-level member: a comma continues, a brace finishes.
pub open spec fn spec_repo_after(s: Seq<char>, w: int, items: Option<Seq<ItemsV>>) -> Option<
    (Seq<ItemsV>, int),
>
    decreases s.len() - w,
{
    let x: int = spec_skip_ws(s, w);
    if !(w <= x <= s.len()) {
        None
    } else if x < s.len() && s[x] == ',' {
        spec_repo_members(s, x + 1, items)
    } else if x < s.len() && s[x] == '}' {
        match items {
            Some(sq) => Some((sq, x + 1)),
            None => None,
        }
    } else {
        None
    }
}

/// The whole response text: a top object holding an `items` list, with
/// nothing but whitespace after it.
pub open spec fn spec_parse_repo(s: Seq<char>) -> Option<Seq<ItemsV>> {
    let j: int = spec_skip_ws(s, 0);
    if 0 <= j < s.len() && s[j] == '{' {
        match spec_repo_members(s, j + 1, None) {
            None => None,
            Some((sq, e)) => if spec_skip_ws(s, e) == s.len() {
                Some(sq)
            } else {
                None
            },
        }
    } else {
        None
    }
}

/// Reads top-level members, exactly as `spec_repo_members` says.
fn repo_members(s: &str, n: usize, i: usize, items: Option<Vec<Items>>) -> (r: Option<
    (Vec<Items>, usize),
>)
    requires
        n as nat == s@.len(),
        i <= n,
    ensures
        match r {
            Some((v, j)) => spec_repo_members(s@, i as int, opt_items(items)) == Some(
                (items_seq(v@), j as int),
            ) && i < j <= n,
            None => spec_repo_members(s@, i as int, opt_items(items)) is None,
        },
    decreases n - i,
{
    let j = skip_ws(s, n, i);
    if j < n && s.get_char(j) == '}' {
        return match items {
            Some(sq) => Some((sq, j + 1)),
            None => None,
        };
    }
    match parse_string(s, n, j) {
        None => None,
        Some((key, k)) => {
            let m = skip_ws(s, n, k);
            if m < n && s.get_char(m) == ':' {
                let v = skip_ws(s, n, m + 1);
                if str_eq(key.as_str(), "items") {
                    if items.is_some() {
                        return None;
                    }
                    if v < n && s.get_char(v) == '[' {
                        proof {
                            assert(items_seq(Seq::<Items>::empty()) =~= Seq::<ItemsV>::empty());
                        }
                        match items_rest(s, n, v + 1, Vec::new()) {
                            None => None,
                            Some((sq, w)) => repo_after(s, n, w, Some(sq)),
                        }
                    } else {
                        None
                    }
                } else {
                    match skip_value(s, n, v) {
                        None => None,
                        Some(w) => repo_after(s, n, w, items),
                    }
                }
            } else {
                None
            }
        },
    }
}

/// Continues after one top-level member, as `spec_repo_after` says.
fn repo_after(s: &str, n: usize, w: usize, items: Option<Vec<Items>>) -> (r: Option<
    (Vec<Items>, usize),
>)
    requires
        n as nat == s@.len(),
        w <= n,
    ensures
        match r {
            Some((v, j)) => spec_repo_after(s@, w as int, opt_items(items)) == Some(
                (items_seq(v@), j as int),
            ) && w < j <= n,
            None => spec_repo_after(s@, w as int, opt_items(items)) is None,
        },
    decreases n - w,
{
    let x = skip_ws(s, n, w);
    if x < n && s.get_char(x) == ',' {
        repo_members(s, n, x + 1, items)
    } else if x < n && s.get_char(x) == '}' {
        match items {
            Some(sq) => Some((sq, x + 1)),
            None => None,
        }
    } else {
        None
    }
}

/// Reads the whole response text, exactly as `spec_parse_repo` says.
pub fn parse_repo(s: &str) -> (r: Option<Vec<Items>>)
    ensures
        match r {
            Some(v) => spec_parse_repo(s@) == Some(items_seq(v@)),
            None => spec_parse_repo(s@) is None,
        },
{
    let n = s.unicode_len();
    let j = skip_ws(s, n, 0);
    if j < n && s.get_char(j) == '{' {
        match repo_members(s, n, j + 1, None) {
            None => None,
            Some((v, e)) => {
                let x = skip_ws(s, n, e);
                if x == n {
                    Some(v)
                } else {
                    None
                }
            },
        }
    } else {
        None
    }
}

impl Repo {
    /// Decodes one HTTP answer: any status other than 200 is the fatal
    /// status error with that code; on 200 the body must follow the
    /// response shape, else the decode error.
    pub fn from_response(status: u16, body: &str) -> (r: Result<Repo, ApiError>)
        ensures
            status != 200 ==> r == Err::<Repo, ApiError>(ApiError::Status(status)),
            status == 200 ==> match spec_parse_repo(body@) {
                Some(sq) => r matches Ok(repo) && repo@ == sq,
                None => r == Err::<Repo, ApiError>(ApiError::Decode),
            },
    {
        if status != 200 {
            return Err(ApiError::Status(status));
        }
        match parse_repo(body) {
            Some(v) => Ok(Repo { items: v }),
            None => Err(ApiError::Decode),
        }
    }
}

} // verus!
