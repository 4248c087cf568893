//! A verified lexer for the JSON texts the search API answers with:
//! whitespace, strings with the single-character escapes, and a skipper
//! for whole values whose content the decoder does not read.
//!
//! Each executable function mirrors a spec function over the character
//! sequence; its contract says that the two agree. The spec functions
//! carry range guards on intermediate indices so that termination is
//! evident; the guards always hold, as the executable contracts show.

use vstd::prelude::*;

verus! {

use vstd::string::StrSliceExecFns;

/// JSON whitespace.
pub open spec fn is_ws(c: char) -> bool {
    c == ' ' || c == '\n' || c == '\r' || c == '\t'
}

/// The first index at or after `i` that does not hold whitespace.
pub open spec fn spec_skip_ws(s: Seq<char>, i: int) -> int
    decreases s.len() - i,
{
    if 0 <= i < s.len() && is_ws(s[i]) {
        spec_skip_ws(s, i + 1)
    } else {
        i
    }
}

/// Skips whitespace, exactly as `spec_skip_ws` describes.
pub fn skip_ws(s: &str, n: usize, i: usize) -> (j: usize)
    requires
        n as nat == s@.len(),
        i <= n,
    ensures
        j as int == spec_skip_ws(s@, i as int),
        i <= j <= n,
    decreases n - i,
{
    if i < n {
        let c = s.get_char(i);
        if c == ' ' || c == '\n' || c == '\r' || c == '\t' {
            return skip_ws(s, n, i + 1);
        }
    }
    i
}

/// What a backslash escape stands for; `None` for an escape the decoder
/// does not accept (among them the `\u` form).
pub open spec fn spec_unescape(c: char) -> Option<char> {
    if c == '"' {
        Some('"')
    } else if c == '\\' {
        Some('\\')
    } else if c == '/' {
        Some('/')
    } else if c == 'b' {
        Some('\u{0008}')
    } else if c == 'f' {
        Some('\u{000C}')
    } else if c == 'n' {
        Some('\n')
    } else if c == 'r' {
        Some('\r')
    } else if c == 't' {
        Some('\t')
    } else {
        None
    }
}

/// Decodes a backslash escape, exactly as `spec_unescape` describes.
fn unescape_char(c: char) -> (r: Option<char>)
    ensures
        r == spec_unescape(c),
{
    if c == '"' {
        Some('"')
    } else if c == '\\' {
        Some('\\')
    } else if c == '/' {
        Some('/')
    } else if c == 'b' {
        Some('\u{0008}')
    } else if c == 'f' {
        Some('\u{000C}')
    } else if c == 'n' {
        Some('\n')
    } else if c == 'r' {
        Some('\r')
    } else if c == 't' {
        Some('\t')
    } else {
        None
    }
}

/// The rest of a string literal, read from inside the quotes at `i`:
/// the decoded content appended to `acc`, and the index just past the
/// closing quote.
pub open spec fn spec_string_body(s: Seq<char>, i: int, acc: Seq<char>) -> Option<(Seq<char>, int)>
    decreases s.len() - i,
{
    if !(0 <= i < s.len()) {
        None
    } else {
        let c = s[i];
        if c == '"' {
            Some((acc, i + 1))
        } else if c == '\\' {
            if i + 1 < s.len() {
                match spec_unescape(s[i + 1]) {
                    Some(e) => spec_string_body(s, i + 2, acc.push(e)),
                    None => None,
                }
            } else {
                None
            }
        } else {
            spec_string_body(s, i + 1, acc.push(c))
        }
    }
}

/// A whole string literal with its opening quote at `i`: the decoded
/// content and the index just past the closing quote.
pub open spec fn spec_parse_string(s: Seq<char>, i: int) -> Option<(Seq<char>, int)> {
    if 0 <= i < s.len() && s[i] == '"' {
        spec_string_body(s, i + 1, Seq::empty())
    } else {
        None
    }
}

/// Reads a string body, exactly as `spec_string_body` describes.
fn string_body(s: &str, n: usize, i: usize, acc: String) -> (r: Option<(String, usize)>)
    requires
        n as nat == s@.len(),
        i <= n,
    ensures
        match r {
            Some((v, j)) => spec_string_body(s@, i as int, acc@) == Some((v@, j as int)) && i < j
                <= n,
            None => spec_string_body(s@, i as int, acc@) is None,
        },
    decreases n - i,
{
    if i >= n {
        return None;
    }
    let c = s.get_char(i);
    if c == '"' {
        Some((acc, i + 1))
    } else if c == '\\' {
        if i + 1 < n {
            match unescape_char(s.get_char(i + 1)) {
                Some(e) => {
                    let mut acc2 = acc;
                    acc2.push(e);
                    string_body(s, n, i + 2, acc2)
                },
                None => None,
            }
        } else {
            None
        }
    } else {
        let mut acc2 = acc;
        acc2.push(c);
        string_body(s, n, i + 1, acc2)
    }
}

/// Reads a string literal, exactly as `spec_parse_string` describes.
pub fn parse_string(s: &str, n: usize, i: usize) -> (r: Option<(String, usize)>)
    requires
        n as nat == s@.len(),
        i <= n,
    ensures
        match r {
            Some((v, j)) => spec_parse_string(s@, i as int) == Some((v@, j as int)) && i < j <= n,
            None => spec_parse_string(s@, i as int) is None,
        },
{
    if i < n && s.get_char(i) == '"' {
        string_body(s, n, i + 1, String::new())
    } else {
        None
    }
}

/// A character that may continue a number token.
pub open spec fn is_num_char(c: char) -> bool {
    (c as u32 >= 48 && c as u32 <= 57) || c == '-' || c == '+' || c == '.' || c == 'e' || c == 'E'
}

/// A lower-case letter, as found in `true`, `false` and `null`.
pub open spec fn is_alpha_char(c: char) -> bool {
    c as u32 >= 97 && c as u32 <= 122
}

/// The first index at or after `i` that does not continue a number.
pub open spec fn spec_skip_num_rest(s: Seq<char>, i: int) -> int
    decreases s.len() - i,
{
    if 0 <= i < s.len() && is_num_char(s[i]) {
        spec_skip_num_rest(s, i + 1)
    } else {
        i
    }
}

/// The first index at or after `i` that does not hold a letter.
pub open spec fn spec_skip_alpha_rest(s: Seq<char>, i: int) -> int
    decreases s.len() - i,
{
    if 0 <= i < s.len() && is_alpha_char(s[i]) {
        spec_skip_alpha_rest(s, i + 1)
    } else {
        i
    }
}

/// Skips number characters, exactly as `spec_skip_num_rest` describes.
fn skip_num_rest(s: &str, n: usize, i: usize) -> (j: usize)
    requires
        n as nat == s@.len(),
        i <= n,
    ensures
        j as int == spec_skip_num_rest(s@, i as int),
        i <= j <= n,
    decreases n - i,
{
    if i < n {
        let c = s.get_char(i);
        let u = c as u32;
        if (u >= 48 && u <= 57) || c == '-' || c == '+' || c == '.' || c == 'e' || c == 'E' {
            return skip_num_rest(s, n, i + 1);
        }
    }
    i
}

/// Skips letters, exactly as `spec_skip_alpha_rest` describes.
fn skip_alpha_rest(s: &str, n: usize, i: usize) -> (j: usize)
    requires
        n as nat == s@.len(),
        i <= n,
    ensures
        j as int == spec_skip_alpha_rest(s@, i as int),
        i <= j <= n,
    decreases n - i,
{
    if i < n {
        let u = s.get_char(i) as u32;
        if u >= 97 && u <= 122 {
            return skip_alpha_rest(s, n, i + 1);
        }
    }
    i
}

/// The index just past the JSON value that starts at `i`, or `None`
/// where no value starts there. Strings, arrays and objects are walked
/// in full; numbers and the word literals are taken as token runs.
pub open spec fn spec_skip_value(s: Seq<char>, i: int) -> Option<int>
    decreases s.len() - i, 2int,
{
    if !(0 <= i < s.len()) {
        None
    } else {
        let c = s[i];
        if c == '"' {
            match spec_parse_string(s, i) {
                Some((v, j)) => Some(j),
                None => None,
            }
        } else if c == '[' {
            spec_skip_array_rest(s, i + 1)
        } else if c == '{' {
            spec_skip_object_rest(s, i + 1)
        } else if is_num_char(c) {
            Some(spec_skip_num_rest(s, i + 1))
        } else if is_alpha_char(c) {
            Some(spec_skip_alpha_rest(s, i + 1))
        } else {
            None
        }
    }
}

/// The index just past an array whose opening bracket stands before `i`:
/// elements separated by commas, until the closing bracket.
pub open spec fn spec_skip_array_rest(s: Seq<char>, i: int) -> Option<int>
    decreases s.len() - i, 3int,
{
    let j: int = spec_skip_ws(s, i);
    if !(i <= j <= s.len()) {
        None
    } else if j < s.len() && s[j] == ']' {
        Some(j + 1)
    } else {
        match spec_skip_value(s, j) {
            None => None,
            Some(k) => if j < k <= s.len() {
                let m: int = spec_skip_ws(s, k);
                if !(k <= m <= s.len()) {
                    None
                } else if m < s.len() && s[m] == ',' {
                    spec_skip_array_rest(s, m + 1)
                } else if m < s.len() && s[m] == ']' {
                    Some(m + 1)
                } else {
                    None
                }
            } else {
                None
            },
        }
    }
}

/// The index just past an object whose opening brace stands before `i`:
/// string keys, colons and values separated by commas, until the
/// closing brace.
pub open spec fn spec_skip_object_rest(s: Seq<char>, i: int) -> Option<int>
    decreases s.len() - i, 3int,
{
    let j: int = spec_skip_ws(s, i);
    if !(i <= j <= s.len()) {
        None
    } else if j < s.len() && s[j] == '}' {
        Some(j + 1)
    } else {
        match spec_parse_string(s, j) {
            None => None,
            Some((key, k)) => if j < k <= s.len() {
                let m: int = spec_skip_ws(s, k);
                if !(k <= m <= s.len()) {
                    None
                } else if m < s.len() && s[m] == ':' {
                    let v: int = spec_skip_ws(s, m + 1);
                    if !(m + 1 <= v <= s.len()) {
                        None
                    } else {
                        match spec_skip_value(s, v) {
                            None => None,
                            Some(w) => if v < w <= s.len() {
                                let x: int = spec_skip_ws(s, w);
                                if !(w <= x <= s.len()) {
                                    None
                                } else if x < s.len() && s[x] == ',' {
                                    spec_skip_object_rest(s, x + 1)
                                } else if x < s.len() && s[x] == '}' {
                                    Some(x + 1)
                                } else {
                                    None
                                }
                            } else {
                                None
                            },
                        }
                    }
                } else {
                    None
                }
            } else {
                None
            },
        }
    }
}

/// Skips one value, exactly as `spec_skip_value` describes.
pub fn skip_value(s: &str, n: usize, i: usize) -> (r: Option<usize>)
    requires
        n as nat == s@.len(),
        i <= n,
    ensures
        match r {
            Some(j) => spec_skip_value(s@, i as int) == Some(j as int) && i < j <= n,
            None => spec_skip_value(s@, i as int) is None,
        },
    decreases n - i, 2int,
{
    if i >= n {
        return None;
    }
    let c = s.get_char(i);
    if c == '"' {
        match parse_string(s, n, i) {
            Some((_s, j)) => Some(j),
            None => None,
        }
    } else if c == '[' {
        skip_array_rest(s, n, i + 1)
    } else if c == '{' {
        skip_object_rest(s, n, i + 1)
    } else {
        let u = c as u32;
        if (u >= 48 && u <= 57) || c == '-' || c == '+' || c == '.' || c == 'e' || c == 'E' {
            Some(skip_num_rest(s, n, i + 1))
        } else if u >= 97 && u <= 122 {
            Some(skip_alpha_rest(s, n, i + 1))
        } else {
            None
        }
    }
}

/// Skips array elements, exactly as `spec_skip_array_rest` describes.
fn skip_array_rest(s: &str, n: usize, i: usize) -> (r: Option<usize>)
    requires
        n as nat == s@.len(),
        i <= n,
    ensures
        match r {
            Some(j) => spec_skip_array_rest(s@, i as int) == Some(j as int) && i < j <= n,
            None => spec_skip_array_rest(s@, i as int) is None,
        },
    decreases n - i, 3int,
{
    let j = skip_ws(s, n, i);
    if j < n && s.get_char(j) == ']' {
        return Some(j + 1);
    }
    match skip_value(s, n, j) {
        None => None,
        Some(k) => {
            let m = skip_ws(s, n, k);
            if m < n && s.get_char(m) == ',' {
                skip_array_rest(s, n, m + 1)
            } else if m < n && s.get_char(m) == ']' {
                Some(m + 1)
            } else {
                None
            }
        },
    }
}

/// Decides character-for-character equality of two strings.
pub fn str_eq(a: &str, b: &str) -> (r: bool)
    ensures
        r == (a@ == b@),
{
    let na = a.unicode_len();
    let nb = b.unicode_len();
    if na != nb {
        return false;
    }
    let mut i: usize = 0;
    while i < na
        invariant
            na as nat == a@.len(),
            nb as nat == b@.len(),
            na == nb,
            i <= na,
            forall|j: int| 0 <= j < i ==> a@[j] == b@[j],
        decreases na - i,
    {
        if a.get_char(i) != b.get_char(i) {
            assert(a@[i as int] != b@[i as int]);
            return false;
        }
        i = i + 1;
    }
    assert(a@ =~= b@);
    true
}

/// The word `null` stands at `i`.
pub open spec fn spec_null_at(s: Seq<char>, i: int) -> bool {
    0 <= i && i + 4 <= s.len() && s[i] == 'n' && s[i + 1] == 'u' && s[i + 2] == 'l' && s[i + 3]
        == 'l'
}

/// Decides whether the word `null` stands at `i`, as `spec_null_at` says.
pub fn null_at(s: &str, n: usize, i: usize) -> (r: bool)
    requires
        n as nat == s@.len(),
        i <= n,
    ensures
        r == spec_null_at(s@, i as int),
{
    if n < 4 || i > n - 4 {
        return false;
    }
    s.get_char(i) == 'n' && s.get_char(i + 1) == 'u' && s.get_char(i + 2) == 'l' && s.get_char(
        i + 3,
    ) == 'l'
}

/// Skips object members, exactly as `spec_skip_object_rest` describes.
fn skip_object_rest(s: &str, n: usize, i: usize) -> (r: Option<usize>)
    requires
        n as nat == s@.len(),
        i <= n,
    ensures
        match r {
            Some(j) => spec_skip_object_rest(s@, i as int) == Some(j as int) && i < j <= n,
            None => spec_skip_object_rest(s@, i as int) is None,
        },
    decreases n - i, 3int,
{
    let j = skip_ws(s, n, i);
    if j < n && s.get_char(j) == '}' {
        return Some(j + 1);
    }
    match parse_string(s, n, j) {
        None => None,
        Some((_key, k)) => {
            let m = skip_ws(s, n, k);
            if m < n && s.get_char(m) == ':' {
                let v = skip_ws(s, n, m + 1);
                match skip_value(s, n, v) {
                    None => None,
                    Some(w) => {
                        let x = skip_ws(s, n, w);
                        if x < n && s.get_char(x) == ',' {
                            skip_object_rest(s, n, x + 1)
                        } else if x < n && s.get_char(x) == '}' {
                            Some(x + 1)
                        } else {
                            None
                        }
                    },
                }
            } else {
                None
            }
        },
    }
}

} // verus!
