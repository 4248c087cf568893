//! The query builder: assembles the code-search URL from a package name
//! and a requested result count.

use vstd::prelude::*;

verus! {

use vstd::string::StringExecFns;
use crate::text::spec_dec;
use crate::text::u64_to_string;

/// The full search URL for a package name and a result count: the fixed
/// endpoint, the page size, the query term, and the manifest-file filters.
pub open spec fn spec_query(package: Seq<char>, count: nat) -> Seq<char> {
    "https://api.github.com/search/code?per_page="@ + spec_dec(count) + "&q="@ + package
        + " +in:file +"@ + "filename:Cargo"@ + " +"@ + "extension:toml"@ + " +sort:updated-asc"@
}

/// Builds the search URL, exactly as `spec_query` describes.
pub fn create_query(package: &String, repo_count: &u32) -> (r: String)
    requires
        package@.len() > 0,
        *repo_count > 0,
    ensures
        r@ == spec_query(package@, *repo_count as nat),
{
    let mut url = String::from_str("https://api.github.com/search/code?per_page=");
    let count_str = u64_to_string(*repo_count as u64);
    url.append(count_str.as_str());
    url.append("&q=");
    url.append(package.as_str());
    url.append(" +in:file +");
    url.append("filename:Cargo");
    url.append(" +");
    url.append("extension:toml");
    url.append(" +sort:updated-asc");
    url
}

/// `needle` occurs verbatim somewhere in `haystack`.
pub open spec fn contains_seq(haystack: Seq<char>, needle: Seq<char>) -> bool {
    exists|i: int|
        0 <= i && i + needle.len() <= haystack.len() && #[trigger] haystack.subrange(
            i,
            i + needle.len(),
        ) == needle
}

/// A segment standing between two others occurs in the concatenation.
proof fn lemma_contains_middle(a: Seq<char>, b: Seq<char>, c: Seq<char>)
    ensures
        contains_seq(a + b + c, b),
{
    let h = a + b + c;
    let i = a.len() as int;
    assert(h.subrange(i, i + b.len()) =~= b);
}

/// The constructed query URL carries the package name verbatim, the
/// requested count, the manifest filename filter, and the `.toml`
/// extension filter.
pub proof fn lemma_query_contains(package: Seq<char>, count: nat)
    requires
        package.len() > 0,
        count > 0,
    ensures
        contains_seq(spec_query(package, count), package),
        contains_seq(spec_query(package, count), spec_dec(count)),
        contains_seq(spec_query(package, count), "filename:Cargo"@),
        contains_seq(spec_query(package, count), "extension:toml"@),
{
    let q = spec_query(package, count);
    let l1 = "https://api.github.com/search/code?per_page="@;
    let l2 = "&q="@;
    let l3 = " +in:file +"@;
    let f = "filename:Cargo"@;
    let l5 = " +"@;
    let e = "extension:toml"@;
    let l6 = " +sort:updated-asc"@;
    let d = spec_dec(count);

    assert(q =~= l1 + d + (l2 + package + l3 + f + l5 + e + l6));
    lemma_contains_middle(l1, d, l2 + package + l3 + f + l5 + e + l6);

    assert(q =~= (l1 + d + l2) + package + (l3 + f + l5 + e + l6));
    lemma_contains_middle(l1 + d + l2, package, l3 + f + l5 + e + l6);

    assert(q =~= (l1 + d + l2 + package + l3) + f + (l5 + e + l6));
    lemma_contains_middle(l1 + d + l2 + package + l3, f, l5 + e + l6);

    assert(q =~= (l1 + d + l2 + package + l3 + f + l5) + e + l6);
    lemma_contains_middle(l1 + d + l2 + package + l3 + f + l5, e, l6);
}

} // verus!
