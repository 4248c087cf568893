//! The table renderer: a fixed-width text table with a header row, a
//! separator rule, and one indexed row per hit.

use vstd::prelude::*;

verus! {

use vstd::string::StringExecFns;
use crate::model::ItemsV;
use crate::model::Repo;
use crate::text::spec_dec;
use crate::text::spec_pad;
use crate::text::lemma_spec_dec_len;
use crate::text::u64_to_string;
use crate::text::append_padded;

/// The separator: `n` rule characters.
pub open spec fn spec_rule(n: nat) -> Seq<char>
    decreases n,
{
    if n == 0 {
        Seq::empty()
    } else {
        spec_rule((n - 1) as nat).push('─')
    }
}

/// The header: a blank index cell, the two column names, each cell
/// left-justified to its fixed width, then the separator line.
pub open spec fn spec_header() -> Seq<char> {
    spec_pad(" "@, 1) + " │ "@ + spec_pad("Name"@, 50) + " │ "@ + spec_pad("Description"@, 100)
        + "\n"@ + spec_rule(120) + "\n"@
}

/// The row of hit number `i`: the index, the repository URL and the
/// description, each cell left-justified to its fixed width.
pub open spec fn spec_row(i: nat, it: ItemsV) -> Seq<char> {
    spec_pad(spec_dec(i), 1) + " │ "@ + spec_pad(it.repository.html_url, 50) + " │ "@ + spec_pad(
        it.repository.description,
        100,
    ) + "\n"@
}

/// The first `n` rows, in order.
pub open spec fn spec_rows_to(items: Seq<ItemsV>, n: int) -> Seq<char>
    decreases n,
{
    if n <= 0 {
        Seq::empty()
    } else {
        spec_rows_to(items, n - 1) + spec_row((n - 1) as nat, items[n - 1])
    }
}

/// The whole table: the header, then one row per hit.
pub open spec fn spec_table(items: Seq<ItemsV>) -> Seq<char> {
    spec_header() + spec_rows_to(items, items.len() as int)
}

/// A result set with no hits renders as the header and separator alone,
/// with no data rows after them.
pub proof fn lemma_table_empty(items: Seq<ItemsV>)
    requires
        items.len() == 0,
    ensures
        spec_table(items) == spec_header(),
{
    assert(spec_table(items) =~= spec_header());
}

/// A result set with `N` hits renders as the header followed by exactly
/// `N` rows, one per hit and in their order; the row of hit `i` begins
/// with the decimal index `i` and ends with a line break.
pub proof fn lemma_table_rows(items: Seq<ItemsV>)
    ensures
        spec_table(items) == spec_header() + spec_rows_to(items, items.len() as int),
        forall|i: int|
            0 <= i < items.len() ==> #[trigger] spec_rows_to(items, i + 1) == spec_rows_to(items, i)
                + spec_row(i as nat, items[i]),
        forall|i: int|
            0 <= i < items.len() ==> (#[trigger] spec_row(i as nat, items[i])).subrange(
                0,
                spec_dec(i as nat).len() as int,
            ) == spec_dec(i as nat),
        forall|i: int|
            0 <= i < items.len() ==> (#[trigger] spec_row(i as nat, items[i])).last() == '\n',
{
    assert forall|i: int| 0 <= i < items.len() implies (#[trigger] spec_row(
        i as nat,
        items[i],
    )).subrange(0, spec_dec(i as nat).len() as int) == spec_dec(i as nat) by {
        lemma_spec_dec_len(i as nat);
        let d = spec_dec(i as nat);
        assert(spec_pad(d, 1) == d);
        assert(spec_row(i as nat, items[i]).subrange(0, d.len() as int) =~= d);
    }
    assert forall|i: int| 0 <= i < items.len() implies (#[trigger] spec_row(
        i as nat,
        items[i],
    )).last() == '\n' by {
        reveal_strlit("\n");
        let r = spec_row(i as nat, items[i]);
        assert(r.last() == "\n"@[0]);
    }
}

impl Repo {
    /// Renders the result set, exactly as `spec_table` describes.
    pub fn get_table(&self) -> (r: String)
        ensures
            r@ == spec_table(self@),
    {
        let mut out = String::new();
        append_padded(&mut out, " ", 1);
        out.append(" │ ");
        append_padded(&mut out, "Name", 50);
        out.append(" │ ");
        append_padded(&mut out, "Description", 100);
        out.append("\n");
        let ghost pre = out@;
        assert(out@ =~= pre + spec_rule(0));
        let mut k: usize = 0;
        while k < 120
            invariant
                k <= 120,
                out@ == pre + spec_rule(k as nat),
            decreases 120 - k,
        {
            out.push('─');
            k = k + 1;
        }
        out.append("\n");
        assert(out@ =~= spec_header());
        assert(out@ =~= spec_header() + spec_rows_to(self@, 0));
        let count = self.items.len();
        let mut idx: usize = 0;
        while idx < count
            invariant
                count == self.items.len(),
                idx <= count,
                out@ == spec_header() + spec_rows_to(self@, idx as int),
            decreases count - idx,
        {
            let ghost before = out@;
            let ds = u64_to_string(idx as u64);
            append_padded(&mut out, ds.as_str(), 1);
            out.append(" │ ");
            append_padded(&mut out, self.items[idx].repository.html_url.as_str(), 50);
            out.append(" │ ");
            append_padded(&mut out, self.items[idx].repository.description.as_str(), 100);
            out.append("\n");
            proof {
                assert(self@[idx as int] == self.items@[idx as int]@);
                assert(out@ =~= before + spec_row(idx as nat, self@[idx as int]));
                assert(out@ =~= spec_header() + spec_rows_to(self@, idx as int + 1));
            }
            idx = idx + 1;
        }
        out
    }
}

} // verus!
