//! Small verified string utilities: appending a character, rendering an
//! unsigned integer in decimal, and left-justified padding to a fixed width.

use vstd::prelude::*;

verus! {

use vstd::string::StrSliceExecFns;
use vstd::string::StringExecFns;

/// Relies on `String::push` from std: appends one character to the string.
pub assume_specification[ String::push ](s: &mut String, ch: char)
    ensures
        final(s)@ == old(s)@.push(ch),
;

/// The character for a single decimal digit.
pub open spec fn digit_char(d: nat) -> char {
    if d == 0 {
        '0'
    } else if d == 1 {
        '1'
    } else if d == 2 {
        '2'
    } else if d == 3 {
        '3'
    } else if d == 4 {
        '4'
    } else if d == 5 {
        '5'
    } else if d == 6 {
        '6'
    } else if d == 7 {
        '7'
    } else if d == 8 {
        '8'
    } else {
        '9'
    }
}

/// The decimal rendering of a natural number, most significant digit first,
/// with no leading zeros (a single `'0'` for zero).
pub open spec fn spec_dec(n: nat) -> Seq<char>
    decreases n,
{
    if n < 10 {
        seq![digit_char(n)]
    } else {
        spec_dec(n / 10).push(digit_char(n % 10))
    }
}

pub proof fn lemma_spec_dec_len(n: nat)
    ensures
        spec_dec(n).len() >= 1,
    decreases n,
{
    if n >= 10 {
        lemma_spec_dec_len(n / 10);
    }
}

/// Renders a digit below ten as its character.
fn one_digit_char(d: u64) -> (c: char)
    requires
        d < 10,
    ensures
        c == digit_char(d as nat),
{
    if d == 0 {
        '0'
    } else if d == 1 {
        '1'
    } else if d == 2 {
        '2'
    } else if d == 3 {
        '3'
    } else if d == 4 {
        '4'
    } else if d == 5 {
        '5'
    } else if d == 6 {
        '6'
    } else if d == 7 {
        '7'
    } else if d == 8 {
        '8'
    } else {
        '9'
    }
}

/// Renders `n` in decimal, exactly as `spec_dec` describes.
pub fn u64_to_string(n: u64) -> (r: String)
    ensures
        r@ == spec_dec(n as nat),
    decreases n,
{
    if n < 10 {
        let mut s = String::new();
        s.push(one_digit_char(n));
        assert(s@ =~= spec_dec(n as nat));
        s
    } else {
        let mut s = u64_to_string(n / 10);
        s.push(one_digit_char(n % 10));
        s
    }
}

/// `n` space characters.
pub open spec fn spec_spaces(n: nat) -> Seq<char>
    decreases n,
{
    if n == 0 {
        Seq::empty()
    } else {
        spec_spaces((n - 1) as nat).push(' ')
    }
}

/// Left-justified padding: the content itself, followed by enough spaces to
/// reach width `w`; content wider than `w` is left as it is.
pub open spec fn spec_pad(s: Seq<char>, w: nat) -> Seq<char> {
    if s.len() >= w {
        s
    } else {
        s + spec_spaces((w - s.len()) as nat)
    }
}

/// Appends `s` padded to width `w` onto `out`.
pub fn append_padded(out: &mut String, s: &str, w: usize)
    ensures
        final(out)@ == old(out)@ + spec_pad(s@, w as nat),
{
    out.append(s);
    let n = s.unicode_len();
    if n < w {
        assert(out@ =~= old(out)@ + s@ + spec_spaces(0));
        let mut k: usize = n;
        while k < w
            invariant
                n < w,
                n <= k <= w,
                n as nat == s@.len(),
                out@ == old(out)@ + s@ + spec_spaces((k - n) as nat),
            decreases w - k,
        {
            out.push(' ');
            k = k + 1;
        }
        assert(out@ =~= old(out)@ + spec_pad(s@, w as nat));
    } else {
        assert(out@ =~= old(out)@ + spec_pad(s@, w as nat));
    }
}

} // verus!
