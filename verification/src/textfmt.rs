//! Small text-building blocks shared by the request builder and the
//! ceremony artifacts: decimal rendering of integers, JSON string
//! safety, and JSON quoting.

use vstd::prelude::*;

verus! {

/// The decimal digit for a value below 10.
pub open spec fn dec_digit(n: nat) -> char {
    if n == 0 {
        '0'
    } else if n == 1 {
        '1'
    } else if n == 2 {
        '2'
    } else if n == 3 {
        '3'
    } else if n == 4 {
        '4'
    } else if n == 5 {
        '5'
    } else if n == 6 {
        '6'
    } else if n == 7 {
        '7'
    } else if n == 8 {
        '8'
    } else {
        '9'
    }
}

/// The usual decimal rendering of a natural number, without leading zeros.
pub open spec fn dec_of(n: nat) -> Seq<char>
    decreases n,
{
    if n < 10 {
        seq![dec_digit(n)]
    } else {
        dec_of(n / 10) + seq![dec_digit(n % 10)]
    }
}

/// Renders an integer in decimal.
pub fn dec_str(n: u64) -> (r: String)
    ensures
        r@ == dec_of(n as nat),
    decreases n,
{
    let table = "0123456789";
    proof {
        reveal_strlit("0123456789");
    }
    let d: usize = (n % 10) as usize;
    if n < 10 {
        let piece = table.substring_char(d, d + 1);
        assert(piece@ =~= seq![dec_digit(n as nat)]);
        piece.to_owned()
    } else {
        let mut prefix = dec_str(n / 10);
        let piece = table.substring_char(d, d + 1);
        assert(piece@ =~= seq![dec_digit(n as nat % 10)]);
        prefix.append(piece);
        prefix
    }
}

/// Every decimal rendering is made of digits alone, so it may stand
/// verbatim inside a JSON string.
pub proof fn lemma_dec_json_safe(n: nat)
    ensures
        json_safe(dec_of(n)),
    decreases n,
{
    if n >= 10 {
        lemma_dec_json_safe(n / 10);
    }
}

/// A character that may stand verbatim inside a JSON string literal:
/// anything but the quote, the backslash and the control characters.
pub open spec fn json_safe_char(c: char) -> bool {
    c != '"' && c != '\\' && (c as u32) >= 32
}

/// A string whose characters may all stand verbatim inside a JSON
/// string literal.
pub open spec fn json_safe(s: Seq<char>) -> bool {
    forall|i: int| 0 <= i < s.len() ==> json_safe_char(s[i])
}

/// Checks that every character of `s` may stand verbatim inside a JSON
/// string literal.
pub fn is_json_safe(s: &str) -> (r: bool)
    ensures
        r == json_safe(s@),
{
    let len = s.unicode_len();
    let mut i: usize = 0;
    while i < len
        invariant
            i <= len,
            len == s@.len(),
            forall|k: int| 0 <= k < i ==> json_safe_char(s@[k]),
        decreases len - i,
    {
        let c = s.get_char(i);
        if c == '"' || c == '\\' || (c as u32) < 32 {
            return false;
        }
        i = i + 1;
    }
    true
}

/// A JSON string literal made of `s` between two quotes, with no
/// escaping: meaningful only when `json_safe(s)` holds.
pub open spec fn json_quoted(s: Seq<char>) -> Seq<char> {
    seq!['"'] + s + seq!['"']
}

/// Wraps a string in JSON quotes, verbatim.
pub fn quote_string(s: &str) -> (r: String)
    ensures
        r@ == json_quoted(s@),
{
    proof {
        reveal_strlit("\"");
    }
    let mut out = String::from_str("\"");
    out.append(s);
    out.append("\"");
    proof {
        assert(out@ =~= json_quoted(s@));
    }
    out
}

} // verus!
