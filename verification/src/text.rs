//! Text helpers: equality, prefixes, case folding and UTF-8 decoding, stated over vstd's models of `str` and `String`.

use vstd::prelude::*;
use vstd::utf8::*;
use vstd::string::*;

verus! {

/// Whether the characters `s` are all in the ASCII range.
pub open spec fn ascii_only(s: Seq<char>) -> bool {
    is_ascii_chars(s)
}

/// ASCII case folding of one character: `A`..`Z` become `a`..`z`,
/// every other character is kept.
pub open spec fn ascii_lower_char(c: char) -> char {
    if 'A' <= c && c <= 'Z' {
        ((c as u32) + 32) as char
    } else {
        c
    }
}

/// ASCII case folding of a whole sequence of characters.
pub open spec fn ascii_lower(s: Seq<char>) -> Seq<char> {
    s.map_values(|c: char| ascii_lower_char(c))
}

/// What `str::to_lowercase` returns for a string (Unicode lower-case mapping).
pub uninterp spec fn unicode_lowercase(s: Seq<char>) -> Seq<char>;

/// Byte-wise prefix test, the meaning of `str::starts_with` with a `&str` pattern.
pub open spec fn has_byte_prefix(s: Seq<u8>, prefix: Seq<u8>) -> bool {
    prefix.len() <= s.len() && s.subrange(0, prefix.len() as int) == prefix
}

/// `str::to_lowercase`. The result is named by `unicode_lowercase`; on ASCII
/// input the standard library documents it as plain ASCII case folding.
#[verifier::external_body]
pub(crate) fn str_to_lowercase(s: &str) -> (res: String)
    ensures
        res@ == unicode_lowercase(s@),
        ascii_only(s@) ==> res@ == ascii_lower(s@),
{
    s.to_lowercase()
}

/// `std::str::from_utf8`: `Some` exactly for valid UTF-8, holding the decoded text.
#[verifier::external_body]
pub(crate) fn str_from_utf8(bytes: &[u8]) -> (res: Option<&str>)
    ensures
        res is Some <==> valid_utf8(bytes@),
        res matches Some(s) ==> s@ == decode_utf8(bytes@),
{
    std::str::from_utf8(bytes).ok()
}

/// Character-wise equality of two string slices.
pub fn str_eq(a: &str, b: &str) -> (res: bool)
    ensures
        res == (a@ == b@),
{
    let x: String = a.to_owned();
    let y: String = b.to_owned();
    x == y
}

/// `str::starts_with` for a string pattern: a byte-wise prefix test.
pub fn str_starts_with(s: &str, prefix: &str) -> (res: bool)
    ensures
        res == has_byte_prefix(s.spec_bytes(), prefix.spec_bytes()),
{
    let sb = s.as_bytes();
    let pb = prefix.as_bytes();
    if pb.len() > sb.len() {
        return false;
    }
    let mut i: usize = 0;
    while i < pb.len()
        invariant
            sb@ == s.spec_bytes(),
            pb@ == prefix.spec_bytes(),
            pb@.len() <= sb@.len(),
            0 <= i <= pb@.len(),
            forall|j: int| 0 <= j < i ==> sb@[j] == pb@[j],
        decreases pb@.len() - i,
    {
        if sb[i] != pb[i] {
            assert(sb@.subrange(0, pb@.len() as int)[i as int] != pb@[i as int]);
            return false;
        }
        i = i + 1;
    }
    assert(sb@.subrange(0, pb@.len() as int) =~= pb@);
    true
}

/// The decimal digit character for `d` (below ten).
pub open spec fn digit_char(d: nat) -> char {
    (48 + d) as char
}

/// The decimal spelling of a number, without leading zeros.
pub open spec fn decimal_text(n: nat) -> Seq<char>
    decreases n,
{
    if n < 10 {
        seq![digit_char(n)]
    } else {
        decimal_text(n / 10).push(digit_char(n % 10))
    }
}

/// The spelling of a boolean, as `bool::to_string` gives it.
pub open spec fn bool_text(b: bool) -> Seq<char> {
    if b {
        "true"@
    } else {
        "false"@
    }
}

/// The one-character string of a decimal digit.
fn digit_str(d: u32) -> (s: &'static str)
    requires
        d < 10,
    ensures
        s@ == seq![digit_char(d as nat)],
{
    proof {
        reveal_strlit("0");
        reveal_strlit("1");
        reveal_strlit("2");
        reveal_strlit("3");
        reveal_strlit("4");
        reveal_strlit("5");
        reveal_strlit("6");
        reveal_strlit("7");
        reveal_strlit("8");
        reveal_strlit("9");
    }
    let s = match d {
        0 => "0",
        1 => "1",
        2 => "2",
        3 => "3",
        4 => "4",
        5 => "5",
        6 => "6",
        7 => "7",
        8 => "8",
        _ => "9",
    };
    assert(s@ =~= seq![digit_char(d as nat)]);
    s
}

/// The decimal spelling of a number, as `u32::to_string` gives it.
pub fn u32_to_decimal(n: u32) -> (s: String)
    ensures
        s@ == decimal_text(n as nat),
    decreases n,
{
    if n < 10 {
        String::from_str(digit_str(n))
    } else {
        let mut s = u32_to_decimal(n / 10);
        s.append(digit_str(n % 10));
        s
    }
}

/// The spelling of a boolean, `true` or `false`.
pub fn bool_to_text(b: bool) -> (s: String)
    ensures
        s@ == bool_text(b),
{
    if b {
        String::from_str("true")
    } else {
        String::from_str("false")
    }
}

/// `prefix` followed by `rest`.
pub fn joined(prefix: &str, rest: &str) -> (s: String)
    ensures
        s@ == prefix@ + rest@,
{
    let mut s = String::from_str(prefix);
    s.append(rest);
    s
}

} // verus!
