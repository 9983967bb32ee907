//! Text that the pages write: decimal numerals, and the calls that format
//! byte sizes and upper-case a text.

use vstd::prelude::*;
use vstd::string::*;

verus! {

/// The character that writes the decimal digit `d` (for `d < 10`).
pub open spec fn digit_char(d: nat) -> char {
    ((d + 48) as u8) as char
}

/// The decimal numeral of `n`: its digits, most significant first, with no
/// leading zero (the numeral of zero is the single digit `0`).
pub open spec fn decimal(n: nat) -> Seq<char>
    decreases n,
{
    if n < 10 {
        seq![digit_char(n)]
    } else {
        decimal(n / 10).push(digit_char(n % 10))
    }
}

/// The value of a decimal digit character.
pub open spec fn digit_value(c: char) -> int {
    c as int - 48
}

/// The number that a string of decimal digits writes (most significant first).
pub open spec fn numeral_value(s: Seq<char>) -> int
    decreases s.len(),
{
    if s.len() == 0 {
        0
    } else {
        numeral_value(s.drop_last()) * 10 + digit_value(s.last())
    }
}

/// A decimal numeral in canonical form: nonempty, only the digits `0`..`9`,
/// and no leading zero unless it is the numeral of zero.
pub open spec fn canonical_numeral(s: Seq<char>) -> bool {
    &&& s.len() >= 1
    &&& forall|i: int| 0 <= i < s.len() ==> 48 <= #[trigger] (s[i] as int) <= 57
    &&& (s[0] == '0' ==> s.len() == 1)
}

proof fn digit_char_value(d: nat)
    requires
        d < 10,
    ensures
        digit_char(d) as int == d + 48,
{
    let b: u8 = (d + 48) as u8;
    assert(b as int == d + 48);
}

/// The decimal numeral of `n` is canonical and reads back as `n`; so two
/// numbers with the same numeral are equal.
pub proof fn decimal_reads_back(n: nat)
    ensures
        canonical_numeral(decimal(n)),
        numeral_value(decimal(n)) == n,
    decreases n,
{
    if n < 10 {
        digit_char_value(n);
        assert(decimal(n).drop_last() =~= Seq::<char>::empty());
        assert(numeral_value(decimal(n)) == numeral_value(decimal(n).drop_last()) * 10
            + digit_value(decimal(n).last()));
    } else {
        decimal_reads_back(n / 10);
        digit_char_value(n % 10);
        let s = decimal(n);
        let p = decimal(n / 10);
        assert(s.drop_last() =~= p);
        assert(forall|i: int| 0 <= i < p.len() ==> s[i] == p[i]);
        assert(s.last() == digit_char(n % 10));
        assert(numeral_value(s) == numeral_value(p) * 10 + digit_value(s.last()));
        assert((n / 10) * 10 + n % 10 == n) by (nonlinear_arith);
        assert(s[0] == p[0]);
        assert(p[0] == '0' ==> n / 10 == 0) by {
            if p.len() == 1 && p[0] == '0' {
                assert(numeral_value(p.drop_last()) == 0) by {
                    assert(p.drop_last() =~= Seq::<char>::empty());
                }
            }
        }
    }
}

/// Distinct numbers have distinct decimal numerals.
pub proof fn decimal_injective(a: nat, b: nat)
    requires
        decimal(a) == decimal(b),
    ensures
        a == b,
{
    decimal_reads_back(a);
    decimal_reads_back(b);
}

/// Appends one character at the end of a string: `String::push`.
#[verifier::external_body]
fn push_char(s: &mut String, c: char)
    ensures
        final(s)@ == old(s)@.push(c),
{
    s.push(c);
}

fn digit(d: u64) -> (c: char)
    requires
        d < 10,
    ensures
        c == digit_char(d as nat),
{
    ((d as u8) + 48u8) as char
}

/// Writes `n` in decimal, as `Display` writes an unsigned integer.
pub fn decimal_text(n: u64) -> (s: String)
    ensures
        s@ == decimal(n as nat),
    decreases n,
{
    if n < 10 {
        let mut s = String::new();
        push_char(&mut s, digit(n));
        s
    } else {
        let mut s = decimal_text(n / 10);
        push_char(&mut s, digit(n % 10));
        s
    }
}

} // verus!

verus! {

/// Whether a string holds exactly the text `lit`.
pub fn text_is(s: &String, lit: &str) -> (r: bool)
    ensures
        r == (s@ == lit@),
{
    let t = String::from_str(lit);
    *s == t
}

/// What `str::to_uppercase` gives for a text: each character replaced by its
/// uppercase mapping as Unicode defines it.
pub uninterp spec fn uppercase_text(s: Seq<char>) -> Seq<char>;

/// Calls `str::to_uppercase`; its result is named `uppercase_text` of the
/// argument, and nothing more of it is claimed here.
#[verifier::external_body]
pub(crate) fn to_uppercase(s: &str) -> (r: String)
    ensures
        r@ == uppercase_text(s@),
{
    s.to_uppercase()
}

/// What `bytefmt::format` gives for a byte count: the count scaled to the
/// largest decimal unit that does not exceed it, written with at most two
/// decimals, then a space and the unit's symbol.
pub uninterp spec fn byte_size_text(bytes: u64) -> Seq<char>;

/// The unit symbol, with the space before it, that `bytefmt::format` writes
/// after the number for a byte count.
pub open spec fn byte_unit_suffix(bytes: u64) -> Seq<char> {
    if bytes < 1_000 {
        " B"@
    } else if bytes < 1_000_000 {
        " KB"@
    } else if bytes < 1_000_000_000 {
        " MB"@
    } else if bytes < 1_000_000_000_000 {
        " GB"@
    } else if bytes < 1_000_000_000_000_000 {
        " TB"@
    } else {
        " PB"@
    }
}

/// Calls `bytefmt::format`. Its result is named `byte_size_text` of the count;
/// the one fact claimed of it is the one its source shows directly: it ends
/// with the unit that the thresholds of `format` pick (`push_str` of
/// `" B"`, `" KB"`, ... after the number). The number part, written by float
/// formatting, is left unsaid.
#[verifier::external_body]
pub(crate) fn format_bytes(bytes: u64) -> (r: String)
    ensures
        r@ == byte_size_text(bytes),
        byte_unit_suffix(bytes).is_suffix_of(r@),
{
    bytefmt::format(bytes)
}

} // verus!
