//! Names of escrow records: the word `escrow_` followed by the record's
//! number in decimal.

use std::fmt::Write;
use vstd::prelude::*;

verus! {

/// Most records an engine can name: a name holds at most twelve characters,
/// seven of them the prefix.
pub const MAX_ESCROWS: u32 = 100_000;

/// The character that stands for one decimal digit.
pub open spec fn digit_char(d: nat) -> char {
    if d == 0 {
        '0'
    } else if d == 1 {
        '1'
    } else if d == 2 {
        '2'
    } else if d == 3 {
        '3'
    } else if d == 4 {
        '4'
    } else if d == 5 {
        '5'
    } else if d == 6 {
        '6'
    } else if d == 7 {
        '7'
    } else if d == 8 {
        '8'
    } else {
        '9'
    }
}

/// The decimal digits of `n`, most significant first, without leading zeros.
pub open spec fn decimal(n: nat) -> Seq<char>
    decreases n,
{
    if n < 10 {
        seq![digit_char(n)]
    } else {
        decimal(n / 10).push(digit_char(n % 10))
    }
}

/// The seven characters every escrow name starts with.
pub open spec fn name_prefix() -> Seq<char> {
    seq!['e', 's', 'c', 'r', 'o', 'w', '_']
}

/// The name of the escrow record with number `n`.
pub open spec fn escrow_name(n: nat) -> Seq<char> {
    name_prefix() + decimal(n)
}

/// A decimal numeral has at least one digit.
pub proof fn lemma_decimal_nonempty(n: nat)
    ensures
        decimal(n).len() >= 1,
    decreases n,
{
    if n >= 10 {
        lemma_decimal_nonempty(n / 10);
    }
}

/// Different numbers have different decimal numerals.
pub proof fn lemma_decimal_injective(a: nat, b: nat)
    requires
        decimal(a) == decimal(b),
    ensures
        a == b,
    decreases a,
{
    lemma_decimal_nonempty(a / 10);
    lemma_decimal_nonempty(b / 10);
    if a < 10 && b < 10 {
        assert(decimal(a)[0] == digit_char(a));
        assert(decimal(b)[0] == digit_char(b));
    } else if a >= 10 && b >= 10 {
        let da = decimal(a / 10);
        let db = decimal(b / 10);
        assert(decimal(a).last() == digit_char(a % 10));
        assert(decimal(b).last() == digit_char(b % 10));
        assert(decimal(a).drop_last() =~= da);
        assert(decimal(b).drop_last() =~= db);
        lemma_decimal_injective(a / 10, b / 10);
    } else {
        if a < 10 {
            assert(decimal(a).len() == 1);
            assert(decimal(b).len() == decimal(b / 10).len() + 1);
        } else {
            assert(decimal(b).len() == 1);
            assert(decimal(a).len() == decimal(a / 10).len() + 1);
        }
    }
}

/// Different record numbers have different names.
pub proof fn lemma_escrow_name_injective(a: nat, b: nat)
    requires
        escrow_name(a) == escrow_name(b),
    ensures
        a == b,
{
    let p = name_prefix();
    assert(escrow_name(a).subrange(p.len() as int, escrow_name(a).len() as int) =~= decimal(a));
    assert(escrow_name(b).subrange(p.len() as int, escrow_name(b).len() as int) =~= decimal(b));
    lemma_decimal_injective(a, b);
}

/// Formats the name of record `count` in a `heapless::String` of capacity
/// twelve: `heapless::String::push_str` appends the prefix, and `write!`
/// appends the number through the string's `core::fmt::Write`. Trusted, not
/// proved: that the text is the prefix followed by the number's decimal
/// digits. Both calls fail only when the capacity is exceeded; the bound on
/// `count` keeps the text at twelve characters or fewer.
#[verifier::external_body]
pub(crate) fn format_escrow_name(count: u32) -> (name: String)
    requires
        count < MAX_ESCROWS,
    ensures
        name@ == escrow_name(count as nat),
{
    let mut s: heapless::String<12> = heapless::String::new();
    s.push_str("escrow_").unwrap();
    write!(&mut s, "{}", count).unwrap();
    s.as_str().to_owned()
}

} // verus!
