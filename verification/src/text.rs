//! Decimal and boolean texts of plain values, as `Display` writes them.

use vstd::prelude::*;

verus! {

/// The character of a decimal digit.
pub open spec fn spec_digit(d: nat) -> char {
    (48 + d) as char
}

/// Decimal text of a natural number, without leading zeros.
pub open spec fn spec_decimal(n: nat) -> Seq<char>
    decreases n,
{
    if n < 10 {
        seq![spec_digit(n)]
    } else {
        spec_decimal(n / 10).push(spec_digit(n % 10))
    }
}

/// Decimal text of an integer: a minus sign before the digits of a
/// negative one.
pub open spec fn spec_signed_decimal(i: int) -> Seq<char> {
    if i < 0 {
        seq!['-'] + spec_decimal((-i) as nat)
    } else {
        spec_decimal(i as nat)
    }
}

/// Text of a boolean: `true` or `false`.
pub open spec fn spec_bool_text(b: bool) -> Seq<char> {
    if b {
        "true"@
    } else {
        "false"@
    }
}

/// The text of one decimal digit.
fn digit_text(d: u64) -> (s: &'static str)
    requires
        d < 10,
    ensures
        s@ == seq![spec_digit(d as nat)],
{
    proof {
        reveal_strlit("0");
        reveal_strlit("1");
        reveal_strlit("2");
        reveal_strlit("3");
        reveal_strlit("4");
        reveal_strlit("5");
        reveal_strlit("6");
        reveal_strlit("7");
        reveal_strlit("8");
        reveal_strlit("9");
    }
    let s = if d == 0 {
        "0"
    } else if d == 1 {
        "1"
    } else if d == 2 {
        "2"
    } else if d == 3 {
        "3"
    } else if d == 4 {
        "4"
    } else if d == 5 {
        "5"
    } else if d == 6 {
        "6"
    } else if d == 7 {
        "7"
    } else if d == 8 {
        "8"
    } else {
        "9"
    };
    proof {
        assert(s@ =~= seq![spec_digit(d as nat)]);
    }
    s
}

/// Decimal text of an unsigned number.
pub fn decimal_text(n: u64) -> (s: String)
    ensures
        s@ == spec_decimal(n as nat),
    decreases n,
{
    if n < 10 {
        digit_text(n).to_owned()
    } else {
        let mut s = decimal_text(n / 10);
        s.append(digit_text(n % 10));
        s
    }
}

/// Decimal text of a signed number.
pub fn signed_decimal_text(i: i64) -> (s: String)
    ensures
        s@ == spec_signed_decimal(i as int),
{
    if i < 0 {
        let magnitude = (0i128 - i as i128) as u64;
        let mut s = "-".to_owned();
        let digits = decimal_text(magnitude);
        s.append(digits.as_str());
        proof {
            reveal_strlit("-");
        }
        s
    } else {
        decimal_text(i as u64)
    }
}

/// Text of a boolean.
pub fn bool_text(b: bool) -> (s: &'static str)
    ensures
        s@ == spec_bool_text(b),
{
    if b {
        "true"
    } else {
        "false"
    }
}

/// The number a run of decimal digits stands for.
pub open spec fn spec_digits_value(s: Seq<char>) -> int
    decreases s.len(),
{
    if s.len() == 0 {
        0
    } else {
        spec_digits_value(s.drop_last()) * 10 + (s.last() as int - 48)
    }
}

/// The decimal text of a number reads back as that number: it is a
/// non-empty run of the digits `0` to `9`, with no leading zero.
pub proof fn lemma_decimal_reads_back(n: nat)
    ensures
        spec_digits_value(spec_decimal(n)) == n,
        spec_decimal(n).len() >= 1,
        forall|i: int|
            0 <= i < spec_decimal(n).len() ==> '0' <= #[trigger] spec_decimal(n)[i] <= '9',
        n >= 10 ==> spec_decimal(n)[0] != '0',
    decreases n,
{
    if n < 10 {
        assert(spec_decimal(n) =~= seq![spec_digit(n)]);
        assert(spec_decimal(n).drop_last() =~= Seq::<char>::empty());
        assert(spec_digit(n) as int == 48 + n);
        assert(spec_decimal(n).last() == spec_digit(n));
        assert(spec_digits_value(spec_decimal(n)) == spec_digits_value(Seq::<char>::empty()) * 10
            + (spec_digit(n) as int - 48));
    } else {
        let q = n / 10;
        let d = n % 10;
        lemma_decimal_reads_back(q);
        assert(spec_decimal(n) == spec_decimal(q).push(spec_digit(d)));
        assert(spec_decimal(n).drop_last() =~= spec_decimal(q));
        assert(spec_digit(d) as int == 48 + d);
        assert(q * 10 + d == n);
        assert(spec_decimal(n).last() == spec_digit(d));
        assert(spec_digits_value(spec_decimal(n)) == spec_digits_value(spec_decimal(q)) * 10 + (
        spec_digit(d) as int - 48));
        assert(spec_decimal(n)[0] == spec_decimal(q)[0]);
        if q < 10 {
            assert(spec_decimal(q) =~= seq![spec_digit(q)]);
            assert(spec_digit(q) as int == 48 + q);
        }
        assert forall|i: int| 0 <= i < spec_decimal(n).len() implies '0' <= #[trigger] spec_decimal(
            n,
        )[i] <= '9' by {
            if i < spec_decimal(q).len() {
                assert(spec_decimal(n)[i] == spec_decimal(q)[i]);
            }
        }
    }
}


} // verus!
