//! Decimal numerals: parsing subunit amounts and rendering unsigned values
//! as decimal strings, with zero padding where a fixed width is wanted.
//!
//! Amounts arrive from the ledger as base-10 strings counting the smallest
//! unit (1,000,000 subunits per display unit). Parsing is deliberately
//! lenient: anything that is not an unsigned decimal numeral that fits in a
//! `u64` degrades to zero, so display code never fails on malformed data.

use vstd::prelude::*;
use vstd::string::StringExecFns;

verus! {

pub open spec fn is_dec_digit(c: char) -> bool {
    48 <= c as int <= 57
}

pub open spec fn digit_val(c: char) -> nat {
    (c as int - 48) as nat
}

pub open spec fn all_dec_digits(s: Seq<char>) -> bool {
    forall|i: int| 0 <= i < s.len() ==> is_dec_digit(#[trigger] s[i])
}

/// The value of a digit string read in base 10.
pub open spec fn digits_val(s: Seq<char>) -> nat
    decreases s.len(),
{
    if s.len() == 0 {
        0
    } else {
        digits_val(s.drop_last()) * 10 + digit_val(s.last())
    }
}

/// The number of subunits a raw amount string denotes: the value of a
/// non-empty all-digit numeral that fits in a `u64`, and zero for every
/// other input (the lenient best-effort policy).
pub open spec fn parse_subunits_spec(s: Seq<char>) -> u64 {
    if s.len() > 0 && all_dec_digits(s) && digits_val(s) <= u64::MAX {
        digits_val(s) as u64
    } else {
        0
    }
}

/// A shorter digit prefix never denotes a larger value.
proof fn lemma_digits_val_prefix(s: Seq<char>, i: int)
    requires
        0 <= i <= s.len(),
    ensures
        digits_val(s.subrange(0, i)) <= digits_val(s),
    decreases s.len() - i,
{
    if i < s.len() {
        lemma_digits_val_prefix(s, i + 1);
        assert(s.subrange(0, i + 1).drop_last() =~= s.subrange(0, i));
        assert(digits_val(s.subrange(0, i + 1)) == digits_val(s.subrange(0, i)) * 10
            + digit_val(s[i]));
    } else {
        assert(s.subrange(0, i) =~= s);
    }
}

/// Parses a raw subunit amount. Returns the numeral's value, or zero when
/// the input is empty, holds a non-digit, or does not fit in a `u64`.
pub fn parse_subunits(raw: &str) -> (r: u64)
    ensures
        r == parse_subunits_spec(raw@),
{
    let n = raw.unicode_len();
    if n == 0 {
        return 0;
    }
    let mut acc: u64 = 0;
    let mut i: usize = 0;
    while i < n
        invariant
            n == raw@.len(),
            i <= n,
            all_dec_digits(raw@.subrange(0, i as int)),
            acc == digits_val(raw@.subrange(0, i as int)),
        decreases n - i,
    {
        let c = raw.get_char(i);
        let u = c as u32;
        if u < 48 || u > 57 {
            assert(!is_dec_digit(raw@[i as int]));
            return 0;
        }
        let d = (u - 48) as u64;
        proof {
            assert(raw@.subrange(0, i + 1).drop_last() =~= raw@.subrange(0, i as int));
            assert(digit_val(raw@[i as int]) == d);
        }
        let next = match acc.checked_mul(10) {
            Some(v) => v.checked_add(d),
            None => None,
        };
        match next {
            Some(v) => {
                acc = v;
            },
            None => {
                proof {
                    assert(digits_val(raw@.subrange(0, i + 1)) > u64::MAX);
                    lemma_digits_val_prefix(raw@, i + 1);
                }
                return 0;
            },
        }
        i += 1;
    }
    proof {
        assert(raw@.subrange(0, n as int) =~= raw@);
    }
    acc
}

pub open spec fn char_of_digit(d: nat) -> char {
    if d == 0 {
        '0'
    } else if d == 1 {
        '1'
    } else if d == 2 {
        '2'
    } else if d == 3 {
        '3'
    } else if d == 4 {
        '4'
    } else if d == 5 {
        '5'
    } else if d == 6 {
        '6'
    } else if d == 7 {
        '7'
    } else if d == 8 {
        '8'
    } else {
        '9'
    }
}

/// The decimal digit string of `n`, most significant digit first.
pub open spec fn dec_digits(n: nat) -> Seq<char>
    decreases n,
{
    if n < 10 {
        seq![char_of_digit(n)]
    } else {
        dec_digits(n / 10).push(char_of_digit(n % 10))
    }
}

fn digit_string(d: u64) -> (r: String)
    requires
        d < 10,
    ensures
        r@ == seq![char_of_digit(d as nat)],
{
    let s: &str = if d == 0 {
        "0"
    } else if d == 1 {
        "1"
    } else if d == 2 {
        "2"
    } else if d == 3 {
        "3"
    } else if d == 4 {
        "4"
    } else if d == 5 {
        "5"
    } else if d == 6 {
        "6"
    } else if d == 7 {
        "7"
    } else if d == 8 {
        "8"
    } else {
        "9"
    };
    proof {
        reveal_strlit("0");
        reveal_strlit("1");
        reveal_strlit("2");
        reveal_strlit("3");
        reveal_strlit("4");
        reveal_strlit("5");
        reveal_strlit("6");
        reveal_strlit("7");
        reveal_strlit("8");
        reveal_strlit("9");
    }
    let r = String::from_str(s);
    assert(r@ =~= seq![char_of_digit(d as nat)]);
    r
}

/// Renders `n` in decimal.
pub fn u64_to_dec_string(n: u64) -> (r: String)
    ensures
        r@ == dec_digits(n as nat),
{
    let mut cur = n / 10;
    let mut out = digit_string(n % 10);
    proof {
        if cur > 0 {
            assert(dec_digits(n as nat) == dec_digits((n / 10) as nat).push(
                char_of_digit((n % 10) as nat),
            ));
            assert(dec_digits((n / 10) as nat).push(char_of_digit((n % 10) as nat))
                =~= dec_digits((n / 10) as nat) + out@);
        }
    }
    while cur > 0
        invariant
            if cur > 0 {
                dec_digits(n as nat) == dec_digits(cur as nat) + out@
            } else {
                dec_digits(n as nat) == out@
            },
        decreases cur,
    {
        let d = digit_string(cur % 10);
        let ghost prev = cur;
        let ghost old_out = out@;
        let t = d.concat(out.as_str());
        out = t;
        cur = cur / 10;
        proof {
            if cur > 0 {
                assert(dec_digits(prev as nat) == dec_digits(cur as nat).push(
                    char_of_digit((prev % 10) as nat),
                ));
                assert(dec_digits(cur as nat).push(char_of_digit((prev % 10) as nat)) + old_out
                    =~= dec_digits(cur as nat) + out@);
            } else {
                assert(dec_digits(prev as nat) =~= seq![char_of_digit((prev % 10) as nat)]);
                assert(dec_digits(prev as nat) + old_out =~= out@);
            }
        }
    }
    out
}

pub open spec fn pow10(k: nat) -> nat
    decreases k,
{
    if k == 0 {
        1
    } else {
        10 * pow10((k - 1) as nat)
    }
}

/// A value below `pow10(k + 1)`, and at least `pow10(k)` unless `k` is zero,
/// has exactly `k + 1` decimal digits.
proof fn lemma_dec_digits_len(n: nat, k: nat)
    requires
        n < pow10(k + 1),
        k == 0 || n >= pow10(k),
    ensures
        dec_digits(n).len() == k + 1,
    decreases k,
{
    if k == 0 {
        assert(pow10(1) == 10 * pow10(0));
    } else {
        assert(pow10(k + 1) == 10 * pow10(k));
        assert(pow10(k) == 10 * pow10((k - 1) as nat));
        assert(n >= 10) by {
            assert(pow10(k) >= 10) by {
                lemma_pow10_at_least(k);
            }
        }
        assert(n / 10 < pow10(k)) by (nonlinear_arith)
            requires
                n < 10 * pow10(k),
        ;
        assert(n / 10 >= pow10((k - 1) as nat)) by (nonlinear_arith)
            requires
                n >= 10 * pow10((k - 1) as nat),
        ;
        lemma_dec_digits_len(n / 10, (k - 1) as nat);
    }
}

proof fn lemma_pow10_at_least(k: nat)
    requires
        k >= 1,
    ensures
        pow10(k) >= 10,
    decreases k,
{
    assert(pow10(k) == 10 * pow10((k - 1) as nat));
    if k == 1 {
        assert(pow10(0) == 1);
    } else {
        lemma_pow10_at_least((k - 1) as nat);
    }
}

pub open spec fn zero_chars(k: nat) -> Seq<char> {
    Seq::new(k, |i: int| '0')
}

/// The decimal digits of `n`, left-padded with zeros to at least `width`.
pub open spec fn padded_dec(n: nat, width: nat) -> Seq<char> {
    if dec_digits(n).len() >= width {
        dec_digits(n)
    } else {
        zero_chars((width - dec_digits(n).len()) as nat) + dec_digits(n)
    }
}

/// Renders `n` as exactly two digits.
pub fn two_digit_string(n: u64) -> (r: String)
    requires
        n < 100,
    ensures
        r@ == padded_dec(n as nat, 2),
{
    let digits = u64_to_dec_string(n);
    if n < 10 {
        proof {
            assert(pow10(0) == 1);
            assert(pow10(1) == 10 * pow10(0));
            lemma_dec_digits_len(n as nat, 0);
            reveal_strlit("0");
        }
        let r = String::from_str("0").concat(digits.as_str());
        assert(r@ =~= padded_dec(n as nat, 2)) by {
            assert(zero_chars(1) =~= "0"@);
        }
        r
    } else {
        proof {
            assert(pow10(0) == 1);
            assert(pow10(1) == 10 * pow10(0));
            assert(pow10(2) == 10 * pow10(1));
            lemma_dec_digits_len(n as nat, 1);
        }
        digits
    }
}

/// The display form of an amount of `drops` subunits: whole units, a dot,
/// and the remaining subunits as exactly six digits.
pub open spec fn subunit_display_spec(drops: u64) -> Seq<char> {
    dec_digits((drops / 1000000) as nat) + seq!['.'] + padded_dec((drops % 1000000) as nat, 6)
}

/// Renders a subunit count as a decimal amount in display units.
pub fn format_subunits(drops: u64) -> (r: String)
    ensures
        r@ == subunit_display_spec(drops),
{
    proof {
        assert(pow10(1) == 10 * pow10(0));
        assert(pow10(2) == 10 * pow10(1));
        assert(pow10(3) == 10 * pow10(2));
        assert(pow10(4) == 10 * pow10(3));
        assert(pow10(5) == 10 * pow10(4));
        assert(pow10(6) == 10 * pow10(5));
    }
    let units = drops / 1000000;
    let frac = drops % 1000000;
    let whole = u64_to_dec_string(units);
    let frac_digits = u64_to_dec_string(frac);
    let zeros: &str = if frac < 10 {
        proof {
            lemma_dec_digits_len(frac as nat, 0);
        }
        "00000"
    } else if frac < 100 {
        proof {
            lemma_dec_digits_len(frac as nat, 1);
        }
        "0000"
    } else if frac < 1000 {
        proof {
            lemma_dec_digits_len(frac as nat, 2);
        }
        "000"
    } else if frac < 10000 {
        proof {
            lemma_dec_digits_len(frac as nat, 3);
        }
        "00"
    } else if frac < 100000 {
        proof {
            lemma_dec_digits_len(frac as nat, 4);
        }
        "0"
    } else {
        proof {
            lemma_dec_digits_len(frac as nat, 5);
        }
        ""
    };
    proof {
        reveal_strlit("00000");
        reveal_strlit("0000");
        reveal_strlit("000");
        reveal_strlit("00");
        reveal_strlit("0");
        reveal_strlit("");
        reveal_strlit(".");
    }
    assert(zeros@ =~= zero_chars((6 - dec_digits(frac as nat).len()) as nat));
    let r = whole.concat(".").concat(zeros).concat(frac_digits.as_str());
    assert(r@ =~= subunit_display_spec(drops)) by {
        assert("."@ =~= seq!['.']);
    }
    r
}

/// Parses a raw subunit string and renders it in display units: the
/// best-effort normalization applied to balances and amounts.
pub fn subunits_to_display(raw: &str) -> (r: String)
    ensures
        r@ == subunit_display_spec(parse_subunits_spec(raw@)),
{
    let drops = parse_subunits(raw);
    format_subunits(drops)
}

} // verus!
