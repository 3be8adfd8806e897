//! Decimal rendering of integers, used to build timestamped file names.

use vstd::prelude::*;
use vstd::arithmetic::div_mod::{lemma_div_pos_is_pos, lemma_fundamental_div_mod};
use vstd::string::StringExecFns;

verus! {

/// The character for one decimal digit.
pub open spec fn digit_char(d: int) -> char {
    if d == 0 { '0' }
    else if d == 1 { '1' }
    else if d == 2 { '2' }
    else if d == 3 { '3' }
    else if d == 4 { '4' }
    else if d == 5 { '5' }
    else if d == 6 { '6' }
    else if d == 7 { '7' }
    else if d == 8 { '8' }
    else { '9' }
}

/// The usual base-ten rendering of a natural number, most significant digit
/// first, with no leading zeros (except for zero itself).
pub open spec fn dec_rep(n: nat) -> Seq<char>
    decreases n,
{
    if n < 10 {
        seq![digit_char(n as int)]
    } else {
        dec_rep(n / 10) + seq![digit_char((n % 10) as int)]
    }
}

/// The rendering of a signed number: a minus sign before the magnitude.
pub open spec fn int_rep(n: int) -> Seq<char> {
    if n < 0 {
        seq!['-'] + dec_rep((-n) as nat)
    } else {
        dec_rep(n as nat)
    }
}

proof fn lemma_dec_rep_len(n: nat)
    ensures
        dec_rep(n).len() >= 1,
        n >= 10 ==> dec_rep(n).len() >= 2,
    decreases n,
{
    if n >= 10 {
        lemma_div_pos_is_pos(n as int, 10);
        lemma_dec_rep_len(n / 10);
    }
}

proof fn lemma_digit_char_injective(a: int, b: int)
    requires
        0 <= a < 10,
        0 <= b < 10,
        digit_char(a) == digit_char(b),
    ensures
        a == b,
{
}

/// Distinct numbers render as distinct digit strings.
pub proof fn lemma_dec_rep_injective(a: nat, b: nat)
    requires
        dec_rep(a) == dec_rep(b),
    ensures
        a == b,
    decreases a,
{
    lemma_dec_rep_len(a);
    lemma_dec_rep_len(b);
    if a < 10 && b < 10 {
        assert(dec_rep(a)[0] == digit_char(a as int));
        assert(dec_rep(b)[0] == digit_char(b as int));
        lemma_digit_char_injective(a as int, b as int);
    } else if a < 10 {
        assert(dec_rep(a).len() == 1);
        assert(dec_rep(b).len() >= 2);
    } else if b < 10 {
        assert(dec_rep(a).len() >= 2);
        assert(dec_rep(b).len() == 1);
    } else {
        let la = dec_rep(a).len();
        assert(dec_rep(a).last() == digit_char((a % 10) as int));
        assert(dec_rep(b).last() == digit_char((b % 10) as int));
        lemma_digit_char_injective((a % 10) as int, (b % 10) as int);
        assert(dec_rep(a).subrange(0, la - 1) =~= dec_rep(a / 10));
        assert(dec_rep(b).subrange(0, la - 1) =~= dec_rep(b / 10));
        lemma_div_pos_is_pos(a as int, 10);
        assert(a / 10 < a) by {
            lemma_fundamental_div_mod(a as int, 10);
        }
        lemma_dec_rep_injective(a / 10, b / 10);
        assert(a == 10 * (a / 10) + a % 10) by {
            lemma_fundamental_div_mod(a as int, 10);
        }
        assert(b == 10 * (b / 10) + b % 10) by {
            lemma_fundamental_div_mod(b as int, 10);
        }
    }
}

/// Every character of a decimal rendering is a digit, so none is a minus sign.
pub proof fn lemma_dec_rep_digits(n: nat)
    ensures
        forall|i: int| 0 <= i < dec_rep(n).len() ==> #[trigger] dec_rep(n)[i] != '-',
    decreases n,
{
    if n < 10 {
        assert(dec_rep(n)[0] == digit_char(n as int));
    } else {
        lemma_div_pos_is_pos(n as int, 10);
        lemma_dec_rep_digits(n / 10);
        assert forall|i: int| 0 <= i < dec_rep(n).len() implies #[trigger] dec_rep(n)[i] != '-' by {
            if i < dec_rep(n / 10).len() {
                assert(dec_rep(n)[i] == dec_rep(n / 10)[i]);
            } else {
                assert(dec_rep(n)[i] == digit_char((n % 10) as int));
            }
        }
    }
}

/// Distinct signed numbers render as distinct strings.
pub proof fn lemma_int_rep_injective(a: int, b: int)
    requires
        int_rep(a) == int_rep(b),
    ensures
        a == b,
{
    if a < 0 && b < 0 {
        assert(int_rep(a).subrange(1, int_rep(a).len() as int) =~= dec_rep((-a) as nat));
        assert(int_rep(b).subrange(1, int_rep(b).len() as int) =~= dec_rep((-b) as nat));
        lemma_dec_rep_injective((-a) as nat, (-b) as nat);
    } else if a < 0 {
        lemma_dec_rep_digits(b as nat);
        assert(int_rep(a)[0] == '-');
        assert(int_rep(b)[0] != '-');
    } else if b < 0 {
        lemma_dec_rep_digits(a as nat);
        assert(int_rep(a)[0] != '-');
        assert(int_rep(b)[0] == '-');
    } else {
        lemma_dec_rep_injective(a as nat, b as nat);
    }
}

/// One decimal digit as a one-character string slice.
fn digit_str(d: u64) -> (r: &'static str)
    requires
        d < 10,
    ensures
        r@ =~= seq![digit_char(d as int)],
{
    proof {
        reveal_strlit("0");
        reveal_strlit("1");
        reveal_strlit("2");
        reveal_strlit("3");
        reveal_strlit("4");
        reveal_strlit("5");
        reveal_strlit("6");
        reveal_strlit("7");
        reveal_strlit("8");
        reveal_strlit("9");
    }
    match d {
        0 => "0",
        1 => "1",
        2 => "2",
        3 => "3",
        4 => "4",
        5 => "5",
        6 => "6",
        7 => "7",
        8 => "8",
        _ => "9",
    }
}

/// Renders a natural number in base ten.
pub fn u64_to_string(n: u64) -> (r: String)
    ensures
        r@ == dec_rep(n as nat),
    decreases n,
{
    if n < 10 {
        let mut s = String::new();
        s.append(digit_str(n));
        assert(s@ =~= dec_rep(n as nat));
        s
    } else {
        proof {
            lemma_div_pos_is_pos(n as int, 10);
            lemma_fundamental_div_mod(n as int, 10);
        }
        let mut s = u64_to_string(n / 10);
        s.append(digit_str(n % 10));
        assert(s@ =~= dec_rep(n as nat));
        s
    }
}

/// Renders a signed number in base ten, with a leading minus sign when
/// negative.
pub fn i64_to_string(n: i64) -> (r: String)
    ensures
        r@ == int_rep(n as int),
{
    if n >= 0 {
        u64_to_string(n as u64)
    } else {
        let wide: i128 = n as i128;
        let mag: u64 = (-wide) as u64;
        assert(mag as int == -(n as int));
        let mut s = String::new();
        proof {
            reveal_strlit("-");
        }
        s.append("-");
        let rest = u64_to_string(mag);
        s.append(rest.as_str());
        assert(s@ =~= int_rep(n as int));
        s
    }
}

} // verus!
