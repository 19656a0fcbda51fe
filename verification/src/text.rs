//! Small verified text utilities: character-exact string comparison and
//! decimal rendering of task identifiers.

use vstd::prelude::*;

verus! {

/// Character-exact equality of two string slices.
pub fn str_eq(a: &str, b: &str) -> (r: bool)
    ensures
        r == (a@ == b@),
{
    let alen = a.unicode_len();
    let blen = b.unicode_len();
    if alen != blen {
        return false;
    }
    let mut i: usize = 0;
    while i < alen
        invariant
            alen == a@.len(),
            blen == b@.len(),
            alen == blen,
            i <= alen,
            forall|j: int| 0 <= j < i ==> a@[j] == b@[j],
        decreases alen - i,
    {
        if a.get_char(i) != b.get_char(i) {
            assert(a@ != b@) by {
                assert(a@[i as int] != b@[i as int]);
            }
            return false;
        }
        i += 1;
    }
    proof {
        assert(a@ =~= b@);
    }
    true
}

/// The character that writes the decimal digit `d`.
pub open spec fn digit_char(d: int) -> char {
    if d == 0 {
        '0'
    } else if d == 1 {
        '1'
    } else if d == 2 {
        '2'
    } else if d == 3 {
        '3'
    } else if d == 4 {
        '4'
    } else if d == 5 {
        '5'
    } else if d == 6 {
        '6'
    } else if d == 7 {
        '7'
    } else if d == 8 {
        '8'
    } else {
        '9'
    }
}

/// The usual decimal writing of `n`, most significant digit first,
/// without leading zeroes (the number zero is written "0").
pub open spec fn spec_decimal(n: nat) -> Seq<char>
    decreases n,
{
    if n < 10 {
        seq![digit_char(n as int)]
    } else {
        spec_decimal(n / 10) + seq![digit_char((n % 10) as int)]
    }
}

proof fn lemma_decimal_len(n: nat)
    ensures
        spec_decimal(n).len() >= 1,
        n >= 10 ==> spec_decimal(n).len() >= 2,
    decreases n,
{
    if n >= 10 {
        lemma_decimal_len(n / 10);
    }
}

/// Two different numbers are never written the same way.
pub proof fn lemma_decimal_injective(a: nat, b: nat)
    requires
        spec_decimal(a) == spec_decimal(b),
    ensures
        a == b,
    decreases a,
{
    lemma_decimal_len(a);
    lemma_decimal_len(b);
    if a < 10 && b < 10 {
        assert(spec_decimal(a)[0] == digit_char(a as int));
        assert(spec_decimal(b)[0] == digit_char(b as int));
    } else if a >= 10 && b >= 10 {
        let la = spec_decimal(a / 10);
        let lb = spec_decimal(b / 10);
        assert(spec_decimal(a).len() == la.len() + 1);
        assert(spec_decimal(b).len() == lb.len() + 1);
        assert(la.len() == lb.len());
        assert(la =~= lb) by {
            assert forall|j: int| 0 <= j < la.len() implies la[j] == lb[j] by {
                assert(spec_decimal(a)[j] == la[j]);
                assert(spec_decimal(b)[j] == lb[j]);
            }
        }
        lemma_decimal_injective(a / 10, b / 10);
        let ia = spec_decimal(a).len() - 1;
        assert(spec_decimal(a)[ia] == digit_char((a % 10) as int));
        assert(spec_decimal(b)[ia] == digit_char((b % 10) as int));
        assert(a % 10 == b % 10);
        assert(a == (a / 10) * 10 + a % 10) by (nonlinear_arith);
        assert(b == (b / 10) * 10 + b % 10) by (nonlinear_arith);
    } else {
        // One writing has a single digit and the other at least two.
        assert(false);
    }
}

fn digit_str(d: u64) -> (r: &'static str)
    requires
        d < 10,
    ensures
        r@ =~= seq![digit_char(d as int)],
{
    proof {
        reveal_strlit("0");
        reveal_strlit("1");
        reveal_strlit("2");
        reveal_strlit("3");
        reveal_strlit("4");
        reveal_strlit("5");
        reveal_strlit("6");
        reveal_strlit("7");
        reveal_strlit("8");
        reveal_strlit("9");
    }
    match d {
        0 => "0",
        1 => "1",
        2 => "2",
        3 => "3",
        4 => "4",
        5 => "5",
        6 => "6",
        7 => "7",
        8 => "8",
        _ => "9",
    }
}

/// The decimal digits of `digits`, last pushed first.
spec fn rev_digit_chars(digits: Seq<u64>) -> Seq<char> {
    Seq::new(digits.len(), |i: int| digit_char(digits[digits.len() - 1 - i] as int))
}

/// Renders `n` in decimal, exactly as `spec_decimal` writes it.
pub fn u64_to_decimal(n: u64) -> (s: String)
    ensures
        s@ == spec_decimal(n as nat),
{
    if n == 0 {
        let z = String::from_str(digit_str(0));
        proof {
            assert(z@ =~= spec_decimal(0));
        }
        return z;
    }
    let mut digits: Vec<u64> = Vec::new();
    let mut m: u64 = n;
    while m > 0
        invariant
            m <= n,
            n >= 1,
            digits@.len() == 0 ==> m == n,
            digits@.len() >= 1 ==> spec_decimal(n as nat) == if m > 0 {
                spec_decimal(m as nat) + rev_digit_chars(digits@)
            } else {
                rev_digit_chars(digits@)
            },
            forall|i: int| 0 <= i < digits@.len() ==> digits@[i] < 10,
        decreases m,
    {
        let ghost old_digits = digits@;
        let ghost old_m = m;
        let d = m % 10;
        digits.push(d);
        m = m / 10;
        proof {
            assert(rev_digit_chars(digits@) =~= seq![digit_char(d as int)] + rev_digit_chars(
                old_digits,
            ));
            if old_m < 10 {
                assert(spec_decimal(old_m as nat) == seq![digit_char(d as int)]);
            } else {
                assert(spec_decimal(old_m as nat) == spec_decimal((old_m / 10) as nat) + seq![
                    digit_char(d as int),
                ]);
            }
            if m > 0 {
                assert(spec_decimal(n as nat) =~= spec_decimal(m as nat) + rev_digit_chars(
                    digits@,
                ));
            } else {
                assert(spec_decimal(n as nat) =~= rev_digit_chars(digits@));
            }
        }
    }
    proof {
        assert(digits@.len() >= 1);
    }
    let mut s = String::new();
    let count = digits.len();
    let mut k: usize = 0;
    while k < count
        invariant
            count == digits@.len(),
            count >= 1,
            k <= count,
            spec_decimal(n as nat) == rev_digit_chars(digits@),
            forall|i: int| 0 <= i < digits@.len() ==> digits@[i] < 10,
            s@ =~= rev_digit_chars(digits@).take(k as int),
        decreases count - k,
    {
        let d = digits[count - 1 - k];
        let piece = digit_str(d);
        s.append(piece);
        proof {
            assert(rev_digit_chars(digits@)[k as int] == digit_char(d as int));
            assert(s@ =~= rev_digit_chars(digits@).take(k as int + 1));
        }
        k += 1;
    }
    proof {
        assert(s@ =~= rev_digit_chars(digits@));
    }
    s
}

} // verus!
