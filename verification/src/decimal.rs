//! Canonical decimal rendering of integers, used when a value does not fit
//! the backend's signed 64-bit integer attribute and degrades to a string.
use vstd::prelude::*;

verus! {

/// The decimal digit character for a value below ten.
pub open spec fn dec_digit(d: nat) -> char {
    if d == 0 {
        '0'
    } else if d == 1 {
        '1'
    } else if d == 2 {
        '2'
    } else if d == 3 {
        '3'
    } else if d == 4 {
        '4'
    } else if d == 5 {
        '5'
    } else if d == 6 {
        '6'
    } else if d == 7 {
        '7'
    } else if d == 8 {
        '8'
    } else {
        '9'
    }
}

/// The canonical decimal rendering of a natural number: no sign, no leading
/// zeros (except for zero itself, rendered "0").
pub open spec fn dec_seq(n: nat) -> Seq<char>
    decreases n,
{
    if n < 10 {
        seq![dec_digit(n)]
    } else {
        dec_seq(n / 10).push(dec_digit(n % 10))
    }
}

/// The canonical decimal rendering of an integer: a leading '-' for
/// negative values, then the rendering of the magnitude.
pub open spec fn dec_seq_int(v: int) -> Seq<char> {
    if v >= 0 {
        dec_seq(v as nat)
    } else {
        seq!['-'] + dec_seq((-v) as nat)
    }
}

/// The digit characters of a digit sequence collected least-significant
/// first, read back most-significant first.
spec fn rev_digit_chars(ds: Seq<u8>) -> Seq<char> {
    Seq::new(ds.len(), |i: int| dec_digit(ds[ds.len() - 1 - i] as nat))
}

proof fn lemma_rev_digit_chars_push(ds: Seq<u8>, d: u8)
    ensures
        rev_digit_chars(ds.push(d)) == seq![dec_digit(d as nat)] + rev_digit_chars(ds),
{
    assert(rev_digit_chars(ds.push(d)) =~= seq![dec_digit(d as nat)] + rev_digit_chars(ds));
}

/// Append the digit character of `d` to `s`.
fn push_digit(s: &mut String, d: u8)
    requires
        d < 10,
    ensures
        final(s)@ == old(s)@.push(dec_digit(d as nat)),
{
    proof {
        reveal_strlit("0");
        reveal_strlit("1");
        reveal_strlit("2");
        reveal_strlit("3");
        reveal_strlit("4");
        reveal_strlit("5");
        reveal_strlit("6");
        reveal_strlit("7");
        reveal_strlit("8");
        reveal_strlit("9");
    }
    let t: &str = match d {
        0 => "0",
        1 => "1",
        2 => "2",
        3 => "3",
        4 => "4",
        5 => "5",
        6 => "6",
        7 => "7",
        8 => "8",
        _ => "9",
    };
    s.append(t);
    proof {
        assert(s@ =~= old(s)@.push(dec_digit(d as nat)));
    }
}

/// Append the canonical decimal rendering of `n` to `s`.
pub fn append_decimal_u128(s: &mut String, n: u128)
    ensures
        final(s)@ == old(s)@ + dec_seq(n as nat),
{
    let mut digits: Vec<u8> = Vec::new();
    let mut m: u128 = n;
    if m == 0 {
        push_digit(s, 0);
        proof {
            assert(old(s)@.push(dec_digit(0)) =~= old(s)@ + dec_seq(0));
        }
        return ;
    }
    while m > 0
        invariant
            digits@.len() == 0 ==> m == n && n > 0,
            digits@.len() > 0 ==> dec_seq(n as nat) == (if m > 0 {
                dec_seq(m as nat) + rev_digit_chars(digits@)
            } else {
                rev_digit_chars(digits@)
            }),
            forall|i: int| 0 <= i < digits@.len() ==> digits@[i] < 10,
        decreases m,
    {
        let ghost old_m = m;
        let ghost old_digits = digits@;
        let d: u8 = (m % 10) as u8;
        digits.push(d);
        m = m / 10;
        proof {
            lemma_rev_digit_chars_push(old_digits, d);
            if old_digits.len() == 0 {
                if old_m < 10 {
                    assert(dec_seq(n as nat) == seq![dec_digit(old_m as nat)]);
                    assert(rev_digit_chars(digits@) =~= seq![dec_digit(d as nat)]);
                    assert(dec_seq(n as nat) =~= rev_digit_chars(digits@));
                } else {
                    assert(dec_seq(n as nat) == dec_seq((old_m / 10) as nat).push(
                        dec_digit((old_m % 10) as nat),
                    ));
                    assert(dec_seq(n as nat) =~= dec_seq(m as nat) + rev_digit_chars(digits@));
                }
            } else {
                if old_m < 10 {
                    assert(dec_seq(old_m as nat) == seq![dec_digit(old_m as nat)]);
                    assert(dec_seq(n as nat) =~= rev_digit_chars(digits@));
                } else {
                    assert(dec_seq(old_m as nat) == dec_seq((old_m / 10) as nat).push(
                        dec_digit((old_m % 10) as nat),
                    ));
                    assert(dec_seq(old_m as nat) =~= dec_seq(m as nat) + seq![
                        dec_digit(d as nat),
                    ]);
                    assert(dec_seq(n as nat) =~= dec_seq(m as nat) + rev_digit_chars(digits@));
                }
            }
        }
    }
    let count = digits.len();
    let mut i: usize = count;
    while i > 0
        invariant
            i <= count,
            count == digits@.len(),
            forall|j: int| 0 <= j < digits@.len() ==> digits@[j] < 10,
            dec_seq(n as nat) == rev_digit_chars(digits@),
            s@ == old(s)@ + rev_digit_chars(digits@).take(count - i),
        decreases i,
    {
        let ghost old_s = s@;
        let d = digits[i - 1];
        push_digit(s, d);
        proof {
            assert(rev_digit_chars(digits@)[count - i] == dec_digit(
                digits@[digits@.len() - 1 - (count - i)] as nat,
            ));
            assert(digits@.len() - 1 - (count - i) == i - 1);
            assert(s@ =~= old(s)@ + rev_digit_chars(digits@).take(count - (i - 1)));
        }
        i = i - 1;
    }
    proof {
        assert(rev_digit_chars(digits@).take(count as int) =~= rev_digit_chars(digits@));
    }
}

/// The canonical decimal rendering of an unsigned 128-bit value.
pub fn u128_to_decimal(n: u128) -> (s: String)
    ensures
        s@ == dec_seq(n as nat),
{
    let mut s = String::new();
    append_decimal_u128(&mut s, n);
    proof {
        assert(s@ =~= dec_seq(n as nat));
    }
    s
}

/// The canonical decimal rendering of a signed 128-bit value.
pub fn i128_to_decimal(v: i128) -> (s: String)
    ensures
        s@ == dec_seq_int(v as int),
{
    if v >= 0 {
        u128_to_decimal(v as u128)
    } else {
        let mut s = String::from_str("-");
        proof {
            reveal_strlit("-");
            assert(s@ =~= seq!['-']);
        }
        let magnitude: u128 = (-(v + 1)) as u128 + 1;
        proof {
            assert(magnitude as int == -(v as int));
        }
        append_decimal_u128(&mut s, magnitude);
        proof {
            assert(s@ =~= dec_seq_int(v as int));
        }
        s
    }
}

} // verus!
