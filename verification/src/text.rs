//! Decimal rendering of the integers that appear in asset paths and in the
//! level-editor text fields.

use vstd::prelude::*;

verus! {

/// The character for one decimal digit.
pub open spec fn digit_char(d: nat) -> char {
    if d == 0 {
        '0'
    } else if d == 1 {
        '1'
    } else if d == 2 {
        '2'
    } else if d == 3 {
        '3'
    } else if d == 4 {
        '4'
    } else if d == 5 {
        '5'
    } else if d == 6 {
        '6'
    } else if d == 7 {
        '7'
    } else if d == 8 {
        '8'
    } else {
        '9'
    }
}

/// The decimal digit sequence of `n`, most significant digit first, with no
/// leading zeroes (`0` itself is the single digit `'0'`).
pub open spec fn dec_digits(n: nat) -> Seq<char>
    decreases n,
{
    if n < 10 {
        seq![digit_char(n)]
    } else {
        dec_digits(n / 10) + seq![digit_char(n % 10)]
    }
}

spec fn is_digit_char(c: char) -> bool {
    c == '0' || c == '1' || c == '2' || c == '3' || c == '4' || c == '5' || c == '6' || c == '7'
        || c == '8' || c == '9'
}

/// The value of one decimal digit character; anything else maps to ten.
pub open spec fn digit_val(c: char) -> nat {
    if c == '0' {
        0
    } else if c == '1' {
        1
    } else if c == '2' {
        2
    } else if c == '3' {
        3
    } else if c == '4' {
        4
    } else if c == '5' {
        5
    } else if c == '6' {
        6
    } else if c == '7' {
        7
    } else if c == '8' {
        8
    } else if c == '9' {
        9
    } else {
        10
    }
}

/// Every character of the sequence is a decimal digit.
pub open spec fn all_digits(s: Seq<char>) -> bool {
    forall|i: int| 0 <= i < s.len() ==> digit_val(#[trigger] s[i]) < 10
}

/// The number a digit sequence denotes, most significant digit first.
pub open spec fn dec_value(s: Seq<char>) -> nat
    decreases s.len(),
{
    if s.len() == 0 {
        0
    } else {
        dec_value(s.drop_last()) * 10 + digit_val(s.last())
    }
}

/// Render `n` in decimal.
pub fn usize_to_string(n: usize) -> (s: String)
    ensures
        s@ == dec_digits(n as nat),
{
    let mut digits: Vec<char> = Vec::new();
    let mut m: usize = n;
    if m == 0 {
        digits.push('0');
        proof {
            assert(digits@ =~= dec_digits(n as nat));
        }
    }
    proof {
        if m > 0 {
            assert(dec_digits(m as nat) + digits@ =~= dec_digits(n as nat));
        }
    }
    while m > 0
        invariant
            m > 0 ==> dec_digits(n as nat) == dec_digits(m as nat) + digits@,
            m == 0 ==> dec_digits(n as nat) == digits@,
            forall|j: int| 0 <= j < digits@.len() ==> is_digit_char(#[trigger] digits@[j]),
        decreases m,
    {
        let d = m % 10;
        let ch = match d {
            0 => '0',
            1 => '1',
            2 => '2',
            3 => '3',
            4 => '4',
            5 => '5',
            6 => '6',
            7 => '7',
            8 => '8',
            _ => '9',
        };
        proof {
            assert(ch == digit_char((m % 10) as nat));
        }
        let ghost prev = digits@;
        let ghost m0 = m as nat;
        digits.insert(0, ch);
        m = m / 10;
        proof {
            assert(digits@ =~= seq![ch] + prev);
            if m0 < 10 {
                assert(dec_digits(m0) == seq![digit_char(m0)]);
                assert(dec_digits(n as nat) =~= digits@);
            } else {
                assert(dec_digits(m0) == dec_digits(m0 / 10) + seq![digit_char(m0 % 10)]);
                assert(dec_digits(m0 / 10) + digits@ =~= dec_digits(m0) + prev);
            }
        }
    }
    let mut s = String::new();
    let mut i: usize = 0;
    while i < digits.len()
        invariant
            i <= digits@.len(),
            s@ == digits@.take(i as int),
            forall|j: int| 0 <= j < digits@.len() ==> is_digit_char(#[trigger] digits@[j]),
            digits@ == dec_digits(n as nat),
        decreases digits@.len() - i,
    {
        let c = digits[i];
        match c {
            '0' => {
                proof {
                    reveal_strlit("0");
                }
                s.append("0");
            },
            '1' => {
                proof {
                    reveal_strlit("1");
                }
                s.append("1");
            },
            '2' => {
                proof {
                    reveal_strlit("2");
                }
                s.append("2");
            },
            '3' => {
                proof {
                    reveal_strlit("3");
                }
                s.append("3");
            },
            '4' => {
                proof {
                    reveal_strlit("4");
                }
                s.append("4");
            },
            '5' => {
                proof {
                    reveal_strlit("5");
                }
                s.append("5");
            },
            '6' => {
                proof {
                    reveal_strlit("6");
                }
                s.append("6");
            },
            '7' => {
                proof {
                    reveal_strlit("7");
                }
                s.append("7");
            },
            '8' => {
                proof {
                    reveal_strlit("8");
                }
                s.append("8");
            },
            '9' => {
                proof {
                    reveal_strlit("9");
                }
                s.append("9");
            },
            _ => {
                proof {
                    assert(false);
                }
            },
        }
        i = i + 1;
        proof {
            assert(s@ =~= digits@.take(i as int));
        }
    }
    proof {
        assert(digits@.take(digits@.len() as int) =~= digits@);
    }
    s
}

/// A prefix of a digit sequence never denotes more than the whole.
proof fn lemma_dec_value_prefix(s: Seq<char>, j: int)
    requires
        0 <= j <= s.len(),
    ensures
        dec_value(s.take(j)) <= dec_value(s),
    decreases s.len() - j,
{
    if j == s.len() {
        assert(s.take(j) =~= s);
    } else {
        assert(s.take(j + 1).drop_last() =~= s.take(j));
        assert(s.take(j + 1).last() == s[j]);
        assert(dec_value(s.take(j + 1)) == dec_value(s.take(j)) * 10 + digit_val(s[j]));
        lemma_dec_value_prefix(s, j + 1);
    }
}

/// Read a number from the characters of a text field: the digits of one
/// decimal number and nothing else. `None` for an empty text, for any
/// non-digit character, and for a value beyond the machine range — the
/// cases in which the field's text does not name a size.
pub fn parse_usize(text: &Vec<char>) -> (r: Option<usize>)
    ensures
        r is None <==> (text@.len() == 0 || !all_digits(text@) || dec_value(text@) > usize::MAX),
        r matches Some(n) ==> n == dec_value(text@),
{
    if text.len() == 0 {
        return None;
    }
    let mut acc: usize = 0;
    let mut i: usize = 0;
    proof {
        assert(text@.take(0).len() == 0);
    }
    while i < text.len()
        invariant
            i <= text@.len(),
            text@.len() > 0,
            acc == dec_value(text@.take(i as int)),
            forall|j: int| 0 <= j < i ==> digit_val(#[trigger] text@[j]) < 10,
        decreases text@.len() - i,
    {
        let ghost i0 = i as int;
        let c = text[i];
        let d: usize = match c {
            '0' => 0,
            '1' => 1,
            '2' => 2,
            '3' => 3,
            '4' => 4,
            '5' => 5,
            '6' => 6,
            '7' => 7,
            '8' => 8,
            '9' => 9,
            _ => {
                proof {
                    assert(digit_val(text@[i0]) == 10);
                }
                return None;
            },
        };
        proof {
            assert(d == digit_val(text@[i0]));
            assert(text@.take(i0 + 1).drop_last() =~= text@.take(i0));
            assert(text@.take(i0 + 1).last() == text@[i0]);
        }
        if acc > (usize::MAX - d) / 10 {
            proof {
                assert(acc * 10 + d > usize::MAX) by (nonlinear_arith)
                    requires
                        acc > (usize::MAX as int - d) / 10,
                        0 <= d <= 9,
                        acc >= 0,
                ;
                assert(dec_value(text@.take(i0 + 1)) == acc * 10 + d);
                lemma_dec_value_prefix(text@, i0 + 1);
            }
            return None;
        }
        proof {
            assert(acc * 10 + d <= usize::MAX) by (nonlinear_arith)
                requires
                    acc <= (usize::MAX as int - d) / 10,
                    0 <= d <= 9,
                    acc >= 0,
            ;
        }
        acc = acc * 10 + d;
        i = i + 1;
    }
    proof {
        assert(text@.take(text@.len() as int) =~= text@);
    }
    Some(acc)
}

/// Printing a number and reading it back gives the number again.
pub proof fn lemma_dec_round_trip(n: nat)
    ensures
        dec_value(dec_digits(n)) == n,
    decreases n,
{
    let s = dec_digits(n);
    if n < 10 {
        assert(s == seq![digit_char(n)]);
        assert(s.len() == 1);
        assert(dec_value(s) == dec_value(s.drop_last()) * 10 + digit_val(s.last()));
        assert(s.drop_last() =~= Seq::<char>::empty());
        assert(dec_value(s.drop_last()) == 0);
        assert(s.last() == digit_char(n));
        assert(digit_val(digit_char(n)) == n);
    } else {
        lemma_dec_round_trip(n / 10);
        let prefix = dec_digits(n / 10);
        assert(s == prefix + seq![digit_char(n % 10)]);
        assert(s.len() > 0);
        assert(dec_value(s) == dec_value(s.drop_last()) * 10 + digit_val(s.last()));
        assert(s.drop_last() =~= prefix);
        assert(s.last() == digit_char(n % 10));
        assert(digit_val(digit_char(n % 10)) == n % 10);
        assert(dec_value(s) == (n / 10) * 10 + n % 10);
        assert(n == (n / 10) * 10 + n % 10) by (nonlinear_arith);
    }
}

} // verus!
