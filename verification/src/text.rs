//! The canonical text form of an identifier: the decimal numeral of its
//! unsigned 64-bit value, and the parser that reads it back, rejecting
//! anything that is not an in-range decimal numeral.

use vstd::prelude::*;
use vstd::string::StrSliceExecFns;
use vstd::string::StringExecFns;

verus! {

/// Why a string failed to parse as an identifier.
#[derive(Clone, Copy, Debug, PartialEq, Eq, Structural)]
pub enum ParseError {
    /// The input is not the decimal numeral of an unsigned 64-bit integer:
    /// it is empty, holds a non-digit character, or exceeds `u64::MAX`.
    MalformedInteger,
}

/// Whether a character is a decimal digit.
pub open spec fn is_dec_digit(c: char) -> bool {
    48 <= c as u32 <= 57
}

/// The numeric value of a decimal digit character, 0 for anything else.
pub open spec fn digit_val(c: char) -> nat {
    if is_dec_digit(c) {
        (c as u32 - 48) as nat
    } else {
        0
    }
}

/// Whether a character sequence is a decimal numeral: nonempty and all
/// digits. Leading zeros are accepted on input.
pub open spec fn is_dec_numeral(s: Seq<char>) -> bool {
    s.len() > 0 && forall|i: int| 0 <= i < s.len() ==> is_dec_digit(#[trigger] s[i])
}

/// The number a sequence of digit characters denotes, read most
/// significant first.
pub open spec fn dec_val(s: Seq<char>) -> nat
    decreases s.len(),
{
    if s.len() == 0 {
        0
    } else {
        dec_val(s.drop_last()) * 10 + digit_val(s.last())
    }
}

/// The character of one decimal digit.
pub open spec fn dec_digit_char(d: nat) -> char {
    if d == 0 {
        '0'
    } else if d == 1 {
        '1'
    } else if d == 2 {
        '2'
    } else if d == 3 {
        '3'
    } else if d == 4 {
        '4'
    } else if d == 5 {
        '5'
    } else if d == 6 {
        '6'
    } else if d == 7 {
        '7'
    } else if d == 8 {
        '8'
    } else {
        '9'
    }
}

/// The canonical decimal numeral of a number: no leading zeros, and the
/// single digit `0` for zero.
pub open spec fn dec_digits(v: nat) -> Seq<char>
    decreases v,
{
    if v < 10 {
        seq![dec_digit_char(v)]
    } else {
        dec_digits(v / 10).push(dec_digit_char(v % 10))
    }
}

/// Extending a digit string on the right never shrinks its value.
proof fn lemma_dec_val_prefix_monotonic(s: Seq<char>, i: int, j: int)
    requires
        0 <= i <= j <= s.len(),
    ensures
        dec_val(s.subrange(0, i)) <= dec_val(s.subrange(0, j)),
    decreases j - i,
{
    if i < j {
        lemma_dec_val_prefix_monotonic(s, i, j - 1);
        assert(s.subrange(0, j).drop_last() =~= s.subrange(0, j - 1));
        assert(dec_val(s.subrange(0, j)) == dec_val(s.subrange(0, j - 1)) * 10 + digit_val(
            s.subrange(0, j).last(),
        ));
    }
}

/// Reads a decimal numeral as an unsigned 64-bit integer. Fails on an
/// empty string, on any non-digit character, and on a value beyond
/// `u64::MAX`; never wraps silently.
pub fn parse_u64_decimal(s: &str) -> (r: Result<u64, ParseError>)
    ensures
        r is Ok <==> is_dec_numeral(s@) && dec_val(s@) <= u64::MAX,
        r matches Ok(v) ==> v == dec_val(s@),
        r is Err ==> r == Err::<u64, ParseError>(ParseError::MalformedInteger),
{
    let n: usize = s.unicode_len();
    if n == 0 {
        return Err(ParseError::MalformedInteger);
    }
    let mut acc: u64 = 0;
    let mut i: usize = 0;
    while i < n
        invariant
            0 <= i <= n,
            n == s@.len(),
            forall|j: int| 0 <= j < i ==> is_dec_digit(#[trigger] s@[j]),
            acc == dec_val(s@.subrange(0, i as int)),
        decreases n - i,
    {
        let c: char = s.get_char(i);
        let cu: u32 = c as u32;
        if cu < 48 || cu > 57 {
            return Err(ParseError::MalformedInteger);
        }
        let d: u64 = (cu - 48) as u64;
        if acc > (u64::MAX - d) / 10 {
            proof {
                assert(acc * 10 + d > u64::MAX) by (nonlinear_arith)
                    requires
                        acc > (u64::MAX - d) / 10,
                        d <= 9,
                ;
                assert(s@.subrange(0, i + 1).drop_last() =~= s@.subrange(0, i as int));
                assert(dec_val(s@.subrange(0, i + 1)) == acc * 10 + digit_val(s@[i as int]));
                lemma_dec_val_prefix_monotonic(s@, i + 1, s@.len() as int);
                assert(s@.subrange(0, s@.len() as int) =~= s@);
            }
            return Err(ParseError::MalformedInteger);
        }
        proof {
            assert(acc * 10 + d <= u64::MAX) by (nonlinear_arith)
                requires
                    acc <= (u64::MAX - d) / 10,
                    d <= 9,
            ;
            assert(s@.subrange(0, i + 1).drop_last() =~= s@.subrange(0, i as int));
        }
        acc = acc * 10 + d;
        i = i + 1;
    }
    proof {
        assert(s@.subrange(0, n as int) =~= s@);
    }
    Ok(acc)
}

/// One decimal digit as a string slice.
fn digit_str(d: u64) -> (s: &'static str)
    requires
        d <= 9,
    ensures
        s@.len() == 1,
        s@[0] == dec_digit_char(d as nat),
{
    if d == 0 {
        proof {
            reveal_strlit("0");
        }
        "0"
    } else if d == 1 {
        proof {
            reveal_strlit("1");
        }
        "1"
    } else if d == 2 {
        proof {
            reveal_strlit("2");
        }
        "2"
    } else if d == 3 {
        proof {
            reveal_strlit("3");
        }
        "3"
    } else if d == 4 {
        proof {
            reveal_strlit("4");
        }
        "4"
    } else if d == 5 {
        proof {
            reveal_strlit("5");
        }
        "5"
    } else if d == 6 {
        proof {
            reveal_strlit("6");
        }
        "6"
    } else if d == 7 {
        proof {
            reveal_strlit("7");
        }
        "7"
    } else if d == 8 {
        proof {
            reveal_strlit("8");
        }
        "8"
    } else {
        proof {
            reveal_strlit("9");
        }
        "9"
    }
}

/// Writes a number as its canonical decimal numeral.
pub fn u64_to_decimal(v: u64) -> (s: String)
    ensures
        s@ == dec_digits(v as nat),
    decreases v,
{
    if v < 10 {
        let s = digit_str(v).to_owned();
        proof {
            assert(s@ =~= dec_digits(v as nat));
        }
        s
    } else {
        let mut s = u64_to_decimal(v / 10);
        let last = digit_str(v % 10);
        s.append(last);
        proof {
            assert(s@ =~= dec_digits(v as nat));
        }
        s
    }
}

/// Law: parsing the canonical decimal numeral of a value gives that value
/// back. Together with the contracts of `u64_to_decimal` and
/// `parse_u64_decimal`, printing an identifier and parsing the text again
/// yields the identifier unchanged.
pub proof fn lemma_decimal_round_trip(v: u64)
    ensures
        is_dec_numeral(dec_digits(v as nat)),
        dec_val(dec_digits(v as nat)) == v,
    decreases v,
{
    if v < 10 {
        let s = dec_digits(v as nat);
        let c = dec_digit_char(v as nat);
        assert(s =~= seq![c]);
        assert(s.last() == c);
        assert(s.drop_last() =~= Seq::<char>::empty());
        assert(dec_val(Seq::<char>::empty()) == 0);
        assert(dec_val(s) == dec_val(s.drop_last()) * 10 + digit_val(s.last()));
        assert(is_dec_digit(c));
        assert(digit_val(c) == v);
    } else {
        lemma_decimal_round_trip(v / 10);
        let s = dec_digits(v as nat);
        let prefix = dec_digits((v / 10) as nat);
        assert(s == prefix.push(dec_digit_char((v % 10) as nat)));
        assert(s.drop_last() =~= prefix);
        assert(dec_val(s) == dec_val(prefix) * 10 + digit_val(dec_digit_char((v % 10) as nat)));
    }
}

} // verus!
