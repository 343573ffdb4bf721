//! Decimal text: rendering integers into strings and parsing them back.
//!
//! The device protocol is JSON over UDP; the only variable parts of the
//! datagrams this library builds are decimal integers, and the only numeric
//! text it parses are decimal integers (a brightness reported as a string,
//! the octets of a dotted-quad address, the brightness prompt's answer).

use vstd::prelude::*;
use vstd::string::StringExecFns;

verus! {

/// The ASCII digit for a value in [0, 9].
pub open spec fn digit_char(d: int) -> char {
    if d == 0 {
        '0'
    } else if d == 1 {
        '1'
    } else if d == 2 {
        '2'
    } else if d == 3 {
        '3'
    } else if d == 4 {
        '4'
    } else if d == 5 {
        '5'
    } else if d == 6 {
        '6'
    } else if d == 7 {
        '7'
    } else if d == 8 {
        '8'
    } else {
        '9'
    }
}

/// The canonical decimal rendering of `n`: no sign, no leading zeros
/// (a single zero for 0).
pub open spec fn dec_chars(n: nat) -> Seq<char>
    decreases n,
{
    if n < 10 {
        seq![digit_char(n as int)]
    } else {
        dec_chars(n / 10) + seq![digit_char((n % 10) as int)]
    }
}

/// The characters of a digit stack read from the top: digits were pushed
/// least significant first, so reading the stack backwards yields the
/// most-significant-first rendering.
spec fn digits_to_chars(ds: Seq<u8>) -> Seq<char> {
    Seq::new(ds.len(), |i: int| digit_char(ds[ds.len() - 1 - i] as int))
}

/// Appends one ASCII digit to a string.
fn push_digit(s: &mut String, d: u8)
    requires
        d < 10,
    ensures
        final(s)@ == old(s)@ + seq![digit_char(d as int)],
{
    proof {
        reveal_strlit("0");
        reveal_strlit("1");
        reveal_strlit("2");
        reveal_strlit("3");
        reveal_strlit("4");
        reveal_strlit("5");
        reveal_strlit("6");
        reveal_strlit("7");
        reveal_strlit("8");
        reveal_strlit("9");
    }
    match d {
        0 => s.append("0"),
        1 => s.append("1"),
        2 => s.append("2"),
        3 => s.append("3"),
        4 => s.append("4"),
        5 => s.append("5"),
        6 => s.append("6"),
        7 => s.append("7"),
        8 => s.append("8"),
        _ => s.append("9"),
    }
    proof {
        assert(final(s)@ =~= old(s)@ + seq![digit_char(d as int)]);
    }
}

/// Appends the decimal rendering of `n` to a string.
pub fn append_dec_u64(s: &mut String, n: u64)
    ensures
        final(s)@ == old(s)@ + dec_chars(n as nat),
{
    let mut digits: Vec<u8> = Vec::new();
    let mut m: u64 = n;
    digits.push((m % 10) as u8);
    m = m / 10;
    proof {
        if m == 0 {
            assert(dec_chars(n as nat) =~= digits_to_chars(digits@));
        } else {
            assert(dec_chars(n as nat) =~= dec_chars(m as nat) + digits_to_chars(digits@));
        }
    }
    while m > 0
        invariant
            digits@.len() >= 1,
            forall|i: int| 0 <= i < digits@.len() ==> digits@[i] < 10,
            m == 0 ==> dec_chars(n as nat) == digits_to_chars(digits@),
            m > 0 ==> dec_chars(n as nat) == dec_chars(m as nat) + digits_to_chars(digits@),
        decreases m,
    {
        let ghost pre = digits@;
        let ghost m0 = m;
        digits.push((m % 10) as u8);
        m = m / 10;
        proof {
            assert(digits_to_chars(digits@) =~= seq![digit_char((m0 % 10) as int)]
                + digits_to_chars(pre));
            if m == 0 {
                assert(dec_chars(m0 as nat) =~= seq![digit_char((m0 % 10) as int)]);
                assert(dec_chars(n as nat) =~= digits_to_chars(digits@));
            } else {
                assert(dec_chars(m0 as nat) =~= dec_chars(m as nat) + seq![
                    digit_char((m0 % 10) as int),
                ]);
                assert(dec_chars(n as nat) =~= dec_chars(m as nat) + digits_to_chars(digits@));
            }
        }
    }
    let ghost target = digits_to_chars(digits@);
    let mut j: usize = digits.len();
    while j > 0
        invariant
            j <= digits@.len(),
            target == digits_to_chars(digits@),
            forall|i: int| 0 <= i < digits@.len() ==> digits@[i] < 10,
            s@ == old(s)@ + target.subrange(0, digits@.len() - j),
        decreases j,
    {
        j -= 1;
        push_digit(s, digits[j]);
        proof {
            assert(target.subrange(0, digits@.len() - j) =~= target.subrange(
                0,
                digits@.len() - j - 1,
            ) + seq![digit_char(digits@[j as int] as int)]);
        }
    }
    proof {
        assert(target.subrange(0, digits@.len() as int) =~= target);
    }
}

/// True when `s` is one or more ASCII decimal digits and nothing else.
pub open spec fn is_digits(s: Seq<char>) -> bool {
    s.len() > 0 && forall|i: int| 0 <= i < s.len() ==> '0' <= #[trigger] s[i] <= '9'
}

/// The numeric value of a digit string (most significant first).
pub open spec fn digits_val(s: Seq<char>) -> nat
    decreases s.len(),
{
    if s.len() == 0 {
        0
    } else {
        (digits_val(s.drop_last()) * 10 + (s.last() as int - '0' as int)) as nat
    }
}

/// The value of a digit string bounds the value of each of its prefixes.
proof fn lemma_digits_val_prefix_le(s: Seq<char>, i: int)
    requires
        0 <= i <= s.len(),
        forall|k: int| 0 <= k < s.len() ==> '0' <= #[trigger] s[k] <= '9',
    ensures
        digits_val(s.subrange(0, i)) <= digits_val(s),
    decreases s.len() - i,
{
    if i == s.len() {
        assert(s.subrange(0, i) =~= s);
    } else {
        assert(s.subrange(0, i + 1).drop_last() =~= s.subrange(0, i));
        assert(s.subrange(0, i + 1).last() == s[i]);
        assert(digits_val(s.subrange(0, i + 1)) == (digits_val(s.subrange(0, i)) * 10 + (
        s[i] as int - '0' as int)) as nat);
        lemma_digits_val_prefix_le(s, i + 1);
    }
}

/// Parses an unsigned decimal integer in [0, 255].
///
/// Succeeds exactly on strings of one or more digits whose value fits;
/// leading zeros are accepted and carry no meaning.
pub fn parse_u8_dec(s: &str) -> (r: Option<u8>)
    ensures
        r is Some <==> is_digits(s@) && digits_val(s@) <= 255,
        r is Some ==> r->0 == digits_val(s@),
{
    let len = s.unicode_len();
    if len == 0 {
        return None;
    }
    let mut acc: u32 = 0;
    let mut i: usize = 0;
    while i < len
        invariant
            0 <= i <= len,
            len == s@.len(),
            acc == digits_val(s@.subrange(0, i as int)),
            acc <= 255,
            forall|k: int| 0 <= k < i ==> '0' <= #[trigger] s@[k] <= '9',
        decreases len - i,
    {
        let c = s.get_char(i);
        if c < '0' || c > '9' {
            return None;
        }
        let d = (c as u32) - ('0' as u32);
        proof {
            assert(s@.subrange(0, i + 1).drop_last() =~= s@.subrange(0, i as int));
            assert(s@.subrange(0, i + 1).last() == s@[i as int]);
        }
        acc = acc * 10 + d;
        i += 1;
        if acc > 255 {
            proof {
                if is_digits(s@) {
                    lemma_digits_val_prefix_le(s@, i as int);
                }
            }
            return None;
        }
    }
    proof {
        assert(s@.subrange(0, len as int) =~= s@);
    }
    Some(acc as u8)
}

} // verus!
