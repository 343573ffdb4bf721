//! Dotted-quad IPv4 address strings.
//!
//! Discovery replies carry the device's unicast address as text. The
//! accepted form is the canonical one: four decimal octets in [0, 255],
//! joined by single dots, with no leading zeros, signs, or other characters.

use vstd::prelude::*;
use vstd::string::StrSliceExecFns;
use crate::text::{digits_val, is_digits, parse_u8_dec};

verus! {

/// A canonical decimal octet: one to three digits, value at most 255,
/// no leading zero.
pub open spec fn is_octet(s: Seq<char>) -> bool {
    &&& is_digits(s)
    &&& s.len() <= 3
    &&& (s.len() > 1 ==> s[0] != '0')
    &&& digits_val(s) <= 255
}

/// A canonical dotted-quad address: exactly three dots, and the four parts
/// they bound are canonical octets.
pub open spec fn is_ipv4(s: Seq<char>) -> bool {
    exists|d1: int, d2: int, d3: int| ipv4_dots_at(s, d1, d2, d3)
}

/// The three dots of a dotted quad sit at `d1 < d2 < d3` and bound four
/// canonical octets.
pub open spec fn ipv4_dots_at(s: Seq<char>, d1: int, d2: int, d3: int) -> bool {
    &&& 0 <= d1 < d2 < d3 < s.len()
    &&& s[d1] == '.'
    &&& s[d2] == '.'
    &&& s[d3] == '.'
    &&& is_octet(s.subrange(0, d1))
    &&& is_octet(s.subrange(d1 + 1, d2))
    &&& is_octet(s.subrange(d2 + 1, d3))
    &&& is_octet(s.subrange(d3 + 1, s.len() as int))
}

/// The octet values of a dotted quad whose dots sit at `d1 < d2 < d3`.
pub open spec fn ipv4_octets_at(s: Seq<char>, d1: int, d2: int, d3: int) -> Seq<u8> {
    seq![
        digits_val(s.subrange(0, d1)) as u8,
        digits_val(s.subrange(d1 + 1, d2)) as u8,
        digits_val(s.subrange(d2 + 1, d3)) as u8,
        digits_val(s.subrange(d3 + 1, s.len() as int)) as u8,
    ]
}

/// Parses one segment `s[from..to]` as a canonical octet.
fn parse_octet(s: &str, from: usize, to: usize) -> (r: Option<u8>)
    requires
        from <= to <= s@.len(),
    ensures
        r is Some <==> is_octet(s@.subrange(from as int, to as int)),
        r is Some ==> r->0 == digits_val(s@.subrange(from as int, to as int)),
{
    if to - from > 3 {
        return None;
    }
    if to - from > 1 {
        let c0 = s.get_char(from);
        if c0 == '0' {
            return None;
        }
    }
    let seg = s.substring_char(from, to);
    parse_u8_dec(seg)
}

/// Parses a canonical dotted-quad address.
///
/// Succeeds exactly on canonical dotted quads, returning the four octet
/// values in order.
pub fn parse_ipv4(s: &str) -> (r: Option<[u8; 4]>)
    ensures
        r is Some <==> is_ipv4(s@),
        r matches Some(o) ==> exists|d1: int, d2: int, d3: int|
            ipv4_dots_at(s@, d1, d2, d3) && o@ == ipv4_octets_at(s@, d1, d2, d3),
{
    let len = s.unicode_len();
    let mut dots: Vec<usize> = Vec::new();
    let mut i: usize = 0;
    while i < len
        invariant
            0 <= i <= len,
            len == s@.len(),
            forall|k: int|
                0 <= k < dots@.len() ==> 0 <= #[trigger] dots@[k] < i && s@[dots@[k] as int]
                    == '.',
            forall|k1: int, k2: int| 0 <= k1 < k2 < dots@.len() ==> dots@[k1] < dots@[k2],
            forall|p: int|
                0 <= p < i && s@[p] == '.' ==> exists|k: int|
                    0 <= k < dots@.len() && #[trigger] dots@[k] == p,
        decreases len - i,
    {
        let c = s.get_char(i);
        if c == '.' {
            let ghost pre = dots@;
            dots.push(i);
            proof {
                assert forall|p: int|
                    0 <= p < i + 1 && s@[p] == '.' implies exists|k: int|
                    0 <= k < dots@.len() && #[trigger] dots@[k] == p by {
                    if p == i {
                        assert(dots@[dots@.len() - 1] == p);
                    } else {
                        let k = choose|k: int| 0 <= k < pre.len() && #[trigger] pre[k] == p;
                        assert(dots@[k] == p);
                    }
                }
            }
        }
        i += 1;
    }
    if dots.len() != 3 {
        proof {
            if is_ipv4(s@) {
                let (d1, d2, d3) = choose|d1: int, d2: int, d3: int| ipv4_dots_at(s@, d1, d2, d3);
                lemma_dots_exact(s@, d1, d2, d3, dots@);
                assert(false);
            }
        }
        return None;
    }
    let d1 = dots[0];
    let d2 = dots[1];
    let d3 = dots[2];
    proof {
        if is_ipv4(s@) {
            let (e1, e2, e3) = choose|e1: int, e2: int, e3: int| ipv4_dots_at(s@, e1, e2, e3);
            lemma_dots_exact(s@, e1, e2, e3, dots@);
        }
    }
    let o1 = match parse_octet(s, 0, d1) {
        Some(v) => v,
        None => {
            return None;
        },
    };
    let o2 = match parse_octet(s, d1 + 1, d2) {
        Some(v) => v,
        None => {
            return None;
        },
    };
    let o3 = match parse_octet(s, d2 + 1, d3) {
        Some(v) => v,
        None => {
            return None;
        },
    };
    let o4 = match parse_octet(s, d3 + 1, len) {
        Some(v) => v,
        None => {
            return None;
        },
    };
    let r = [o1, o2, o3, o4];
    proof {
        assert(ipv4_dots_at(s@, d1 as int, d2 as int, d3 as int));
        assert(r@ =~= ipv4_octets_at(s@, d1 as int, d2 as int, d3 as int));
    }
    Some(r)
}

/// If a string is a canonical dotted quad with dots at `d1 < d2 < d3`, then
/// any strictly increasing list of exactly the dot positions of the string
/// is the three-element list `[d1, d2, d3]`.
proof fn lemma_dots_exact(s: Seq<char>, d1: int, d2: int, d3: int, dots: Seq<usize>)
    requires
        ipv4_dots_at(s, d1, d2, d3),
        forall|k: int|
            0 <= k < dots.len() ==> 0 <= #[trigger] dots[k] < s.len() && s[dots[k] as int] == '.',
        forall|k1: int, k2: int| 0 <= k1 < k2 < dots.len() ==> dots[k1] < dots[k2],
        forall|p: int|
            0 <= p < s.len() && s[p] == '.' ==> exists|k: int|
                0 <= k < dots.len() && #[trigger] dots[k] == p,
    ensures
        dots =~= seq![d1 as usize, d2 as usize, d3 as usize],
{
    // The only dots of s are d1, d2, d3: every other position lies inside
    // one of the four octet segments, whose characters are digits.
    assert forall|p: int| 0 <= p < s.len() && s[p] == '.' implies p == d1 || p == d2 || p == d3 by {
        if p != d1 && p != d2 && p != d3 {
            if p < d1 {
                assert(s.subrange(0, d1)[p] == s[p]);
            } else if p < d2 {
                assert(s.subrange(d1 + 1, d2)[p - (d1 + 1)] == s[p]);
            } else if p < d3 {
                assert(s.subrange(d2 + 1, d3)[p - (d2 + 1)] == s[p]);
            } else {
                assert(s.subrange(d3 + 1, s.len() as int)[p - (d3 + 1)] == s[p]);
            }
        }
    }
    // Each of d1, d2, d3 appears in the list.
    let k1 = choose|k: int| 0 <= k < dots.len() && dots[k] == d1;
    let k2 = choose|k: int| 0 <= k < dots.len() && dots[k] == d2;
    let k3 = choose|k: int| 0 <= k < dots.len() && dots[k] == d3;
    assert(0 <= k1 < dots.len() && dots[k1] == d1);
    assert(0 <= k2 < dots.len() && dots[k2] == d2);
    assert(0 <= k3 < dots.len() && dots[k3] == d3);
    // The list is strictly increasing, every entry is one of the three
    // values, and all three occur, so the list is exactly [d1, d2, d3].
    assert(dots.len() <= 3) by {
        if dots.len() > 3 {
            assert(dots[0] < dots[1] < dots[2] < dots[3]);
        }
    }
    assert(k1 < k2 < k3);
    assert(dots.len() == 3);
    assert(k1 == 0 && k2 == 1 && k3 == 2);
}

} // verus!
