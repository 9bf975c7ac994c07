//! Small verified text utilities: string equality, substring search,
//! and decimal formatting of port numbers.

use vstd::prelude::*;
use vstd::string::StrSliceExecFns;
use vstd::string::StringExecFns;

verus! {

/// True when `needle` occurs as a contiguous run of characters in `hay`.
pub open spec fn contains_seq(hay: Seq<char>, needle: Seq<char>) -> bool {
    exists|i: int|
        0 <= i && i + needle.len() <= hay.len() && #[trigger] hay.subrange(
            i,
            i + needle.len(),
        ) == needle
}

/// Character-by-character string equality.
pub fn str_eq(a: &str, b: &str) -> (r: bool)
    ensures
        r == (a@ == b@),
{
    let alen = a.unicode_len();
    let blen = b.unicode_len();
    if alen != blen {
        proof {
            assert(a@.len() != b@.len());
        }
        return false;
    }
    let mut i: usize = 0;
    while i < alen
        invariant
            0 <= i <= alen,
            alen == a@.len(),
            alen == b@.len(),
            forall|j: int| 0 <= j < i ==> a@[j] == b@[j],
        decreases alen - i,
    {
        if a.get_char(i) != b.get_char(i) {
            return false;
        }
        i = i + 1;
    }
    proof {
        assert(a@ =~= b@);
    }
    true
}

/// Whether `needle` occurs in `hay` starting at character position `at`.
fn matches_at(hay: &str, needle: &str, at: usize) -> (r: bool)
    requires
        at + needle@.len() <= hay@.len(),
    ensures
        r == (hay@.subrange(at as int, at + needle@.len()) == needle@),
{
    let hlen = hay.unicode_len();
    let nlen = needle.unicode_len();
    let mut i: usize = 0;
    while i < nlen
        invariant
            0 <= i <= nlen,
            hlen == hay@.len(),
            nlen == needle@.len(),
            at + nlen <= hlen,
            forall|j: int| 0 <= j < i ==> hay@[at + j] == needle@[j],
        decreases nlen - i,
    {
        if hay.get_char(at + i) != needle.get_char(i) {
            proof {
                assert(hay@.subrange(at as int, at + needle@.len())[i as int] != needle@[i as int]);
            }
            return false;
        }
        i = i + 1;
    }
    proof {
        assert(hay@.subrange(at as int, at + needle@.len()) =~= needle@);
    }
    true
}

/// Finds the first character position at which `needle` occurs in `hay`.
pub fn find_sub(hay: &str, needle: &str) -> (r: Option<usize>)
    ensures
        match r {
            Some(i) => i + needle@.len() <= hay@.len() && hay@.subrange(
                i as int,
                i + needle@.len(),
            ) == needle@ && contains_seq(hay@, needle@),
            None => !contains_seq(hay@, needle@),
        },
{
    let hlen = hay.unicode_len();
    let nlen = needle.unicode_len();
    if nlen > hlen {
        return None;
    }
    if nlen == 0 {
        proof {
            assert(hay@.subrange(0, 0) =~= needle@);
        }
        return Some(0);
    }
    let mut i: usize = 0;
    while i <= hlen - nlen
        invariant
            0 <= i,
            i <= hlen - nlen + 1,
            1 <= nlen <= hlen,
            hlen == hay@.len(),
            nlen == needle@.len(),
            forall|j: int|
                0 <= j < i ==> #[trigger] hay@.subrange(j, j + needle@.len()) != needle@,
        decreases hlen - i,
    {
        if matches_at(hay, needle, i) {
            return Some(i);
        }
        i = i + 1;
    }
    None
}

/// The character for a single decimal digit.
pub open spec fn spec_digit(d: nat) -> char {
    if d == 0 {
        '0'
    } else if d == 1 {
        '1'
    } else if d == 2 {
        '2'
    } else if d == 3 {
        '3'
    } else if d == 4 {
        '4'
    } else if d == 5 {
        '5'
    } else if d == 6 {
        '6'
    } else if d == 7 {
        '7'
    } else if d == 8 {
        '8'
    } else {
        '9'
    }
}

/// The usual decimal rendering of a natural number, most significant
/// digit first and without leading zeros (except for zero itself).
pub open spec fn spec_decimal(n: nat) -> Seq<char>
    decreases n,
{
    if n < 10 {
        seq![spec_digit(n)]
    } else {
        spec_decimal(n / 10).push(spec_digit(n % 10))
    }
}

fn digit_str(d: u8) -> (r: &'static str)
    requires
        d < 10,
    ensures
        r@ == seq![spec_digit(d as nat)],
{
    let r: &'static str = if d == 0 {
        "0"
    } else if d == 1 {
        "1"
    } else if d == 2 {
        "2"
    } else if d == 3 {
        "3"
    } else if d == 4 {
        "4"
    } else if d == 5 {
        "5"
    } else if d == 6 {
        "6"
    } else if d == 7 {
        "7"
    } else if d == 8 {
        "8"
    } else {
        "9"
    };
    proof {
        reveal_strlit("0");
        reveal_strlit("1");
        reveal_strlit("2");
        reveal_strlit("3");
        reveal_strlit("4");
        reveal_strlit("5");
        reveal_strlit("6");
        reveal_strlit("7");
        reveal_strlit("8");
        reveal_strlit("9");
        assert(r@ =~= seq![spec_digit(d as nat)]);
    }
    r
}

/// Renders a port number (or any 16-bit value) in decimal.
pub fn u16_to_string(n: u16) -> (r: String)
    ensures
        r@ == spec_decimal(n as nat),
    decreases n,
{
    if n < 10 {
        String::from_str(digit_str(n as u8))
    } else {
        let mut s = u16_to_string(n / 10);
        s.append(digit_str((n % 10) as u8));
        proof {
            assert(s@ =~= spec_decimal(n as nat));
        }
        s
    }
}

} // verus!
