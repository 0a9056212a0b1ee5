//! Small verified string utilities: character search, string equality, and
//! lowercase hexadecimal rendering of integers.

use vstd::prelude::*;

verus! {

/// The smallest index at which `c` occurs in `s`, if it occurs at all.
pub open spec fn find_char(s: Seq<char>, c: char) -> Option<int>
    decreases s.len(),
{
    if s.len() == 0 {
        None
    } else if s[0] == c {
        Some(0int)
    } else {
        match find_char(s.skip(1), c) {
            None => None,
            Some(i) => Some(i + 1),
        }
    }
}

/// `find_char` returns the first occurrence: the index holds `c`, and nothing
/// before it does; `None` means `c` does not occur.
pub proof fn lemma_find_char(s: Seq<char>, c: char)
    ensures
        match find_char(s, c) {
            None => forall|j: int| 0 <= j < s.len() ==> s[j] != c,
            Some(i) => 0 <= i < s.len() && s[i] == c && (forall|j: int| 0 <= j < i ==> s[j] != c),
        },
    decreases s.len(),
{
    if s.len() != 0 && s[0] != c {
        lemma_find_char(s.skip(1), c);
        match find_char(s.skip(1), c) {
            None => {
                assert forall|j: int| 0 <= j < s.len() implies s[j] != c by {
                    if j >= 1 {
                        assert(s.skip(1)[j - 1] == s[j]);
                    }
                }
            },
            Some(i) => {
                assert(s.skip(1)[i] == s[i + 1]);
                assert forall|j: int| 0 <= j < i + 1 implies s[j] != c by {
                    if j >= 1 {
                        assert(s.skip(1)[j - 1] == s[j]);
                    }
                }
            },
        }
    }
}

/// First index of `c` among the characters of `s`, or `None`.
pub fn find_char_str(s: &str, c: char) -> (r: Option<usize>)
    ensures
        find_char(s@, c) == match r {
            Some(i) => Some(i as int),
            None => None::<int>,
        },
{
    let n = s.unicode_len();
    let mut i: usize = 0;
    while i < n
        invariant
            n == s@.len(),
            0 <= i <= n,
            forall|j: int| 0 <= j < i ==> s@[j] != c,
        decreases n - i,
    {
        if s.get_char(i) == c {
            proof {
                lemma_find_char(s@, c);
            }
            return Some(i);
        }
        i += 1;
    }
    proof {
        lemma_find_char(s@, c);
    }
    None
}

/// Character-for-character string equality.
pub fn str_eq(a: &str, b: &str) -> (r: bool)
    ensures
        r == (a@ == b@),
{
    let an = a.unicode_len();
    let bn = b.unicode_len();
    if an != bn {
        return false;
    }
    let mut i: usize = 0;
    while i < an
        invariant
            an == a@.len(),
            bn == b@.len(),
            an == bn,
            0 <= i <= an,
            forall|j: int| 0 <= j < i ==> a@[j] == b@[j],
        decreases an - i,
    {
        if a.get_char(i) != b.get_char(i) {
            return false;
        }
        i += 1;
    }
    proof {
        assert(a@ =~= b@);
    }
    true
}

/// The lowercase hexadecimal digit for a value in `0 .. 16`.
pub open spec fn hex_digit(d: int) -> char {
    "0123456789abcdef"@[d]
}

/// The lowercase hexadecimal rendering of `n`, with no leading zeroes
/// (`0` renders as a single `'0'`).
pub open spec fn hex_of(n: nat) -> Seq<char>
    decreases n
    via hex_of_dec
{
    if n < 16 {
        seq![hex_digit(n as int)]
    } else {
        hex_of(n / 16) + seq![hex_digit((n % 16) as int)]
    }
}

#[via_fn]
proof fn hex_of_dec(n: nat) {
    if n >= 16 {
        vstd::arithmetic::div_mod::lemma_div_decreases(n as int, 16);
    }
}

/// Render `n` in lowercase hexadecimal, as `hex_of` describes.
pub fn to_hex_lower(n: u64) -> (r: String)
    ensures
        r@ == hex_of(n as nat),
    decreases n,
{
    let digits = "0123456789abcdef";
    proof {
        reveal_strlit("0123456789abcdef");
    }
    if n < 16 {
        let d = digits.substring_char(n as usize, n as usize + 1);
        proof {
            assert(d@ =~= seq![hex_digit(n as int)]);
        }
        d.to_owned()
    } else {
        proof {
            vstd::arithmetic::div_mod::lemma_div_decreases(n as int, 16);
        }
        let mut s = to_hex_lower(n / 16);
        let m = (n % 16) as usize;
        let d = digits.substring_char(m, m + 1);
        proof {
            assert(d@ =~= seq![hex_digit((n % 16) as int)]);
        }
        s.append(d);
        s
    }
}

} // verus!
