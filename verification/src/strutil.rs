//! Character-level helpers for strings.

use vstd::prelude::*;
use vstd::string::StrSliceExecFns;

verus! {

/// True exactly when the two string slices hold the same character sequence.
pub fn str_eq(a: &str, b: &str) -> (r: bool)
    ensures
        r == (a@ == b@),
{
    let alen = a.unicode_len();
    let blen = b.unicode_len();
    if alen != blen {
        return false;
    }
    let mut i: usize = 0;
    while i < alen
        invariant
            alen == a@.len(),
            blen == b@.len(),
            alen == blen,
            i <= alen,
            forall|j: int| 0 <= j < i ==> a@[j] == b@[j],
        decreases alen - i,
    {
        if a.get_char(i) != b.get_char(i) {
            return false;
        }
        i += 1;
    }
    proof {
        assert(a@ =~= b@);
    }
    true
}

/// An ASCII decimal digit.
pub open spec fn is_digit(c: char) -> bool {
    '0' <= c && c <= '9'
}

/// Every character of the sequence is a decimal digit.
pub open spec fn all_digits(s: Seq<char>) -> bool {
    forall|k: int| 0 <= k < s.len() ==> is_digit(s[k])
}

/// The value of a digit sequence read as a decimal number.
pub open spec fn dec_val(s: Seq<char>) -> int
    decreases s.len(),
{
    if s.len() == 0 {
        0
    } else {
        dec_val(s.drop_last()) * 10 + (s.last() as u32 - '0' as u32)
    }
}

/// The digit part of a decimal numeral: everything after one optional leading `+`.
pub open spec fn numeral_body(s: Seq<char>) -> Seq<char> {
    if s.len() > 0 && s[0] == '+' {
        s.drop_first()
    } else {
        s
    }
}

/// The strings that `u16` parsing accepts: an optional `+`, then one or more
/// digits whose value fits in 16 bits.
pub open spec fn u16_str_wf(s: Seq<char>) -> bool {
    &&& numeral_body(s).len() > 0
    &&& all_digits(numeral_body(s))
    &&& dec_val(numeral_body(s)) <= 65535
}

/// The value of an accepted `u16` string.
pub open spec fn u16_str_val(s: Seq<char>) -> int {
    dec_val(numeral_body(s))
}

/// The index of the first occurrence of `c` in `s`, or -1 when absent.
pub open spec fn first_idx(s: Seq<char>, c: char) -> int
    decreases s.len(),
{
    if s.len() == 0 {
        -1
    } else if s[0] == c {
        0
    } else {
        let r = first_idx(s.drop_first(), c);
        if r == -1 {
            -1
        } else {
            r + 1
        }
    }
}

pub proof fn lemma_first_idx_is(s: Seq<char>, c: char, i: int)
    requires
        0 <= i < s.len(),
        s[i] == c,
        forall|k: int| 0 <= k < i ==> s[k] != c,
    ensures
        first_idx(s, c) == i,
    decreases s.len(),
{
    if i == 0 {
    } else {
        assert(forall|k: int| 0 <= k < i - 1 ==> s.drop_first()[k] == s[k + 1]);
        lemma_first_idx_is(s.drop_first(), c, i - 1);
    }
}

pub proof fn lemma_first_idx_none(s: Seq<char>, c: char)
    requires
        forall|k: int| 0 <= k < s.len() ==> s[k] != c,
    ensures
        first_idx(s, c) == -1,
    decreases s.len(),
{
    if s.len() > 0 {
        assert(forall|k: int| 0 <= k < s.len() - 1 ==> s.drop_first()[k] == s[k + 1]);
        lemma_first_idx_none(s.drop_first(), c);
    }
}

/// Finds the first occurrence of `c` in `s`.
pub fn find_char(s: &str, c: char) -> (r: Option<usize>)
    ensures
        match r {
            Some(i) => {
                &&& first_idx(s@, c) == i as int
                &&& i < s@.len()
                &&& s@[i as int] == c
                &&& forall|k: int| 0 <= k < i ==> s@[k] != c
            },
            None => {
                &&& first_idx(s@, c) == -1
                &&& forall|k: int| 0 <= k < s@.len() ==> s@[k] != c
            },
        },
{
    let n = s.unicode_len();
    let mut i: usize = 0;
    while i < n
        invariant
            n == s@.len(),
            i <= n,
            forall|k: int| 0 <= k < i ==> s@[k] != c,
        decreases n - i,
    {
        if s.get_char(i) == c {
            proof {
                lemma_first_idx_is(s@, c, i as int);
            }
            return Some(i);
        }
        i += 1;
    }
    proof {
        lemma_first_idx_none(s@, c);
    }
    None
}

/// Relies on the standard library's `FromIterator` for `String`: collecting
/// characters yields the string of exactly those characters, in order.
#[verifier::external_body]
pub fn string_from_chars(cs: &Vec<char>) -> (r: String)
    ensures
        r@ == cs@,
{
    cs.iter().collect()
}

/// Parses a `u16` from its decimal representation, accepting exactly the
/// strings that `u16_str_wf` describes.
pub fn parse_u16(s: &str) -> (r: Option<u16>)
    ensures
        r is Some <==> u16_str_wf(s@),
        r is Some ==> r->0 as int == u16_str_val(s@),
{
    let n = s.unicode_len();
    let start: usize = if n > 0 && s.get_char(0) == '+' {
        1
    } else {
        0
    };
    if start >= n {
        return None;
    }
    let mut acc: u32 = 0;
    let mut over: bool = false;
    let mut i: usize = start;
    while i < n
        invariant
            n == s@.len(),
            start <= i <= n,
            start < n,
            start <= 1,
            start == 0 ==> s@[0] != '+',
            start == 1 ==> s@[0] == '+',
            all_digits(s@.subrange(start as int, i as int)),
            !over ==> acc as int == dec_val(s@.subrange(start as int, i as int)) && acc <= 65535,
            over ==> dec_val(s@.subrange(start as int, i as int)) > 65535,
        decreases n - i,
    {
        let c = s.get_char(i);
        if c < '0' || '9' < c {
            assert(!all_digits(numeral_body(s@))) by {
                if start == 1 {
                    assert(numeral_body(s@) == s@.drop_first());
                    assert(s@.drop_first()[i - 1] == s@[i as int]);
                } else {
                    assert(!(s@.len() > 0 && s@[0] == '+'));
                    assert(numeral_body(s@) == s@);
                }
            }
            return None;
        }
        let d: u32 = (c as u32) - 48;
        proof {
            assert(s@.subrange(start as int, i as int + 1).drop_last() =~= s@.subrange(
                start as int,
                i as int,
            ));
            assert(s@.subrange(start as int, i as int + 1).last() == s@[i as int]);
        }
        if over {
            proof {
                let prev = dec_val(s@.subrange(start as int, i as int));
                assert(prev * 10 >= prev) by (nonlinear_arith)
                    requires
                        prev > 65535,
                ;
            }
        } else if acc > 6553 || (acc == 6553 && d >= 6) {
            over = true;
        } else {
            acc = acc * 10 + d;
        }
        i += 1;
    }
    proof {
        assert(numeral_body(s@) =~= s@.subrange(start as int, n as int));
    }
    if over {
        None
    } else {
        Some(acc as u16)
    }
}

} // verus!
