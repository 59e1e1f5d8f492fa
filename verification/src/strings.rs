//! Verified string utilities: character extraction, equality, substring
//! search, and decimal rendering of integers. These are the building blocks
//! for the version parser and the firmware-name resolver.

use vstd::prelude::*;

verus! {

/// Collect the characters of a string slice into a vector.
pub fn chars_of(s: &str) -> (r: Vec<char>)
    ensures
        r@ == s@,
{
    let n: usize = s.unicode_len();
    let mut r: Vec<char> = Vec::new();
    let mut i: usize = 0;
    while i < n
        invariant
            i <= n,
            n == s@.len(),
            r@ == s@.subrange(0, i as int),
        decreases n - i,
    {
        r.push(s.get_char(i));
        i = i + 1;
        proof {
            assert(r@ =~= s@.subrange(0, i as int));
        }
    }
    proof {
        assert(r@ =~= s@);
    }
    r
}

/// Character-wise string equality.
pub fn str_eq(a: &str, b: &str) -> (r: bool)
    ensures
        r == (a@ == b@),
{
    let na: usize = a.unicode_len();
    let nb: usize = b.unicode_len();
    if na != nb {
        proof {
            assert(a@ != b@);
        }
        return false;
    }
    let mut i: usize = 0;
    while i < na
        invariant
            i <= na,
            na == a@.len(),
            na == b@.len(),
            forall|j: int| 0 <= j < i ==> a@[j] == b@[j],
        decreases na - i,
    {
        if a.get_char(i) != b.get_char(i) {
            return false;
        }
        i = i + 1;
    }
    proof {
        assert(a@ =~= b@);
    }
    true
}

/// The needle occurs in the haystack starting at position `i`.
pub open spec fn occurs_at(hay: Seq<char>, needle: Seq<char>, i: int) -> bool {
    &&& 0 <= i
    &&& i + needle.len() <= hay.len()
    &&& hay.subrange(i, i + needle.len() as int) == needle
}

/// The needle occurs somewhere in the haystack.
pub open spec fn contains_seq(hay: Seq<char>, needle: Seq<char>) -> bool {
    exists|i: int| occurs_at(hay, needle, i)
}

/// Substring search, the meaning of `str::contains` for these inputs.
pub fn str_contains(hay: &str, needle: &str) -> (r: bool)
    ensures
        r == contains_seq(hay@, needle@),
{
    let h = chars_of(hay);
    let n = chars_of(needle);
    let hn: usize = h.len();
    let nn: usize = n.len();
    if nn > hn {
        proof {
            assert(forall|i: int| !occurs_at(hay@, needle@, i));
        }
        return false;
    }
    let mut start: usize = 0;
    while start <= hn - nn
        invariant
            h@ == hay@,
            n@ == needle@,
            hn == hay@.len(),
            nn == needle@.len(),
            nn <= hn,
            start <= hn - nn + 1,
            forall|i: int| 0 <= i < start ==> !occurs_at(hay@, needle@, i),
        decreases hn - start,
    {
        let mut k: usize = 0;
        let mut all_eq: bool = true;
        while k < nn
            invariant
                h@ == hay@,
                n@ == needle@,
                hn == hay@.len(),
                nn == needle@.len(),
                start + nn <= hn,
                k <= nn,
                all_eq == (forall|j: int| 0 <= j < k ==> hay@[start + j] == needle@[j]),
            decreases nn - k,
        {
            if h[start + k] != n[k] {
                all_eq = false;
                k = nn;
            } else {
                k = k + 1;
            }
        }
        if all_eq {
            proof {
                assert(hay@.subrange(start as int, start + nn as int) =~= needle@);
                assert(occurs_at(hay@, needle@, start as int));
            }
            return true;
        }
        proof {
            let s = start as int;
            assert(!occurs_at(hay@, needle@, s)) by {
                if occurs_at(hay@, needle@, s) {
                    let bad = choose|j: int| 0 <= j < nn && hay@[s + j] != needle@[j];
                    assert(hay@.subrange(s, s + nn as int)[bad] == hay@[s + bad]);
                }
            }
        }
        start = start + 1;
    }
    proof {
        assert(forall|i: int| !occurs_at(hay@, needle@, i));
    }
    false
}

/// A decimal digit character.
pub open spec fn is_digit_char(c: char) -> bool {
    '0' as u32 <= c as u32 && c as u32 <= '9' as u32
}

/// The numeric value of a decimal digit character.
pub open spec fn digit_val(c: char) -> nat {
    (c as u32 - '0' as u32) as nat
}

/// The decimal digit character for a value below ten.
pub open spec fn digit_char(d: nat) -> char {
    if d == 0 {
        '0'
    } else if d == 1 {
        '1'
    } else if d == 2 {
        '2'
    } else if d == 3 {
        '3'
    } else if d == 4 {
        '4'
    } else if d == 5 {
        '5'
    } else if d == 6 {
        '6'
    } else if d == 7 {
        '7'
    } else if d == 8 {
        '8'
    } else {
        '9'
    }
}

/// The canonical decimal rendering of a natural number.
pub open spec fn dec_digits(n: nat) -> Seq<char>
    decreases n,
{
    if n < 10 {
        seq![digit_char(n)]
    } else {
        dec_digits(n / 10) + seq![digit_char(n % 10)]
    }
}

/// The numeric value of a sequence of decimal digit characters.
pub open spec fn dec_val(s: Seq<char>) -> nat
    decreases s.len(),
{
    if s.len() == 0 {
        0
    } else {
        dec_val(s.drop_last()) * 10 + digit_val(s.last())
    }
}

pub proof fn lemma_dec_digits_are_digits(n: nat)
    ensures
        dec_digits(n).len() >= 1,
        forall|i: int| 0 <= i < dec_digits(n).len() ==> is_digit_char(#[trigger] dec_digits(n)[i]),
    decreases n,
{
    if n >= 10 {
        lemma_dec_digits_are_digits(n / 10);
    }
}

pub proof fn lemma_digit_char_val(d: nat)
    requires
        d < 10,
    ensures
        digit_val(digit_char(d)) == d,
        is_digit_char(digit_char(d)),
{
}

pub proof fn lemma_dec_val_of_dec_digits(n: nat)
    ensures
        dec_val(dec_digits(n)) == n,
    decreases n,
{
    let s = dec_digits(n);
    assert(s.len() > 0);
    assert(dec_val(s) == dec_val(s.drop_last()) * 10 + digit_val(s.last()));
    if n < 10 {
        lemma_digit_char_val(n);
        assert(s.drop_last() =~= Seq::<char>::empty());
        assert(dec_val(s.drop_last()) == 0);
        assert(s.last() == digit_char(n));
    } else {
        lemma_dec_val_of_dec_digits(n / 10);
        lemma_digit_char_val(n % 10);
        assert(s.drop_last() =~= dec_digits(n / 10));
        assert(s.last() == digit_char(n % 10));
        assert(n == (n / 10) * 10 + (n % 10)) by (nonlinear_arith);
    }
}

/// Extending a digit string multiplies its value by ten and adds the digit.
pub proof fn lemma_dec_val_extend(s: Seq<char>, lo: int, j: int)
    requires
        0 <= lo <= j < s.len(),
    ensures
        dec_val(s.subrange(lo, j + 1)) == dec_val(s.subrange(lo, j)) * 10 + digit_val(s[j]),
{
    assert(s.subrange(lo, j + 1).drop_last() =~= s.subrange(lo, j));
    assert(s.subrange(lo, j + 1).last() == s[j]);
}

/// A longer digit string never has a smaller value.
pub proof fn lemma_dec_val_prefix_le(s: Seq<char>, lo: int, j: int, k: int)
    requires
        0 <= lo <= j <= k <= s.len(),
    ensures
        dec_val(s.subrange(lo, j)) <= dec_val(s.subrange(lo, k)),
    decreases k - j,
{
    if j < k {
        lemma_dec_val_extend(s, lo, k - 1);
        lemma_dec_val_prefix_le(s, lo, j, k - 1);
    }
}

/// A one-character string slice for each decimal digit value.
pub fn digit_str(d: u32) -> (r: &'static str)
    requires
        d < 10,
    ensures
        r@ == seq![digit_char(d as nat)],
{
    proof {
        reveal_strlit("0");
        reveal_strlit("1");
        reveal_strlit("2");
        reveal_strlit("3");
        reveal_strlit("4");
        reveal_strlit("5");
        reveal_strlit("6");
        reveal_strlit("7");
        reveal_strlit("8");
        reveal_strlit("9");
    }
    let r = if d == 0 {
        "0"
    } else if d == 1 {
        "1"
    } else if d == 2 {
        "2"
    } else if d == 3 {
        "3"
    } else if d == 4 {
        "4"
    } else if d == 5 {
        "5"
    } else if d == 6 {
        "6"
    } else if d == 7 {
        "7"
    } else if d == 8 {
        "8"
    } else {
        "9"
    };
    proof {
        assert(r@ =~= seq![digit_char(d as nat)]);
    }
    r
}

/// Render an unsigned number in decimal.
pub fn u32_to_string(n: u32) -> (r: String)
    ensures
        r@ == dec_digits(n as nat),
    decreases n,
{
    if n < 10 {
        digit_str(n).to_owned()
    } else {
        let mut prefix = u32_to_string(n / 10);
        prefix.append(digit_str(n % 10));
        prefix
    }
}

/// Parse a non-empty range of decimal digit characters as a 32-bit number,
/// reporting overflow.
pub fn parse_u32_digits(cs: &Vec<char>, lo: usize, hi: usize) -> (r: Option<u32>)
    requires
        lo < hi <= cs@.len(),
        forall|j: int| lo <= j < hi ==> is_digit_char(#[trigger] cs@[j]),
    ensures
        match r {
            Some(v) => v as nat == dec_val(cs@.subrange(lo as int, hi as int)),
            None => dec_val(cs@.subrange(lo as int, hi as int)) > u32::MAX,
        },
{
    let mut acc: u32 = 0;
    let mut j: usize = lo;
    proof {
        assert(cs@.subrange(lo as int, lo as int) =~= Seq::<char>::empty());
    }
    while j < hi
        invariant
            lo <= j <= hi <= cs@.len(),
            forall|k: int| lo <= k < hi ==> is_digit_char(#[trigger] cs@[k]),
            acc as nat == dec_val(cs@.subrange(lo as int, j as int)),
        decreases hi - j,
    {
        let c = cs[j];
        let d: u32 = (c as u32) - ('0' as u32);
        let wide: u64 = (acc as u64) * 10 + (d as u64);
        proof {
            lemma_dec_val_extend(cs@, lo as int, j as int);
        }
        if wide > u32::MAX as u64 {
            proof {
                lemma_dec_val_prefix_le(cs@, lo as int, j + 1, hi as int);
            }
            return None;
        }
        acc = wide as u32;
        j = j + 1;
    }
    Some(acc)
}

} // verus!
