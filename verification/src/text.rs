//! Verified text helpers: character extraction, ASCII case folding,
//! decimal parsing and formatting, and substring search.

use vstd::prelude::*;

verus! {

/// ASCII decimal digit.
pub open spec fn is_digit(c: char) -> bool {
    '0' <= c && c <= '9'
}

/// Every character is a decimal digit.
pub open spec fn all_digits(s: Seq<char>) -> bool {
    forall|i: int| 0 <= i < s.len() ==> is_digit(s[i])
}

/// The number the digit string denotes, most significant digit first.
pub open spec fn decimal_value(s: Seq<char>) -> int
    decreases s.len(),
{
    if s.len() == 0 {
        0
    } else {
        decimal_value(s.drop_last()) * 10 + (s.last() as int - 48)
    }
}

/// ASCII lowercase folding of one character.
pub open spec fn lower_char(c: char) -> char {
    if 'A' <= c && c <= 'Z' {
        ((c as u8) + 32) as char
    } else {
        c
    }
}

/// ASCII lowercase folding of a string.
pub open spec fn lowered(s: Seq<char>) -> Seq<char> {
    s.map_values(|c: char| lower_char(c))
}

/// `needle` occurs contiguously somewhere in `hay`.
pub open spec fn contains_seq(hay: Seq<char>, needle: Seq<char>) -> bool {
    exists|i: int|
        0 <= i && i + needle.len() <= hay.len() && #[trigger] hay.subrange(i, i + needle.len())
            == needle
}

/// The characters of a string, for indexed processing.
pub fn chars_of(s: &str) -> (v: Vec<char>)
    ensures
        v@ == s@,
{
    let n = s.unicode_len();
    let mut v: Vec<char> = Vec::new();
    let mut i: usize = 0;
    while i < n
        invariant
            i <= n,
            n == s@.len(),
            v@ == s@.take(i as int),
        decreases n - i,
    {
        let c = s.get_char(i);
        v.push(c);
        proof {
            assert(v@ =~= s@.take(i + 1));
        }
        i = i + 1;
    }
    proof {
        assert(v@ =~= s@);
    }
    v
}

/// ASCII lowercase folding of one character.
pub fn char_to_lower(c: char) -> (r: char)
    ensures
        r == lower_char(c),
{
    if 'A' <= c && c <= 'Z' {
        ((c as u8) + 32) as char
    } else {
        c
    }
}

/// ASCII lowercase folding of a character vector.
pub fn lower_vec(v: &Vec<char>) -> (r: Vec<char>)
    ensures
        r@ == lowered(v@),
{
    let mut r: Vec<char> = Vec::new();
    let mut i: usize = 0;
    while i < v.len()
        invariant
            i <= v@.len(),
            r@.len() == i,
            forall|j: int| 0 <= j < i ==> r@[j] == lower_char(v@[j]),
        decreases v@.len() - i,
    {
        r.push(char_to_lower(v[i]));
        i = i + 1;
    }
    proof {
        assert(r@ =~= lowered(v@));
    }
    r
}

/// Whether `needle` occurs contiguously in `hay`.
pub fn contains_sub(hay: &Vec<char>, needle: &Vec<char>) -> (r: bool)
    ensures
        r == contains_seq(hay@, needle@),
{
    if needle.len() > hay.len() {
        proof {
            assert(!contains_seq(hay@, needle@));
        }
        return false;
    }
    let mut i: usize = 0;
    let hn = hay.len();
    let nn = needle.len();
    let last_start = hn - nn;
    while i <= last_start
        invariant
            needle@.len() <= hay@.len(),
            hn == hay@.len(),
            nn == needle@.len(),
            last_start == hay@.len() - needle@.len(),
            i <= last_start + 1,
            forall|k: int|
                0 <= k < i ==> #[trigger] hay@.subrange(k, k + needle@.len() as int) != needle@,
        decreases last_start + 1 - i,
    {
        let mut j: usize = 0;
        let mut matches_here = true;
        while j < nn
            invariant
                i + needle@.len() <= hay@.len(),
                hn == hay@.len(),
                nn == needle@.len(),
                j <= needle@.len(),
                matches_here == forall|t: int|
                    0 <= t < j ==> #[trigger] needle@[t] == hay@[i + t],
            decreases needle@.len() - j,
        {
            if hay[i + j] != needle[j] {
                matches_here = false;
                proof {
                    assert(hay@[i + j as int] != needle@[j as int]);
                }
                j = nn;
            } else {
                proof {
                    assert(hay@[i + j as int] == needle@[j as int]);
                }
                j = j + 1;
            }
        }
        if matches_here {
            proof {
                assert(hay@.subrange(i as int, i + needle@.len() as int) =~= needle@);
            }
            return true;
        }
        proof {
            assert(exists|t: int| 0 <= t < needle@.len() && #[trigger] needle@[t] != hay@[i + t]);
            let t = choose|t: int|
                0 <= t < needle@.len() && #[trigger] needle@[t] != hay@[i + t];
            assert(hay@.subrange(i as int, i + needle@.len() as int)[t] == hay@[i + t]);
            assert(hay@.subrange(i as int, i + needle@.len() as int) != needle@);
        }
        i = i + 1;
    }
    proof {
        assert(!contains_seq(hay@, needle@));
    }
    false
}

/// Digit strings denote nonnegative numbers.
pub proof fn lemma_decimal_nonneg(s: Seq<char>)
    requires
        all_digits(s),
    ensures
        decimal_value(s) >= 0,
    decreases s.len(),
{
    if s.len() > 0 {
        assert(is_digit(s[s.len() - 1]));
        assert forall|i: int| 0 <= i < s.drop_last().len() implies is_digit(
            s.drop_last()[i],
        ) by {
            assert(s.drop_last()[i] == s[i]);
        }
        lemma_decimal_nonneg(s.drop_last());
    }
}

/// A digit string denotes at least as much as any of its prefixes.
pub proof fn lemma_decimal_prefix_le(s: Seq<char>, j: int)
    requires
        all_digits(s),
        0 <= j <= s.len(),
    ensures
        decimal_value(s.take(j)) <= decimal_value(s),
    decreases s.len() - j,
{
    if j < s.len() {
        lemma_decimal_prefix_le(s, j + 1);
        assert(s.take(j + 1).drop_last() =~= s.take(j));
        assert(s.take(j + 1).last() == s[j]);
        assert(is_digit(s[j]));
        assert forall|i: int| 0 <= i < s.take(j).len() implies is_digit(s.take(j)[i]) by {
            assert(s.take(j)[i] == s[i]);
        }
        lemma_decimal_nonneg(s.take(j));
        assert(decimal_value(s.take(j)) <= decimal_value(s.take(j)) * 10 + (s[j] as int - 48));
    } else {
        assert(s.take(j) =~= s);
    }
}

/// Parses a nonempty decimal digit string into an index. `None` when the
/// string is empty, holds a non-digit, or denotes more than `usize::MAX`.
pub fn parse_index(v: &Vec<char>) -> (r: Option<usize>)
    ensures
        r is Some ==> v@.len() > 0 && all_digits(v@) && r->0 == decimal_value(v@),
        r is None ==> v@.len() == 0 || !all_digits(v@) || decimal_value(v@) > usize::MAX,
{
    if v.len() == 0 {
        return None;
    }
    let mut acc: usize = 0;
    let mut i: usize = 0;
    while i < v.len()
        invariant
            i <= v@.len(),
            acc == decimal_value(v@.take(i as int)),
            all_digits(v@.take(i as int)),
        decreases v@.len() - i,
    {
        let c = v[i];
        if !('0' <= c && c <= '9') {
            proof {
                assert(!is_digit(v@[i as int]));
            }
            return None;
        }
        let d: usize = (c as u8 - 48) as usize;
        proof {
            assert(v@.take(i + 1).drop_last() =~= v@.take(i as int));
            assert(v@.take(i + 1).last() == v@[i as int]);
            assert forall|k: int| 0 <= k < v@.take(i + 1).len() implies #[trigger] is_digit(
                v@.take(i + 1)[k],
            ) by {
                assert(v@.take(i + 1)[k] == v@[k]);
            }
        }
        if acc > (usize::MAX - d) / 10 {
            proof {
                assert(acc * 10 + d > usize::MAX) by (nonlinear_arith)
                    requires
                        acc > (usize::MAX - d) / 10,
                        d <= usize::MAX,
                        acc >= 0,
                ;
                if all_digits(v@) {
                    lemma_decimal_prefix_le(v@, i + 1);
                }
            }
            return None;
        }
        proof {
            assert(acc * 10 + d <= usize::MAX) by (nonlinear_arith)
                requires
                    acc <= (usize::MAX - d) / 10,
                    d <= usize::MAX,
                    acc >= 0,
            ;
        }
        acc = acc * 10 + d;
        i = i + 1;
    }
    proof {
        assert(v@.take(v@.len() as int) =~= v@);
    }
    Some(acc)
}


/// Whether two character vectors hold the same characters.
pub fn vecs_equal(a: &Vec<char>, b: &Vec<char>) -> (r: bool)
    ensures
        r == (a@ == b@),
{
    if a.len() != b.len() {
        proof {
            assert(a@ != b@);
        }
        return false;
    }
    let mut i: usize = 0;
    while i < a.len()
        invariant
            i <= a@.len(),
            a@.len() == b@.len(),
            forall|j: int| 0 <= j < i ==> a@[j] == b@[j],
        decreases a@.len() - i,
    {
        if a[i] != b[i] {
            return false;
        }
        i = i + 1;
    }
    proof {
        assert(a@ =~= b@);
    }
    true
}


/// The character for one decimal digit value.
pub open spec fn digit_char(d: int) -> char {
    (48 + d) as u8 as char
}

/// The decimal digit string denoting `n`, most significant digit first.
pub open spec fn decimal_digits(n: int) -> Seq<char>
    decreases n,
{
    if n < 10 {
        seq![digit_char(n)]
    } else {
        decimal_digits(n / 10).push(digit_char(n % 10))
    }
}

/// Law: decimal formatting and parsing are inverse — the digit string
/// denoting `n` parses back to `n`, for every nonnegative `n`.
pub proof fn lemma_decimal_round_trip(n: int)
    requires
        n >= 0,
    ensures
        all_digits(decimal_digits(n)),
        decimal_value(decimal_digits(n)) == n,
    decreases n,
{
    if n < 10 {
        assert(decimal_digits(n) == seq![digit_char(n)]);
        assert(decimal_value(decimal_digits(n)) == decimal_value(
            decimal_digits(n).drop_last(),
        ) * 10 + (decimal_digits(n).last() as int - 48));
        assert(decimal_digits(n).drop_last() =~= Seq::<char>::empty());
        assert(digit_char(n) as int == 48 + n);
        assert(is_digit(digit_char(n)));
    } else {
        lemma_decimal_round_trip(n / 10);
        let prefix = decimal_digits(n / 10);
        let d = n % 10;
        assert(decimal_digits(n) == prefix.push(digit_char(d)));
        assert(decimal_digits(n).drop_last() =~= prefix);
        assert(decimal_digits(n).last() == digit_char(d));
        assert(digit_char(d) as int == 48 + d);
        assert(is_digit(digit_char(d)));
        assert forall|i: int| 0 <= i < decimal_digits(n).len() implies #[trigger] is_digit(
            decimal_digits(n)[i],
        ) by {
            if i < prefix.len() {
                assert(decimal_digits(n)[i] == prefix[i]);
            }
        }
        vstd::arithmetic::div_mod::lemma_fundamental_div_mod(n, 10);
    }
}

/// The decimal digit characters of `n`, most significant first.
pub fn digit_chars(n: usize) -> (v: Vec<char>)
    ensures
        v@ == decimal_digits(n as int),
    decreases n,
{
    if n < 10 {
        let c = (48 + n as u8) as char;
        let mut v: Vec<char> = Vec::new();
        v.push(c);
        proof {
            assert(48 + n as u8 == 48 + n as int);
            assert(v@ =~= decimal_digits(n as int));
        }
        v
    } else {
        let mut v = digit_chars(n / 10);
        let c = (48 + (n % 10) as u8) as char;
        v.push(c);
        proof {
            assert(48 + (n % 10) as u8 == 48 + (n as int % 10));
            assert(v@ =~= decimal_digits(n as int));
        }
        v
    }
}

/// Relies on std's `String::push`: appends one character to the string.
#[verifier::external_body]
pub fn string_push_char(s: &mut String, c: char)
    ensures
        final(s)@ == old(s)@.push(c),
{
    s.push(c);
}

/// Builds a string from a character vector.
pub fn string_from_chars(v: &Vec<char>) -> (s: String)
    ensures
        s@ == v@,
{
    let mut s = String::new();
    let mut i: usize = 0;
    while i < v.len()
        invariant
            i <= v@.len(),
            s@ == v@.take(i as int),
        decreases v@.len() - i,
    {
        string_push_char(&mut s, v[i]);
        proof {
            assert(s@ =~= v@.take(i + 1));
        }
        i = i + 1;
    }
    proof {
        assert(s@ =~= v@);
    }
    s
}

} // verus!
