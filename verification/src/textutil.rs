//! Verified text helpers used across the gateway: ASCII case folding,
//! character search, prefix tests and fixed-arity splitting.
//!
//! All functions work character-wise over the `Seq<char>` view of a string,
//! so the comparison policy of the whole crate is uniform: case folding maps
//! the ASCII range only and leaves every other character untouched.

use vstd::prelude::*;
use vstd::string::*;

verus! {

/// ASCII lower-casing of one character; everything outside `A..=Z` is kept.
pub open spec fn lower_char(c: char) -> char {
    if 'A' <= c && c <= 'Z' {
        ((c as u8 + 32) as u8) as char
    } else {
        c
    }
}

/// ASCII lower-casing of a character sequence.
pub open spec fn spec_lower(s: Seq<char>) -> Seq<char> {
    s.map_values(|c: char| lower_char(c))
}

/// `c` occurs at position `i` of `s` and nowhere before it.
pub open spec fn found_at(s: Seq<char>, c: char, i: int) -> bool {
    &&& 0 <= i < s.len()
    &&& s[i] == c
    &&& forall|k: int| 0 <= k < i ==> s[k] != c
}

/// `c` does not occur in `s`.
pub open spec fn absent(s: Seq<char>, c: char) -> bool {
    forall|k: int| 0 <= k < s.len() ==> s[k] != c
}

/// Index of the first occurrence of `c` in `s` at or after `from`.
pub open spec fn spec_find(s: Seq<char>, c: char, from: int) -> Option<int>
    recommends
        0 <= from <= s.len(),
    decreases s.len() - from,
{
    if from < 0 || from >= s.len() {
        None
    } else if s[from] == c {
        Some(from)
    } else {
        spec_find(s, c, from + 1)
    }
}

/// Characterization of `spec_find`: it returns the least occurrence at or
/// after `from`, and `None` exactly when there is none.
pub proof fn lemma_spec_find(s: Seq<char>, c: char, from: int)
    requires
        0 <= from <= s.len(),
    ensures
        spec_find(s, c, from) matches Some(i) ==> from <= i < s.len() && s[i] == c && (forall|
            k: int,
        |
            from <= k < i ==> s[k] != c),
        spec_find(s, c, from) is None ==> forall|k: int| from <= k < s.len() ==> s[k] != c,
    decreases s.len() - from,
{
    if from < s.len() && s[from] != c {
        lemma_spec_find(s, c, from + 1);
    }
}

/// The domain part of an e-mail: the segment between the first `@` and the
/// next `@` or the end; `None` when there is no `@` at all.
pub open spec fn domain_of(s: Seq<char>) -> Option<Seq<char>> {
    match spec_find(s, '@', 0) {
        None => None,
        Some(i) => match spec_find(s, '@', i + 1) {
            None => Some(s.subrange(i + 1, s.len() as int)),
            Some(j) => Some(s.subrange(i + 1, j)),
        },
    }
}

/// The local part of an e-mail: everything before the first `@`; `None`
/// when there is no `@` at all.
pub open spec fn local_of(s: Seq<char>) -> Option<Seq<char>> {
    match spec_find(s, '@', 0) {
        None => None,
        Some(i) => Some(s.subrange(0, i)),
    }
}

/// Relies on `String::push`: appends exactly one character.
#[verifier::external_body]
pub fn push_char(s: &mut String, c: char)
    ensures
        final(s)@ == old(s)@.push(c),
{
    s.push(c);
}

pub fn lower_char_exec(c: char) -> (r: char)
    ensures
        r == lower_char(c),
{
    if 'A' <= c && c <= 'Z' {
        ((c as u8) + 32) as char
    } else {
        c
    }
}

/// ASCII-only lower-casing of a string.
pub fn to_lowercase(s: &str) -> (r: String)
    ensures
        r@ == spec_lower(s@),
{
    let n = s.unicode_len();
    let mut out = String::new();
    let mut i: usize = 0;
    while i < n
        invariant
            n == s@.len(),
            i <= n,
            out@ == spec_lower(s@.take(i as int)),
        decreases n - i,
    {
        let c = s.get_char(i);
        push_char(&mut out, lower_char_exec(c));
        i = i + 1;
        proof {
            assert(s@.take(i as int) =~= s@.take(i - 1).push(s@[i - 1]));
            assert(spec_lower(s@.take(i as int)) =~= spec_lower(s@.take(i - 1)).push(
                lower_char(s@[i - 1]),
            ));
        }
    }
    proof {
        assert(s@.take(n as int) =~= s@);
    }
    out
}

/// Clone of an optional string, preserving the value.
pub fn clone_opt_string(o: &Option<String>) -> (r: Option<String>)
    ensures
        r == *o,
{
    match o {
        Some(s) => Some(s.clone()),
        None => None,
    }
}

/// Character-wise string equality.
pub fn str_eq(a: &str, b: &str) -> (r: bool)
    ensures
        r == (a@ == b@),
{
    let x: String = a.to_owned();
    let y: String = b.to_owned();
    x == y
}

/// Case-insensitive (ASCII) string equality.
pub fn str_eq_ignore_case(a: &str, b: &str) -> (r: bool)
    ensures
        r == (spec_lower(a@) == spec_lower(b@)),
{
    let la = to_lowercase(a);
    let lb = to_lowercase(b);
    la == lb
}

/// First occurrence of `c` in `s` at or after `from`.
pub fn find_from(s: &str, c: char, from: usize) -> (r: Option<usize>)
    requires
        from <= s@.len(),
    ensures
        r matches Some(i) ==> from <= i < s@.len() && s@[i as int] == c && (forall|k: int|
            from <= k < i ==> s@[k] != c),
        r is None ==> forall|k: int| from <= k < s@.len() ==> s@[k] != c,
        r is Some <==> spec_find(s@, c, from as int) is Some,
        r matches Some(i) ==> spec_find(s@, c, from as int) == Some(i as int),
{
    let n = s.unicode_len();
    let mut i: usize = from;
    while i < n
        invariant
            n == s@.len(),
            from <= i <= n,
            forall|k: int| from <= k < i ==> s@[k] != c,
        decreases n - i,
    {
        if s.get_char(i) == c {
            proof {
                lemma_spec_find(s@, c, from as int);
                match spec_find(s@, c, from as int) {
                    Some(j) => {
                        if j < i {
                            assert(s@[j] != c);
                        }
                        if i < j {
                            assert(s@[i as int] != c);
                        }
                    },
                    None => {
                        assert(s@[i as int] != c);
                    },
                }
            }
            return Some(i);
        }
        i = i + 1;
    }
    proof {
        lemma_spec_find(s@, c, from as int);
        match spec_find(s@, c, from as int) {
            Some(j) => {
                assert(s@[j] != c);
            },
            None => {},
        }
    }
    None
}

/// Does `s` start with `p`?
pub fn str_starts_with(s: &str, p: &str) -> (r: bool)
    ensures
        r == (s@.len() >= p@.len() && s@.take(p@.len() as int) == p@),
{
    let n = s.unicode_len();
    let m = p.unicode_len();
    if n < m {
        proof {
            assert(!(s@.len() >= p@.len()));
        }
        return false;
    }
    let mut i: usize = 0;
    while i < m
        invariant
            n == s@.len(),
            m == p@.len(),
            m <= n,
            i <= m,
            forall|k: int| 0 <= k < i ==> s@[k] == p@[k],
        decreases m - i,
    {
        if s.get_char(i) != p.get_char(i) {
            proof {
                assert(s@.take(p@.len() as int)[i as int] != p@[i as int]);
            }
            return false;
        }
        i = i + 1;
    }
    proof {
        assert(s@.take(p@.len() as int) =~= p@);
    }
    true
}

/// The substring of `s` from `from` (inclusive) to `to` (exclusive), owned.
pub fn substring(s: &str, from: usize, to: usize) -> (r: String)
    requires
        from <= to <= s@.len(),
    ensures
        r@ == s@.subrange(from as int, to as int),
{
    s.substring_char(from, to).to_owned()
}

/// `s` contains exactly two occurrences of `sep`.
pub open spec fn two_sep_decomp(s: Seq<char>, sep: char) -> bool {
    exists|i: int, j: int|
        0 <= i < j < s.len() && #[trigger] s[i] == sep && #[trigger] s[j] == sep && (forall|k: int|
            0 <= k < s.len() && s[k] == sep ==> k == i || k == j)
}

/// `s` contains exactly three occurrences of `sep`.
pub open spec fn three_sep_decomp(s: Seq<char>, sep: char) -> bool {
    exists|i: int, j: int, l: int|
        0 <= i < j < l < s.len() && #[trigger] s[i] == sep && #[trigger] s[j] == sep
            && #[trigger] s[l] == sep && (forall|k: int|
            0 <= k < s.len() && s[k] == sep ==> k == i || k == j || k == l)
}

/// Splits `s` at `sep` into exactly three parts, or returns `None` when the
/// separator does not occur exactly twice.
pub fn split3(s: &str, sep: char) -> (r: Option<(String, String, String)>)
    ensures
        r is Some <==> two_sep_decomp(s@, sep),
        r matches Some(t) ==> exists|i: int, j: int|
            #![trigger s@.subrange(i + 1, j)]
            {
                &&& found_at(s@, sep, i)
                &&& i < j < s@.len()
                &&& s@[j] == sep
                &&& forall|k: int| i < k < j ==> s@[k] != sep
                &&& forall|k: int| j < k < s@.len() ==> s@[k] != sep
                &&& t.0@ == s@.subrange(0, i)
                &&& t.1@ == s@.subrange(i + 1, j)
                &&& t.2@ == s@.subrange(j + 1, s@.len() as int)
            },
{
    let n = s.unicode_len();
    match find_from(s, sep, 0) {
        None => {
            proof {
                if two_sep_decomp(s@, sep) {
                    let (i, j) = choose|i: int, j: int|
                        0 <= i < j < s@.len() && #[trigger] s@[i] == sep && #[trigger] s@[j] == sep
                            && (forall|k: int|
                            0 <= k < s@.len() && s@[k] == sep ==> k == i || k == j);
                    assert(false);
                }
            }
            None
        },
        Some(p1) => match find_from(s, sep, p1 + 1) {
            None => {
                proof {
                    if two_sep_decomp(s@, sep) {
                        let (i, j) = choose|i: int, j: int|
                            0 <= i < j < s@.len() && #[trigger] s@[i] == sep && #[trigger] s@[j]
                                == sep && (forall|k: int|
                                0 <= k < s@.len() && s@[k] == sep ==> k == i || k == j);
                        assert(i >= p1);
                        assert(j > p1);
                        assert(false);
                    }
                }
                None
            },
            Some(p2) => match find_from(s, sep, p2 + 1) {
                Some(p3) => {
                    proof {
                        if two_sep_decomp(s@, sep) {
                            let (i, j) = choose|i: int, j: int|
                                0 <= i < j < s@.len() && #[trigger] s@[i] == sep && #[trigger] s@[j]
                                    == sep && (forall|k: int|
                                    0 <= k < s@.len() && s@[k] == sep ==> k == i || k == j);
                            assert(p1 == i || p1 == j);
                            assert(p2 == i || p2 == j);
                            assert(p3 == i || p3 == j);
                            assert(false);
                        }
                    }
                    None
                },
                None => {
                    let a = substring(s, 0, p1);
                    let b = substring(s, p1 + 1, p2);
                    let c = substring(s, p2 + 1, n);
                    proof {
                        assert(found_at(s@, sep, p1 as int));
                        assert(two_sep_decomp(s@, sep)) by {
                            assert(0 <= (p1 as int) < (p2 as int) < s@.len() && s@[p1 as int]
                                == sep && s@[p2 as int] == sep && (forall|k: int|
                                0 <= k < s@.len() && s@[k] == sep ==> k == p1 as int || k
                                    == p2 as int));
                        }
                    }
                    Some((a, b, c))
                },
            },
        },
    }
}

/// The four parts of `s` split at exactly three occurrences of `sep`.
pub open spec fn spec_split4(s: Seq<char>, sep: char) -> Option<
    (Seq<char>, Seq<char>, Seq<char>, Seq<char>),
> {
    match spec_find(s, sep, 0) {
        None => None,
        Some(p1) => match spec_find(s, sep, p1 + 1) {
            None => None,
            Some(p2) => match spec_find(s, sep, p2 + 1) {
                None => None,
                Some(p3) => match spec_find(s, sep, p3 + 1) {
                    Some(_) => None,
                    None => Some(
                        (
                            s.subrange(0, p1),
                            s.subrange(p1 + 1, p2),
                            s.subrange(p2 + 1, p3),
                            s.subrange(p3 + 1, s.len() as int),
                        ),
                    ),
                },
            },
        },
    }
}

/// Splits `s` at `sep` into exactly four parts, or returns `None` when the
/// separator does not occur exactly three times.
pub fn split4(s: &str, sep: char) -> (r: Option<(String, String, String, String)>)
    ensures
        r is Some <==> three_sep_decomp(s@, sep),
        r is Some <==> spec_split4(s@, sep) is Some,
        r matches Some(t) ==> spec_split4(s@, sep) == Some((t.0@, t.1@, t.2@, t.3@)),
        r matches Some(t) ==> exists|i: int, j: int, l: int|
            #![trigger s@.subrange(i + 1, j), s@.subrange(j + 1, l)]
            {
                &&& found_at(s@, sep, i)
                &&& i < j < l < s@.len()
                &&& s@[j] == sep
                &&& s@[l] == sep
                &&& forall|k: int| i < k < j ==> s@[k] != sep
                &&& forall|k: int| j < k < l ==> s@[k] != sep
                &&& forall|k: int| l < k < s@.len() ==> s@[k] != sep
                &&& t.0@ == s@.subrange(0, i)
                &&& t.1@ == s@.subrange(i + 1, j)
                &&& t.2@ == s@.subrange(j + 1, l)
                &&& t.3@ == s@.subrange(l + 1, s@.len() as int)
            },
{
    let n = s.unicode_len();
    let p1 = match find_from(s, sep, 0) {
        Some(p) => p,
        None => {
            proof {
                if three_sep_decomp(s@, sep) {
                    let (i, j, l) = choose|i: int, j: int, l: int|
                        0 <= i < j < l < s@.len() && #[trigger] s@[i] == sep && #[trigger] s@[j]
                            == sep && #[trigger] s@[l] == sep && (forall|k: int|
                            0 <= k < s@.len() && s@[k] == sep ==> k == i || k == j || k == l);
                    assert(false);
                }
            }
            return None;
        },
    };
    let p2 = match find_from(s, sep, p1 + 1) {
        Some(p) => p,
        None => {
            proof {
                if three_sep_decomp(s@, sep) {
                    let (i, j, l) = choose|i: int, j: int, l: int|
                        0 <= i < j < l < s@.len() && #[trigger] s@[i] == sep && #[trigger] s@[j]
                            == sep && #[trigger] s@[l] == sep && (forall|k: int|
                            0 <= k < s@.len() && s@[k] == sep ==> k == i || k == j || k == l);
                    assert(i >= p1);
                    assert(false);
                }
            }
            return None;
        },
    };
    let p3 = match find_from(s, sep, p2 + 1) {
        Some(p) => p,
        None => {
            proof {
                if three_sep_decomp(s@, sep) {
                    let (i, j, l) = choose|i: int, j: int, l: int|
                        0 <= i < j < l < s@.len() && #[trigger] s@[i] == sep && #[trigger] s@[j]
                            == sep && #[trigger] s@[l] == sep && (forall|k: int|
                            0 <= k < s@.len() && s@[k] == sep ==> k == i || k == j || k == l);
                    assert(i >= p1);
                    assert(j >= p2);
                    assert(l > p2);
                    assert(false);
                }
            }
            return None;
        },
    };
    match find_from(s, sep, p3 + 1) {
        Some(p4) => {
            proof {
                if three_sep_decomp(s@, sep) {
                    let (i, j, l) = choose|i: int, j: int, l: int|
                        0 <= i < j < l < s@.len() && #[trigger] s@[i] == sep && #[trigger] s@[j]
                            == sep && #[trigger] s@[l] == sep && (forall|k: int|
                            0 <= k < s@.len() && s@[k] == sep ==> k == i || k == j || k == l);
                    assert(p1 == i || p1 == j || p1 == l);
                    assert(p2 == i || p2 == j || p2 == l);
                    assert(p3 == i || p3 == j || p3 == l);
                    assert(p4 == i || p4 == j || p4 == l);
                    assert(false);
                }
            }
            None
        },
        None => {
            let a = substring(s, 0, p1);
            let b = substring(s, p1 + 1, p2);
            let c = substring(s, p2 + 1, p3);
            let d = substring(s, p3 + 1, n);
            proof {
                assert(found_at(s@, sep, p1 as int));
                assert(three_sep_decomp(s@, sep)) by {
                    assert(0 <= (p1 as int) < (p2 as int) < (p3 as int) < s@.len() && s@[p1 as int]
                        == sep && s@[p2 as int] == sep && s@[p3 as int] == sep && (forall|k: int|
                        0 <= k < s@.len() && s@[k] == sep ==> k == p1 as int || k == p2 as int || k
                            == p3 as int));
                }
            }
            Some((a, b, c, d))
        },
    }
}

/// The part of an e-mail before the first `@`, or `None` when there is none.
pub fn email_local_part(s: &str) -> (r: Option<String>)
    ensures
        r is Some <==> local_of(s@) is Some,
        r matches Some(l) ==> local_of(s@) == Some(l@),
{
    match find_from(s, '@', 0) {
        None => None,
        Some(i) => Some(substring(s, 0, i)),
    }
}

/// The domain of an e-mail: the segment between the first `@` and the next
/// `@` or the end of the string.  Mirrors taking the second element of a
/// split at `@`.
pub fn email_domain(s: &str) -> (r: Option<String>)
    ensures
        r is Some <==> domain_of(s@) is Some,
        r matches Some(d) ==> domain_of(s@) == Some(d@),
{
    let n = s.unicode_len();
    match find_from(s, '@', 0) {
        None => None,
        Some(i) => {
            let end = match find_from(s, '@', i + 1) {
                Some(j) => j,
                None => n,
            };
            Some(substring(s, i + 1, end))
        },
    }
}

/// The prefix of `s` before the first `sep`; the whole string when `sep`
/// does not occur.
pub open spec fn spec_first_segment(s: Seq<char>, sep: char) -> Seq<char> {
    match spec_find(s, sep, 0) {
        None => s,
        Some(i) => s.subrange(0, i),
    }
}

/// The prefix of `s` before the first `sep`; the whole string when `sep`
/// does not occur.
pub fn first_segment(s: &str, sep: char) -> (r: String)
    ensures
        r@ == spec_first_segment(s@, sep),
        absent(s@, sep) ==> r@ == s@,
        !absent(s@, sep) ==> exists|i: int| #[trigger] found_at(s@, sep, i) && r@ == s@.subrange(
            0,
            i,
        ),
{
    let n = s.unicode_len();
    match find_from(s, sep, 0) {
        None => {
            proof {
                assert(s@.subrange(0, n as int) =~= s@);
            }
            substring(s, 0, n)
        },
        Some(i) => {
            proof {
                assert(found_at(s@, sep, i as int));
            }
            substring(s, 0, i)
        },
    }
}

/// The character of one decimal digit.
pub open spec fn digit_char(d: int) -> char {
    ((48 + d) as u8) as char
}

/// Decimal rendering of a natural number, most significant digit first.
pub open spec fn spec_decimal(n: int) -> Seq<char>
    decreases n,
{
    if n < 10 {
        seq![digit_char(if n < 0 { 0 } else { n % 10 })]
    } else {
        spec_decimal(n / 10).push(digit_char(n % 10))
    }
}

/// Decimal rendering of a signed number: a minus sign, then the digits of
/// the absolute value.
pub open spec fn spec_decimal_signed(n: int) -> Seq<char> {
    if n < 0 {
        seq!['-'] + spec_decimal(-n)
    } else {
        spec_decimal(n)
    }
}

/// Renders `n` in decimal.
pub fn u64_to_string(n: u64) -> (r: String)
    ensures
        r@ == spec_decimal(n as int),
{
    let mut digits: Vec<char> = Vec::new();
    let mut m: u64 = n;
    let d0: u64 = m % 10;
    let c0: char = ((48 + d0) as u8) as char;
    proof {
        assert(c0 == digit_char(m as int % 10));
    }
    digits.push(c0);
    m = m / 10;
    proof {
        assert(seq![c0].reverse() =~= seq![c0]);
        if m == 0 {
            assert(spec_decimal(n as int) =~= digits@.reverse());
        } else {
            assert(spec_decimal(m as int).push(c0) =~= spec_decimal(m as int) + seq![c0]);
            assert(spec_decimal(n as int) =~= spec_decimal(m as int) + digits@.reverse());
        }
    }
    while m > 0
        invariant
            m == 0 ==> spec_decimal(n as int) == digits@.reverse(),
            m > 0 ==> spec_decimal(n as int) == spec_decimal(m as int) + digits@.reverse(),
        decreases m,
    {
        let d: u64 = m % 10;
        let c: char = ((48 + d) as u8) as char;
        proof {
            assert(c == digit_char(m as int % 10));
            assert(digits@.push(c).reverse() =~= seq![c] + digits@.reverse());
        }
        digits.push(c);
        let ghost m_old: int = m as int;
        m = m / 10;
        proof {
            if m == 0 {
                assert(spec_decimal(m_old) =~= seq![digit_char(m_old % 10)]);
                assert(spec_decimal(n as int) =~= digits@.reverse());
            } else {
                assert(spec_decimal(m_old) =~= spec_decimal(m as int).push(digit_char(m_old % 10)));
                assert(spec_decimal(m as int).push(digit_char(m_old % 10)) =~= spec_decimal(
                    m as int,
                ) + seq![digit_char(m_old % 10)]);
                assert(spec_decimal(n as int) =~= spec_decimal(m as int) + digits@.reverse());
            }
        }
    }
    let mut out = String::new();
    let k = digits.len();
    let mut i: usize = 0;
    while i < k
        invariant
            k == digits@.len(),
            i <= k,
            out@ == digits@.reverse().take(i as int),
        decreases k - i,
    {
        let c = digits[k - 1 - i];
        proof {
            assert(digits@.reverse()[i as int] == digits@[k - 1 - i]);
            assert(digits@.reverse().take(i + 1) =~= digits@.reverse().take(i as int).push(
                digits@.reverse()[i as int],
            ));
        }
        push_char(&mut out, c);
        i = i + 1;
    }
    proof {
        assert(digits@.reverse().take(k as int) =~= digits@.reverse());
    }
    out
}

/// Renders `n` in decimal with a sign for negative values.
pub fn i32_to_string(n: i32) -> (r: String)
    ensures
        r@ == spec_decimal_signed(n as int),
{
    if n >= 0 {
        u64_to_string(n as u64)
    } else {
        let mag: u64 = (-(n as i64)) as u64;
        let digits = u64_to_string(mag);
        let mut out = String::new();
        push_char(&mut out, '-');
        proof {
            assert(out@ =~= seq!['-']);
        }
        let r = out.concat(digits.as_str());
        proof {
            assert(r@ =~= seq!['-'] + spec_decimal(-(n as int)));
        }
        r
    }
}

/// Numeric value of a decimal digit character, or `None`.
pub open spec fn spec_digit_val(c: char) -> Option<int> {
    if '0' <= c && c <= '9' {
        Some(c as int - 48)
    } else {
        None
    }
}

/// The value of a fixed run of decimal digits `s[from..to]`, or `None` when
/// any character of the run is not a digit.
pub open spec fn spec_digits_val(s: Seq<char>, from: int, to: int) -> Option<int>
    decreases to - from,
{
    if from >= to {
        Some(0)
    } else {
        match (spec_digits_val(s, from, to - 1), spec_digit_val(s[to - 1])) {
            (Some(h), Some(d)) => Some(h * 10 + d),
            _ => None,
        }
    }
}

/// Ten to the `k`.
pub open spec fn spec_pow10(k: nat) -> int
    decreases k,
{
    if k == 0 {
        1
    } else {
        10 * spec_pow10((k - 1) as nat)
    }
}

/// Parses the decimal digits of `s[from..to]` (at most 8 of them).
pub fn parse_digits(s: &str, from: usize, to: usize) -> (r: Option<u32>)
    requires
        from <= to <= s@.len(),
        to - from <= 8,
    ensures
        r matches Some(v) ==> spec_digits_val(s@, from as int, to as int) == Some(v as int),
        r is None <==> spec_digits_val(s@, from as int, to as int) is None,
{
    proof {
        assert(spec_pow10(0) == 1);
        assert(spec_pow10(1) == 10);
        assert(spec_pow10(2) == 100);
        assert(spec_pow10(3) == 1000);
        assert(spec_pow10(4) == 10000);
        assert(spec_pow10(5) == 100000);
        assert(spec_pow10(6) == 1000000);
        assert(spec_pow10(7) == 10000000);
        assert(spec_pow10(8) == 100000000);
        lemma_pow10_mono(0, (to - from) as nat);
    }
    let mut acc: u32 = 0;
    let mut i: usize = from;
    while i < to
        invariant
            from <= i <= to <= s@.len(),
            to - from <= 8,
            spec_digits_val(s@, from as int, i as int) == Some(acc as int),
            acc < spec_pow10((i - from) as nat),
            spec_pow10((to - from) as nat) <= 100000000,
        decreases to - i,
    {
        let c = s.get_char(i);
        if c < '0' || c > '9' {
            proof {
                assert(spec_digit_val(s@[i as int]) is None);
                lemma_digits_val_none(s@, from as int, i as int, to as int);
            }
            return None;
        }
        let d: u32 = (c as u32) - 48;
        proof {
            lemma_pow10_mono(((i - from) + 1) as nat, (to - from) as nat);
            assert(spec_pow10(((i - from) + 1) as nat) == 10 * spec_pow10((i - from) as nat));
        }
        acc = acc * 10 + d;
        i = i + 1;
    }
    Some(acc)
}

/// `spec_pow10` is monotone.
proof fn lemma_pow10_mono(a: nat, b: nat)
    requires
        a <= b,
    ensures
        spec_pow10(a) <= spec_pow10(b),
        spec_pow10(a) >= 1,
    decreases b,
{
    if a == b {
        if a == 0 {
        } else {
            lemma_pow10_mono((a - 1) as nat, (a - 1) as nat);
        }
    } else {
        lemma_pow10_mono(a, (b - 1) as nat);
    }
}

/// A run that contains a non-digit has no value.
proof fn lemma_digits_val_none(s: Seq<char>, from: int, bad: int, to: int)
    requires
        from <= bad < to <= s.len(),
        spec_digit_val(s[bad]) is None,
    ensures
        spec_digits_val(s, from, to) is None,
    decreases to - bad,
{
    if bad == to - 1 {
    } else {
        lemma_digits_val_none(s, from, bad, to - 1);
    }
}

/// Hexadecimal digit character (lower case) of a value below 16.
pub open spec fn hex_digit_char(d: int) -> char {
    if d < 10 {
        ((48 + d) as u8) as char
    } else {
        ((87 + d) as u8) as char
    }
}

/// JSON escaping of one character inside a string literal: quote and
/// backslash get a backslash, control characters become `\u00XX`, everything
/// else stands for itself.
pub open spec fn escape_char(c: char) -> Seq<char> {
    if c == '"' {
        seq!['\\', '"']
    } else if c == '\\' {
        seq!['\\', '\\']
    } else if (c as int) < 32 {
        seq!['\\', 'u', '0', '0', hex_digit_char((c as int) / 16), hex_digit_char((c as int) % 16)]
    } else {
        seq![c]
    }
}

/// JSON escaping of a whole character sequence.
pub open spec fn spec_json_escape(s: Seq<char>) -> Seq<char>
    decreases s.len(),
{
    if s.len() == 0 {
        Seq::empty()
    } else {
        escape_char(s[0]) + spec_json_escape(s.drop_first())
    }
}

proof fn lemma_json_escape_push(a: Seq<char>, x: char)
    ensures
        spec_json_escape(a.push(x)) == spec_json_escape(a) + escape_char(x),
    decreases a.len(),
{
    if a.len() == 0 {
        assert(a.push(x).drop_first() =~= Seq::<char>::empty());
        assert(a.push(x)[0] == x);
        assert(spec_json_escape(Seq::<char>::empty()) == Seq::<char>::empty());
        assert(spec_json_escape(a.push(x)) == escape_char(x) + Seq::<char>::empty());
        assert(escape_char(x) + Seq::<char>::empty() =~= escape_char(x));
        assert(spec_json_escape(a) == Seq::<char>::empty());
        assert(Seq::<char>::empty() + escape_char(x) =~= escape_char(x));
    } else {
        assert(a.push(x).drop_first() =~= a.drop_first().push(x));
        lemma_json_escape_push(a.drop_first(), x);
        assert(spec_json_escape(a.push(x)) =~= spec_json_escape(a) + escape_char(x));
    }
}

/// Appends the JSON escaping of `s` to `out`.
#[verifier::rlimit(30)]
pub fn append_json_escaped(out: &mut String, s: &str)
    ensures
        final(out)@ == old(out)@ + spec_json_escape(s@),
{
    let n = s.unicode_len();
    let mut i: usize = 0;
    while i < n
        invariant
            n == s@.len(),
            i <= n,
            out@ == old(out)@ + spec_json_escape(s@.take(i as int)),
        decreases n - i,
    {
        let c = s.get_char(i);
        if c == '"' {
            push_char(out, '\\');
            push_char(out, '"');
        } else if c == '\\' {
            push_char(out, '\\');
            push_char(out, '\\');
        } else if (c as u32) < 32 {
            push_char(out, '\\');
            push_char(out, 'u');
            push_char(out, '0');
            push_char(out, '0');
            let hi: u32 = (c as u32) / 16;
            let lo: u32 = (c as u32) % 16;
            let hc: char = if hi < 10 {
                ((48 + hi) as u8) as char
            } else {
                ((87 + hi) as u8) as char
            };
            let lc: char = if lo < 10 {
                ((48 + lo) as u8) as char
            } else {
                ((87 + lo) as u8) as char
            };
            proof {
                assert(hc == hex_digit_char((c as int) / 16));
                assert(lc == hex_digit_char((c as int) % 16));
            }
            push_char(out, hc);
            push_char(out, lc);
        } else {
            push_char(out, c);
        }
        i = i + 1;
        proof {
            assert(s@.take(i as int) =~= s@.take(i - 1).push(s@[i - 1]));
            lemma_json_escape_push(s@.take(i - 1), s@[i - 1]);
            assert(out@ =~= old(out)@ + spec_json_escape(s@.take(i as int)));
        }
    }
    proof {
        assert(s@.take(n as int) =~= s@);
    }
}

} // verus!
