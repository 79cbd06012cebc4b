//! Verified text utilities: substring search, whitespace-delimited tokens,
//! and decimal rendering of integers. The log classifier and the status
//! messages of the supervisor are built on these.

use vstd::prelude::*;

verus! {

/// `needle` occurs in `hay` starting at position `i`.
pub open spec fn match_at(hay: Seq<char>, needle: Seq<char>, i: int) -> bool {
    0 <= i && i + needle.len() <= hay.len() && hay.subrange(i, i + needle.len()) == needle
}

/// `needle` occurs somewhere in `hay`.
pub open spec fn contains_seq(hay: Seq<char>, needle: Seq<char>) -> bool {
    exists|i: int| match_at(hay, needle, i)
}

/// Position of the first occurrence of `needle` at or after `i`, if any.
pub open spec fn find_from(hay: Seq<char>, needle: Seq<char>, i: int) -> Option<int>
    decreases hay.len() - i,
    when 0 <= i && needle.len() >= 1
{
    if i + needle.len() > hay.len() {
        None
    } else if match_at(hay, needle, i) {
        Some(i)
    } else {
        find_from(hay, needle, i + 1)
    }
}

/// Position of the first occurrence of `needle` in `hay`, if any.
pub open spec fn find_seq(hay: Seq<char>, needle: Seq<char>) -> Option<int> {
    find_from(hay, needle, 0)
}

/// The characters Rust's `char::is_whitespace` accepts: the Unicode
/// `White_Space` set.
pub open spec fn is_space(c: char) -> bool {
    c == ' ' || c == '\t' || c == '\n' || c == '\r' || c == '\u{000B}' || c == '\u{000C}'
        || c == '\u{0085}' || c == '\u{00A0}' || c == '\u{1680}'
        || ('\u{2000}' <= c && c <= '\u{200A}')
        || c == '\u{2028}' || c == '\u{2029}' || c == '\u{202F}' || c == '\u{205F}'
        || c == '\u{3000}'
}

/// First position at or after `i` holding whitespace, or the end of `s`.
pub open spec fn token_end(s: Seq<char>, i: int) -> int
    decreases s.len() - i,
    when 0 <= i <= s.len()
{
    if i == s.len() {
        i
    } else if is_space(s[i]) {
        i
    } else {
        token_end(s, i + 1)
    }
}

/// The first whitespace-delimited token of `line` that starts with
/// `https://`, if one occurs: the URL-extraction rule of the classifier.
pub open spec fn spec_extract_url(line: Seq<char>) -> Option<Seq<char>> {
    match find_seq(line, "https://"@) {
        Some(i) => Some(line.subrange(i, token_end(line, i))),
        None => None,
    }
}

/// Decimal digit for a value below ten.
pub open spec fn dec_digit(d: int) -> char {
    if d == 0 { '0' }
    else if d == 1 { '1' }
    else if d == 2 { '2' }
    else if d == 3 { '3' }
    else if d == 4 { '4' }
    else if d == 5 { '5' }
    else if d == 6 { '6' }
    else if d == 7 { '7' }
    else if d == 8 { '8' }
    else { '9' }
}

/// Decimal rendering of a non-negative integer, without leading zeros.
pub open spec fn dec_str(n: int) -> Seq<char>
    decreases n,
    when n >= 0
{
    if n < 10 {
        seq![dec_digit(n)]
    } else {
        dec_str(n / 10) + seq![dec_digit(n % 10)]
    }
}

/// Decimal rendering of an integer, with a leading minus sign if negative.
pub open spec fn int_str(n: int) -> Seq<char> {
    if n < 0 {
        seq!['-'] + dec_str(-n)
    } else {
        dec_str(n)
    }
}

/// Whether `c` is Unicode whitespace, mirroring `is_space`.
pub fn is_space_char(c: char) -> (r: bool)
    ensures
        r == is_space(c),
{
    c == ' ' || c == '\t' || c == '\n' || c == '\r' || c == '\u{000B}' || c == '\u{000C}'
        || c == '\u{0085}' || c == '\u{00A0}' || c == '\u{1680}'
        || ('\u{2000}' <= c && c <= '\u{200A}')
        || c == '\u{2028}' || c == '\u{2029}' || c == '\u{202F}' || c == '\u{205F}'
        || c == '\u{3000}'
}

/// Character-for-character equality of two string slices.
pub fn str_eq(a: &str, b: &str) -> (r: bool)
    ensures
        r == (a@ == b@),
{
    let alen = a.unicode_len();
    let blen = b.unicode_len();
    if alen != blen {
        return false;
    }
    let mut i: usize = 0;
    while i < alen
        invariant
            alen == a@.len(),
            blen == b@.len(),
            alen == blen,
            i <= alen,
            forall|k: int| 0 <= k < i ==> a@[k] == b@[k],
        decreases alen - i,
    {
        if a.get_char(i) != b.get_char(i) {
            return false;
        }
        i += 1;
    }
    proof {
        assert(a@ =~= b@);
    }
    true
}

/// `needle` occurs in `hay` starting at position `i`.
fn matches_at(hay: &str, needle: &str, i: usize) -> (r: bool)
    requires
        i + needle@.len() <= hay@.len(),
        hay@.len() <= usize::MAX,
    ensures
        r == match_at(hay@, needle@, i as int),
{
    let nlen = needle.unicode_len();
    let mut j: usize = 0;
    while j < nlen
        invariant
            nlen == needle@.len(),
            i + nlen <= hay@.len(),
            hay@.len() <= usize::MAX,
            j <= nlen,
            forall|k: int| 0 <= k < j ==> hay@[i + k] == needle@[k],
        decreases nlen - j,
    {
        if hay.get_char(i + j) != needle.get_char(j) {
            proof {
                assert(!match_at(hay@, needle@, i as int)) by {
                    if match_at(hay@, needle@, i as int) {
                        assert(hay@.subrange(i as int, i + needle@.len())[j as int]
                            == needle@[j as int]);
                    }
                }
            }
            return false;
        }
        j += 1;
    }
    proof {
        assert(hay@.subrange(i as int, i + needle@.len()) =~= needle@);
    }
    true
}

/// Whether `needle` occurs in `hay`, as `contains_seq` states it.
pub fn contains_sub(hay: &str, needle: &str) -> (r: bool)
    ensures
        r == contains_seq(hay@, needle@),
{
    let hlen = hay.unicode_len();
    let nlen = needle.unicode_len();
    if nlen == 0 {
        proof {
            assert(match_at(hay@, needle@, 0)) by {
                assert(hay@.subrange(0, 0) =~= needle@);
            }
        }
        return true;
    }
    if nlen > hlen {
        proof {
            assert(forall|k: int| !match_at(hay@, needle@, k));
        }
        return false;
    }
    let mut i: usize = 0;
    while i <= hlen - nlen
        invariant
            hlen == hay@.len(),
            nlen == needle@.len(),
            1 <= nlen <= hlen,
            i <= hlen - nlen + 1,
            forall|k: int| 0 <= k < i ==> !match_at(hay@, needle@, k),
        decreases hlen - i,
    {
        if matches_at(hay, needle, i) {
            return true;
        }
        i += 1;
    }
    proof {
        assert(forall|k: int| !match_at(hay@, needle@, k));
    }
    false
}

/// Position of the first occurrence of `needle` in `hay`, as `find_seq`
/// states it.
pub fn find_sub(hay: &str, needle: &str) -> (r: Option<usize>)
    requires
        needle@.len() >= 1,
    ensures
        match r {
            Some(i) => find_seq(hay@, needle@) == Some(i as int)
                && i + needle@.len() <= hay@.len(),
            None => find_seq(hay@, needle@) is None,
        },
{
    let hlen = hay.unicode_len();
    let nlen = needle.unicode_len();
    if nlen > hlen {
        proof {
            assert(find_from(hay@, needle@, 0) is None);
        }
        return None;
    }
    let mut i: usize = 0;
    while i <= hlen - nlen
        invariant
            hlen == hay@.len(),
            nlen == needle@.len(),
            1 <= nlen <= hlen,
            i <= hlen - nlen + 1,
            find_from(hay@, needle@, 0) == find_from(hay@, needle@, i as int),
        decreases hlen - i,
    {
        if matches_at(hay, needle, i) {
            proof {
                assert(find_from(hay@, needle@, i as int) == Some(i as int));
            }
            return Some(i);
        }
        proof {
            assert(find_from(hay@, needle@, i as int) == find_from(hay@, needle@, i + 1));
        }
        i += 1;
    }
    proof {
        assert(find_from(hay@, needle@, i as int) is None);
    }
    None
}

/// End of the whitespace-delimited token starting at `j`, as `token_end`
/// states it.
pub fn token_end_at(line: &str, j: usize) -> (r: usize)
    requires
        j <= line@.len(),
        line@.len() <= usize::MAX,
    ensures
        r == token_end(line@, j as int),
        j <= r <= line@.len(),
    decreases line@.len() - j,
{
    let hlen = line.unicode_len();
    if j == hlen {
        return j;
    }
    if is_space_char(line.get_char(j)) {
        return j;
    }
    token_end_at(line, j + 1)
}

/// The first whitespace-delimited token starting with `https://`, as
/// `spec_extract_url` states it.
pub fn extract_url(line: &str) -> (r: Option<String>)
    ensures
        r.deep_view() == spec_extract_url(line@),
{
    proof {
        reveal_strlit("https://");
    }
    let hlen = line.unicode_len();
    match find_sub(line, "https://") {
        None => None,
        Some(i) => {
            let j = token_end_at(line, i);
            let sub = line.substring_char(i, j);
            Some(sub.to_owned())
        },
    }
}

/// Decimal digit as a one-character string.
fn digit_str(d: u64) -> (r: &'static str)
    requires
        d < 10,
    ensures
        r@ == seq![dec_digit(d as int)],
{
    let r: &'static str = if d == 0 { "0" }
        else if d == 1 { "1" }
        else if d == 2 { "2" }
        else if d == 3 { "3" }
        else if d == 4 { "4" }
        else if d == 5 { "5" }
        else if d == 6 { "6" }
        else if d == 7 { "7" }
        else if d == 8 { "8" }
        else { "9" };
    proof {
        reveal_strlit("0");
        reveal_strlit("1");
        reveal_strlit("2");
        reveal_strlit("3");
        reveal_strlit("4");
        reveal_strlit("5");
        reveal_strlit("6");
        reveal_strlit("7");
        reveal_strlit("8");
        reveal_strlit("9");
        assert(r@ =~= seq![dec_digit(d as int)]);
    }
    r
}

/// Appends the decimal rendering of `n` to `out`.
fn push_dec(n: u64, out: &mut String)
    ensures
        final(out)@ == old(out)@ + dec_str(n as int),
    decreases n,
{
    if n >= 10 {
        push_dec(n / 10, out);
    }
    let d = digit_str(n % 10);
    out.append(d);
    proof {
        if n < 10 {
            assert(out@ =~= old(out)@ + dec_str(n as int));
        } else {
            assert(out@ =~= old(out)@ + dec_str(n as int));
        }
    }
}

/// Decimal rendering of `n`, as `dec_str` states it.
pub fn u64_string(n: u64) -> (r: String)
    ensures
        r@ == dec_str(n as int),
{
    let mut s = String::new();
    push_dec(n, &mut s);
    proof {
        assert(s@ =~= dec_str(n as int));
    }
    s
}

/// Signed decimal rendering of `c`, as `int_str` states it.
pub fn i32_string(c: i32) -> (r: String)
    ensures
        r@ == int_str(c as int),
{
    if c < 0 {
        let wide: i64 = c as i64;
        let mag: u64 = (-wide) as u64;
        let mut s = String::from_str("-");
        push_dec(mag, &mut s);
        proof {
            reveal_strlit("-");
            assert(s@ =~= int_str(c as int));
        }
        s
    } else {
        let mag: u64 = c as u64;
        u64_string(mag)
    }
}

} // verus!
