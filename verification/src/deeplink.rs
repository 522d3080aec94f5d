//! Deep-link keyword extraction: pulls the `keyword` query parameter out of a
//! custom-scheme URL. The URL must mention the application's scheme; the
//! keyword is the text after the first `keyword=`, up to the next `keyword=`
//! occurrence, trimmed of ASCII whitespace and cut at the first `?` or `&`.

use vstd::prelude::*;

use vstd::string::StrSliceExecFns;
use vstd::string::StringExecFns;

verus! {

/// `needle` occurs at offset `k` of `hay`, character for character.
pub open spec fn match_cs_at(hay: Seq<char>, needle: Seq<char>, k: int) -> bool {
    &&& 0 <= k
    &&& k + needle.len() <= hay.len()
    &&& forall|j: int| 0 <= j < needle.len() ==> hay[k + j] == needle[j]
}

/// The first offset at or after `k` where `needle` occurs in `hay`, or -1.
pub open spec fn first_match_from(hay: Seq<char>, needle: Seq<char>, k: int) -> int
    decreases hay.len() - k + 1,
{
    if k < 0 || k + needle.len() > hay.len() {
        -1
    } else if match_cs_at(hay, needle, k) {
        k
    } else {
        first_match_from(hay, needle, k + 1)
    }
}

/// A found occurrence lies at or after the start offset and fits in the
/// haystack.
pub proof fn lemma_first_match_bounds(hay: Seq<char>, needle: Seq<char>, k: int)
    ensures
        first_match_from(hay, needle, k) == -1 || (first_match_from(hay, needle, k) >= k
            && first_match_from(hay, needle, k) + needle.len() <= hay.len()),
    decreases hay.len() - k + 1,
{
    if !(k < 0 || k + needle.len() > hay.len()) && !match_cs_at(hay, needle, k) {
        lemma_first_match_bounds(hay, needle, k + 1);
    }
}

/// ASCII whitespace, as trimmed from the ends of the extracted keyword.
pub open spec fn is_space(c: char) -> bool {
    c == ' ' || c == '\t' || c == '\r' || c == '\n'
}

/// The first offset at or after `k` holding a non-space character, or the
/// length when only spaces remain.
pub open spec fn scan_nonspace(s: Seq<char>, k: int) -> int
    decreases s.len() - k + 1,
{
    if k < 0 || k >= s.len() {
        s.len() as int
    } else if is_space(s[k]) {
        scan_nonspace(s, k + 1)
    } else {
        k
    }
}

/// One past the last non-space character at or below offset `k`, or 0 when
/// only spaces lie below.
pub open spec fn trim_end_at(s: Seq<char>, k: int) -> int
    decreases k,
{
    if k <= 0 || k > s.len() {
        0
    } else if is_space(s[k - 1]) {
        trim_end_at(s, k - 1)
    } else {
        k
    }
}

/// `s` with ASCII whitespace removed from both ends.
pub open spec fn trimmed(s: Seq<char>) -> Seq<char> {
    let a = scan_nonspace(s, 0);
    let b = trim_end_at(s, s.len() as int);
    if a < b {
        s.subrange(a, b)
    } else {
        Seq::empty()
    }
}

/// The first offset at or after `k` holding a query separator (`?` or `&`),
/// or the length when none follows.
pub open spec fn first_sep_from(s: Seq<char>, k: int) -> int
    decreases s.len() - k + 1,
{
    if k < 0 || k >= s.len() {
        s.len() as int
    } else if s[k] == '?' || s[k] == '&' {
        k
    } else {
        first_sep_from(s, k + 1)
    }
}

/// What the deep-link handler extracts from a URL: nothing unless the URL
/// mentions the scheme and carries `keyword=`; otherwise the text between the
/// first `keyword=` and the next occurrence (or the end), trimmed, and cut at
/// the first query separator.
pub open spec fn extract_keyword_model(url: Seq<char>) -> Option<Seq<char>> {
    if first_match_from(url, "mcplink"@, 0) < 0 {
        None
    } else {
        let k = first_match_from(url, "keyword="@, 0);
        if k < 0 {
            None
        } else {
            let s = k + "keyword="@.len();
            let e2 = first_match_from(url, "keyword="@, s);
            let e = if e2 < 0 {
                url.len() as int
            } else {
                e2
            };
            let t = trimmed(url.subrange(s, e));
            Some(t.subrange(0, first_sep_from(t, 0)))
        }
    }
}

/// Whether `needle` occurs at offset `k` of `hay`; false when it would not
/// fit.
fn matches_at(hay: &str, needle: &str, k: usize) -> (r: bool)
    ensures
        r == match_cs_at(hay@, needle@, k as int),
{
    let hn = hay.unicode_len();
    let nn = needle.unicode_len();
    if nn > hn || k > hn - nn {
        return false;
    }
    let mut j: usize = 0;
    while j < nn
        invariant
            hn == hay@.len(),
            nn == needle@.len(),
            nn <= hn,
            k <= hn - nn,
            j <= nn,
            forall|j2: int| 0 <= j2 < j ==> hay@[k + j2] == needle@[j2],
        decreases nn - j,
    {
        if hay.get_char(k + j) != needle.get_char(j) {
            return false;
        }
        j = j + 1;
    }
    true
}

/// The first occurrence of `needle` in `hay` at or after offset `from`.
pub fn find_sub(hay: &str, needle: &str, from: usize) -> (r: Option<usize>)
    ensures
        match r {
            Some(k) => first_match_from(hay@, needle@, from as int) == k as int,
            None => first_match_from(hay@, needle@, from as int) == -1,
        },
{
    let hn = hay.unicode_len();
    let nn = needle.unicode_len();
    if nn > hn || from > hn - nn {
        return None;
    }
    let mut k: usize = from;
    while k <= hn - nn
        invariant
            hn == hay@.len(),
            nn == needle@.len(),
            nn <= hn,
            from <= k,
            k <= hn - nn + 1,
            first_match_from(hay@, needle@, from as int) == first_match_from(
                hay@,
                needle@,
                k as int,
            ),
        decreases hn - nn - k + 1,
    {
        if matches_at(hay, needle, k) {
            return Some(k);
        }
        k = k + 1;
    }
    None
}

/// Executable ASCII-whitespace test, equal to `is_space`.
fn is_space_char(c: char) -> (r: bool)
    ensures
        r == is_space(c),
{
    c == ' ' || c == '\t' || c == '\r' || c == '\n'
}

/// Executable query-separator test.
fn is_sep_char(c: char) -> (r: bool)
    ensures
        r == (c == '?' || c == '&'),
{
    c == '?' || c == '&'
}

/// Parses a deep-link URL for its `keyword` parameter, as the deep-link
/// trigger does before it asks for an activation.
pub fn extract_keyword(url: &str) -> (r: Option<String>)
    ensures
        match r {
            Some(kw) => extract_keyword_model(url@) == Some(kw@),
            None => extract_keyword_model(url@) is None,
        },
{
    if find_sub(url, "mcplink", 0).is_none() {
        return None;
    }
    let k = match find_sub(url, "keyword=", 0) {
        None => {
            return None;
        },
        Some(k) => k,
    };
    let ulen = url.unicode_len();
    proof {
        reveal_strlit("keyword=");
        lemma_first_match_bounds(url@, "keyword="@, 0);
        assert(k + 8 <= ulen);
    }
    let s = k + 8;
    let e = match find_sub(url, "keyword=", s) {
        None => ulen,
        Some(e2) => {
            proof {
                lemma_first_match_bounds(url@, "keyword="@, s as int);
            }
            e2
        },
    };
    let part = url.substring_char(s, e);
    let plen = part.unicode_len();
    let mut a: usize = 0;
    while a < plen && is_space_char(part.get_char(a))
        invariant
            plen == part@.len(),
            a <= plen,
            scan_nonspace(part@, 0) == scan_nonspace(part@, a as int),
        decreases plen - a,
    {
        a = a + 1;
    }
    let mut b: usize = plen;
    while b > 0 && is_space_char(part.get_char(b - 1))
        invariant
            plen == part@.len(),
            b <= plen,
            trim_end_at(part@, plen as int) == trim_end_at(part@, b as int),
        decreases b,
    {
        b = b - 1;
    }
    if a >= b {
        let empty = String::new();
        proof {
            assert(trimmed(part@) =~= Seq::<char>::empty());
            assert(trimmed(part@).subrange(0, first_sep_from(trimmed(part@), 0)) =~= Seq::<
                char,
            >::empty());
        }
        return Some(empty);
    }
    let t = part.substring_char(a, b);
    proof {
        assert(t@ == trimmed(part@));
    }
    let tlen = t.unicode_len();
    let mut c: usize = 0;
    while c < tlen && !is_sep_char(t.get_char(c))
        invariant
            tlen == t@.len(),
            c <= tlen,
            first_sep_from(t@, 0) == first_sep_from(t@, c as int),
        decreases tlen - c,
    {
        c = c + 1;
    }
    let out = t.substring_char(0, c);
    Some(out.to_owned())
}

} // verus!
