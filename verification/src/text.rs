//! Text helpers shared by the parsers and the prompt builders.

use vstd::prelude::*;
use vstd::string::*;

verus! {

/// Whether `char::is_whitespace` holds of a character.
pub uninterp spec fn white_space(c: char) -> bool;

/// The text that `str::to_uppercase` gives for a text.
pub uninterp spec fn uppercased(text: Seq<char>) -> Seq<char>;

/// The text that `String::from_utf8_lossy` reads from bytes.
pub uninterp spec fn lossy_text(bytes: Seq<u8>) -> Seq<char>;

/// Calls `char::is_whitespace`, and names its answer `white_space`.
#[verifier::external_body]
pub(crate) fn is_white_space(c: char) -> (r: bool)
    ensures
        r == white_space(c),
{
    c.is_whitespace()
}

/// Calls `str::to_uppercase`, and names its result `uppercased`.
#[verifier::external_body]
pub(crate) fn to_uppercase(text: &str) -> (r: String)
    ensures
        r@ == uppercased(text@),
{
    text.to_uppercase()
}

/// Calls `String::from_utf8_lossy`, and names the text it reads
/// `lossy_text`.
#[verifier::external_body]
pub(crate) fn decode_lossy(bytes: &[u8]) -> (r: String)
    ensures
        r@ == lossy_text(bytes@),
{
    String::from_utf8_lossy(bytes).into_owned()
}

/// The view of an optional text.
pub open spec fn opt_text(o: Option<String>) -> Option<Seq<char>> {
    match o {
        Some(s) => Some(s@),
        None => None,
    }
}

/// Zero or one value as a sequence.
pub open spec fn opt_seq<T>(o: Option<T>) -> Seq<T> {
    match o {
        Some(v) => seq![v],
        None => Seq::empty(),
    }
}

/// The views of a sequence of texts.
pub open spec fn texts(v: Seq<String>) -> Seq<Seq<char>> {
    Seq::new(v.len(), |i: int| v[i]@)
}

/// The first index at or after `i` that holds no whitespace, or the end.
pub open spec fn skip_blank(s: Seq<char>, i: int) -> int
    decreases s.len() - i,
{
    if 0 <= i < s.len() && white_space(s[i]) {
        skip_blank(s, i + 1)
    } else {
        i
    }
}

/// The end of `s[from..j]` once trailing whitespace is cut off.
pub open spec fn cut_blank(s: Seq<char>, from: int, j: int) -> int
    decreases j,
{
    if 0 <= from < j <= s.len() && white_space(s[j - 1]) {
        cut_blank(s, from, j - 1)
    } else {
        j
    }
}

/// Where the text without its leading whitespace begins.
pub open spec fn trim_start(s: Seq<char>) -> int {
    skip_blank(s, 0)
}

/// Where the text without its trailing whitespace ends.
pub open spec fn trim_end(s: Seq<char>) -> int {
    cut_blank(s, trim_start(s), s.len() as int)
}

/// The text without leading and trailing whitespace.
pub open spec fn trimmed(s: Seq<char>) -> Seq<char> {
    s.subrange(trim_start(s), trim_end(s))
}

/// Whether `needle` stands in `hay` at position `at`.
pub open spec fn holds_at(hay: Seq<char>, at: int, needle: Seq<char>) -> bool {
    &&& 0 <= at
    &&& at + needle.len() <= hay.len()
    &&& hay.subrange(at, at + needle.len()) == needle
}

/// Whether `needle` occurs anywhere in `hay`.
pub open spec fn contains_text(hay: Seq<char>, needle: Seq<char>) -> bool {
    exists|at: int| holds_at(hay, at, needle)
}

/// The texts joined, with `sep` between each two neighbours.
pub open spec fn joined(parts: Seq<Seq<char>>, sep: Seq<char>) -> Seq<char>
    decreases parts.len(),
{
    if parts.len() == 0 {
        Seq::empty()
    } else if parts.len() == 1 {
        parts[0]
    } else {
        joined(parts.drop_last(), sep) + sep + parts.last()
    }
}

/// The characters of `s`, in order.
pub fn chars_of(s: &str) -> (r: Vec<char>)
    ensures
        r@ == s@,
{
    let mut out: Vec<char> = Vec::new();
    for c in it: s.chars()
        invariant
            out@ == it.seq().take(it.index() as int),
            it.seq() == s@,
    {
        out.push(c);
    }
    out
}

/// Whether two texts hold the same characters.
pub fn same_text(a: &str, b: &str) -> (r: bool)
    ensures
        r == (a@ == b@),
{
    let x = a.to_owned();
    let y = b.to_owned();
    x == y
}

/// A copy of an optional text.
pub fn clone_opt(o: &Option<String>) -> (r: Option<String>)
    ensures
        opt_text(r) == opt_text(*o),
{
    match o {
        Some(s) => Some(s.clone()),
        None => None,
    }
}

/// A copy of a list of texts.
pub fn clone_texts(v: &Vec<String>) -> (r: Vec<String>)
    ensures
        texts(r@) == texts(v@),
{
    let mut out: Vec<String> = Vec::new();
    let mut i: usize = 0;
    while i < v.len()
        invariant
            i <= v.len(),
            out.len() == i,
            forall|j: int| 0 <= j < i ==> out@[j]@ == v@[j]@,
        decreases v.len() - i,
    {
        out.push(v[i].clone());
        i += 1;
    }
    assert(texts(out@) =~= texts(v@));
    out
}

/// Finds the bounds of the text once leading and trailing whitespace is
/// taken off.
pub fn trim_bounds(chars: &Vec<char>) -> (r: (usize, usize))
    ensures
        r.0 == trim_start(chars@),
        r.1 == trim_end(chars@),
        r.0 <= r.1 <= chars.len(),
{
    let mut i: usize = 0;
    while i < chars.len() && is_white_space(chars[i])
        invariant
            i <= chars.len(),
            skip_blank(chars@, 0) == skip_blank(chars@, i as int),
        decreases chars.len() - i,
    {
        i += 1;
    }
    let mut j: usize = chars.len();
    while i < j && is_white_space(chars[j - 1])
        invariant
            i <= j <= chars.len(),
            cut_blank(chars@, i as int, chars@.len() as int) == cut_blank(chars@, i as int, j as int),
        decreases j,
    {
        j -= 1;
    }
    (i, j)
}

/// The text without leading and trailing whitespace.
pub fn trim(text: &str) -> (r: String)
    ensures
        r@ == trimmed(text@),
{
    let chars = chars_of(text);
    let (i, j) = trim_bounds(&chars);
    text.substring_char(i, j).to_owned()
}

/// Whether a text holds nothing but whitespace.
pub fn is_blank(text: &str) -> (r: bool)
    ensures
        r == (trimmed(text@).len() == 0),
{
    let chars = chars_of(text);
    let (i, j) = trim_bounds(&chars);
    i == j
}

/// Whether `needle` stands in `hay` at position `at`.
pub fn matches_at(hay: &Vec<char>, at: usize, needle: &Vec<char>) -> (r: bool)
    ensures
        r == holds_at(hay@, at as int, needle@),
{
    if at > hay.len() || needle.len() > hay.len() - at {
        return false;
    }
    let mut k: usize = 0;
    while k < needle.len()
        invariant
            k <= needle.len(),
            at + needle.len() <= hay.len(),
            forall|m: int| 0 <= m < k ==> hay@[at + m] == needle@[m],
        decreases needle.len() - k,
    {
        if hay[at + k] != needle[k] {
            assert(hay@.subrange(at as int, at + needle.len())[k as int] != needle@[k as int]);
            return false;
        }
        k += 1;
    }
    assert(hay@.subrange(at as int, at + needle.len()) =~= needle@);
    true
}

/// Whether `needle` occurs anywhere in `hay`.
pub fn contains(hay: &str, needle: &str) -> (r: bool)
    ensures
        r == contains_text(hay@, needle@),
{
    let h = chars_of(hay);
    let n = chars_of(needle);
    let mut at: usize = 0;
    while at < h.len()
        invariant
            at <= h.len(),
            h@ == hay@,
            n@ == needle@,
            forall|p: int| 0 <= p < at ==> !holds_at(h@, p, n@),
        decreases h.len() - at,
    {
        if matches_at(&h, at, &n) {
            return true;
        }
        at += 1;
    }
    if matches_at(&h, at, &n) {
        return true;
    }
    assert(!contains_text(h@, n@)) by {
        assert forall|p: int| !holds_at(h@, p, n@) by {
            if holds_at(h@, p, n@) {
                assert(0 <= p <= h@.len());
            }
        }
    }
    false
}

/// Joins texts with a separator between each two neighbours.
pub fn join(parts: &Vec<String>, sep: &str) -> (r: String)
    ensures
        r@ == joined(texts(parts@), sep@),
{
    let mut out = String::new();
    let mut i: usize = 0;
    while i < parts.len()
        invariant
            i <= parts.len(),
            out@ == joined(texts(parts@).take(i as int), sep@),
        decreases parts.len() - i,
    {
        let ghost before = texts(parts@).take(i as int);
        let ghost after = texts(parts@).take(i + 1);
        proof {
            assert(after.drop_last() =~= before);
            assert(after.last() == parts@[i as int]@);
        }
        if i > 0 {
            out.append(sep);
        }
        out.append(parts[i].as_str());
        proof {
            if i == 0 {
                assert(before.len() == 0);
                assert(out@ =~= parts@[0]@);
            }
        }
        i += 1;
    }
    assert(texts(parts@).take(parts.len() as int) =~= texts(parts@));
    out
}

} // verus!
