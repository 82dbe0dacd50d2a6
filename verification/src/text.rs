//! Small helpers over strings and string lists, stated over `Seq<char>`.

use vstd::prelude::*;
use vstd::string::StringExecFns;

verus! {

/// Equality of two string slices.
///
/// Trusted: wraps `str`'s `==` from the standard library, which compares the
/// two slices character by character; the result is true exactly when both
/// hold the same sequence of characters.
#[verifier::external_body]
pub(crate) fn same_text(a: &str, b: &str) -> (r: bool)
    ensures
        r == (a@ == b@),
{
    a == b
}

/// The lower-case form of a text, by the rules of Unicode.
pub uninterp spec fn lowercase_of(text: Seq<char>) -> Seq<char>;

/// The lower-case form of a string.
///
/// Trusted: wraps `str::to_lowercase` from the standard library, which maps
/// each character by the Unicode lower-case rules; the result depends on the
/// text alone.
#[verifier::external_body]
pub(crate) fn lowercase(s: &str) -> (r: String)
    ensures
        r@ == lowercase_of(s@),
{
    s.to_lowercase()
}

/// A text without the white space at its two ends, by the rules of Unicode.
pub uninterp spec fn trimmed_of(text: Seq<char>) -> Seq<char>;

/// A string without the white space at its two ends.
///
/// Trusted: wraps `str::trim` from the standard library, which removes
/// leading and trailing characters that Unicode classes as white space; the
/// result depends on the text alone.
#[verifier::external_body]
pub(crate) fn trim_text(s: &str) -> (r: &str)
    ensures
        r@ == trimmed_of(s@),
{
    s.trim()
}

/// A text without the run of `c` at its start.
pub open spec fn without_leading(text: Seq<char>, c: char) -> Seq<char>
    decreases text.len(),
{
    if text.len() > 0 && text[0] == c {
        without_leading(text.drop_first(), c)
    } else {
        text
    }
}

/// A text without the run of `c` at its end.
pub open spec fn without_trailing(text: Seq<char>, c: char) -> Seq<char>
    decreases text.len(),
{
    if text.len() > 0 && text.last() == c {
        without_trailing(text.drop_last(), c)
    } else {
        text
    }
}

/// A text without the runs of `c` at its two ends.
pub open spec fn stripped_of(text: Seq<char>, c: char) -> Seq<char> {
    without_trailing(without_leading(text, c), c)
}

/// A string without the runs of `c` at its two ends.
///
/// Trusted: wraps `str::trim_matches` from the standard library with a
/// character as the pattern, which removes every leading and every trailing
/// occurrence of that character and keeps what lies between.
#[verifier::external_body]
pub(crate) fn strip_char(s: &str, c: char) -> (r: &str)
    ensures
        r@ == stripped_of(s@, c),
{
    s.trim_matches(c)
}

/// Whether `needle` occurs in `text` as a run of consecutive characters.
pub open spec fn occurs_in(needle: Seq<char>, text: Seq<char>) -> bool {
    exists|i: int|
        0 <= i && i + needle.len() <= text.len() && #[trigger] text.subrange(
            i,
            i + needle.len(),
        ) == needle
}

/// Whether `needle` occurs in `text`.
///
/// Trusted: wraps `str::contains` from the standard library with a string as
/// the pattern, which is true exactly when the pattern occurs somewhere in
/// the text.
#[verifier::external_body]
pub(crate) fn contains_text(text: &str, needle: &str) -> (r: bool)
    ensures
        r == occurs_in(needle@, text@),
{
    text.contains(needle)
}

/// The words of a text: its maximal runs of characters that Unicode does not
/// class as white space, in order.
pub uninterp spec fn words_of(text: Seq<char>) -> Seq<Seq<char>>;

/// Splits a string into its words.
///
/// Trusted: wraps `str::split_whitespace` from the standard library, which
/// gives the non-empty pieces between runs of Unicode white space, in order;
/// the result depends on the text alone. Each piece is copied out.
#[verifier::external_body]
pub(crate) fn split_words(s: &str) -> (r: Vec<String>)
    ensures
        r.deep_view() == words_of(s@),
{
    let mut words = Vec::new();
    for word in s.split_whitespace() {
        words.push(word.to_string());
    }
    words
}

/// The lines of a text: its pieces between line breaks, each without its
/// line break; a text that ends in a line break has no empty last line.
pub uninterp spec fn lines_of(text: Seq<char>) -> Seq<Seq<char>>;

/// Splits a string into its lines.
///
/// Trusted: wraps `str::lines` from the standard library, which splits at
/// `\n`, takes a `\r` before it as part of the break, and gives no empty
/// line after a final break; the result depends on the text alone. Each line
/// is copied out.
#[verifier::external_body]
pub(crate) fn split_lines(s: &str) -> (r: Vec<String>)
    ensures
        r.deep_view() == lines_of(s@),
{
    let mut lines = Vec::new();
    for line in s.lines() {
        lines.push(line.to_string());
    }
    lines
}

/// How often a pattern occurs in a text, counting from the left and never
/// counting a character twice: where the text starts with the pattern, that
/// is one match and the count goes on behind it; else it goes on one
/// character further. The empty pattern matches before each character and
/// at the end.
pub open spec fn match_count(text: Seq<char>, pattern: Seq<char>) -> nat
    decreases text.len(),
{
    if pattern.len() == 0 {
        text.len() + 1
    } else if text.len() < pattern.len() {
        0
    } else if text.subrange(0, pattern.len() as int) == pattern {
        1 + match_count(text.skip(pattern.len() as int), pattern)
    } else {
        match_count(text.skip(1), pattern)
    }
}

/// Counts the occurrences of `pattern` in `text`.
///
/// Trusted: wraps `str::matches` from the standard library with a string as
/// the pattern, and counts what it yields: the disjoint matches, found from
/// the left, each search going on behind the match before.
#[verifier::external_body]
pub(crate) fn count_matches(text: &str, pattern: &str) -> (n: usize)
    ensures
        n == match_count(text@, pattern@),
{
    text.matches(pattern).count()
}

/// The decimal digit for a number below ten.
pub open spec fn digit_of(d: nat) -> Seq<char> {
    if d == 0 {
        "0"@
    } else if d == 1 {
        "1"@
    } else if d == 2 {
        "2"@
    } else if d == 3 {
        "3"@
    } else if d == 4 {
        "4"@
    } else if d == 5 {
        "5"@
    } else if d == 6 {
        "6"@
    } else if d == 7 {
        "7"@
    } else if d == 8 {
        "8"@
    } else {
        "9"@
    }
}

/// A number in decimal, without leading zeros.
pub open spec fn decimal_of(n: nat) -> Seq<char>
    decreases n,
{
    if n < 10 {
        digit_of(n)
    } else {
        decimal_of(n / 10) + digit_of(n % 10)
    }
}

/// The decimal digit for a number below ten.
fn digit_text(d: usize) -> (r: &'static str)
    requires
        d < 10,
    ensures
        r@ == digit_of(d as nat),
{
    if d == 0 {
        "0"
    } else if d == 1 {
        "1"
    } else if d == 2 {
        "2"
    } else if d == 3 {
        "3"
    } else if d == 4 {
        "4"
    } else if d == 5 {
        "5"
    } else if d == 6 {
        "6"
    } else if d == 7 {
        "7"
    } else if d == 8 {
        "8"
    } else {
        "9"
    }
}

/// Writes a number in decimal.
pub fn decimal_text(n: usize) -> (r: String)
    ensures
        r@ == decimal_of(n as nat),
    decreases n,
{
    if n < 10 {
        digit_text(n).to_owned()
    } else {
        decimal_text(n / 10).concat(digit_text(n % 10))
    }
}

/// The texts of `parts` in a row, with `sep` between neighbours.
pub open spec fn joined(parts: Seq<Seq<char>>, sep: Seq<char>) -> Seq<char>
    decreases parts.len(),
{
    if parts.len() == 0 {
        Seq::empty()
    } else if parts.len() == 1 {
        parts[0]
    } else {
        joined(parts.drop_last(), sep) + sep + parts.last()
    }
}

/// Joins the strings of `parts[from..]` with `sep` between neighbours.
pub fn join_from(parts: &Vec<String>, from: usize, sep: &str) -> (r: String)
    requires
        from <= parts.len(),
    ensures
        r@ == joined(parts.deep_view().skip(from as int), sep@),
{
    let ghost tail = parts.deep_view().skip(from as int);
    let mut out = String::new();
    let mut i: usize = from;
    while i < parts.len()
        invariant
            from <= i <= parts.len(),
            tail == parts.deep_view().skip(from as int),
            out@ == joined(tail.take(i - from), sep@),
        decreases parts.len() - i,
    {
        proof {
            let next = tail.take(i - from + 1);
            assert(next.drop_last() =~= tail.take(i - from));
            assert(next.last() == parts.deep_view()[i as int]);
            if i == from {
                assert(tail.take(0).len() == 0);
                assert(out@ =~= Seq::<char>::empty());
            }
        }
        if i > from {
            out = out.concat(sep);
        }
        out = out.concat(parts[i].as_str());
        proof {
            if i == from {
                assert(out@ =~= parts.deep_view()[i as int]);
            }
        }
        i += 1;
    }
    assert(tail.take(i - from) =~= tail);
    out
}

/// How a map of named parameters prints itself for a developer.
///
/// Trusted: formats a `HashMap` with `{:?}`. The entries come in the order in
/// which the map is walked, which is not fixed: nothing is claimed of the
/// text.
#[verifier::external_body]
pub(crate) fn debug_params(params: &std::collections::HashMap<String, String>) -> (r: String) {
    format!("{:?}", params)
}

/// Whether `needle` is one of the strings in `list`.
pub fn contains_name(list: &Vec<String>, needle: &str) -> (found: bool)
    ensures
        found == list.deep_view().contains(needle@),
{
    let mut i: usize = 0;
    while i < list.len()
        invariant
            i <= list.len(),
            forall|j: int| 0 <= j < i ==> list.deep_view()[j] != needle@,
        decreases list.len() - i,
    {
        if same_text(list[i].as_str(), needle) {
            assert(list.deep_view()[i as int] == needle@);
            return true;
        }
        i += 1;
    }
    false
}

/// A copy of an optional string.
pub fn copy_opt_text(o: &Option<String>) -> (r: Option<String>)
    ensures
        r.deep_view() == o.deep_view(),
{
    match o {
        Some(s) => Some(s.clone()),
        None => None,
    }
}

/// A copy of a list of strings.
pub fn copy_names(v: &Vec<String>) -> (r: Vec<String>)
    ensures
        r.deep_view() == v.deep_view(),
{
    let mut out: Vec<String> = Vec::new();
    let mut i: usize = 0;
    while i < v.len()
        invariant
            i <= v.len(),
            out.len() == i,
            forall|j: int| 0 <= j < i ==> out@[j]@ == v@[j]@,
        decreases v.len() - i,
    {
        out.push(v[i].clone());
        i += 1;
    }
    assert(out.deep_view() =~= v.deep_view());
    out
}

/// A copy of a list of pairs of strings.
pub fn copy_pairs(v: &Vec<(String, String)>) -> (r: Vec<(String, String)>)
    ensures
        r.deep_view() == v.deep_view(),
{
    let mut out: Vec<(String, String)> = Vec::new();
    let mut i: usize = 0;
    while i < v.len()
        invariant
            i <= v.len(),
            out.len() == i,
            forall|j: int| 0 <= j < i ==> out@[j].0@ == v@[j].0@ && out@[j].1@ == v@[j].1@,
        decreases v.len() - i,
    {
        out.push((v[i].0.clone(), v[i].1.clone()));
        i += 1;
    }
    assert(out.deep_view() =~= v.deep_view());
    out
}

} // verus!
