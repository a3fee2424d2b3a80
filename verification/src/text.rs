//! Pure text evidence primitives: pattern containment over file
//! content, glob-style file-name matching, and URL extraction.
//!
//! Patterns are plain character sequences; case-insensitive matching
//! folds the ASCII letters and leaves every other character alone. A
//! file-name pattern may end in `*`, which matches any (possibly empty)
//! remainder of the name.

use vstd::prelude::*;
use vstd::string::StrSliceExecFns;

verus! {

/// The code point a character counts as when matching case-insensitively:
/// ASCII upper-case letters fold to their lower-case form.
pub open spec fn fold_char(c: char) -> int {
    if 65 <= c as int && c as int <= 90 {
        c as int + 32
    } else {
        c as int
    }
}

/// Whether two characters match under the given case sensitivity.
pub open spec fn chars_match(a: char, b: char, case_sensitive: bool) -> bool {
    if case_sensitive {
        a == b
    } else {
        fold_char(a) == fold_char(b)
    }
}

/// Whether `pattern` occurs in `content` starting at position `i`.
pub open spec fn match_at(content: Seq<char>, pattern: Seq<char>, case_sensitive: bool, i: int) -> bool {
    &&& 0 <= i
    &&& i + pattern.len() <= content.len()
    &&& forall|j: int| 0 <= j < pattern.len() ==> chars_match(content[i + j], pattern[j], case_sensitive)
}

/// Whether `pattern` occurs anywhere in `content`.
pub open spec fn contains_pattern(content: Seq<char>, pattern: Seq<char>, case_sensitive: bool) -> bool {
    exists|i: int| match_at(content, pattern, case_sensitive, i)
}

/// Whether two characters match under the given case sensitivity.
pub fn char_matches(a: char, b: char, case_sensitive: bool) -> (r: bool)
    ensures
        r == chars_match(a, b, case_sensitive),
{
    if case_sensitive {
        a == b
    } else {
        let au = a as u32;
        let bu = b as u32;
        let af: u32 = if 65 <= au && au <= 90 {
            au + 32
        } else {
            au
        };
        let bf: u32 = if 65 <= bu && bu <= 90 {
            bu + 32
        } else {
            bu
        };
        af == bf
    }
}

fn match_at_exec(content: &str, pattern: &str, case_sensitive: bool, i: usize) -> (r: bool)
    requires
        i + pattern@.len() <= content@.len(),
    ensures
        r == match_at(content@, pattern@, case_sensitive, i as int),
{
    let n = content.unicode_len();
    let m = pattern.unicode_len();
    let mut j: usize = 0;
    while j < m
        invariant
            j <= m,
            n == content@.len(),
            m == pattern@.len(),
            i + m <= n,
            forall|j2: int| 0 <= j2 < j ==> chars_match(content@[i + j2], pattern@[j2], case_sensitive),
        decreases m - j,
    {
        let a = content.get_char(i + j);
        let b = pattern.get_char(j);
        if !char_matches(a, b, case_sensitive) {
            return false;
        }
        j = j + 1;
    }
    true
}

/// Find the position of the leftmost occurrence of `pattern` in
/// `content`, if there is one.
pub fn find_first(content: &str, pattern: &str, case_sensitive: bool) -> (r: Option<usize>)
    ensures
        (r matches Some(i) ==> match_at(content@, pattern@, case_sensitive, i as int) && (forall|i2: int|
            0 <= i2 < i ==> !match_at(content@, pattern@, case_sensitive, i2))),
        r is None ==> !contains_pattern(content@, pattern@, case_sensitive),
{
    let n = content.unicode_len();
    let m = pattern.unicode_len();
    if m > n {
        return None;
    }
    let mut i: usize = 0;
    while i <= n - m
        invariant
            m <= n,
            n == content@.len(),
            m == pattern@.len(),
            i <= n - m + 1,
            forall|i2: int| 0 <= i2 < i ==> !match_at(content@, pattern@, case_sensitive, i2),
        decreases n - m + 1 - i,
    {
        if match_at_exec(content, pattern, case_sensitive, i) {
            return Some(i);
        }
        i = i + 1;
    }
    proof {
        assert forall|i2: int| !match_at(content@, pattern@, case_sensitive, i2) by {
            if 0 <= i2 && i2 + pattern@.len() <= content@.len() {
                assert(i2 < i);
            }
        }
    }
    None
}

/// Whether the content matches the pattern anywhere, under the given
/// case sensitivity.
pub fn content_matches(content: &str, pattern: &str, case_sensitive: bool) -> (r: bool)
    ensures
        r == contains_pattern(content@, pattern@, case_sensitive),
{
    match find_first(content, pattern, case_sensitive) {
        Some(_) => true,
        None => false,
    }
}

/// Whether a file name matches a name pattern: either the two are equal
/// character for character, or the pattern ends in `*` and the name
/// starts with everything before the `*` — both under the given case
/// sensitivity.
pub open spec fn name_matches(name: Seq<char>, pattern: Seq<char>, case_sensitive: bool) -> bool {
    if pattern.len() > 0 && pattern.last() == '*' {
        &&& pattern.len() - 1 <= name.len()
        &&& forall|j: int| 0 <= j < pattern.len() - 1 ==> chars_match(name[j], pattern[j], case_sensitive)
    } else {
        &&& name.len() == pattern.len()
        &&& forall|j: int| 0 <= j < pattern.len() ==> chars_match(name[j], pattern[j], case_sensitive)
    }
}

/// Whether a file name matches a name pattern (a literal name, or a
/// prefix followed by `*`).
pub fn file_name_matches(name: &str, pattern: &str, case_sensitive: bool) -> (r: bool)
    ensures
        r == name_matches(name@, pattern@, case_sensitive),
{
    let n = name.unicode_len();
    let m = pattern.unicode_len();
    if m > 0 && pattern.get_char(m - 1) == '*' {
        if m - 1 > n {
            return false;
        }
        let stem = pattern.substring_char(0, m - 1);
        let r = match_at_exec(name, stem, case_sensitive, 0);
        proof {
            assert(forall|j: int| 0 <= j < m - 1 ==> stem@[j] == pattern@[j]);
        }
        r
    } else {
        if n != m {
            return false;
        }
        match_at_exec(name, pattern, case_sensitive, 0)
    }
}

/// Whether any entry matches any of the name patterns.
pub open spec fn some_entry_matches(
    entries: Seq<String>,
    patterns: Seq<String>,
    case_sensitive: bool,
) -> bool {
    exists|e: int, p: int|
        0 <= e < entries.len() && 0 <= p < patterns.len() && name_matches(
            entries[e]@,
            patterns[p]@,
            case_sensitive,
        )
}

/// Whether at least one of the given directory entries matches at least
/// one of the name patterns. This is the pure half of the path-existence
/// check: the caller lists the directory and hands the entry names in.
pub fn path_exists(entries: &Vec<String>, patterns: &Vec<String>, case_sensitive: bool) -> (r:
    bool)
    ensures
        r == some_entry_matches(entries@, patterns@, case_sensitive),
{
    let mut e: usize = 0;
    while e < entries.len()
        invariant
            e <= entries@.len(),
            forall|e2: int, p2: int|
                0 <= e2 < e && 0 <= p2 < patterns@.len() ==> !name_matches(
                    entries@[e2]@,
                    patterns@[p2]@,
                    case_sensitive,
                ),
        decreases entries@.len() - e,
    {
        let mut p: usize = 0;
        while p < patterns.len()
            invariant
                e < entries@.len(),
                p <= patterns@.len(),
                forall|p2: int|
                    0 <= p2 < p ==> !name_matches(entries@[e as int]@, patterns@[p2]@, case_sensitive),
            decreases patterns@.len() - p,
        {
            if file_name_matches(entries[e].as_str(), patterns[p].as_str(), case_sensitive) {
                return true;
            }
            p = p + 1;
        }
        e = e + 1;
    }
    false
}

/// Where an URL that starts at `from` ends: at the first whitespace or
/// delimiter character at or after `from`, or at the end of the content.
pub open spec fn url_end(content: Seq<char>, from: int) -> int
    decreases content.len() - from,
{
    if !(0 <= from < content.len()) {
        content.len() as int
    } else if is_url_terminator(content[from]) {
        from
    } else {
        url_end(content, from + 1)
    }
}

/// Whether a character ends an URL embedded in surrounding text.
pub open spec fn is_url_terminator(c: char) -> bool {
    c == ' ' || c == '\t' || c == '\n' || c == '\r' || c == '"' || c == '\'' || c == ')' || c
        == '>'
}

/// Whether a character ends an URL embedded in surrounding text.
pub fn url_terminator(c: char) -> (r: bool)
    ensures
        r == is_url_terminator(c),
{
    c == ' ' || c == '\t' || c == '\n' || c == '\r' || c == '"' || c == '\'' || c == ')' || c
        == '>'
}

/// Whether `url` is exactly the text that starts at the leftmost
/// occurrence of `prefix` in `content` and runs to the end of the URL.
pub open spec fn is_extracted_url(content: Seq<char>, prefix: Seq<char>, url: Seq<char>) -> bool {
    exists|i: int|
        {
            &&& #[trigger] match_at(content, prefix, true, i)
            &&& (forall|i2: int| 0 <= i2 < i ==> !match_at(content, prefix, true, i2))
            &&& url == content.subrange(i, url_end(content, i + prefix.len()))
        }
}

proof fn lemma_url_end_at(content: Seq<char>, from: int, j: int)
    requires
        0 <= from <= j <= content.len(),
        forall|k: int| from <= k < j ==> !is_url_terminator(content[k]),
        j == content.len() || is_url_terminator(content[j]),
    ensures
        url_end(content, from) == j,
    decreases j - from,
{
    if from < j {
        lemma_url_end_at(content, from + 1, j);
    }
}

fn scan_url_end(content: &str, from: usize) -> (j: usize)
    requires
        from <= content@.len(),
    ensures
        from <= j <= content@.len(),
        url_end(content@, from as int) == j,
{
    let n = content.unicode_len();
    let mut j: usize = from;
    while j < n
        invariant
            from <= j <= n,
            n == content@.len(),
            forall|k: int| from <= k < j ==> !is_url_terminator(content@[k]),
        decreases n - j,
    {
        if url_terminator(content.get_char(j)) {
            proof {
                lemma_url_end_at(content@, from as int, j as int);
            }
            return j;
        }
        j = j + 1;
    }
    proof {
        lemma_url_end_at(content@, from as int, j as int);
    }
    j
}

/// Extract the URL that starts at the leftmost occurrence of `prefix`
/// in `content`, if the prefix occurs at all: the text from that
/// occurrence up to the first whitespace or delimiter.
pub fn find_url(content: &str, prefix: &str) -> (r: Option<String>)
    ensures
        (r matches Some(url) ==> is_extracted_url(content@, prefix@, url@)),
        r is None ==> !contains_pattern(content@, prefix@, true),
{
    let n = content.unicode_len();
    let m = prefix.unicode_len();
    match find_first(content, prefix, true) {
        None => None,
        Some(i) => {
            proof {
                assert(i + m <= n);
            }
            let j = scan_url_end(content, i + m);
            let url = content.substring_char(i, j).to_owned();
            Some(url)
        },
    }
}

/// Extract an URL from the content by trying each prefix in the given
/// priority order: the first prefix that occurs anywhere settles the
/// search, and the URL starting at its leftmost occurrence is returned.
pub fn find_first_url(content: &str, prefixes: &Vec<String>) -> (r: Option<String>)
    ensures
        (r is None ==> forall|p: int|
            0 <= p < prefixes@.len() ==> !contains_pattern(content@, prefixes@[p]@, true)),
        (r matches Some(url) ==> exists|p: int|
            {
                &&& 0 <= p < prefixes@.len()
                &&& (forall|p2: int|
                    0 <= p2 < p ==> !contains_pattern(content@, prefixes@[p2]@, true))
                &&& is_extracted_url(content@, prefixes@[p]@, url@)
            }),
{
    let mut p: usize = 0;
    while p < prefixes.len()
        invariant
            p <= prefixes@.len(),
            forall|p2: int| 0 <= p2 < p ==> !contains_pattern(content@, prefixes@[p2]@, true),
        decreases prefixes@.len() - p,
    {
        match find_url(content, prefixes[p].as_str()) {
            Some(url) => {
                return Some(url);
            },
            None => {},
        }
        p = p + 1;
    }
    None
}

} // verus!
