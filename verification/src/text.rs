//! Text primitives over character sequences: trimming, searching, prefix
//! tests, line handling, and the regular-expression calls of the library.

use vstd::prelude::*;

verus! {

/// Calls `str::chars` and collects the characters.
#[verifier::external_body]
pub(crate) fn chars_of(s: &str) -> (v: Vec<char>)
    ensures
        v@ == s@,
{
    s.chars().collect()
}

/// Collects characters into a `String`.
#[verifier::external_body]
pub(crate) fn string_of(v: &[char]) -> (s: String)
    ensures
        s@ == v@,
{
    v.iter().collect()
}

/// Calls `<str as PartialEq>::eq`: two strings are equal when their characters are.
#[verifier::external_body]
pub(crate) fn str_eq(a: &str, b: &str) -> (r: bool)
    ensures
        r == (a@ == b@),
{
    a == b
}

/// The views of a sequence of string slices.
pub open spec fn strs_view(v: Seq<&str>) -> Seq<Seq<char>> {
    v.map_values(|p: &str| p@)
}

/// The views of a sequence of strings.
pub open spec fn strings_view(v: Seq<String>) -> Seq<Seq<char>> {
    v.map_values(|p: String| p@)
}

/// Owned copies of string slices.
pub fn owned_strings(p: &[&str]) -> (r: Vec<String>)
    ensures
        strings_view(r@) == strs_view(p@),
{
    let mut r: Vec<String> = Vec::new();
    let mut i: usize = 0;
    while i < p.len()
        invariant
            0 <= i <= p@.len(),
            r@.len() == i,
            forall|k: int| 0 <= k < i ==> r@[k]@ == p@[k]@,
        decreases p@.len() - i,
    {
        r.push(p[i].to_owned());
        i = i + 1;
    }
    proof { assert(strings_view(r@) =~= strs_view(p@)); }
    r
}

/// Calls `String::push`, which appends one character.
#[verifier::external_body]
pub(crate) fn push_char(s: &mut String, c: char)
    ensures
        final(s)@ == old(s)@.push(c),
{
    s.push(c)
}

/// Unicode `White_Space`, the property `char::is_whitespace` and `str::trim` use.
pub open spec fn is_ws(c: char) -> bool {
    ||| ('\u{9}' <= c && c <= '\u{d}')
    ||| c == ' '
    ||| c == '\u{85}'
    ||| c == '\u{a0}'
    ||| c == '\u{1680}'
    ||| ('\u{2000}' <= c && c <= '\u{200a}')
    ||| c == '\u{2028}'
    ||| c == '\u{2029}'
    ||| c == '\u{202f}'
    ||| c == '\u{205f}'
    ||| c == '\u{3000}'
}

/// Whether a character is Unicode white space.
pub fn is_whitespace(c: char) -> (b: bool)
    ensures
        b == is_ws(c),
{
    ('\u{9}' <= c && c <= '\u{d}') || c == ' ' || c == '\u{85}' || c == '\u{a0}' || c == '\u{1680}'
        || ('\u{2000}' <= c && c <= '\u{200a}') || c == '\u{2028}' || c == '\u{2029}'
        || c == '\u{202f}' || c == '\u{205f}' || c == '\u{3000}'
}

/// The sequence without its leading white space.
pub open spec fn trim_start(s: Seq<char>) -> Seq<char>
    decreases s.len(),
{
    if s.len() > 0 && is_ws(s[0]) { trim_start(s.drop_first()) } else { s }
}

/// The sequence without its trailing white space.
pub open spec fn trim_end(s: Seq<char>) -> Seq<char>
    decreases s.len(),
{
    if s.len() > 0 && is_ws(s.last()) { trim_end(s.drop_last()) } else { s }
}

/// The sequence without leading and trailing white space (`str::trim`).
pub open spec fn trim(s: Seq<char>) -> Seq<char> {
    trim_end(trim_start(s))
}

proof fn lemma_trim_start_skip(s: Seq<char>, a: int)
    requires
        0 <= a <= s.len(),
        forall|i: int| 0 <= i < a ==> is_ws(s[i]),
        a == s.len() || !is_ws(s[a]),
    ensures
        trim_start(s) == s.skip(a),
    decreases a,
{
    if a == 0 {
        assert(s.skip(0) =~= s);
    } else {
        let t = s.drop_first();
        assert forall|i: int| 0 <= i < a - 1 implies is_ws(t[i]) by { assert(t[i] == s[i + 1]); }
        if a - 1 < t.len() { assert(t[a - 1] == s[a]); }
        lemma_trim_start_skip(t, a - 1);
        assert(t.skip(a - 1) =~= s.skip(a));
    }
}

proof fn lemma_trim_end_take(s: Seq<char>, b: int)
    requires
        0 <= b <= s.len(),
        forall|i: int| b <= i < s.len() ==> is_ws(s[i]),
        b == 0 || !is_ws(s[b - 1]),
    ensures
        trim_end(s) == s.take(b),
    decreases s.len() - b,
{
    if b == s.len() {
        assert(s.take(b) =~= s);
    } else {
        let t = s.drop_last();
        assert forall|i: int| b <= i < t.len() implies is_ws(t[i]) by { assert(t[i] == s[i]); }
        if b > 0 { assert(t[b - 1] == s[b - 1]); }
        lemma_trim_end_take(t, b);
        assert(t.take(b) =~= s.take(b));
    }
}

/// The characters of `s` without leading and trailing white space.
pub fn trim_chars(s: &[char]) -> (r: Vec<char>)
    ensures
        r@ == trim(s@),
{
    let n = s.len();
    let mut a: usize = 0;
    while a < n && is_whitespace(s[a])
        invariant
            0 <= a <= n,
            n == s@.len(),
            forall|i: int| 0 <= i < a ==> is_ws(s@[i]),
        decreases n - a,
    {
        a = a + 1;
    }
    let mut b: usize = n;
    while b > a && is_whitespace(s[b - 1])
        invariant
            a <= b <= n,
            n == s@.len(),
            forall|i: int| b <= i < n ==> is_ws(s@[i]),
        decreases b - a,
    {
        b = b - 1;
    }
    proof {
        lemma_trim_start_skip(s@, a as int);
        let t = s@.skip(a as int);
        assert forall|i: int| (b - a) <= i < t.len() implies is_ws(t[i]) by { assert(t[i] == s@[i + a]); }
        if b > a { assert(t[b - a - 1] == s@[b - 1]); }
        lemma_trim_end_take(t, (b - a) as int);
    }
    let mut r: Vec<char> = Vec::new();
    let mut i: usize = a;
    while i < b
        invariant
            a <= i <= b,
            b <= n,
            n == s@.len(),
            r@ == s@.subrange(a as int, i as int),
        decreases b - i,
    {
        r.push(s[i]);
        i = i + 1;
        proof { assert(r@ =~= s@.subrange(a as int, i as int)); }
    }
    proof { assert(s@.skip(a as int).take((b - a) as int) =~= s@.subrange(a as int, b as int)); }
    r
}

/// The characters of `s` without trailing white space (`str::trim_end`).
pub fn trim_end_chars(s: &[char]) -> (r: Vec<char>)
    ensures
        r@ == trim_end(s@),
{
    let n = s.len();
    let mut b: usize = n;
    while b > 0 && is_whitespace(s[b - 1])
        invariant
            b <= n,
            n == s@.len(),
            forall|i: int| b <= i < n ==> is_ws(s@[i]),
        decreases b,
    {
        b = b - 1;
    }
    proof { lemma_trim_end_take(s@, b as int); }
    slice_chars(s, 0, b)
}

/// `str::trim` on a string.
pub fn trim_str(s: &str) -> (r: String)
    ensures
        r@ == trim(s@),
{
    let v = chars_of(s);
    let t = trim_chars(v.as_slice());
    string_of(t.as_slice())
}

/// `needle` occurs in `hay` at position `i`.
pub open spec fn occurs_at(hay: Seq<char>, needle: Seq<char>, i: int) -> bool {
    0 <= i && i + needle.len() <= hay.len() && hay.subrange(i, i + needle.len()) == needle
}

/// `needle` occurs somewhere in `hay` (`str::contains`).
pub open spec fn contains(hay: Seq<char>, needle: Seq<char>) -> bool {
    exists|i: int| occurs_at(hay, needle, i)
}

/// `hay` begins with `prefix` (`str::starts_with`).
pub open spec fn starts_with(hay: Seq<char>, prefix: Seq<char>) -> bool {
    prefix.len() <= hay.len() && hay.take(prefix.len() as int) == prefix
}

/// Whether `needle` occurs at position `i` of `hay`.
pub fn matches_at(hay: &[char], needle: &[char], i: usize) -> (b: bool)
    ensures
        b == occurs_at(hay@, needle@, i as int),
{
    if i > hay.len() || needle.len() > hay.len() - i {
        return false;
    }
    let mut k: usize = 0;
    while k < needle.len()
        invariant
            i + needle.len() <= hay.len(),
            0 <= k <= needle@.len(),
            forall|j: int| 0 <= j < k ==> hay@[i + j] == needle@[j],
        decreases needle@.len() - k,
    {
        if hay[i + k] != needle[k] {
            proof {
                assert(hay@.subrange(i as int, i + needle@.len())[k as int] != needle@[k as int]);
            }
            return false;
        }
        k = k + 1;
    }
    proof {
        assert(hay@.subrange(i as int, i + needle@.len()) =~= needle@);
    }
    true
}

/// The position of the first occurrence of `needle` in `hay`, if any.
pub fn find_chars(hay: &[char], needle: &[char]) -> (r: Option<usize>)
    ensures
        match r {
            Some(i) => occurs_at(hay@, needle@, i as int)
                && forall|j: int| 0 <= j < i ==> !occurs_at(hay@, needle@, j),
            None => !contains(hay@, needle@),
        },
{
    if needle.len() > hay.len() {
        proof {
            assert forall|j: int| !occurs_at(hay@, needle@, j) by {}
        }
        return None;
    }
    let last = hay.len() - needle.len();
    let mut i: usize = 0;
    loop
        invariant
            last == hay@.len() - needle@.len(),
            0 <= i <= last,
            forall|j: int| 0 <= j < i ==> !occurs_at(hay@, needle@, j),
        decreases last - i,
    {
        if matches_at(hay, needle, i) {
            return Some(i);
        }
        if i == last {
            proof {
                assert forall|j: int| !occurs_at(hay@, needle@, j) by {
                    if 0 <= j < i {} else if j > last {}
                }
            }
            return None;
        }
        i = i + 1;
    }
}

/// `str::contains` on character slices.
pub fn contains_chars(hay: &[char], needle: &[char]) -> (b: bool)
    ensures
        b == contains(hay@, needle@),
{
    match find_chars(hay, needle) {
        Some(_) => true,
        None => false,
    }
}

/// `str::contains` on strings.
pub fn str_contains(hay: &str, needle: &str) -> (b: bool)
    ensures
        b == contains(hay@, needle@),
{
    let h = chars_of(hay);
    let n = chars_of(needle);
    contains_chars(h.as_slice(), n.as_slice())
}

/// `str::starts_with` on character slices.
pub fn starts_with_chars(hay: &[char], prefix: &[char]) -> (b: bool)
    ensures
        b == starts_with(hay@, prefix@),
{
    let r = matches_at(hay, prefix, 0);
    proof {
        if prefix@.len() <= hay@.len() {
            assert(hay@.subrange(0, prefix@.len() as int) =~= hay@.take(prefix@.len() as int));
        }
    }
    r
}

/// The characters of `s` from position `from` to position `to`.
pub fn slice_chars(s: &[char], from: usize, to: usize) -> (r: Vec<char>)
    requires
        from <= to <= s@.len(),
    ensures
        r@ == s@.subrange(from as int, to as int),
{
    let mut r: Vec<char> = Vec::new();
    let mut i: usize = from;
    while i < to
        invariant
            from <= i <= to,
            to <= s@.len(),
            r@ == s@.subrange(from as int, i as int),
        decreases to - i,
    {
        r.push(s[i]);
        i = i + 1;
        proof { assert(r@ =~= s@.subrange(from as int, i as int)); }
    }
    r
}

/// The position of the last occurrence of `c` in `s`.
pub open spec fn last_index_of(s: Seq<char>, c: char) -> Option<int>
    decreases s.len(),
{
    if s.len() == 0 {
        None
    } else if s.last() == c {
        Some(s.len() - 1)
    } else {
        last_index_of(s.drop_last(), c)
    }
}

proof fn lemma_last_index_found(s: Seq<char>, c: char, k: int)
    requires
        0 <= k < s.len(),
        s[k] == c,
        forall|j: int| k < j < s.len() ==> s[j] != c,
    ensures
        last_index_of(s, c) == Some(k),
    decreases s.len(),
{
    if k < s.len() - 1 {
        assert(s.last() == s[s.len() - 1]);
        let t = s.drop_last();
        assert forall|j: int| k < j < t.len() implies t[j] != c by { assert(t[j] == s[j]); }
        lemma_last_index_found(t, c, k);
    }
}

proof fn lemma_last_index_absent(s: Seq<char>, c: char)
    requires
        forall|j: int| 0 <= j < s.len() ==> s[j] != c,
    ensures
        last_index_of(s, c) is None,
    decreases s.len(),
{
    if s.len() > 0 {
        assert(s.last() == s[s.len() - 1]);
        let t = s.drop_last();
        assert forall|j: int| 0 <= j < t.len() implies t[j] != c by { assert(t[j] == s[j]); }
        lemma_last_index_absent(t, c);
    }
}

/// The position of the last occurrence of `c` in `s`, if any.
pub fn rfind_char(s: &[char], c: char) -> (r: Option<usize>)
    ensures
        r matches Some(i) ==> last_index_of(s@, c) == Some(i as int) && i < s@.len(),
        r is None ==> last_index_of(s@, c) is None,
{
    let mut i: usize = s.len();
    while i > 0
        invariant
            0 <= i <= s@.len(),
            forall|j: int| i <= j < s@.len() ==> s@[j] != c,
        decreases i,
    {
        if s[i - 1] == c {
            proof { lemma_last_index_found(s@, c, i - 1); }
            return Some(i - 1);
        }
        i = i - 1;
    }
    proof { lemma_last_index_absent(s@, c); }
    None
}

/// `c` is one of the characters that `regex::escape` prefixes with a backslash.
pub open spec fn is_regex_meta(c: char) -> bool {
    c == '\\' || c == '.' || c == '+' || c == '*' || c == '?' || c == '(' || c == ')' || c == '|'
        || c == '[' || c == ']' || c == '{' || c == '}' || c == '^' || c == '$' || c == '#'
        || c == '&' || c == '-' || c == '~'
}

/// The text with every meta character prefixed by a backslash.
pub open spec fn regex_escaped(s: Seq<char>) -> Seq<char>
    decreases s.len(),
{
    if s.len() == 0 {
        Seq::empty()
    } else {
        let head = if is_regex_meta(s[0]) { seq!['\\', s[0]] } else { seq![s[0]] };
        head + regex_escaped(s.drop_first())
    }
}

/// Calls `regex::escape`, which prefixes every meta character with a backslash.
#[verifier::external_body]
pub(crate) fn regex_escape(text: &str) -> (r: String)
    ensures
        r@ == regex_escaped(text@),
{
    regex::escape(text)
}

/// The outcome of compiling `pattern` with `regex::Regex::new` and searching
/// `text` with `Regex::find`: `None` when the pattern does not compile,
/// otherwise, for the leftmost-first match if there is one, the text before
/// it and the text it matched.
pub uninterp spec fn regex_search(pattern: Seq<char>, text: Seq<char>) -> Option<Option<(Seq<char>, Seq<char>)>>;

/// Calls `regex::Regex::new(pattern)` and then `Regex::find(text)`; the
/// outcome is the named `regex_search`. A pattern that does not compile gives
/// the compiler's message. The text before the match is the haystack up to
/// the match's start, and the match's text is the haystack from its start to
/// its end, so together they begin the haystack.
#[verifier::external_body]
pub(crate) fn regex_find(pattern: &str, text: &str) -> (r: Result<Option<(String, String)>, String>)
    ensures
        r is Err <==> regex_search(pattern@, text@) is None,
        r matches Ok(m) ==> regex_search(pattern@, text@) == Some(match m {
            Some((b, s)) => Some((b@, s@)),
            None => None::<(Seq<char>, Seq<char>)>,
        }),
        r matches Ok(Some((b, s))) ==> (b@ + s@).is_prefix_of(text@),
{
    match regex::Regex::new(pattern) {
        Ok(re) => match re.find(text) {
            Some(m) => Ok(Some((text[..m.start()].to_string(), m.as_str().to_string()))),
            None => Ok(None),
        },
        Err(e) => Err(e.to_string()),
    }
}

/// `pattern` compiles and matches somewhere in `text`.
pub open spec fn regex_matches(pattern: Seq<char>, text: Seq<char>) -> bool {
    regex_search(pattern, text) matches Some(Some(_))
}

/// Whether `pattern` compiles and matches somewhere in `text`; a pattern that
/// does not compile matches nothing.
pub fn regex_is_match(pattern: &str, text: &str) -> (b: bool)
    ensures
        b == regex_matches(pattern@, text@),
{
    match regex_find(pattern, text) {
        Ok(Some(_)) => true,
        _ => false,
    }
}

/// The outcome of compiling `pattern` with `regex::Regex::new` and calling
/// `Regex::replace_all(text, replacement)`: `None` when the pattern does not compile.
pub uninterp spec fn regex_replaced(pattern: Seq<char>, text: Seq<char>, replacement: Seq<char>) -> Option<Seq<char>>;

/// Calls `regex::Regex::new(pattern)` and then `Regex::replace_all`; the
/// outcome is the named `regex_replaced`.
#[verifier::external_body]
pub(crate) fn regex_replace_all(pattern: &str, text: &str, replacement: &str) -> (r: Option<String>)
    ensures
        r is None <==> regex_replaced(pattern@, text@, replacement@) is None,
        r matches Some(s) ==> regex_replaced(pattern@, text@, replacement@) == Some(s@),
{
    match regex::Regex::new(pattern) {
        Ok(re) => Some(re.replace_all(text, replacement).to_string()),
        Err(_) => None,
    }
}

/// The position of the first occurrence of `c` in `s`.
pub open spec fn first_index_of(s: Seq<char>, c: char) -> Option<int>
    decreases s.len(),
{
    if s.len() == 0 {
        None
    } else if s[0] == c {
        Some(0)
    } else {
        match first_index_of(s.drop_first(), c) {
            Some(i) => Some(i + 1),
            None => None,
        }
    }
}

/// A line that ended with a line feed, without the carriage return before it.
pub open spec fn strip_cr(s: Seq<char>) -> Seq<char> {
    if s.len() > 0 && s.last() == '\r' { s.drop_last() } else { s }
}

/// The lines of `s` as `str::lines` gives them: split at each `\n`, a `\r`
/// before the `\n` dropped, and no empty line after a final `\n`.
pub open spec fn split_lines(s: Seq<char>) -> Seq<Seq<char>>
    decreases s.len(),
{
    if s.len() == 0 {
        Seq::empty()
    } else {
        match first_index_of(s, '\n') {
            Some(i) => if 0 <= i < s.len() {
                seq![strip_cr(s.take(i))] + split_lines(s.skip(i + 1))
            } else {
                Seq::empty()
            },
            None => seq![s],
        }
    }
}

pub proof fn lemma_first_index_of(s: Seq<char>, c: char, i: int)
    requires
        0 <= i <= s.len(),
        forall|j: int| 0 <= j < i ==> s[j] != c,
        i == s.len() || s[i] == c,
    ensures
        first_index_of(s, c) == (if i == s.len() { None } else { Some(i) }),
    decreases s.len(),
{
    if s.len() > 0 && i > 0 {
        let t = s.drop_first();
        assert forall|j: int| 0 <= j < i - 1 implies t[j] != c by { assert(t[j] == s[j + 1]); }
        if i < s.len() { assert(t[i - 1] == s[i]); }
        lemma_first_index_of(t, c, i - 1);
    }
}

/// The position of the first `c` in `s` (`str::find` with a character, counted in characters).
pub fn first_char_index(s: &[char], c: char) -> (r: Option<usize>)
    ensures
        r matches Some(i) ==> first_index_of(s@, c) == Some(i as int),
        r is None ==> first_index_of(s@, c) is None,
{
    let n = s.len();
    let mut i: usize = 0;
    while i < n && s[i] != c
        invariant
            0 <= i <= n,
            n == s@.len(),
            forall|j: int| 0 <= j < i ==> s@[j] != c,
        decreases n - i,
    {
        i = i + 1;
    }
    proof { lemma_first_index_of(s@, c, i as int); }
    if i < n { Some(i) } else { None }
}

/// The lines of `s`, as `str::lines` splits them.
pub fn lines_of(s: &str) -> (r: Vec<String>)
    ensures
        strings_view(r@) == split_lines(s@),
{
    let v = chars_of(s);
    let n = v.len();
    let mut out: Vec<String> = Vec::new();
    let mut start: usize = 0;
    proof {
        assert(v@.skip(0) =~= v@);
        assert(strings_view(out@) + split_lines(v@) =~= split_lines(v@));
    }
    while start < n
        invariant
            n == v@.len(),
            v@ == s@,
            0 <= start <= n,
            strings_view(out@) + split_lines(v@.skip(start as int)) == split_lines(s@),
        decreases n - start,
    {
        let rest = Ghost(v@.skip(start as int));
        let mut j: usize = start;
        while j < n && v[j] != '\n'
            invariant
                start <= j <= n,
                n == v@.len(),
                forall|k: int| start <= k < j ==> v@[k] != '\n',
            decreases n - j,
        {
            j = j + 1;
        }
        proof {
            assert forall|k: int| 0 <= k < j - start implies rest@[k] != '\n' by {
                assert(rest@[k] == v@[start + k]);
            }
            if j < n { assert(rest@[j - start] == v@[j as int]); }
            lemma_first_index_of(rest@, '\n', (j - start) as int);
        }
        if j < n {
            let mut end: usize = j;
            if end > start && v[end - 1] == '\r' {
                end = end - 1;
            }
            let piece = slice_chars(v.as_slice(), start, end);
            let line = string_of(piece.as_slice());
            proof {
                assert(rest@.take((j - start) as int) =~= v@.subrange(start as int, j as int));
                assert(strip_cr(rest@.take((j - start) as int)) =~= v@.subrange(start as int, end as int));
                assert(rest@.skip((j - start) + 1) =~= v@.skip(j + 1));
                assert(strings_view(out@.push(line)) =~= strings_view(out@).push(line@));
                assert(seq![line@] + split_lines(v@.skip(j + 1)) == split_lines(rest@));
                assert(strings_view(out@.push(line)) + split_lines(v@.skip(j + 1))
                    =~= strings_view(out@) + (seq![line@] + split_lines(v@.skip(j + 1))));
            }
            out.push(line);
            start = j + 1;
        } else {
            let piece = slice_chars(v.as_slice(), start, n);
            let line = string_of(piece.as_slice());
            proof {
                assert(rest@ =~= v@.subrange(start as int, n as int));
                assert(v@.skip(n as int) =~= Seq::<char>::empty());
                assert(strings_view(out@.push(line)) =~= strings_view(out@).push(line@));
                assert(split_lines(rest@) == seq![line@]);
                assert(strings_view(out@.push(line)) + split_lines(v@.skip(n as int))
                    =~= strings_view(out@) + seq![line@]);
            }
            out.push(line);
            start = n;
        }
    }
    proof {
        assert(v@.skip(n as int) =~= Seq::<char>::empty());
        assert(strings_view(out@) + Seq::<Seq<char>>::empty() =~= strings_view(out@));
    }
    out
}

/// The decimal digit `d`.
pub open spec fn digit_char(d: nat) -> char {
    (48 + d) as char
}

/// The decimal representation of `n`.
pub open spec fn decimal(n: nat) -> Seq<char>
    decreases n,
{
    if n < 10 {
        seq![digit_char(n)]
    } else {
        decimal(n / 10).push(digit_char(n % 10))
    }
}

fn digit(d: usize) -> (c: char)
    requires
        d < 10,
    ensures
        c == digit_char(d as nat),
{
    let b: u8 = 48u8 + d as u8;
    b as char
}

/// `n` written in decimal.
pub fn usize_to_string(n: usize) -> (r: String)
    ensures
        r@ == decimal(n as nat),
    decreases n,
{
    if n < 10 {
        let mut r = String::new();
        push_char(&mut r, digit(n));
        proof { assert(r@ =~= seq![digit_char(n as nat)]); }
        r
    } else {
        let mut r = usize_to_string(n / 10);
        push_char(&mut r, digit(n % 10));
        r
    }
}

/// `n` written in decimal.
pub fn u64_to_string(n: u64) -> (r: String)
    ensures
        r@ == decimal(n as nat),
    decreases n,
{
    if n < 10 {
        let mut r = String::new();
        push_char(&mut r, digit(n as usize));
        proof { assert(r@ =~= seq![digit_char(n as nat)]); }
        r
    } else {
        let mut r = u64_to_string(n / 10);
        push_char(&mut r, digit((n % 10) as usize));
        r
    }
}

/// `s` followed by spaces up to `w` characters.
pub open spec fn pad_right(s: Seq<char>, w: nat) -> Seq<char> {
    if s.len() < w { s + Seq::new((w - s.len()) as nat, |i: int| ' ') } else { s }
}

/// Appends `s` padded with spaces to `w` characters.
pub fn append_padded(out: &mut String, s: &str, w: usize)
    ensures
        final(out)@ == old(out)@ + pad_right(s@, w as nat),
{
    out.append(s);
    let v = chars_of(s);
    let mut k: usize = v.len();
    while k < w
        invariant
            v@ == s@,
            v@.len() <= k <= w || (k == v@.len() && k >= w),
            out@ == old(out)@ + s@ + Seq::new((k - v@.len()) as nat, |i: int| ' '),
        decreases w - k,
    {
        push_char(out, ' ');
        proof {
            assert(out@ =~= old(out)@ + s@ + Seq::new((k + 1 - v@.len()) as nat, |i: int| ' '));
        }
        k = k + 1;
    }
    proof {
        if s@.len() < w {
            assert(out@ =~= old(out)@ + pad_right(s@, w as nat));
        } else {
            assert(out@ =~= old(out)@ + pad_right(s@, w as nat));
        }
    }
}

/// Number of bytes of `c` in UTF-8.
pub open spec fn utf8_width(c: char) -> nat {
    if (c as u32) < 0x80 {
        1
    } else if (c as u32) < 0x800 {
        2
    } else if (c as u32) < 0x10000 {
        3
    } else {
        4
    }
}

/// Number of bytes of `s` in UTF-8 (what `str::len` gives).
pub open spec fn utf8_size(s: Seq<char>) -> nat
    decreases s.len(),
{
    if s.len() == 0 { 0 } else { utf8_size(s.drop_last()) + utf8_width(s.last()) }
}

fn width_of(c: char) -> (w: u128)
    ensures
        w == utf8_width(c),
{
    let u = c as u32;
    if u < 0x80 {
        1
    } else if u < 0x800 {
        2
    } else if u < 0x10000 {
        3
    } else {
        4
    }
}

proof fn lemma_utf8_size_strict(s: Seq<char>, a: int, b: int)
    requires
        0 <= a < b <= s.len(),
    ensures
        utf8_size(s.take(a)) < utf8_size(s.take(b)),
    decreases b - a,
{
    assert(s.take(b).drop_last() =~= s.take(b - 1));
    if a < b - 1 {
        lemma_utf8_size_strict(s, a, b - 1);
    }
}

/// Byte `n` of `s` falls between characters.
pub open spec fn char_boundary(s: Seq<char>, n: int) -> bool {
    exists|k: int| 0 <= k <= s.len() && utf8_size(s.take(k)) == n
}

/// The number of characters before byte `n`.
pub open spec fn chars_before(s: Seq<char>, n: int) -> int {
    choose|k: int| 0 <= k <= s.len() && utf8_size(s.take(k)) == n
}

/// Whether `s` can be cut for a width of `max` bytes: it fits, or the cut
/// three bytes before the width falls between characters.
pub open spec fn can_truncate(s: Seq<char>, max: nat) -> bool {
    utf8_size(s) <= max || (max >= 3 && char_boundary(s, max - 3))
}

/// `s` when it fits in `max` bytes, else its first `max - 3` bytes and `...`.
pub open spec fn truncated(s: Seq<char>, max: nat) -> Seq<char> {
    if utf8_size(s) <= max { s } else { s.take(chars_before(s, max - 3)) + "..."@ }
}

/// Shortens `s` to at most `max_len` bytes for display, ending it with `...`.
pub fn truncate(s: &str, max_len: usize) -> (r: String)
    requires
        can_truncate(s@, max_len as nat),
    ensures
        r@ == truncated(s@, max_len as nat),
{
    let v = chars_of(s);
    let n = v.len();
    let mut acc: u128 = 0;
    let mut i: usize = 0;
    while i < n && acc <= max_len as u128
        invariant
            v@ == s@,
            n == v@.len(),
            0 <= i <= n,
            acc == utf8_size(v@.take(i as int)),
            i > 0 ==> utf8_size(v@.take(i as int - 1)) <= max_len,
        decreases n - i,
    {
        proof { assert(v@.take(i as int + 1).drop_last() =~= v@.take(i as int)); }
        acc = acc + width_of(v[i]);
        i = i + 1;
    }
    if i == n && acc <= max_len as u128 {
        proof { assert(v@.take(n as int) =~= v@); }
        return s.to_owned();
    }
    proof {
        assert(v@.take(n as int) =~= v@);
        if i < n { lemma_utf8_size_strict(v@, i as int, n as int); }
    }
    let target: u128 = (max_len - 3) as u128;
    let ghost kk = chars_before(s@, max_len - 3);
    proof {
        if kk > i as int {
            lemma_utf8_size_strict(v@, i as int, kk);
        }
    }
    let mut k: usize = 0;
    let mut b: u128 = 0;
    while b < target
        invariant
            v@ == s@,
            n == v@.len(),
            0 <= k <= kk,
            kk <= n,
            kk <= i,
            utf8_size(v@.take(kk)) == target,
            b == utf8_size(v@.take(k as int)),
            target <= max_len,
        decreases kk - k,
    {
        proof {
            assert(k < kk);
            assert(v@.take(k as int + 1).drop_last() =~= v@.take(k as int));
        }
        b = b + width_of(v[k]);
        k = k + 1;
    }
    proof {
        if k < kk { lemma_utf8_size_strict(v@, k as int, kk); }
    }
    let head = slice_chars(v.as_slice(), 0, k);
    let mut r = string_of(head.as_slice());
    r.append("...");
    proof { assert(v@.subrange(0, k as int) =~= v@.take(k as int)); }
    r
}

/// The outcome of compiling `pattern` with `regex::Regex::new` and calling
/// `Regex::replace(text, replacement)`, which replaces the leftmost match
/// only: `None` when the pattern does not compile.
pub uninterp spec fn regex_replaced_first(pattern: Seq<char>, text: Seq<char>, replacement: Seq<char>) -> Option<Seq<char>>;

/// Calls `regex::Regex::new(pattern)` and then `Regex::replace`; the outcome
/// is the named `regex_replaced_first`.
#[verifier::external_body]
pub(crate) fn regex_replace_first(pattern: &str, text: &str, replacement: &str) -> (r: Option<String>)
    ensures
        r is None <==> regex_replaced_first(pattern@, text@, replacement@) is None,
        r matches Some(s) ==> regex_replaced_first(pattern@, text@, replacement@) == Some(s@),
{
    match regex::Regex::new(pattern) {
        Ok(re) => Some(re.replace(text, replacement).to_string()),
        Err(_) => None,
    }
}

/// The text `format!("{:?}", s)` gives for a string: quoted, with special
/// characters escaped.
pub uninterp spec fn debug_str(s: Seq<char>) -> Seq<char>;

/// Calls `format!("{:?}", s)` on a string slice; the text is the named
/// `debug_str`.
#[verifier::external_body]
pub(crate) fn debug_quote(s: &str) -> (r: String)
    ensures
        r@ == debug_str(s@),
{
    format!("{:?}", s)
}

/// `s` with every occurrence of the non-empty `pat`, scanned from the left
/// without overlaps, replaced by `rep` (what `str::replace` gives).
pub open spec fn replace_lit(s: Seq<char>, pat: Seq<char>, rep: Seq<char>) -> Seq<char>
    decreases s.len(),
{
    if s.len() == 0 {
        Seq::empty()
    } else if pat.len() > 0 && starts_with(s, pat) {
        rep + replace_lit(s.skip(pat.len() as int), pat, rep)
    } else {
        seq![s[0]] + replace_lit(s.skip(1), pat, rep)
    }
}

/// Replaces every occurrence of the non-empty `pat` in `s` by `rep`.
pub fn replace_str(s: &str, pat: &str, rep: &str) -> (r: String)
    requires
        pat@.len() > 0,
    ensures
        r@ == replace_lit(s@, pat@, rep@),
{
    let v = chars_of(s);
    let p = chars_of(pat);
    let n = v.len();
    let mut out = String::new();
    let mut i: usize = 0;
    proof {
        assert(v@.skip(0) =~= v@);
        assert(out@ + replace_lit(v@.skip(0), p@, rep@) =~= replace_lit(s@, pat@, rep@));
    }
    while i < n
        invariant
            v@ == s@,
            p@ == pat@,
            p@.len() > 0,
            n == v@.len(),
            0 <= i <= n,
            out@ + replace_lit(v@.skip(i as int), p@, rep@) == replace_lit(s@, pat@, rep@),
        decreases n - i,
    {
        let ghost rest = v@.skip(i as int);
        let m = matches_at(v.as_slice(), p.as_slice(), i);
        proof {
            if m {
                assert(rest.take(p@.len() as int) =~= v@.subrange(i as int, i + p@.len()));
            } else if p@.len() <= rest.len() {
                assert(rest.take(p@.len() as int) =~= v@.subrange(i as int, i + p@.len()));
            }
        }
        if m {
            let ghost before = out@;
            out.append(rep);
            proof {
                assert(rest.skip(p@.len() as int) =~= v@.skip(i + p@.len()));
                assert(out@ + replace_lit(v@.skip(i + p@.len()), p@, rep@) =~= before + (rep@ + replace_lit(rest.skip(p@.len() as int), p@, rep@)));
            }
            i = i + p.len();
        } else {
            let ghost before = out@;
            push_char(&mut out, v[i]);
            proof {
                assert(rest[0] == v@[i as int]);
                assert(rest.skip(1) =~= v@.skip(i + 1));
                assert(out@ + replace_lit(v@.skip(i + 1), p@, rep@) =~= before + (seq![rest[0]] + replace_lit(rest.skip(1), p@, rep@)));
            }
            i = i + 1;
        }
    }
    proof {
        assert(v@.skip(n as int) =~= Seq::<char>::empty());
        assert(out@ + Seq::<char>::empty() =~= out@);
    }
    out
}

} // verus!
