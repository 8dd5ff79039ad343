//! Character classes and operations on character sequences.
//!
//! Text is modelled as `Seq<char>`. Every executable function in this
//! module states its result as a spec function over that model.

use vstd::prelude::*;

verus! {

/// `String::push` appends the character to the end of the string.
pub assume_specification[ String::push ](s: &mut String, c: char)
    ensures
        final(s)@ == old(s)@.push(c),
;

/// The upper-case form of a text by the Unicode case mappings. Stands for
/// what `str::to_uppercase` computes.
pub uninterp spec fn unicode_uppercase(s: Seq<char>) -> Seq<char>;

/// The lower-case form of a text by the Unicode case mappings. Stands for
/// what `str::to_lowercase` computes.
pub uninterp spec fn unicode_lowercase(s: Seq<char>) -> Seq<char>;

/// The upper-case form of one character by the Unicode case mappings: one
/// character or more. Stands for what `char::to_uppercase` yields.
pub uninterp spec fn unicode_uppercase_of(c: char) -> Seq<char>;

/// `str::to_uppercase` gives the upper-case form of the text. The contract
/// names the outcome and claims no more than that it is a function of the
/// text.
pub assume_specification[ str::to_uppercase ](s: &str) -> (r: String)
    ensures
        r@ == unicode_uppercase(s@),
;

/// `str::to_lowercase` gives the lower-case form of the text. The contract
/// names the outcome and claims no more than that it is a function of the
/// text.
pub assume_specification[ str::to_lowercase ](s: &str) -> (r: String)
    ensures
        r@ == unicode_lowercase(s@),
;

/// Collects what `char::to_uppercase` yields for `c`. The contract names
/// the outcome and claims no more than that it is a function of the
/// character.
#[verifier::external_body]
fn char_to_uppercase(c: char) -> (r: String)
    ensures
        r@ == unicode_uppercase_of(c),
{
    c.to_uppercase().to_string()
}

/// The printable ASCII range: from the space up to the tilde.
pub open spec fn is_printable_ascii(c: char) -> bool {
    ' ' <= c && c <= '~'
}

/// The characters with the Unicode `White_Space` property.
pub open spec fn is_whitespace(c: char) -> bool {
    ||| '\u{0009}' <= c && c <= '\u{000D}'
    ||| c == ' '
    ||| c == '\u{0085}'
    ||| c == '\u{00A0}'
    ||| c == '\u{1680}'
    ||| '\u{2000}' <= c && c <= '\u{200A}'
    ||| c == '\u{2028}'
    ||| c == '\u{2029}'
    ||| c == '\u{202F}'
    ||| c == '\u{205F}'
    ||| c == '\u{3000}'
}

/// Upper-case form of an ASCII letter; every other character is unchanged.
pub open spec fn ascii_upper(c: char) -> char {
    if 'a' <= c && c <= 'z' {
        ((c as u8) - 32) as char
    } else {
        c
    }
}

/// Lower-case form of an ASCII letter; every other character is unchanged.
pub open spec fn ascii_lower(c: char) -> char {
    if 'A' <= c && c <= 'Z' {
        ((c as u8) + 32) as char
    } else {
        c
    }
}

/// Decides whether `c` is printable ASCII.
pub fn char_is_printable_ascii(c: char) -> (r: bool)
    ensures
        r == is_printable_ascii(c),
{
    ' ' <= c && c <= '~'
}

/// Decides whether `c` is whitespace.
pub fn char_is_whitespace(c: char) -> (r: bool)
    ensures
        r == is_whitespace(c),
{
    ('\u{0009}' <= c && c <= '\u{000D}') || c == ' ' || c == '\u{0085}' || c == '\u{00A0}' || c
        == '\u{1680}' || ('\u{2000}' <= c && c <= '\u{200A}') || c == '\u{2028}' || c == '\u{2029}'
        || c == '\u{202F}' || c == '\u{205F}' || c == '\u{3000}'
}

/// Maps an ASCII letter to its capital; any other character stays.
pub fn char_to_ascii_upper(c: char) -> (r: char)
    ensures
        r == ascii_upper(c),
{
    if 'a' <= c && c <= 'z' {
        ((c as u8) - 32) as char
    } else {
        c
    }
}

/// Maps an ASCII capital to its small letter; any other character stays.
pub fn char_to_ascii_lower(c: char) -> (r: char)
    ensures
        r == ascii_lower(c),
{
    if 'A' <= c && c <= 'Z' {
        ((c as u8) + 32) as char
    } else {
        c
    }
}

/// Collects the characters of a string slice.
pub fn chars_of(s: &str) -> (r: Vec<char>)
    ensures
        r@ == s@,
{
    let mut out: Vec<char> = Vec::new();
    for c in it: s.chars()
        invariant
            out@ == it.seq().take(it.index() as int),
            it.seq() == s@,
    {
        out.push(c);
    }
    out
}

/// Builds a `String` from a slice of characters.
pub fn string_of(chars: &[char]) -> (r: String)
    ensures
        r@ == chars@,
{
    let mut out = String::new();
    let mut i: usize = 0;
    while i < chars.len()
        invariant
            i <= chars.len(),
            out@ == chars@.take(i as int),
        decreases chars.len() - i,
    {
        out.push(chars[i]);
        i = i + 1;
    }
    out
}


/// Index of the first character at or after `from` that is not whitespace;
/// the length of `s` when only whitespace follows.
pub open spec fn skip_whitespace(s: Seq<char>, from: int) -> int
    decreases s.len() - from,
{
    if 0 <= from < s.len() && is_whitespace(s[from]) {
        skip_whitespace(s, from + 1)
    } else {
        from
    }
}

/// Index of the first whitespace character at or after `from`; the length
/// of `s` when none follows.
pub open spec fn skip_word(s: Seq<char>, from: int) -> int
    decreases s.len() - from,
{
    if 0 <= from < s.len() && !is_whitespace(s[from]) {
        skip_word(s, from + 1)
    } else {
        from
    }
}

/// The least index `e <= to` such that `s[e..to]` is all whitespace.
pub open spec fn trailing_start(s: Seq<char>, to: int) -> int
    decreases to,
{
    if 0 < to <= s.len() && is_whitespace(s[to - 1]) {
        trailing_start(s, to - 1)
    } else {
        to
    }
}

/// `s` without its leading whitespace.
pub open spec fn trimmed_start(s: Seq<char>) -> Seq<char> {
    s.skip(skip_whitespace(s, 0))
}

/// `s` without its trailing whitespace.
pub open spec fn trimmed_end(s: Seq<char>) -> Seq<char> {
    s.take(trailing_start(s, s.len() as int))
}

/// `s` without leading and trailing whitespace.
pub open spec fn trimmed(s: Seq<char>) -> Seq<char> {
    trimmed_end(trimmed_start(s))
}

/// The maximal runs of non-whitespace characters of `s` that start at or
/// after `from`, in order.
pub open spec fn words_from(s: Seq<char>, from: int) -> Seq<Seq<char>>
    decreases s.len() - from,
    via words_from_terminates
{
    let start = skip_whitespace(s, from);
    if from < 0 || start >= s.len() {
        Seq::empty()
    } else {
        let end = skip_word(s, start);
        seq![s.subrange(start, end)] + words_from(s, end)
    }
}

#[via_fn]
proof fn words_from_terminates(s: Seq<char>, from: int) {
    if 0 <= from <= s.len() {
        lemma_skip_whitespace_bounds(s, from);
        let start = skip_whitespace(s, from);
        if start < s.len() {
            lemma_skip_word_bounds(s, start);
        }
    }
}

/// The whitespace-separated words of `s`, in order. No word is empty and
/// none holds whitespace.
pub open spec fn words(s: Seq<char>) -> Seq<Seq<char>> {
    words_from(s, 0)
}

/// The parts in order, with `sep` between each two neighbours.
pub open spec fn joined(parts: Seq<Seq<char>>, sep: Seq<char>) -> Seq<char>
    decreases parts.len(),
{
    if parts.len() == 0 {
        Seq::empty()
    } else if parts.len() == 1 {
        parts[0]
    } else {
        joined(parts.drop_last(), sep) + sep + parts.last()
    }
}

/// True for the characters of ASCII.
pub open spec fn is_ascii_char(c: char) -> bool {
    c <= '\u{7f}'
}

/// True when `s` holds ASCII characters only.
pub open spec fn all_ascii(s: Seq<char>) -> bool {
    forall|i: int| 0 <= i < s.len() ==> is_ascii_char(#[trigger] s[i])
}

/// Every character mapped by `ascii_upper`.
pub open spec fn ascii_upper_cased(s: Seq<char>) -> Seq<char> {
    Seq::new(s.len(), |i: int| ascii_upper(s[i]))
}

/// Every character mapped by `ascii_lower`.
pub open spec fn ascii_lower_cased(s: Seq<char>) -> Seq<char> {
    Seq::new(s.len(), |i: int| ascii_lower(s[i]))
}

/// The upper-case form of a text: letter by letter for ASCII text, by the
/// Unicode case mappings for any other.
pub open spec fn upper_cased(s: Seq<char>) -> Seq<char> {
    if all_ascii(s) {
        ascii_upper_cased(s)
    } else {
        unicode_uppercase(s)
    }
}

/// The lower-case form of a text: letter by letter for ASCII text, by the
/// Unicode case mappings for any other.
pub open spec fn lower_cased(s: Seq<char>) -> Seq<char> {
    if all_ascii(s) {
        ascii_lower_cased(s)
    } else {
        unicode_lowercase(s)
    }
}

/// The upper-case form of one character: the capital letter for an ASCII
/// letter, the character itself for any other ASCII character, and what
/// the Unicode case mappings give for a character outside ASCII.
pub open spec fn upper_cased_char(c: char) -> Seq<char> {
    if is_ascii_char(c) {
        seq![ascii_upper(c)]
    } else {
        unicode_uppercase_of(c)
    }
}

/// First character in upper case, the rest in lower case.
pub open spec fn capitalized(word: Seq<char>) -> Seq<char> {
    if word.len() == 0 {
        Seq::empty()
    } else {
        upper_cased_char(word[0]) + lower_cased(word.drop_first())
    }
}

/// Each word of `s` capitalized, the words joined by single spaces.
pub open spec fn title_cased(s: Seq<char>) -> Seq<char> {
    joined(words(s).map_values(|w: Seq<char>| capitalized(w)), seq![' '])
}

/// Index of the first occurrence of `c` at or after `from`; the length of
/// `s` when there is none.
pub open spec fn find_char(s: Seq<char>, c: char, from: int) -> int
    decreases s.len() - from,
{
    if 0 <= from < s.len() && s[from] != c {
        find_char(s, c, from + 1)
    } else {
        from
    }
}

/// True when `pattern` occurs in `s` as a contiguous run.
pub open spec fn contains_run(s: Seq<char>, pattern: Seq<char>) -> bool {
    exists|i: int| occurs_at(s, pattern, i)
}

/// True when `pattern` occurs in `s` starting at index `i`.
pub open spec fn occurs_at(s: Seq<char>, pattern: Seq<char>, i: int) -> bool {
    0 <= i && i + pattern.len() <= s.len() && s.subrange(i, i + pattern.len()) == pattern
}

/// The views of a vector of character vectors, in order.
pub open spec fn views_of(parts: Seq<Vec<char>>) -> Seq<Seq<char>> {
    Seq::new(parts.len(), |i: int| parts[i]@)
}

pub proof fn lemma_skip_whitespace_bounds(s: Seq<char>, from: int)
    requires
        0 <= from <= s.len(),
    ensures
        from <= skip_whitespace(s, from) <= s.len(),
        skip_whitespace(s, from) < s.len() ==> !is_whitespace(s[skip_whitespace(s, from)]),
        forall|k: int| from <= k < skip_whitespace(s, from) ==> is_whitespace(s[k]),
    decreases s.len() - from,
{
    if from < s.len() && is_whitespace(s[from]) {
        lemma_skip_whitespace_bounds(s, from + 1);
    }
}

pub proof fn lemma_skip_word_bounds(s: Seq<char>, from: int)
    requires
        0 <= from <= s.len(),
    ensures
        from <= skip_word(s, from) <= s.len(),
        skip_word(s, from) < s.len() ==> is_whitespace(s[skip_word(s, from)]),
        forall|k: int| from <= k < skip_word(s, from) ==> !is_whitespace(s[k]),
        from < s.len() && !is_whitespace(s[from]) ==> from < skip_word(s, from),
    decreases s.len() - from,
{
    if from < s.len() && !is_whitespace(s[from]) {
        lemma_skip_word_bounds(s, from + 1);
    }
}

/// Every word is a run of characters that are not whitespace, and no word
/// is empty.
pub proof fn lemma_words_from_nonempty(s: Seq<char>, from: int)
    requires
        0 <= from <= s.len(),
    ensures
        forall|k: int|
            0 <= k < words_from(s, from).len() ==> (#[trigger] words_from(s, from)[k]).len() > 0,
        forall|k: int, j: int|
            0 <= k < words_from(s, from).len() && 0 <= j < words_from(s, from)[k].len()
                ==> !is_whitespace(#[trigger] words_from(s, from)[k][j]),
    decreases s.len() - from,
{
    lemma_skip_whitespace_bounds(s, from);
    let start = skip_whitespace(s, from);
    if start < s.len() {
        lemma_skip_word_bounds(s, start);
        let end = skip_word(s, start);
        lemma_words_from_nonempty(s, end);
        let rest = words_from(s, end);
        let all = words_from(s, from);
        let first = s.subrange(start, end);
        assert(all == seq![first] + rest);
        assert forall|k: int| 0 <= k < all.len() implies (#[trigger] all[k]).len() > 0 by {
            if k > 0 {
                assert(all[k] == rest[k - 1]);
            }
        }
        assert forall|k: int, j: int| 0 <= k < all.len() && 0 <= j < all[k].len() implies !is_whitespace(
            #[trigger] all[k][j],
        ) by {
            if k > 0 {
                assert(all[k] == rest[k - 1]);
            } else {
                assert(all[0][j] == s[start + j]);
            }
        }
    }
}

/// Copies `s[from..to]` into a new vector.
pub fn copy_range(s: &[char], from: usize, to: usize) -> (r: Vec<char>)
    requires
        from <= to <= s.len(),
    ensures
        r@ == s@.subrange(from as int, to as int),
{
    let mut out: Vec<char> = Vec::new();
    let mut i: usize = from;
    while i < to
        invariant
            from <= i <= to <= s.len(),
            out@ == s@.subrange(from as int, i as int),
        decreases to - i,
    {
        out.push(s[i]);
        i = i + 1;
    }
    out
}

/// Number of leading whitespace characters of `s`.
pub fn leading_whitespace(s: &[char]) -> (r: usize)
    ensures
        r == skip_whitespace(s@, 0),
        r <= s.len(),
{
    let mut i: usize = 0;
    while i < s.len() && char_is_whitespace(s[i])
        invariant
            i <= s.len(),
            skip_whitespace(s@, i as int) == skip_whitespace(s@, 0),
        decreases s.len() - i,
    {
        i = i + 1;
    }
    i
}

/// Length of `s` without its trailing whitespace.
pub fn trailing_whitespace_start(s: &[char]) -> (r: usize)
    ensures
        r == trailing_start(s@, s.len() as int),
        r <= s.len(),
{
    let mut i: usize = s.len();
    while i > 0 && char_is_whitespace(s[i - 1])
        invariant
            i <= s.len(),
            trailing_start(s@, i as int) == trailing_start(s@, s.len() as int),
        decreases i,
    {
        i = i - 1;
    }
    i
}

/// Removes leading and trailing whitespace.
pub fn trim(s: &[char]) -> (r: Vec<char>)
    ensures
        r@ == trimmed(s@),
{
    let a = leading_whitespace(s);
    let t = &s[a..s.len()];
    let b = trailing_whitespace_start(t);
    copy_range(t, 0, b)
}

/// Splits `s` into its whitespace-separated words.
pub fn split_whitespace(s: &[char]) -> (r: Vec<Vec<char>>)
    ensures
        views_of(r@) == words(s@),
{
    let mut tokens: Vec<Vec<char>> = Vec::new();
    let mut i: usize = 0;
    loop
        invariant
            i <= s.len(),
            words(s@) == views_of(tokens@) + words_from(s@, i as int),
        ensures
            views_of(tokens@) == words(s@),
        decreases s.len() - i,
    {
        let ghost from = i as int;
        while i < s.len() && char_is_whitespace(s[i])
            invariant
                from <= i <= s.len(),
                skip_whitespace(s@, i as int) == skip_whitespace(s@, from),
            decreases s.len() - i,
        {
            i = i + 1;
        }
        if i >= s.len() {
            assert(words_from(s@, from) == Seq::<Seq<char>>::empty());
            break ;
        }
        let start: usize = i;
        while i < s.len() && !char_is_whitespace(s[i])
            invariant
                start <= i <= s.len(),
                skip_word(s@, i as int) == skip_word(s@, start as int),
            decreases s.len() - i,
        {
            i = i + 1;
        }
        proof {
            lemma_skip_word_bounds(s@, start as int);
        }
        let token = copy_range(s, start, i);
        proof {
            assert(views_of(tokens@.push(token)) == views_of(tokens@) + seq![token@]);
        }
        tokens.push(token);
    }
    tokens
}

/// Joins `parts[from..to]`, placing `sep` between each two neighbours.
pub fn join_range(parts: &[Vec<char>], from: usize, to: usize, sep: &[char]) -> (r: Vec<char>)
    requires
        from <= to <= parts.len(),
    ensures
        r@ == joined(views_of(parts@).subrange(from as int, to as int), sep@),
{
    let ghost all = views_of(parts@);
    let mut out: Vec<char> = Vec::new();
    let mut k: usize = from;
    while k < to
        invariant
            from <= k <= to <= parts.len(),
            all == views_of(parts@),
            out@ == joined(all.subrange(from as int, k as int), sep@),
        decreases to - k,
    {
        proof {
            let next = all.subrange(from as int, k + 1);
            assert(next.drop_last() == all.subrange(from as int, k as int));
            assert(next.last() == parts@[k as int]@);
            if k == from {
                assert(out@ + parts@[k as int]@ == next[0]);
            }
        }
        if k > from {
            append_chars(&mut out, sep);
        }
        append_chars(&mut out, parts[k].as_slice());
        k = k + 1;
    }
    out
}

/// Appends the characters of `tail` to `out`.
pub fn append_chars(out: &mut Vec<char>, tail: &[char])
    ensures
        final(out)@ == old(out)@ + tail@,
{
    let mut i: usize = 0;
    while i < tail.len()
        invariant
            i <= tail.len(),
            out@ == old(out)@ + tail@.take(i as int),
        decreases tail.len() - i,
    {
        out.push(tail[i]);
        i = i + 1;
    }
}

/// Decides whether `s` holds ASCII characters only.
pub fn is_ascii_text(s: &[char]) -> (r: bool)
    ensures
        r == all_ascii(s@),
{
    let mut i: usize = 0;
    while i < s.len()
        invariant
            i <= s.len(),
            forall|k: int| 0 <= k < i ==> is_ascii_char(#[trigger] s@[k]),
        decreases s.len() - i,
    {
        if s[i] > '\u{7f}' {
            return false;
        }
        i = i + 1;
    }
    true
}

/// Puts a text in upper case.
pub fn to_upper(s: &[char]) -> (r: Vec<char>)
    ensures
        r@ == upper_cased(s@),
{
    if !is_ascii_text(s) {
        let text = string_of(s);
        let upper = text.as_str().to_uppercase();
        return chars_of(upper.as_str());
    }
    let mut out: Vec<char> = Vec::new();
    let mut i: usize = 0;
    while i < s.len()
        invariant
            i <= s.len(),
            out@ == ascii_upper_cased(s@).take(i as int),
        decreases s.len() - i,
    {
        out.push(char_to_ascii_upper(s[i]));
        i = i + 1;
    }
    out
}

/// Puts a text in lower case.
pub fn to_lower(s: &[char]) -> (r: Vec<char>)
    ensures
        r@ == lower_cased(s@),
{
    if !is_ascii_text(s) {
        let text = string_of(s);
        let lower = text.as_str().to_lowercase();
        return chars_of(lower.as_str());
    }
    let mut out: Vec<char> = Vec::new();
    let mut i: usize = 0;
    while i < s.len()
        invariant
            i <= s.len(),
            out@ == ascii_lower_cased(s@).take(i as int),
        decreases s.len() - i,
    {
        out.push(char_to_ascii_lower(s[i]));
        i = i + 1;
    }
    out
}

/// Puts the first character in upper case and the rest in lower case.
pub fn capitalize(word: &[char]) -> (r: Vec<char>)
    ensures
        r@ == capitalized(word@),
{
    let mut out: Vec<char> = Vec::new();
    if word.len() == 0 {
        return out;
    }
    let first = word[0];
    if first <= '\u{7f}' {
        out.push(char_to_ascii_upper(first));
    } else {
        let upper = char_to_uppercase(first);
        out = chars_of(upper.as_str());
    }
    proof {
        assert(word@.subrange(1, word@.len() as int) == word@.drop_first());
    }
    let rest = to_lower(&word[1..word.len()]);
    append_chars(&mut out, rest.as_slice());
    out
}

/// Capitalizes each whitespace-separated word and joins the words by
/// single spaces.
pub fn title_case_chars(s: &[char]) -> (r: Vec<char>)
    ensures
        r@ == title_cased(s@),
{
    let tokens = split_whitespace(s);
    let mut caps: Vec<Vec<char>> = Vec::new();
    let mut k: usize = 0;
    while k < tokens.len()
        invariant
            k <= tokens.len(),
            views_of(caps@) == views_of(tokens@).map_values(|w: Seq<char>| capitalized(w)).take(
                k as int,
            ),
        decreases tokens.len() - k,
    {
        let cap = capitalize(tokens[k].as_slice());
        proof {
            assert(views_of(caps@.push(cap)) == views_of(caps@) + seq![cap@]);
        }
        caps.push(cap);
        k = k + 1;
    }
    let sep: [char; 1] = [' '];
    proof {
        let mapped = views_of(tokens@).map_values(|w: Seq<char>| capitalized(w));
        assert(mapped.take(tokens.len() as int) == mapped);
        assert(views_of(caps@).subrange(0, caps.len() as int) == views_of(caps@));
        assert(sep@ == seq![' ']);
    }
    join_range(caps.as_slice(), 0, caps.len(), sep.as_slice())
}

/// Index of the first occurrence of `c` in `s`; the length of `s` when
/// there is none.
pub fn find(s: &[char], c: char) -> (r: usize)
    ensures
        r == find_char(s@, c, 0),
        r <= s.len(),
        r < s.len() ==> s@[r as int] == c,
        forall|k: int| 0 <= k < r ==> s@[k] != c,
{
    let mut i: usize = 0;
    while i < s.len() && s[i] != c
        invariant
            i <= s.len(),
            find_char(s@, c, i as int) == find_char(s@, c, 0),
            forall|k: int| 0 <= k < i ==> s@[k] != c,
        decreases s.len() - i,
    {
        i = i + 1;
    }
    i
}

/// Decides whether `pattern` starts at index `at` of `s`.
pub fn matches_at(s: &[char], pattern: &[char], at: usize) -> (r: bool)
    ensures
        r == occurs_at(s@, pattern@, at as int),
{
    if pattern.len() > s.len() || at > s.len() - pattern.len() {
        return false;
    }
    let mut j: usize = 0;
    while j < pattern.len()
        invariant
            j <= pattern.len(),
            at + pattern.len() <= s.len(),
            forall|k: int| 0 <= k < j ==> s@[at + k] == pattern@[k],
        decreases pattern.len() - j,
    {
        if s[at + j] != pattern[j] {
            proof {
                let sub = s@.subrange(at as int, at + pattern.len());
                assert(sub[j as int] != pattern@[j as int]);
            }
            return false;
        }
        j = j + 1;
    }
    proof {
        assert(s@.subrange(at as int, at + pattern.len()) =~= pattern@);
    }
    true
}

/// Decides whether `pattern` occurs in `s` as a contiguous run.
pub fn contains(s: &[char], pattern: &[char]) -> (r: bool)
    ensures
        r == contains_run(s@, pattern@),
{
    if pattern.len() > s.len() {
        return false;
    }
    let last: usize = s.len() - pattern.len();
    let mut i: usize = 0;
    loop
        invariant
            i <= last,
            last == s.len() - pattern.len(),
            forall|k: int| 0 <= k < i ==> !occurs_at(s@, pattern@, k),
        decreases last - i,
    {
        if matches_at(s, pattern, i) {
            return true;
        }
        if i == last {
            return false;
        }
        i = i + 1;
    }
}

/// Decides whether two character slices hold the same characters.
pub fn same_chars(a: &[char], b: &[char]) -> (r: bool)
    ensures
        r == (a@ == b@),
{
    if a.len() != b.len() {
        return false;
    }
    let r = matches_at(a, b, 0);
    proof {
        assert(a@.subrange(0, a@.len() as int) == a@);
    }
    r
}

/// Decides whether two string slices hold the same characters.
pub fn str_eq(a: &str, b: &str) -> (r: bool)
    ensures
        r == (a@ == b@),
{
    let left = chars_of(a);
    let right = chars_of(b);
    same_chars(left.as_slice(), right.as_slice())
}

/// Appends the characters of a string slice to `out`.
pub fn append_str(out: &mut Vec<char>, tail: &str)
    ensures
        final(out)@ == old(out)@ + tail@,
{
    let chars = chars_of(tail);
    append_chars(out, chars.as_slice());
}

/// The two parts of `s` around `sep` where `sep` occurs exactly once.
pub open spec fn halves(s: Seq<char>, sep: char) -> Option<(Seq<char>, Seq<char>)> {
    let at = find_char(s, sep, 0);
    if at < s.len() && !s.skip(at + 1).contains(sep) {
        Some((s.take(at), s.skip(at + 1)))
    } else {
        None
    }
}

/// Splits `s` at `sep` where `sep` occurs exactly once.
pub fn split_in_two(s: &str, sep: char) -> (r: Option<(String, String)>)
    ensures
        match halves(s@, sep) {
            Some((a, b)) => r matches Some(p) && p.0@ == a && p.1@ == b,
            None => r is None,
        },
{
    let chars = chars_of(s);
    let at = find(chars.as_slice(), sep);
    if at >= chars.len() {
        return None;
    }
    let rest = &chars[at + 1..chars.len()];
    proof {
        assert(rest@ == chars@.skip(at + 1));
        assert(chars@.subrange(0, at as int) == chars@.take(at as int));
    }
    let again = find(rest, sep);
    if again < rest.len() {
        proof {
            assert(rest@.contains(sep));
        }
        return None;
    }
    Some((string_of(&chars[0..at]), string_of(rest)))
}

} // verus!
