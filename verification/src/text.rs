//! Text helpers shared by the settings domains.
//!
//! Contracts speak of a string through its view, a `Seq<char>`. The few
//! standard-library calls whose meaning Verus does not know stand behind
//! small functions whose contracts are assumed; everything else is proved.

use vstd::prelude::*;

verus! {

/// What `char::is_whitespace` answers for `c`: the Unicode `White_Space`
/// property.
pub uninterp spec fn whitespace(c: char) -> bool;

/// What `str::to_lowercase` returns for a text.
pub uninterp spec fn lowercase_of(s: Seq<char>) -> Seq<char>;

/// What parsing a text as an `i64` with `str::parse` gives: `None` where the
/// standard library reports an error.
pub uninterp spec fn i64_of(s: Seq<char>) -> Option<i64>;

/// What parsing a text as an `i32` with `str::parse` gives: `None` where the
/// standard library reports an error.
pub uninterp spec fn i32_of(s: Seq<char>) -> Option<i32>;

/// The decimal text that `i64::to_string` produces for `n`.
pub uninterp spec fn decimal_of(n: i64) -> Seq<char>;

/// The text that formatting a string with `{:?}` produces: quoted and escaped.
pub uninterp spec fn quoted_of(s: Seq<char>) -> Seq<char>;

/// `needle` occurs in `hay` at offset `at`.
pub open spec fn occurs_at(hay: Seq<char>, needle: Seq<char>, at: int) -> bool {
    0 <= at && at + needle.len() <= hay.len() && hay.subrange(at, at + needle.len()) == needle
}

/// `needle` occurs somewhere in `hay`.
pub open spec fn occurs_in(hay: Seq<char>, needle: Seq<char>) -> bool {
    exists|at: int| occurs_at(hay, needle, at)
}

/// `String::push`; assumed to append exactly the given character.
#[verifier::external_body]
fn push_char(s: &mut String, c: char)
    ensures
        final(s)@ == old(s)@.push(c),
{
    s.push(c)
}

/// `char::is_whitespace`; assumed to answer `whitespace`.
#[verifier::external_body]
pub(crate) fn is_space(c: char) -> (r: bool)
    ensures
        r == whitespace(c),
{
    c.is_whitespace()
}

/// `str::to_lowercase`; its result is named `lowercase_of`.
#[verifier::external_body]
pub(crate) fn to_lowercase(s: &str) -> (r: String)
    ensures
        r@ == lowercase_of(s@),
{
    s.to_lowercase()
}

/// `str::contains` with a string pattern; assumed to tell whether the pattern
/// matches a sub-slice of the text.
#[verifier::external_body]
pub(crate) fn contains(hay: &str, needle: &str) -> (r: bool)
    ensures
        r == occurs_in(hay@, needle@),
{
    hay.contains(needle)
}

/// `str::parse::<i64>`; its outcome is named `i64_of`.
#[verifier::external_body]
pub(crate) fn parse_i64(s: &str) -> (r: Option<i64>)
    ensures
        r == i64_of(s@),
{
    s.parse::<i64>().ok()
}

/// `str::parse::<i32>`; its outcome is named `i32_of`.
#[verifier::external_body]
pub(crate) fn parse_i32(s: &str) -> (r: Option<i32>)
    ensures
        r == i32_of(s@),
{
    s.parse::<i32>().ok()
}

/// `i64::to_string`; its result is named `decimal_of`.
#[verifier::external_body]
pub(crate) fn decimal(n: i64) -> (r: String)
    ensures
        r@ == decimal_of(n),
{
    n.to_string()
}

/// `format!` with `{:?}` on a string; its result is named `quoted_of`.
#[verifier::external_body]
pub(crate) fn quoted(s: &str) -> (r: String)
    ensures
        r@ == quoted_of(s@),
{
    format!("{:?}", s)
}

/// Whether two texts hold the same characters.
pub fn text_eq(a: &str, b: &str) -> (r: bool)
    ensures
        r == (a@ == b@),
{
    let x = a.to_owned();
    let y = b.to_owned();
    x == y
}

/// The characters of a text.
pub fn chars_of(s: &str) -> (v: Vec<char>)
    ensures
        v@ == s@,
{
    let mut v: Vec<char> = Vec::new();
    for c in it: s.chars()
        invariant
            it.seq() == s@,
            v@ == s@.take(it.index()),
    {
        v.push(c);
    }
    v
}

/// The text made of the characters `v[from..to]`.
pub fn string_of_range(v: &Vec<char>, from: usize, to: usize) -> (s: String)
    requires
        from <= to <= v.len(),
    ensures
        s@ == v@.subrange(from as int, to as int),
{
    let mut s = String::new();
    let mut i: usize = from;
    while i < to
        invariant
            from <= i <= to <= v.len(),
            s@ == v@.subrange(from as int, i as int),
        decreases to - i,
    {
        push_char(&mut s, v[i]);
        i += 1;
    }
    s
}

/// The text made of the characters of `v`.
pub fn string_of(v: &Vec<char>) -> (s: String)
    ensures
        s@ == v@,
{
    let s = string_of_range(v, 0, v.len());
    assert(v@.subrange(0, v@.len() as int) == v@);
    s
}

/// The number of characters of a text.
pub fn char_count(s: &str) -> (n: usize)
    ensures
        n == s@.len(),
{
    chars_of(s).len()
}

/// A text with leading and trailing whitespace removed.
pub open spec fn trimmed(s: Seq<char>) -> Seq<char> {
    s.subrange(trim_start(s), trim_end(s, trim_start(s)))
}

/// The index of the first character that is not whitespace, or the length.
pub open spec fn trim_start(s: Seq<char>) -> int
    decreases s.len(),
{
    if s.len() == 0 || !whitespace(s[0]) {
        0
    } else {
        1 + trim_start(s.drop_first())
    }
}

/// The index after the last character at or after `from` that is not
/// whitespace, or `from`.
pub open spec fn trim_end(s: Seq<char>, from: int) -> int
    decreases s.len(),
{
    if s.len() <= from || s.len() == 0 {
        from
    } else if !whitespace(s.last()) {
        s.len() as int
    } else {
        trim_end(s.drop_last(), from)
    }
}

proof fn lemma_trim_start(s: Seq<char>, k: int)
    requires
        0 <= k <= s.len(),
        forall|j: int| 0 <= j < k ==> whitespace(s[j]),
        k == s.len() || !whitespace(s[k]),
    ensures
        trim_start(s) == k,
    decreases s.len(),
{
    if s.len() == 0 || !whitespace(s[0]) {
    } else {
        lemma_trim_start(s.drop_first(), k - 1);
    }
}

proof fn lemma_trim_end(s: Seq<char>, from: int, k: int)
    requires
        0 <= from <= k <= s.len(),
        forall|j: int| k <= j < s.len() ==> whitespace(s[j]),
        k == from || !whitespace(s[k - 1]),
    ensures
        trim_end(s, from) == k,
    decreases s.len(),
{
    if s.len() <= from || s.len() == 0 {
    } else if !whitespace(s.last()) {
    } else {
        lemma_trim_end(s.drop_last(), from, k);
    }
}

/// Removes leading and trailing whitespace, as `str::trim` does.
pub fn trim(s: &str) -> (r: String)
    ensures
        r@ == trimmed(s@),
{
    let v = chars_of(s);
    let mut start: usize = 0;
    while start < v.len() && is_space(v[start])
        invariant
            start <= v.len(),
            forall|j: int| 0 <= j < start ==> whitespace(v@[j]),
        decreases v.len() - start,
    {
        start += 1;
    }
    let mut end: usize = v.len();
    while end > start && is_space(v[end - 1])
        invariant
            start <= end <= v.len(),
            forall|j: int| end <= j < v.len() ==> whitespace(v@[j]),
        decreases end,
    {
        end -= 1;
    }
    proof {
        lemma_trim_start(v@, start as int);
        lemma_trim_end(v@, start as int, end as int);
    }
    string_of_range(&v, start, end)
}

/// Whether `s` begins with `prefix`.
pub fn starts_with(s: &str, prefix: &str) -> (r: bool)
    ensures
        r == prefix@.is_prefix_of(s@),
{
    let a = chars_of(s);
    let p = chars_of(prefix);
    if p.len() > a.len() {
        return false;
    }
    let mut i: usize = 0;
    while i < p.len()
        invariant
            i <= p.len() <= a.len(),
            a@ == s@,
            p@ == prefix@,
            forall|j: int| 0 <= j < i ==> a@[j] == p@[j],
        decreases p.len() - i,
    {
        if a[i] != p[i] {
            assert(a@.subrange(0, p@.len() as int)[i as int] != p@[i as int]);
            return false;
        }
        i += 1;
    }
    assert(a@.subrange(0, p@.len() as int) =~= p@);
    true
}

/// The text `a` followed by the text `b`.
pub fn concat(a: &str, b: &str) -> (r: String)
    ensures
        r@ == a@ + b@,
{
    let mut r = a.to_owned();
    r.append(b);
    r
}

/// The views of a sequence of strings.
pub open spec fn texts(v: Seq<String>) -> Seq<Seq<char>> {
    v.map_values(|s: String| s@)
}

/// The pieces of `s` between occurrences of `sep`, scanning at `i` with the
/// current piece begun at `start`.
pub open spec fn split_from(s: Seq<char>, sep: char, start: int, i: int) -> Seq<Seq<char>>
    decreases s.len() - i,
{
    if i >= s.len() {
        seq![s.subrange(start, s.len() as int)]
    } else if s[i] == sep {
        seq![s.subrange(start, i)] + split_from(s, sep, i + 1, i + 1)
    } else {
        split_from(s, sep, start, i + 1)
    }
}

/// The pieces of `s` between occurrences of `sep`, empty pieces included:
/// always at least one piece.
pub open spec fn split_on(s: Seq<char>, sep: char) -> Seq<Seq<char>> {
    split_from(s, sep, 0, 0)
}

/// The pieces joined again, with `sep` between neighbours.
pub open spec fn joined(parts: Seq<Seq<char>>, sep: Seq<char>) -> Seq<char>
    decreases parts.len(),
{
    if parts.len() == 0 {
        Seq::empty()
    } else if parts.len() == 1 {
        parts[0]
    } else {
        joined(parts.drop_last(), sep) + sep + parts.last()
    }
}

/// The index of the first `c` in `s`, or the length of `s`.
pub open spec fn first_index(s: Seq<char>, c: char) -> int
    decreases s.len(),
{
    if s.len() == 0 || s[0] == c {
        0
    } else {
        1 + first_index(s.drop_first(), c)
    }
}

/// The index after the last `c` in `s`, or 0.
pub open spec fn after_last(s: Seq<char>, c: char) -> int
    decreases s.len(),
{
    if s.len() == 0 {
        0
    } else if s.last() == c {
        s.len() as int
    } else {
        after_last(s.drop_last(), c)
    }
}

proof fn lemma_first_index(s: Seq<char>, c: char, k: int)
    requires
        0 <= k <= s.len(),
        forall|j: int| 0 <= j < k ==> s[j] != c,
        k == s.len() || s[k] == c,
    ensures
        first_index(s, c) == k,
    decreases s.len(),
{
    if s.len() == 0 || s[0] == c {
    } else {
        lemma_first_index(s.drop_first(), c, k - 1);
    }
}

proof fn lemma_after_last(s: Seq<char>, c: char, k: int)
    requires
        0 <= k <= s.len(),
        forall|j: int| k <= j < s.len() ==> s[j] != c,
        k == 0 || s[k - 1] == c,
    ensures
        after_last(s, c) == k,
    decreases s.len(),
{
    if s.len() == 0 {
    } else if s.last() == c {
    } else {
        lemma_after_last(s.drop_last(), c, k);
    }
}

/// Splits a text at every `sep`.
pub fn split(s: &str, sep: char) -> (r: Vec<String>)
    ensures
        texts(r@) == split_on(s@, sep),
        r@.len() >= 1,
{
    let v = chars_of(s);
    let mut parts: Vec<String> = Vec::new();
    let mut start: usize = 0;
    let mut i: usize = 0;
    while i < v.len()
        invariant
            start <= i <= v.len(),
            v@ == s@,
            split_on(s@, sep) == texts(parts@) + split_from(s@, sep, start as int, i as int),
        decreases v.len() - i,
    {
        if v[i] == sep {
            let piece = string_of_range(&v, start, i);
            let ghost before = texts(parts@);
            parts.push(piece);
            assert(texts(parts@) =~= before + seq![s@.subrange(start as int, i as int)]);
            assert(split_on(s@, sep) =~= texts(parts@) + split_from(
                s@,
                sep,
                i as int + 1,
                i as int + 1,
            ));
            start = i + 1;
        }
        i += 1;
    }
    let piece = string_of_range(&v, start, v.len());
    let ghost before = texts(parts@);
    parts.push(piece);
    assert(texts(parts@) =~= before + seq![s@.subrange(start as int, s@.len() as int)]);
    parts
}

/// Joins texts with `sep` between neighbours.
pub fn join(parts: &Vec<String>, sep: &str) -> (r: String)
    ensures
        r@ == joined(texts(parts@), sep@),
{
    let mut r = String::new();
    let mut i: usize = 0;
    while i < parts.len()
        invariant
            i <= parts.len(),
            r@ == joined(texts(parts@).take(i as int), sep@),
        decreases parts.len() - i,
    {
        let ghost before = texts(parts@).take(i as int);
        let ghost now = texts(parts@).take(i as int + 1);
        assert(now.drop_last() =~= before);
        assert(now.last() == parts@[i as int]@);
        if i > 0 {
            r.append(sep);
        }
        r.append(parts[i].as_str());
        assert(r@ =~= joined(now, sep@));
        i += 1;
    }
    assert(texts(parts@).take(parts@.len() as int) =~= texts(parts@));
    r
}

/// The text after the last `c`, or the whole text where `c` does not occur.
pub fn tail_after(s: &str, c: char) -> (r: String)
    ensures
        r@ == s@.skip(after_last(s@, c)),
{
    let v = chars_of(s);
    let mut k: usize = v.len();
    while k > 0 && v[k - 1] != c
        invariant
            k <= v.len(),
            forall|j: int| k <= j < v.len() ==> v@[j] != c,
        decreases k,
    {
        k -= 1;
    }
    proof {
        lemma_after_last(v@, c, k as int);
    }
    string_of_range(&v, k, v.len())
}

/// The text before the first `c` and, where `c` occurs, the text after it.
pub fn split_once(s: &str, c: char) -> (r: (String, Option<String>))
    ensures
        r.0@ == s@.take(first_index(s@, c)),
        match r.1 {
            Some(rest) => first_index(s@, c) < s@.len() && rest@ == s@.skip(
                first_index(s@, c) + 1,
            ),
            None => first_index(s@, c) == s@.len(),
        },
{
    let v = chars_of(s);
    let mut k: usize = 0;
    while k < v.len() && v[k] != c
        invariant
            k <= v.len(),
            forall|j: int| 0 <= j < k ==> v@[j] != c,
        decreases v.len() - k,
    {
        k += 1;
    }
    proof {
        lemma_first_index(v@, c, k as int);
    }
    let head = string_of_range(&v, 0, k);
    if k < v.len() {
        let rest = string_of_range(&v, k + 1, v.len());
        (head, Some(rest))
    } else {
        (head, None)
    }
}

/// A copy of a list of texts.
pub fn clone_texts(v: &Vec<String>) -> (r: Vec<String>)
    ensures
        r@ == v@,
{
    let mut r: Vec<String> = Vec::new();
    let mut i: usize = 0;
    while i < v.len()
        invariant
            i <= v.len(),
            r@ == v@.take(i as int),
        decreases v.len() - i,
    {
        r.push(v[i].clone());
        i += 1;
    }
    assert(v@.take(v@.len() as int) == v@);
    r
}

/// A cursor brought back into a text of `len` characters.
pub open spec fn clamped(cursor: usize, len: nat) -> int {
    if cursor <= len {
        cursor as int
    } else {
        len as int
    }
}

/// The text after typing `c` at the cursor.
pub open spec fn typed(text: Seq<char>, cursor: usize, c: char) -> Seq<char> {
    text.insert(clamped(cursor, text.len()), c)
}

/// The text after deleting the character before the cursor, if there is one.
pub open spec fn erased(text: Seq<char>, cursor: usize) -> Seq<char> {
    if clamped(cursor, text.len()) > 0 {
        text.remove(clamped(cursor, text.len()) - 1)
    } else {
        text
    }
}

/// The cursor after deleting the character before it.
pub open spec fn erased_cursor(text: Seq<char>, cursor: usize) -> int {
    if clamped(cursor, text.len()) > 0 {
        clamped(cursor, text.len()) - 1
    } else {
        0
    }
}

/// Types `c` at the cursor and moves the cursor behind it. The cursor counts
/// characters; one that lies behind the end is taken to be at the end.
pub fn insert_at(text: &mut String, cursor: &mut usize, c: char)
    ensures
        final(text)@ == typed(old(text)@, *old(cursor), c),
        *final(cursor) == clamped(*old(cursor), old(text)@.len()) + 1,
{
    let mut v = chars_of(text.as_str());
    let at = if *cursor <= v.len() {
        *cursor
    } else {
        v.len()
    };
    v.insert(at, c);
    let n = v.len();
    assert(at < n);
    *text = string_of(&v);
    *cursor = at + 1;
}

/// Deletes the character before the cursor and moves the cursor onto its
/// place; nothing happens at the start of the text.
pub fn delete_before(text: &mut String, cursor: &mut usize)
    ensures
        final(text)@ == erased(old(text)@, *old(cursor)),
        *final(cursor) == erased_cursor(old(text)@, *old(cursor)),
{
    let mut v = chars_of(text.as_str());
    let at = if *cursor <= v.len() {
        *cursor
    } else {
        v.len()
    };
    if at > 0 {
        v.remove(at - 1);
        *text = string_of(&v);
        *cursor = at - 1;
    } else {
        *cursor = 0;
    }
}

/// The cursor one character to the right, stopping at the end of the text.
pub fn cursor_after(text: &str, cursor: usize) -> (r: usize)
    ensures
        r == if cursor < text@.len() {
            cursor + 1
        } else {
            text@.len() as int
        },
{
    let n = char_count(text);
    if cursor < n {
        cursor + 1
    } else {
        n
    }
}

/// The cursor one character to the left, stopping at the start.
pub fn cursor_before(cursor: usize) -> (r: usize)
    ensures
        r == if cursor > 0 {
            cursor - 1
        } else {
            0
        },
{
    if cursor > 0 {
        cursor - 1
    } else {
        0
    }
}

} // verus!
