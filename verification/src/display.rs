//! What the front-end needs to show settings: colours as numbers, and text
//! wrapped into lines.

use vstd::prelude::*;
use crate::text::{chars_of, string_of, texts, whitespace};

verus! {

/// The value of a hexadecimal digit.
pub open spec fn hex_digit(c: char) -> Option<int> {
    if '0' <= c <= '9' {
        Some(c as int - '0' as int)
    } else if 'a' <= c <= 'f' {
        Some(c as int - 'a' as int + 10)
    } else if 'A' <= c <= 'F' {
        Some(c as int - 'A' as int + 10)
    } else {
        None
    }
}

/// The value of two hexadecimal digits; a plus sign may stand in place of
/// the first.
pub open spec fn hex_pair(a: char, b: char) -> Option<int> {
    if a == '+' {
        hex_digit(b)
    } else {
        match (hex_digit(a), hex_digit(b)) {
            (Some(x), Some(y)) => Some(16 * x + y),
            _ => None,
        }
    }
}

/// The index of the first character that is not `#`.
pub open spec fn hashes(s: Seq<char>) -> int
    decreases s.len(),
{
    if s.len() == 0 || s[0] != '#' {
        0
    } else {
        1 + hashes(s.drop_first())
    }
}

/// The red, green and blue of three short digits: each digit doubled.
pub open spec fn short_color(r: char, g: char, b: char) -> Option<(u8, u8, u8)> {
    match (hex_digit(r), hex_digit(g), hex_digit(b)) {
        (Some(x), Some(y), Some(z)) => Some(((17 * x) as u8, (17 * y) as u8, (17 * z) as u8)),
        _ => None,
    }
}

/// The red, green and blue of a colour such as `#fa0`, `#fa08`, `#ffaa00`
/// or `#ffaa0080`: leading `#` are skipped, and 3, 4, 6 or 8 digits are
/// read; the alpha, where there is one, is not looked at.
pub open spec fn hex_color(s: Seq<char>) -> Option<(u8, u8, u8)> {
    let t = s.skip(hashes(s));
    if t.len() == 3 || t.len() == 4 {
        short_color(t[0], t[1], t[2])
    } else if t.len() == 6 || t.len() == 8 {
        match (hex_pair(t[0], t[1]), hex_pair(t[2], t[3]), hex_pair(t[4], t[5])) {
            (Some(r), Some(g), Some(b)) => Some((r as u8, g as u8, b as u8)),
            _ => None,
        }
    } else {
        None
    }
}

fn digit(c: char) -> (r: Option<u8>)
    ensures
        match r {
            Some(v) => hex_digit(c) == Some(v as int) && v < 16,
            None => hex_digit(c) is None,
        },
{
    if '0' <= c && c <= '9' {
        Some((c as u32 - '0' as u32) as u8)
    } else if 'a' <= c && c <= 'f' {
        Some((c as u32 - 'a' as u32 + 10) as u8)
    } else if 'A' <= c && c <= 'F' {
        Some((c as u32 - 'A' as u32 + 10) as u8)
    } else {
        None
    }
}

fn pair(a: char, b: char) -> (r: Option<u8>)
    ensures
        match r {
            Some(v) => hex_pair(a, b) == Some(v as int),
            None => hex_pair(a, b) is None,
        },
{
    if a == '+' {
        digit(b)
    } else {
        match (digit(a), digit(b)) {
            (Some(x), Some(y)) => Some(16 * x + y),
            _ => None,
        }
    }
}

proof fn lemma_hashes(s: Seq<char>, k: int)
    requires
        0 <= k <= s.len(),
        forall|j: int| 0 <= j < k ==> s[j] == '#',
        k == s.len() || s[k] != '#',
    ensures
        hashes(s) == k,
    decreases s.len(),
{
    if s.len() == 0 || s[0] != '#' {
    } else {
        lemma_hashes(s.drop_first(), k - 1);
    }
}

/// Reads a hexadecimal colour.
pub fn parse_hex_color(s: &str) -> (r: Option<(u8, u8, u8)>)
    ensures
        r == hex_color(s@),
{
    let v = chars_of(s);
    let mut k: usize = 0;
    while k < v.len() && v[k] == '#'
        invariant
            k <= v.len(),
            forall|j: int| 0 <= j < k ==> v@[j] == '#',
        decreases v.len() - k,
    {
        k += 1;
    }
    proof {
        lemma_hashes(v@, k as int);
    }
    let n = v.len() - k;
    let ghost t = s@.skip(k as int);
    if n == 3 || n == 4 {
        assert(t[0] == v@[k as int] && t[1] == v@[k + 1] && t[2] == v@[k + 2]);
        match (digit(v[k]), digit(v[k + 1]), digit(v[k + 2])) {
            (Some(x), Some(y), Some(z)) => Some((17 * x, 17 * y, 17 * z)),
            _ => None,
        }
    } else if n == 6 || n == 8 {
        assert(t[0] == v@[k as int] && t[1] == v@[k + 1] && t[2] == v@[k + 2] && t[3] == v@[k + 3]
            && t[4] == v@[k + 4] && t[5] == v@[k + 5]);
        match (pair(v[k], v[k + 1]), pair(v[k + 2], v[k + 3]), pair(v[k + 4], v[k + 5])) {
            (Some(r), Some(g), Some(b)) => Some((r, g, b)),
            _ => None,
        }
    } else {
        None
    }
}

/// Where the scan for words stands: the words that are complete, and the
/// one being read.
pub struct WordScan {
    pub words: Seq<Seq<char>>,
    pub current: Seq<char>,
}

/// The scan after the first `k` characters of `s`: whitespace ends the word
/// being read, if it is not empty.
pub open spec fn word_scan(s: Seq<char>, k: int) -> WordScan
    decreases k,
{
    if k <= 0 || k > s.len() {
        WordScan { words: Seq::empty(), current: Seq::empty() }
    } else {
        let before = word_scan(s, k - 1);
        if whitespace(s[k - 1]) {
            if before.current.len() > 0 {
                WordScan { words: before.words.push(before.current), current: Seq::empty() }
            } else {
                before
            }
        } else {
            WordScan { current: before.current.push(s[k - 1]), ..before }
        }
    }
}

/// The words of a text: its stretches without whitespace.
pub open spec fn words_of(s: Seq<char>) -> Seq<Seq<char>> {
    let scan = word_scan(s, s.len() as int);
    if scan.current.len() > 0 {
        scan.words.push(scan.current)
    } else {
        scan.words
    }
}

/// Where the filling of lines stands: the lines that are full, and the one
/// being filled.
pub struct LineFill {
    pub lines: Seq<Seq<char>>,
    pub current: Seq<char>,
}

/// The lines after the first `k` words were placed: a word goes onto the
/// current line, after a space, while the line stays within `max_width`
/// characters; else the line is ended and the word begins the next.
pub open spec fn line_fill(words: Seq<Seq<char>>, max_width: int, k: int) -> LineFill
    decreases k,
{
    if k <= 0 || k > words.len() {
        LineFill { lines: Seq::empty(), current: Seq::empty() }
    } else {
        let before = line_fill(words, max_width, k - 1);
        let word = words[k - 1];
        if before.current.len() == 0 {
            LineFill { current: word, ..before }
        } else if before.current.len() + 1 + word.len() <= max_width {
            LineFill { current: before.current + seq![' '] + word, ..before }
        } else {
            LineFill { lines: before.lines.push(before.current), current: word }
        }
    }
}

/// A text wrapped at word boundaries into lines of at most `max_width`
/// characters, where its words allow.
pub open spec fn wrapped(s: Seq<char>, max_width: int) -> Seq<Seq<char>> {
    let fill = line_fill(words_of(s), max_width, words_of(s).len() as int);
    if fill.current.len() > 0 {
        fill.lines.push(fill.current)
    } else {
        fill.lines
    }
}

/// The words of a text.
pub fn split_words(text: &str) -> (r: Vec<Vec<char>>)
    ensures
        r@.map_values(|w: Vec<char>| w@) == words_of(text@),
{
    let v = chars_of(text);
    let mut words: Vec<Vec<char>> = Vec::new();
    let mut current: Vec<char> = Vec::new();
    let mut i: usize = 0;
    while i < v.len()
        invariant
            i <= v.len(),
            v@ == text@,
            word_scan(text@, i as int).words == words@.map_values(|w: Vec<char>| w@),
            word_scan(text@, i as int).current == current@,
        decreases v.len() - i,
    {
        if crate::text::is_space(v[i]) {
            if current.len() > 0 {
                let ghost before = words@.map_values(|w: Vec<char>| w@);
                words.push(current);
                assert(words@.map_values(|w: Vec<char>| w@) =~= before.push(
                    word_scan(text@, i as int).current,
                ));
                current = Vec::new();
            }
        } else {
            current.push(v[i]);
        }
        i += 1;
    }
    if current.len() > 0 {
        let ghost before = words@.map_values(|w: Vec<char>| w@);
        let ghost last = current@;
        words.push(current);
        assert(words@.map_values(|w: Vec<char>| w@) =~= before.push(last));
    }
    words
}

/// Wraps a text at word boundaries.
pub fn wrap_text(text: &str, max_width: usize) -> (r: Vec<String>)
    ensures
        texts(r@) == wrapped(text@, max_width as int),
{
    let words = split_words(text);
    let ghost all = words@.map_values(|w: Vec<char>| w@);
    let mut lines: Vec<String> = Vec::new();
    let mut current: Vec<char> = Vec::new();
    let mut i: usize = 0;
    while i < words.len()
        invariant
            i <= words.len(),
            all == words@.map_values(|w: Vec<char>| w@),
            line_fill(all, max_width as int, i as int).lines == texts(lines@),
            line_fill(all, max_width as int, i as int).current == current@,
        decreases words.len() - i,
    {
        let word = &words[i];
        assert(all[i as int] == word@);
        let fits = current.len() < max_width && word.len() < max_width - current.len();
        if current.len() == 0 {
            current = word.clone();
            assert(current@ =~= word@);
        } else if fits {
            let ghost before = current@;
            current.push(' ');
            let mut k: usize = 0;
            while k < word.len()
                invariant
                    k <= word.len(),
                    current@ == before + seq![' '] + word@.take(k as int),
                decreases word.len() - k,
            {
                current.push(word[k]);
                k += 1;
            }
            assert(word@.take(word@.len() as int) =~= word@);
        } else {
            let ghost before = texts(lines@);
            lines.push(string_of(&current));
            assert(texts(lines@) =~= before.push(current@));
            current = word.clone();
            assert(current@ =~= word@);
        }
        i += 1;
    }
    if current.len() > 0 {
        let ghost before = texts(lines@);
        lines.push(string_of(&current));
        assert(texts(lines@) =~= before.push(current@));
    }
    lines
}

} // verus!
