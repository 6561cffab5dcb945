//! Text helpers, and contracts for the standard string operations that the
//! library relies on.

use vstd::prelude::*;
use vstd::string::*;

verus! {

/// The lower-case form of a string, as `str::to_lowercase` computes it.
pub uninterp spec fn lowercase_of(s: Seq<char>) -> Seq<char>;

/// Whether a character is white space: one of the characters with the
/// Unicode property `White_Space`.
pub open spec fn is_white_space(c: char) -> bool {
    let u = c as u32;
    ||| 0x09 <= u <= 0x0d
    ||| u == 0x20
    ||| u == 0x85
    ||| u == 0xa0
    ||| u == 0x1680
    ||| 0x2000 <= u <= 0x200a
    ||| u == 0x2028
    ||| u == 0x2029
    ||| u == 0x202f
    ||| u == 0x205f
    ||| u == 0x3000
}

/// A string without the white space at its start.
pub open spec fn trim_start_of(s: Seq<char>) -> Seq<char>
    decreases s.len(),
{
    if s.len() > 0 && is_white_space(s.first()) {
        trim_start_of(s.drop_first())
    } else {
        s
    }
}

/// A string without the white space at its end.
pub open spec fn trim_end_of(s: Seq<char>) -> Seq<char>
    decreases s.len(),
{
    if s.len() > 0 && is_white_space(s.last()) {
        trim_end_of(s.drop_last())
    } else {
        s
    }
}

/// A string without the white space at its start and at its end.
pub open spec fn trimmed_of(s: Seq<char>) -> Seq<char> {
    trim_end_of(trim_start_of(s))
}

/// A path in quotes with its special characters escaped, as the `{:?}`
/// format of a path writes it.
pub uninterp spec fn quoted_path_of(path: Seq<char>) -> Seq<char>;

/// A string with its upper-case ASCII letters in lower case.
pub open spec fn ascii_lowercase_of(s: Seq<char>) -> Seq<char> {
    s.map_values(|c: char| ascii_lower(c))
}

/// Whether `needle` occurs in `hay` as a run of consecutive characters.
pub open spec fn is_substring(needle: Seq<char>, hay: Seq<char>) -> bool {
    exists|i: int|
        0 <= i <= hay.len() - needle.len() && #[trigger] hay.subrange(i, i + needle.len())
            == needle
}

/// `String::push` appends one character to the end of the string and leaves
/// the characters before it as they were.
pub assume_specification[ String::push ](s: &mut String, c: char)
    ensures
        final(s)@ == old(s)@.push(c),
;

/// `str::to_lowercase` returns the lower-case form of the string; the result
/// depends on the characters alone.
pub assume_specification[ str::to_lowercase ](s: &str) -> (r: String)
    ensures
        r@ == lowercase_of(s@),
;

/// `str::trim` returns the string without its leading and trailing white
/// space, which is every character with the Unicode property
/// `White_Space`.
pub assume_specification[ str::trim ](s: &str) -> (r: &str)
    ensures
        r@ == trimmed_of(s@),
;

/// Whether `s` begins with `prefix`.
pub open spec fn has_prefix(s: Seq<char>, prefix: Seq<char>) -> bool {
    prefix.len() <= s.len() && s.subrange(0, prefix.len() as int) == prefix
}

/// Whether `s` ends with `suffix`.
pub open spec fn has_suffix(s: Seq<char>, suffix: Seq<char>) -> bool {
    suffix.len() <= s.len() && s.subrange(s.len() - suffix.len(), s.len() as int) == suffix
}

/// `str::contains`, with a string as the pattern, tells whether the pattern
/// occurs somewhere in the string.
#[verifier::external_body]
pub(crate) fn str_contains(hay: &str, needle: &str) -> (found: bool)
    ensures
        found == is_substring(needle@, hay@),
{
    hay.contains(needle)
}

/// The `{:?}` format of `std::path::Path`: the path in quotes, escaped; the
/// result depends on the characters of the path alone.
#[verifier::external_body]
pub(crate) fn quoted_path(path: &str) -> (out: String)
    ensures
        out@ == quoted_path_of(path@),
{
    format!("{:?}", std::path::Path::new(path))
}

/// The characters of a string, one by one.
pub fn chars_of(s: &str) -> (chars: Vec<char>)
    ensures
        chars@ == s@,
{
    let mut chars: Vec<char> = Vec::new();
    for c in it: s.chars()
        invariant
            it.seq() == s@,
            chars@ == it.seq().take(it.index() as int),
    {
        proof {
            assert(it.seq().take(it.index() as int + 1) =~= it.seq().take(it.index() as int).push(
                c,
            ));
        }
        chars.push(c);
    }
    assert(s@.take(s@.len() as int) =~= s@);
    chars
}

/// Tells whether `s` begins with `prefix`.
pub fn starts_with(s: &str, prefix: &str) -> (found: bool)
    ensures
        found == has_prefix(s@, prefix@),
{
    let text = chars_of(s);
    let head = chars_of(prefix);
    let n = head.len();
    if n > text.len() {
        return false;
    }
    let mut i: usize = 0;
    while i < n
        invariant
            n == head@.len(),
            n <= text@.len(),
            i <= n,
            text@ == s@,
            head@ == prefix@,
            forall|k: int| 0 <= k < i ==> text@[k] == head@[k],
        decreases n - i,
    {
        if text[i] != head[i] {
            proof {
                assert(s@.subrange(0, n as int)[i as int] != prefix@[i as int]);
            }
            return false;
        }
        i += 1;
    }
    assert(s@.subrange(0, n as int) =~= prefix@);
    true
}

/// Tells whether `s` ends with `suffix`.
pub fn ends_with(s: &str, suffix: &str) -> (found: bool)
    ensures
        found == has_suffix(s@, suffix@),
{
    let text = chars_of(s);
    let tail = chars_of(suffix);
    let n = tail.len();
    if n > text.len() {
        return false;
    }
    let from = text.len() - n;
    let mut i: usize = 0;
    while i < n
        invariant
            n == tail@.len(),
            n <= text@.len(),
            from == text@.len() - n,
            from + n <= usize::MAX,
            i <= n,
            text@ == s@,
            tail@ == suffix@,
            forall|k: int| 0 <= k < i ==> text@[from + k] == tail@[k],
        decreases n - i,
    {
        if text[from + i] != tail[i] {
            proof {
                assert(s@.subrange(s@.len() - n, s@.len() as int)[i as int] != suffix@[i as int]);
            }
            return false;
        }
        i += 1;
    }
    assert(s@.subrange(s@.len() - n, s@.len() as int) =~= suffix@);
    true
}

/// A character with an upper-case ASCII letter in lower case.
pub open spec fn ascii_lower(c: char) -> char {
    if 'A' <= c <= 'Z' {
        ((c as u8) + 32) as char
    } else {
        c
    }
}

/// Puts the upper-case ASCII letters of a string in lower case and leaves
/// every other character as it is.
pub fn to_ascii_lowercase(s: &str) -> (out: String)
    ensures
        out@ == ascii_lowercase_of(s@),
{
    let mut out = String::new();
    for c in it: s.chars()
        invariant
            it.seq() == s@,
            out@ == ascii_lowercase_of(it.seq().take(it.index() as int)),
    {
        proof {
            let done = it.seq().take(it.index() as int);
            assert(it.seq().take(it.index() as int + 1) =~= done.push(c));
            assert(ascii_lowercase_of(done.push(c)) =~= ascii_lowercase_of(done).push(
                ascii_lower(c),
            ));
        }
        let lower: char = if c >= 'A' && c <= 'Z' {
            ((c as u8) + 32) as char
        } else {
            c
        };
        out.push(lower);
    }
    assert(s@.take(s@.len() as int) =~= s@);
    out
}

/// The character strings that a run of strings holds.
pub open spec fn texts(strings: Seq<String>) -> Seq<Seq<char>> {
    strings.map_values(|s: String| s@)
}

/// The character strings that a run of string slices holds.
pub open spec fn slice_texts(strings: Seq<&str>) -> Seq<Seq<char>> {
    strings.map_values(|s: &str| s@)
}

/// The strings joined into one, with `sep` between neighbours.
pub open spec fn joined(parts: Seq<Seq<char>>, sep: Seq<char>) -> Seq<char>
    decreases parts.len(),
{
    if parts.len() == 0 {
        Seq::empty()
    } else if parts.len() == 1 {
        parts[0]
    } else {
        joined(parts.drop_last(), sep) + sep + parts.last()
    }
}

/// Joins strings into one, with `sep` between neighbours.
pub fn join(parts: &Vec<String>, sep: &str) -> (out: String)
    ensures
        out@ == joined(texts(parts@), sep@),
{
    let mut out = String::new();
    let n = parts.len();
    let mut i: usize = 0;
    while i < n
        invariant
            n == parts@.len(),
            i <= n,
            out@ == joined(texts(parts@).take(i as int), sep@),
        decreases n - i,
    {
        proof {
            let next = texts(parts@).take(i as int + 1);
            assert(next.drop_last() =~= texts(parts@).take(i as int));
            if i == 0 {
            }
        }
        if i > 0 {
            out.append(sep);
        }
        out.append(parts[i].as_str());
        i += 1;
    }
    assert(texts(parts@).take(n as int) =~= texts(parts@));
    out
}

/// A string with every `from` replaced by `to`.
pub open spec fn with_replaced(s: Seq<char>, from: char, to: char) -> Seq<char> {
    s.map_values(|c: char| if c == from { to } else { c })
}

/// Replaces every `from` in a string by `to`.
pub fn replace_char(s: &str, from: char, to: char) -> (out: String)
    ensures
        out@ == with_replaced(s@, from, to),
{
    let mut out = String::new();
    for c in it: s.chars()
        invariant
            it.seq() == s@,
            out@ == with_replaced(it.seq().take(it.index() as int), from, to),
    {
        proof {
            let done = it.seq().take(it.index() as int);
            assert(with_replaced(done.push(c), from, to) =~= with_replaced(done, from, to).push(
                if c == from { to } else { c },
            ));
        }
        out.push(if c == from { to } else { c });
    }
    out
}

/// A line without the carriage return that ends it, if one does.
pub open spec fn without_cr(line: Seq<char>) -> Seq<char> {
    if line.len() > 0 && line.last() == '\r' {
        line.drop_last()
    } else {
        line
    }
}

/// What follows the last line feed of a text; the whole text if it holds
/// none.
pub open spec fn open_line(s: Seq<char>) -> Seq<char>
    decreases s.len(),
{
    if s.len() == 0 {
        Seq::empty()
    } else if s.last() == '\n' {
        Seq::empty()
    } else {
        open_line(s.drop_last()).push(s.last())
    }
}

/// The lines of a text that a line feed ends, in order, each without its
/// line feed and without a carriage return before it.
pub open spec fn closed_lines(s: Seq<char>) -> Seq<Seq<char>>
    decreases s.len(),
{
    if s.len() == 0 {
        Seq::empty()
    } else if s.last() == '\n' {
        closed_lines(s.drop_last()).push(without_cr(open_line(s.drop_last())))
    } else {
        closed_lines(s.drop_last())
    }
}

/// The lines of a text. A line ends at a line feed, or at a carriage return
/// and a line feed; the last line need not be ended. Line endings are not
/// part of the lines. A text that ends with a line ending has no empty line
/// after it.
pub open spec fn lines_of(s: Seq<char>) -> Seq<Seq<char>> {
    if open_line(s).len() > 0 {
        closed_lines(s).push(open_line(s))
    } else {
        closed_lines(s)
    }
}

/// Splits a text into its lines.
pub fn split_lines(s: &str) -> (lines: Vec<String>)
    ensures
        texts(lines@) == lines_of(s@),
{
    let mut lines: Vec<String> = Vec::new();
    let mut current = String::new();
    // A carriage return at the end of the open line is held back until the
    // next character shows whether it belongs to a line ending.
    let mut held: bool = false;
    for c in it: s.chars()
        invariant
            it.seq() == s@,
            texts(lines@) == closed_lines(it.seq().take(it.index() as int)),
            open_line(it.seq().take(it.index() as int)) == if held {
                current@.push('\r')
            } else {
                current@
            },
            !held ==> without_cr(current@) == current@,
    {
        proof {
            let done = it.seq().take(it.index() as int);
            let next = it.seq().take(it.index() as int + 1);
            assert(next.drop_last() =~= done);
            if held {
                assert(current@.push('\r').drop_last() =~= current@);
            }
        }
        if c == '\n' {
            lines.push(current);
            current = String::new();
            held = false;
        } else {
            if held {
                current.push('\r');
            }
            if c == '\r' {
                held = true;
            } else {
                current.push(c);
                held = false;
            }
        }
    }
    assert(s@.take(s@.len() as int) =~= s@);
    if held {
        current.push('\r');
    }
    if !current.as_str().is_empty() {
        lines.push(current);
    }
    lines
}

/// Appends a copy of `s` to a run of strings.
pub fn push_text(strings: &mut Vec<String>, s: &str)
    ensures
        texts(final(strings)@) == texts(old(strings)@).push(s@),
{
    let added = String::from_str(s);
    strings.push(added);
}

/// A run of strings with `s` appended if `on`.
pub open spec fn pushed_if(strings: Seq<Seq<char>>, on: bool, s: Seq<char>) -> Seq<Seq<char>> {
    if on {
        strings.push(s)
    } else {
        strings
    }
}

/// Appends a copy of `s` to a run of strings if `on`.
pub fn push_text_if(strings: &mut Vec<String>, on: bool, s: &str)
    ensures
        texts(final(strings)@) == pushed_if(texts(old(strings)@), on, s@),
{
    if on {
        push_text(strings, s);
    }
}

/// A run of strings with `name` and the value appended if there is a
/// value.
pub open spec fn with_option(
    strings: Seq<Seq<char>>,
    name: Seq<char>,
    value: Option<Seq<char>>,
) -> Seq<Seq<char>> {
    match value {
        Some(v) => strings.push(name).push(v),
        None => strings,
    }
}

/// The characters of an optional string slice.
pub open spec fn slice_text(value: Option<&str>) -> Option<Seq<char>> {
    match value {
        Some(v) => Some(v@),
        None => None,
    }
}

/// Appends `name` and the value to a run of strings if there is a value.
pub fn push_option(strings: &mut Vec<String>, name: &str, value: Option<&str>)
    ensures
        texts(final(strings)@) == with_option(texts(old(strings)@), name@, slice_text(value)),
{
    match value {
        Some(v) => {
            push_text(strings, name);
            push_text(strings, v);
        },
        None => {},
    }
}

/// Appends copies of all of `more` to a run of strings.
pub fn push_all(strings: &mut Vec<String>, more: &Vec<String>)
    ensures
        texts(final(strings)@) == texts(old(strings)@) + texts(more@),
{
    let n = more.len();
    let mut i: usize = 0;
    while i < n
        invariant
            n == more@.len(),
            i <= n,
            texts(strings@) == texts(old(strings)@) + texts(more@.take(i as int)),
        decreases n - i,
    {
        let ghost before = texts(strings@);
        push_text(strings, more[i].as_str());
        proof {
            assert(texts(more@.take(i as int + 1)) =~= texts(more@.take(i as int)).push(
                more@[i as int]@,
            ));
            assert(before.push(more@[i as int]@) =~= texts(old(strings)@) + texts(
                more@.take(i as int + 1),
            ));
        }
        i += 1;
    }
}

/// Tells whether two strings hold the same characters.
pub fn same_text(a: &str, b: &str) -> (same: bool)
    ensures
        same == (a@ == b@),
{
    String::from_str(a) == String::from_str(b)
}

/// A copy of a run of strings.
pub fn copy_strings(strings: &[&str]) -> (out: Vec<String>)
    ensures
        texts(out@) == slice_texts(strings@),
{
    let mut out: Vec<String> = Vec::new();
    let n = strings.len();
    let mut i: usize = 0;
    while i < n
        invariant
            n == strings@.len(),
            i <= n,
            texts(out@) == slice_texts(strings@.take(i as int)),
        decreases n - i,
    {
        let s = String::from_str(strings[i]);
        proof {
            assert(slice_texts(strings@.take(i as int + 1)) =~= slice_texts(
                strings@.take(i as int),
            ).push(strings@[i as int]@));
        }
        out.push(s);
        i += 1;
    }
    out
}

} // verus!
