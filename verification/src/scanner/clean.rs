//! Metadata normalisation: raw, messy tag text becomes a canonical search
//! key.
//!
//! The rules, in the order they apply: a leading track number goes; the
//! separators `_ - & .` become spaces; runs of white space shrink to one
//! space; the ends are trimmed; the text is lowercased. Titles first lose
//! their featuring clauses and their bracket characters.

use vstd::prelude::*;
use crate::text::{chars_of, lowercased, string_of, to_lowercase};

verus! {

/// Normalised metadata for searching, with the fields it was made from.
#[derive(Debug, Clone)]
pub struct NormalizedMetadata {
    pub artist: String,
    pub title: String,
    pub album: String,
    pub original_artist: String,
    pub original_title: String,
}

/// White space: the characters with the Unicode property `White_Space`.
pub open spec fn is_space(c: char) -> bool {
    let code = c as u32;
    (0x09 <= code && code <= 0x0D) || code == 0x20 || code == 0x85 || code == 0xA0 || code
        == 0x1680 || (0x2000 <= code && code <= 0x200A) || code == 0x2028 || code == 0x2029 || code
        == 0x202F || code == 0x205F || code == 0x3000
}

/// Decimal digits of any script: the characters of the Unicode general
/// category `Nd`, as of Unicode 16.
pub open spec fn is_decimal_digit(c: char) -> bool {
    let code = c as u32;
    (0x0030 <= code && code <= 0x0039)
        || (0x0660 <= code && code <= 0x0669)
        || (0x06F0 <= code && code <= 0x06F9)
        || (0x07C0 <= code && code <= 0x07C9)
        || (0x0966 <= code && code <= 0x096F)
        || (0x09E6 <= code && code <= 0x09EF)
        || (0x0A66 <= code && code <= 0x0A6F)
        || (0x0AE6 <= code && code <= 0x0AEF)
        || (0x0B66 <= code && code <= 0x0B6F)
        || (0x0BE6 <= code && code <= 0x0BEF)
        || (0x0C66 <= code && code <= 0x0C6F)
        || (0x0CE6 <= code && code <= 0x0CEF)
        || (0x0D66 <= code && code <= 0x0D6F)
        || (0x0DE6 <= code && code <= 0x0DEF)
        || (0x0E50 <= code && code <= 0x0E59)
        || (0x0ED0 <= code && code <= 0x0ED9)
        || (0x0F20 <= code && code <= 0x0F29)
        || (0x1040 <= code && code <= 0x1049)
        || (0x1090 <= code && code <= 0x1099)
        || (0x17E0 <= code && code <= 0x17E9)
        || (0x1810 <= code && code <= 0x1819)
        || (0x1946 <= code && code <= 0x194F)
        || (0x19D0 <= code && code <= 0x19D9)
        || (0x1A80 <= code && code <= 0x1A89)
        || (0x1A90 <= code && code <= 0x1A99)
        || (0x1B50 <= code && code <= 0x1B59)
        || (0x1BB0 <= code && code <= 0x1BB9)
        || (0x1C40 <= code && code <= 0x1C49)
        || (0x1C50 <= code && code <= 0x1C59)
        || (0xA620 <= code && code <= 0xA629)
        || (0xA8D0 <= code && code <= 0xA8D9)
        || (0xA900 <= code && code <= 0xA909)
        || (0xA9D0 <= code && code <= 0xA9D9)
        || (0xA9F0 <= code && code <= 0xA9F9)
        || (0xAA50 <= code && code <= 0xAA59)
        || (0xABF0 <= code && code <= 0xABF9)
        || (0xFF10 <= code && code <= 0xFF19)
        || (0x104A0 <= code && code <= 0x104A9)
        || (0x10D30 <= code && code <= 0x10D39)
        || (0x10D40 <= code && code <= 0x10D49)
        || (0x11066 <= code && code <= 0x1106F)
        || (0x110F0 <= code && code <= 0x110F9)
        || (0x11136 <= code && code <= 0x1113F)
        || (0x111D0 <= code && code <= 0x111D9)
        || (0x112F0 <= code && code <= 0x112F9)
        || (0x11450 <= code && code <= 0x11459)
        || (0x114D0 <= code && code <= 0x114D9)
        || (0x11650 <= code && code <= 0x11659)
        || (0x116C0 <= code && code <= 0x116C9)
        || (0x116D0 <= code && code <= 0x116E3)
        || (0x11730 <= code && code <= 0x11739)
        || (0x118E0 <= code && code <= 0x118E9)
        || (0x11950 <= code && code <= 0x11959)
        || (0x11BF0 <= code && code <= 0x11BF9)
        || (0x11C50 <= code && code <= 0x11C59)
        || (0x11D50 <= code && code <= 0x11D59)
        || (0x11DA0 <= code && code <= 0x11DA9)
        || (0x11F50 <= code && code <= 0x11F59)
        || (0x16130 <= code && code <= 0x16139)
        || (0x16A60 <= code && code <= 0x16A69)
        || (0x16AC0 <= code && code <= 0x16AC9)
        || (0x16B50 <= code && code <= 0x16B59)
        || (0x16D70 <= code && code <= 0x16D79)
        || (0x1CCF0 <= code && code <= 0x1CCF9)
        || (0x1D7CE <= code && code <= 0x1D7FF)
        || (0x1E140 <= code && code <= 0x1E149)
        || (0x1E2F0 <= code && code <= 0x1E2F9)
        || (0x1E4F0 <= code && code <= 0x1E4F9)
        || (0x1E5F1 <= code && code <= 0x1E5FA)
        || (0x1E950 <= code && code <= 0x1E959)
        || (0x1FBF0 <= code && code <= 0x1FBF9)
}

/// The separators that become spaces.
pub open spec fn is_separator(c: char) -> bool {
    c == '_' || c == '-' || c == '&' || c == '.'
}

/// What may stand between a track number and the title.
pub open spec fn is_track_delimiter(c: char) -> bool {
    c == '.' || c == '-' || is_space(c)
}

/// An opening bracket.
pub open spec fn is_opener(c: char) -> bool {
    c == '(' || c == '['
}

/// A closing bracket.
pub open spec fn is_closer(c: char) -> bool {
    c == ')' || c == ']'
}

/// The character with an ASCII capital letter made small.
pub open spec fn ascii_lower(c: char) -> char {
    if 'A' <= c && c <= 'Z' {
        ((c as u32) + 32) as char
    } else {
        c
    }
}

/// The end of the longest run of decimal digits that starts at `from`.
pub open spec fn digits_end(s: Seq<char>, from: int) -> int
    decreases s.len() - from,
{
    if 0 <= from < s.len() && is_decimal_digit(s[from]) {
        digits_end(s, from + 1)
    } else {
        from
    }
}

/// The end of the longest run of track delimiters that starts at `from`.
pub open spec fn delimiters_end(s: Seq<char>, from: int) -> int
    decreases s.len() - from,
{
    if 0 <= from < s.len() && is_track_delimiter(s[from]) {
        delimiters_end(s, from + 1)
    } else {
        from
    }
}

/// The end of the longest run of white space that starts at `from`.
pub open spec fn spaces_end(s: Seq<char>, from: int) -> int
    decreases s.len() - from,
{
    if 0 <= from < s.len() && is_space(s[from]) {
        spaces_end(s, from + 1)
    } else {
        from
    }
}

/// The start of the longest run of white space that ends at `to`.
pub open spec fn spaces_start(s: Seq<char>, to: int) -> int
    decreases to,
{
    if 0 < to <= s.len() && is_space(s[to - 1]) {
        spaces_start(s, to - 1)
    } else {
        to
    }
}

/// The first closing bracket at or after `from`, or the end of the text.
pub open spec fn clause_end(s: Seq<char>, from: int) -> int
    decreases s.len() - from,
{
    if 0 <= from < s.len() && !is_closer(s[from]) {
        clause_end(s, from + 1)
    } else {
        from
    }
}

/// The text without its leading track number: one or more digits followed
/// by one or more delimiters. A text that does not start so stays.
pub open spec fn strip_track_number(s: Seq<char>) -> Seq<char> {
    let digits = digits_end(s, 0);
    let prefix = delimiters_end(s, digits);
    if 0 < digits && digits < prefix && prefix <= s.len() {
        s.skip(prefix)
    } else {
        s
    }
}

/// The text with each separator replaced by one space.
pub open spec fn replace_separators(s: Seq<char>) -> Seq<char> {
    Seq::new(s.len(), |i: int| if is_separator(s[i]) { ' ' } else { s[i] })
}

/// The text with each bracket character replaced by one space.
pub open spec fn replace_brackets(s: Seq<char>) -> Seq<char> {
    Seq::new(s.len(), |i: int| if is_opener(s[i]) || is_closer(s[i]) { ' ' } else { s[i] })
}

/// The text with each run of white space replaced by one space.
pub open spec fn collapse_spaces(s: Seq<char>) -> Seq<char>
    decreases s.len(),
{
    if s.len() == 0 {
        Seq::empty()
    } else if !is_space(s.last()) {
        collapse_spaces(s.drop_last()).push(s.last())
    } else if s.len() >= 2 && is_space(s[s.len() - 2]) {
        collapse_spaces(s.drop_last())
    } else {
        collapse_spaces(s.drop_last()).push(' ')
    }
}

/// The text without leading and trailing white space.
pub open spec fn trim(s: Seq<char>) -> Seq<char> {
    let start = spaces_end(s, 0);
    let end = spaces_start(s, s.len() as int);
    if 0 <= start && start < end && end <= s.len() {
        s.subrange(start, end)
    } else {
        Seq::empty()
    }
}

/// The structural rules together: everything but the lowercasing.
pub open spec fn tidy(s: Seq<char>) -> Seq<char> {
    trim(collapse_spaces(replace_separators(strip_track_number(s))))
}

/// The normalised form of a text.
pub open spec fn clean_text(s: Seq<char>) -> Seq<char> {
    lowercased(tidy(s))
}

/// Whether `word`, given in small letters, stands at `at`, in any mix of
/// capital and small ASCII letters.
pub open spec fn word_at(s: Seq<char>, at: int, word: Seq<char>) -> bool {
    &&& 0 <= at
    &&& at + word.len() <= s.len()
    &&& forall|k: int| 0 <= k < word.len() ==> ascii_lower(s[at + k]) == #[trigger] word[k]
}

/// Where the white space after `word` begins, if `word` stands at `at` and
/// white space follows it. With `dotted`, one full stop may stand between.
pub open spec fn keyword_end(s: Seq<char>, at: int, word: Seq<char>, dotted: bool) -> Option<int> {
    let end = at + word.len();
    if !word_at(s, at, word) {
        None
    } else if dotted && end + 1 < s.len() && s[end] == '.' && is_space(s[end + 1]) {
        Some(end + 1)
    } else if end < s.len() && is_space(s[end]) {
        Some(end)
    } else {
        None
    }
}

pub open spec fn word_feat() -> Seq<char> {
    seq!['f', 'e', 'a', 't']
}

pub open spec fn word_ft() -> Seq<char> {
    seq!['f', 't']
}

pub open spec fn word_featuring() -> Seq<char> {
    seq!['f', 'e', 'a', 't', 'u', 'r', 'i', 'n', 'g']
}

pub open spec fn word_with() -> Seq<char> {
    seq!['w', 'i', 't', 'h']
}

pub open spec fn word_w_slash() -> Seq<char> {
    seq!['w', '/']
}

/// Where the white space after a featuring keyword begins, if one of
/// `feat`, `feat.`, `ft`, `ft.`, `featuring`, `with`, `w/` stands at `at`
/// and white space follows it.
pub open spec fn featuring_keyword_end(s: Seq<char>, at: int) -> Option<int> {
    if keyword_end(s, at, word_feat(), true) is Some {
        keyword_end(s, at, word_feat(), true)
    } else if keyword_end(s, at, word_ft(), true) is Some {
        keyword_end(s, at, word_ft(), true)
    } else if keyword_end(s, at, word_featuring(), false) is Some {
        keyword_end(s, at, word_featuring(), false)
    } else if keyword_end(s, at, word_with(), false) is Some {
        keyword_end(s, at, word_with(), false)
    } else {
        keyword_end(s, at, word_w_slash(), false)
    }
}

/// Where the featuring clause that starts at `from` ends, if one starts
/// there. A clause is: white space, at most one opening bracket, white
/// space, a featuring keyword, white space, then everything up to and
/// including the next closing bracket, or up to the end of the text.
pub open spec fn featuring_clause_end(s: Seq<char>, from: int) -> Option<int> {
    let bracket = spaces_end(s, from);
    let keyword = if 0 <= bracket < s.len() && is_opener(s[bracket]) {
        spaces_end(s, bracket + 1)
    } else {
        bracket
    };
    match featuring_keyword_end(s, keyword) {
        Some(space) => {
            let closer = clause_end(s, space);
            if 0 <= closer < s.len() {
                Some(closer + 1)
            } else {
                Some(closer)
            }
        },
        None => None,
    }
}

/// The text from `from` on without its featuring clauses: going from left
/// to right, a clause is dropped where one starts, and a character is kept
/// where none does.
pub open spec fn without_featuring_from(s: Seq<char>, from: int) -> Seq<char>
    decreases s.len() - from,
{
    if from < 0 || from >= s.len() {
        Seq::empty()
    } else {
        match featuring_clause_end(s, from) {
            Some(end) => if from < end && end <= s.len() {
                without_featuring_from(s, end)
            } else {
                Seq::empty()
            },
            None => seq![s[from]] + without_featuring_from(s, from + 1),
        }
    }
}

/// The text without its featuring clauses.
pub open spec fn without_featuring(s: Seq<char>) -> Seq<char> {
    without_featuring_from(s, 0)
}

/// The normalised form of a title: featuring clauses dropped, bracket
/// characters dropped with what they enclose kept, then normalised as any
/// text.
pub open spec fn clean_title_text(title: Seq<char>) -> Seq<char> {
    clean_text(replace_brackets(without_featuring(title)))
}

fn space(c: char) -> (b: bool)
    ensures
        b == is_space(c),
{
    let code = c as u32;
    (0x09 <= code && code <= 0x0D) || code == 0x20 || code == 0x85 || code == 0xA0 || code
        == 0x1680 || (0x2000 <= code && code <= 0x200A) || code == 0x2028 || code == 0x2029 || code
        == 0x202F || code == 0x205F || code == 0x3000
}

fn decimal_digit(c: char) -> (b: bool)
    ensures
        b == is_decimal_digit(c),
{
    let code = c as u32;
    (0x0030 <= code && code <= 0x0039)
        || (0x0660 <= code && code <= 0x0669)
        || (0x06F0 <= code && code <= 0x06F9)
        || (0x07C0 <= code && code <= 0x07C9)
        || (0x0966 <= code && code <= 0x096F)
        || (0x09E6 <= code && code <= 0x09EF)
        || (0x0A66 <= code && code <= 0x0A6F)
        || (0x0AE6 <= code && code <= 0x0AEF)
        || (0x0B66 <= code && code <= 0x0B6F)
        || (0x0BE6 <= code && code <= 0x0BEF)
        || (0x0C66 <= code && code <= 0x0C6F)
        || (0x0CE6 <= code && code <= 0x0CEF)
        || (0x0D66 <= code && code <= 0x0D6F)
        || (0x0DE6 <= code && code <= 0x0DEF)
        || (0x0E50 <= code && code <= 0x0E59)
        || (0x0ED0 <= code && code <= 0x0ED9)
        || (0x0F20 <= code && code <= 0x0F29)
        || (0x1040 <= code && code <= 0x1049)
        || (0x1090 <= code && code <= 0x1099)
        || (0x17E0 <= code && code <= 0x17E9)
        || (0x1810 <= code && code <= 0x1819)
        || (0x1946 <= code && code <= 0x194F)
        || (0x19D0 <= code && code <= 0x19D9)
        || (0x1A80 <= code && code <= 0x1A89)
        || (0x1A90 <= code && code <= 0x1A99)
        || (0x1B50 <= code && code <= 0x1B59)
        || (0x1BB0 <= code && code <= 0x1BB9)
        || (0x1C40 <= code && code <= 0x1C49)
        || (0x1C50 <= code && code <= 0x1C59)
        || (0xA620 <= code && code <= 0xA629)
        || (0xA8D0 <= code && code <= 0xA8D9)
        || (0xA900 <= code && code <= 0xA909)
        || (0xA9D0 <= code && code <= 0xA9D9)
        || (0xA9F0 <= code && code <= 0xA9F9)
        || (0xAA50 <= code && code <= 0xAA59)
        || (0xABF0 <= code && code <= 0xABF9)
        || (0xFF10 <= code && code <= 0xFF19)
        || (0x104A0 <= code && code <= 0x104A9)
        || (0x10D30 <= code && code <= 0x10D39)
        || (0x10D40 <= code && code <= 0x10D49)
        || (0x11066 <= code && code <= 0x1106F)
        || (0x110F0 <= code && code <= 0x110F9)
        || (0x11136 <= code && code <= 0x1113F)
        || (0x111D0 <= code && code <= 0x111D9)
        || (0x112F0 <= code && code <= 0x112F9)
        || (0x11450 <= code && code <= 0x11459)
        || (0x114D0 <= code && code <= 0x114D9)
        || (0x11650 <= code && code <= 0x11659)
        || (0x116C0 <= code && code <= 0x116C9)
        || (0x116D0 <= code && code <= 0x116E3)
        || (0x11730 <= code && code <= 0x11739)
        || (0x118E0 <= code && code <= 0x118E9)
        || (0x11950 <= code && code <= 0x11959)
        || (0x11BF0 <= code && code <= 0x11BF9)
        || (0x11C50 <= code && code <= 0x11C59)
        || (0x11D50 <= code && code <= 0x11D59)
        || (0x11DA0 <= code && code <= 0x11DA9)
        || (0x11F50 <= code && code <= 0x11F59)
        || (0x16130 <= code && code <= 0x16139)
        || (0x16A60 <= code && code <= 0x16A69)
        || (0x16AC0 <= code && code <= 0x16AC9)
        || (0x16B50 <= code && code <= 0x16B59)
        || (0x16D70 <= code && code <= 0x16D79)
        || (0x1CCF0 <= code && code <= 0x1CCF9)
        || (0x1D7CE <= code && code <= 0x1D7FF)
        || (0x1E140 <= code && code <= 0x1E149)
        || (0x1E2F0 <= code && code <= 0x1E2F9)
        || (0x1E4F0 <= code && code <= 0x1E4F9)
        || (0x1E5F1 <= code && code <= 0x1E5FA)
        || (0x1E950 <= code && code <= 0x1E959)
        || (0x1FBF0 <= code && code <= 0x1FBF9)
}

fn separator(c: char) -> (b: bool)
    ensures
        b == is_separator(c),
{
    c == '_' || c == '-' || c == '&' || c == '.'
}

fn bracket(c: char) -> (b: bool)
    ensures
        b == (is_opener(c) || is_closer(c)),
{
    c == '(' || c == '[' || c == ')' || c == ']'
}

fn lower_ascii(c: char) -> (r: char)
    ensures
        r == ascii_lower(c),
{
    if 'A' <= c && c <= 'Z' {
        (((c as u32) + 32) as u8) as char
    } else {
        c
    }
}

fn find_digits_end(chars: &Vec<char>, from: usize) -> (end: usize)
    requires
        from <= chars.len(),
    ensures
        end == digits_end(chars@, from as int),
        from <= end <= chars.len(),
{
    let mut end = from;
    while end < chars.len() && decimal_digit(chars[end])
        invariant
            from <= end <= chars.len(),
            digits_end(chars@, end as int) == digits_end(chars@, from as int),
        decreases chars.len() - end,
    {
        end = end + 1;
    }
    end
}

fn find_delimiters_end(chars: &Vec<char>, from: usize) -> (end: usize)
    requires
        from <= chars.len(),
    ensures
        end == delimiters_end(chars@, from as int),
        from <= end <= chars.len(),
{
    let mut end = from;
    while end < chars.len() && (chars[end] == '.' || chars[end] == '-' || space(chars[end]))
        invariant
            from <= end <= chars.len(),
            delimiters_end(chars@, end as int) == delimiters_end(chars@, from as int),
        decreases chars.len() - end,
    {
        end = end + 1;
    }
    end
}

fn find_spaces_end(chars: &Vec<char>, from: usize) -> (end: usize)
    requires
        from <= chars.len(),
    ensures
        end == spaces_end(chars@, from as int),
        from <= end <= chars.len(),
{
    let mut end = from;
    while end < chars.len() && space(chars[end])
        invariant
            from <= end <= chars.len(),
            spaces_end(chars@, end as int) == spaces_end(chars@, from as int),
        decreases chars.len() - end,
    {
        end = end + 1;
    }
    end
}

fn find_spaces_start(chars: &Vec<char>, to: usize) -> (start: usize)
    requires
        to <= chars.len(),
    ensures
        start == spaces_start(chars@, to as int),
        start <= to,
{
    let mut start = to;
    while start > 0 && space(chars[start - 1])
        invariant
            start <= to <= chars.len(),
            spaces_start(chars@, start as int) == spaces_start(chars@, to as int),
        decreases start,
    {
        start = start - 1;
    }
    start
}

fn find_clause_end(chars: &Vec<char>, from: usize) -> (end: usize)
    requires
        from <= chars.len(),
    ensures
        end == clause_end(chars@, from as int),
        from <= end <= chars.len(),
{
    let mut end = from;
    while end < chars.len() && !(chars[end] == ')' || chars[end] == ']')
        invariant
            from <= end <= chars.len(),
            clause_end(chars@, end as int) == clause_end(chars@, from as int),
        decreases chars.len() - end,
    {
        end = end + 1;
    }
    end
}

fn has_word_at(chars: &Vec<char>, at: usize, word: &Vec<char>) -> (b: bool)
    requires
        at <= chars.len(),
    ensures
        b == word_at(chars@, at as int, word@),
{
    if word.len() > chars.len() - at {
        return false;
    }
    let mut k: usize = 0;
    while k < word.len()
        invariant
            k <= word.len(),
            at + word.len() <= chars.len(),
            forall|j: int| 0 <= j < k ==> ascii_lower(chars@[at + j]) == #[trigger] word@[j],
        decreases word.len() - k,
    {
        if lower_ascii(chars[at + k]) != word[k] {
            return false;
        }
        k = k + 1;
    }
    true
}

fn find_keyword_end(chars: &Vec<char>, at: usize, word: &Vec<char>, dotted: bool) -> (r: Option<
    usize,
>)
    requires
        at <= chars.len(),
    ensures
        match r {
            Some(end) => keyword_end(chars@, at as int, word@, dotted) == Some(end as int) && at
                <= end < chars.len(),
            None => keyword_end(chars@, at as int, word@, dotted) is None,
        },
{
    if !has_word_at(chars, at, word) {
        return None;
    }
    let end = at + word.len();
    if dotted && end < chars.len() && chars.len() - end > 1 && chars[end] == '.' && space(
        chars[end + 1],
    ) {
        Some(end + 1)
    } else if end < chars.len() && space(chars[end]) {
        Some(end)
    } else {
        None
    }
}

fn find_featuring_keyword_end(chars: &Vec<char>, at: usize) -> (r: Option<usize>)
    requires
        at <= chars.len(),
    ensures
        match r {
            Some(end) => featuring_keyword_end(chars@, at as int) == Some(end as int) && at <= end
                < chars.len(),
            None => featuring_keyword_end(chars@, at as int) is None,
        },
{
    let feat = find_keyword_end(chars, at, &vec!['f', 'e', 'a', 't'], true);
    if feat.is_some() {
        return feat;
    }
    let ft = find_keyword_end(chars, at, &vec!['f', 't'], true);
    if ft.is_some() {
        return ft;
    }
    let featuring = find_keyword_end(
        chars,
        at,
        &vec!['f', 'e', 'a', 't', 'u', 'r', 'i', 'n', 'g'],
        false,
    );
    if featuring.is_some() {
        return featuring;
    }
    let with = find_keyword_end(chars, at, &vec!['w', 'i', 't', 'h'], false);
    if with.is_some() {
        return with;
    }
    find_keyword_end(chars, at, &vec!['w', '/'], false)
}

fn find_featuring_clause_end(chars: &Vec<char>, from: usize) -> (r: Option<usize>)
    requires
        from <= chars.len(),
    ensures
        match r {
            Some(end) => featuring_clause_end(chars@, from as int) == Some(end as int) && from < end
                <= chars.len(),
            None => featuring_clause_end(chars@, from as int) is None,
        },
{
    let bracket = find_spaces_end(chars, from);
    let keyword = if bracket < chars.len() && (chars[bracket] == '(' || chars[bracket] == '[') {
        find_spaces_end(chars, bracket + 1)
    } else {
        bracket
    };
    match find_featuring_keyword_end(chars, keyword) {
        Some(space) => {
            let closer = find_clause_end(chars, space);
            if closer < chars.len() {
                Some(closer + 1)
            } else {
                Some(closer)
            }
        },
        None => None,
    }
}

fn strip_track_number_of(chars: Vec<char>) -> (out: Vec<char>)
    ensures
        out@ == strip_track_number(chars@),
{
    let digits = find_digits_end(&chars, 0);
    let prefix = find_delimiters_end(&chars, digits);
    if 0 < digits && digits < prefix {
        let mut chars = chars;
        let rest = chars.split_off(prefix);
        rest
    } else {
        chars
    }
}

fn replace_separators_of(chars: &Vec<char>) -> (out: Vec<char>)
    ensures
        out@ == replace_separators(chars@),
{
    let mut out: Vec<char> = Vec::new();
    let mut i: usize = 0;
    while i < chars.len()
        invariant
            i <= chars.len(),
            out@ == replace_separators(chars@).take(i as int),
        decreases chars.len() - i,
    {
        out.push(if separator(chars[i]) { ' ' } else { chars[i] });
        assert(replace_separators(chars@).take(i + 1) == replace_separators(chars@).take(
            i as int,
        ).push(replace_separators(chars@)[i as int]));
        i = i + 1;
    }
    assert(replace_separators(chars@).take(chars.len() as int) == replace_separators(chars@));
    out
}

fn replace_brackets_of(chars: &Vec<char>) -> (out: Vec<char>)
    ensures
        out@ == replace_brackets(chars@),
{
    let mut out: Vec<char> = Vec::new();
    let mut i: usize = 0;
    while i < chars.len()
        invariant
            i <= chars.len(),
            out@ == replace_brackets(chars@).take(i as int),
        decreases chars.len() - i,
    {
        out.push(if bracket(chars[i]) { ' ' } else { chars[i] });
        assert(replace_brackets(chars@).take(i + 1) == replace_brackets(chars@).take(
            i as int,
        ).push(replace_brackets(chars@)[i as int]));
        i = i + 1;
    }
    assert(replace_brackets(chars@).take(chars.len() as int) == replace_brackets(chars@));
    out
}

fn collapse_spaces_of(chars: &Vec<char>) -> (out: Vec<char>)
    ensures
        out@ == collapse_spaces(chars@),
{
    let mut out: Vec<char> = Vec::new();
    let mut i: usize = 0;
    while i < chars.len()
        invariant
            i <= chars.len(),
            out@ == collapse_spaces(chars@.take(i as int)),
        decreases chars.len() - i,
    {
        assert(chars@.take(i + 1).drop_last() == chars@.take(i as int));
        if !space(chars[i]) {
            out.push(chars[i]);
        } else if !(i > 0 && space(chars[i - 1])) {
            out.push(' ');
        }
        i = i + 1;
    }
    assert(chars@.take(chars.len() as int) == chars@);
    out
}

fn trim_of(chars: Vec<char>) -> (out: Vec<char>)
    ensures
        out@ == trim(chars@),
{
    let start = find_spaces_end(&chars, 0);
    let end = find_spaces_start(&chars, chars.len());
    if start < end {
        let mut chars = chars;
        chars.truncate(end);
        let rest = chars.split_off(start);
        rest
    } else {
        Vec::new()
    }
}

fn without_featuring_of(chars: &Vec<char>) -> (out: Vec<char>)
    ensures
        out@ == without_featuring(chars@),
{
    let mut out: Vec<char> = Vec::new();
    let mut i: usize = 0;
    while i < chars.len()
        invariant
            i <= chars.len(),
            out@ + without_featuring_from(chars@, i as int) == without_featuring(chars@),
        decreases chars.len() - i,
    {
        match find_featuring_clause_end(chars, i) {
            Some(end) => {
                i = end;
            },
            None => {
                out.push(chars[i]);
                assert(out@ + without_featuring_from(chars@, i + 1) == without_featuring(chars@));
                i = i + 1;
            },
        }
    }
    assert(out@ + Seq::<char>::empty() == out@);
    out
}

fn tidy_of(chars: Vec<char>) -> (out: Vec<char>)
    ensures
        out@ == tidy(chars@),
{
    let stripped = strip_track_number_of(chars);
    let spaced = replace_separators_of(&stripped);
    let collapsed = collapse_spaces_of(&spaced);
    trim_of(collapsed)
}

/// Cleans a text by the normalisation rules.
pub fn clean_string(input: &str) -> (cleaned: String)
    ensures
        cleaned@ == clean_text(input@),
{
    let tidied = string_of(&tidy_of(chars_of(input)));
    to_lowercase(tidied.as_str())
}

/// Cleans a title: drops the featuring clauses, keeps what brackets
/// enclose, and cleans the rest as any text.
pub fn clean_title(title: &str) -> (cleaned: String)
    ensures
        cleaned@ == clean_title_text(title@),
{
    let kept = without_featuring_of(&chars_of(title));
    let opened = replace_brackets_of(&kept);
    let tidied = string_of(&tidy_of(opened));
    to_lowercase(tidied.as_str())
}

/// Cleans a title for the first search attempt. Version qualifiers in
/// brackets stay as plain words; featuring clauses go.
pub fn clean_title_keep_parens(title: &str) -> (cleaned: String)
    ensures
        cleaned@ == clean_title_text(title@),
{
    clean_title(title)
}

/// Normalises the three descriptive fields. Never fails; an empty field
/// stays empty.
pub fn normalize_metadata(artist: &str, title: &str, album: &str) -> (normalized:
    NormalizedMetadata)
    ensures
        normalized.artist@ == clean_text(artist@),
        normalized.title@ == clean_title_text(title@),
        normalized.album@ == clean_text(album@),
        normalized.original_artist@ == artist@,
        normalized.original_title@ == title@,
{
    NormalizedMetadata {
        artist: clean_string(artist),
        title: clean_title_keep_parens(title),
        album: clean_string(album),
        original_artist: artist.to_owned(),
        original_title: title.to_owned(),
    }
}

/// The title for the second search attempt, made from the original title.
pub fn get_stripped_title(normalized: &NormalizedMetadata) -> (stripped: String)
    ensures
        stripped@ == clean_title_text(normalized.original_title@),
{
    clean_title(normalized.original_title.as_str())
}

/// The bit that makes a double negative.
pub const SIGN_BIT: u64 = 0x8000_0000_0000_0000;

/// The bit pattern of positive infinity. Without the sign bit, every
/// pattern up to this one is a number and every greater one is not.
pub const INFINITY_BITS: u64 = 0x7FF0_0000_0000_0000;

/// The bit pattern of a double without its sign bit.
pub open spec fn magnitude(bits: u64) -> int {
    if bits >= SIGN_BIT {
        bits - SIGN_BIT
    } else {
        bits as int
    }
}

/// Whether a bit pattern is a number, infinite or not.
pub open spec fn is_number(bits: u64) -> bool {
    magnitude(bits) <= INFINITY_BITS
}

/// An integer that orders the bit patterns of numbers as the numbers are
/// ordered; the two zeros share one rank.
pub open spec fn number_rank(bits: u64) -> int {
    if bits >= SIGN_BIT {
        -magnitude(bits)
    } else {
        magnitude(bits)
    }
}

/// Whether, of two doubles given by their bit patterns, the first is
/// greater than or equal to the second. What is not a number compares with
/// nothing.
pub open spec fn at_least(value: u64, threshold: u64) -> bool {
    is_number(value) && is_number(threshold) && number_rank(value) >= number_rank(threshold)
}

/// What `strsim::jaro_winkler` returns for two texts, as the bit pattern of
/// the double.
pub uninterp spec fn jaro_winkler_bits(a: Seq<char>, b: Seq<char>) -> u64;

/// `strsim::jaro_winkler`: the Jaro similarity of the two texts with a boost
/// for a common prefix. The result is a function of the two texts alone;
/// nothing else is claimed of it.
#[verifier::external_body]
fn jaro_winkler(a: &str, b: &str) -> (bits: u64)
    ensures
        bits == jaro_winkler_bits(a@, b@),
{
    strsim::jaro_winkler(a, b).to_bits()
}

/// Whether, of two doubles given by their bit patterns, the first is
/// greater than or equal to the second.
pub fn number_at_least(value: u64, threshold: u64) -> (holds: bool)
    ensures
        holds == at_least(value, threshold),
{
    let value_negative = value >= SIGN_BIT;
    let threshold_negative = threshold >= SIGN_BIT;
    let value_size = if value_negative {
        value - SIGN_BIT
    } else {
        value
    };
    let threshold_size = if threshold_negative {
        threshold - SIGN_BIT
    } else {
        threshold
    };
    if value_size > INFINITY_BITS || threshold_size > INFINITY_BITS {
        false
    } else if value_negative {
        if threshold_negative {
            value_size <= threshold_size
        } else {
            value_size == 0 && threshold_size == 0
        }
    } else {
        threshold_negative || value_size >= threshold_size
    }
}

/// The similarity of two texts, from zero for nothing in common to one for
/// the same text, as the bit pattern of a double.
pub fn similarity_score(a: &str, b: &str) -> (score: u64)
    ensures
        score == jaro_winkler_bits(a@, b@),
{
    jaro_winkler(a, b)
}

/// Whether two texts are similar enough to be taken for a match: whether
/// their similarity reaches the threshold, both read as doubles.
pub fn is_similar(a: &str, b: &str, threshold: u64) -> (similar: bool)
    ensures
        similar == at_least(jaro_winkler_bits(a@, b@), threshold),
{
    number_at_least(similarity_score(a, b), threshold)
}

} // verus!
