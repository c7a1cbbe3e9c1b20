//! Text helpers shared by the modules: decimal rendering of numbers.

use vstd::prelude::*;
use vstd::string::{StrSliceExecFns, StringExecFns};

verus! {

/// The character of one decimal digit.
pub open spec fn digit_char(d: nat) -> char {
    if d == 0 {
        '0'
    } else if d == 1 {
        '1'
    } else if d == 2 {
        '2'
    } else if d == 3 {
        '3'
    } else if d == 4 {
        '4'
    } else if d == 5 {
        '5'
    } else if d == 6 {
        '6'
    } else if d == 7 {
        '7'
    } else if d == 8 {
        '8'
    } else {
        '9'
    }
}

/// The decimal digits of a number, most significant first, without padding.
pub open spec fn decimal_digits(n: nat) -> Seq<char>
    decreases n,
{
    if n < 10 {
        seq![digit_char(n)]
    } else {
        decimal_digits(n / 10).push(digit_char(n % 10))
    }
}

fn digit_str(d: u64) -> (s: &'static str)
    requires
        d < 10,
    ensures
        s@ == seq![digit_char(d as nat)],
{
    proof {
        reveal_strlit("0");
        reveal_strlit("1");
        reveal_strlit("2");
        reveal_strlit("3");
        reveal_strlit("4");
        reveal_strlit("5");
        reveal_strlit("6");
        reveal_strlit("7");
        reveal_strlit("8");
        reveal_strlit("9");
    }
    let s = if d == 0 {
        "0"
    } else if d == 1 {
        "1"
    } else if d == 2 {
        "2"
    } else if d == 3 {
        "3"
    } else if d == 4 {
        "4"
    } else if d == 5 {
        "5"
    } else if d == 6 {
        "6"
    } else if d == 7 {
        "7"
    } else if d == 8 {
        "8"
    } else {
        "9"
    };
    assert(s@ =~= seq![digit_char(d as nat)]);
    s
}

/// Renders a number in decimal.
pub fn decimal_string(n: u64) -> (s: String)
    ensures
        s@ == decimal_digits(n as nat),
    decreases n,
{
    if n < 10 {
        String::from_str(digit_str(n))
    } else {
        let head = decimal_string(n / 10);
        let s = head.concat(digit_str(n % 10));
        assert(s@ =~= decimal_digits(n as nat));
        s
    }
}

} // verus!

verus! {

/// Whether a character is Unicode white space (the property `White_Space`).
pub open spec fn is_whitespace(c: char) -> bool {
    let n = c as u32;
    ||| 0x09 <= n <= 0x0d
    ||| n == 0x20
    ||| n == 0x85
    ||| n == 0xa0
    ||| n == 0x1680
    ||| 0x2000 <= n <= 0x200a
    ||| n == 0x2028
    ||| n == 0x2029
    ||| n == 0x202f
    ||| n == 0x205f
    ||| n == 0x3000
}

/// Whether a text holds nothing but white space; the empty text is blank.
pub open spec fn is_blank(s: Seq<char>) -> bool {
    forall|i: int| 0 <= i < s.len() ==> is_whitespace(#[trigger] s[i])
}

/// The text without its leading white space.
pub open spec fn trim_start_spec(s: Seq<char>) -> Seq<char>
    decreases s.len(),
{
    if s.len() > 0 && is_whitespace(s[0]) {
        trim_start_spec(s.drop_first())
    } else {
        s
    }
}

/// The text without its trailing white space.
pub open spec fn trim_end_spec(s: Seq<char>) -> Seq<char>
    decreases s.len(),
{
    if s.len() > 0 && is_whitespace(s.last()) {
        trim_end_spec(s.drop_last())
    } else {
        s
    }
}

/// The text without leading and trailing white space.
pub open spec fn trimmed(s: Seq<char>) -> Seq<char> {
    trim_end_spec(trim_start_spec(s))
}

/// `str::trim` of the standard library: the slice that is left when leading
/// and trailing white space, in the sense of `is_whitespace`, is removed.
#[verifier::external_body]
pub(crate) fn trim(s: &str) -> (t: &str)
    ensures
        t@ == trimmed(s@),
{
    s.trim()
}

/// Trimming the front leaves nothing exactly of a blank text; of any other
/// text it leaves something that starts with a character that is no white
/// space.
pub proof fn lemma_trim_start(s: Seq<char>)
    ensures
        is_blank(s) <==> trim_start_spec(s).len() == 0,
        !is_blank(s) ==> !is_whitespace(trim_start_spec(s)[0]),
    decreases s.len(),
{
    if s.len() > 0 && is_whitespace(s[0]) {
        let rest = s.drop_first();
        lemma_trim_start(rest);
        if is_blank(rest) {
            assert forall|i: int| 0 <= i < s.len() implies is_whitespace(#[trigger] s[i]) by {
                if i > 0 {
                    assert(s[i] == rest[i - 1]);
                }
            }
        } else {
            let j = choose|j: int| 0 <= j < rest.len() && !is_whitespace(#[trigger] rest[j]);
            assert(s[j + 1] == rest[j]);
        }
    } else if s.len() > 0 {
        assert(!is_whitespace(s[0]));
    }
}

/// Trimming the end never empties a text that starts with a character that
/// is no white space.
pub proof fn lemma_trim_end_keeps_start(s: Seq<char>)
    requires
        s.len() > 0,
        !is_whitespace(s[0]),
    ensures
        trim_end_spec(s).len() > 0,
    decreases s.len(),
{
    if is_whitespace(s.last()) {
        assert(s.len() > 1);
        assert(s.drop_last()[0] == s[0]);
        lemma_trim_end_keeps_start(s.drop_last());
    }
}

/// A text trims to nothing exactly when it is blank.
pub proof fn lemma_trimmed_empty_iff_blank(s: Seq<char>)
    ensures
        trimmed(s).len() == 0 <==> is_blank(s),
{
    lemma_trim_start(s);
    if !is_blank(s) {
        lemma_trim_end_keeps_start(trim_start_spec(s));
    }
}

/// Whether a text is empty or holds only white space.
pub fn is_blank_text(s: &str) -> (blank: bool)
    ensures
        blank == is_blank(s@),
{
    proof {
        lemma_trimmed_empty_iff_blank(s@);
    }
    trim(s).is_empty()
}

/// Whether two texts hold the same characters.
pub fn text_eq(a: &str, b: &str) -> (same: bool)
    ensures
        same == (a@ == b@),
{
    a.to_owned() == b.to_owned()
}

/// Position of the first occurrence of a character, or the length if there
/// is none.
pub open spec fn position_of(s: Seq<char>, c: char) -> int
    decreases s.len(),
{
    if s.len() == 0 {
        0
    } else if s[0] == c {
        0
    } else {
        1 + position_of(s.drop_first(), c)
    }
}

/// `position_of` is a position of the text or its length; the character
/// stands there and nowhere before.
pub proof fn lemma_position_of(s: Seq<char>, c: char)
    ensures
        0 <= position_of(s, c) <= s.len(),
        position_of(s, c) < s.len() ==> s[position_of(s, c)] == c,
        forall|j: int| 0 <= j < position_of(s, c) ==> #[trigger] s[j] != c,
    decreases s.len(),
{
    if s.len() > 0 && s[0] != c {
        let rest = s.drop_first();
        lemma_position_of(rest, c);
        assert forall|j: int| 0 <= j < position_of(s, c) implies #[trigger] s[j] != c by {
            if j > 0 {
                assert(s[j] == rest[j - 1]);
            }
        }
    }
}

/// What stands before the first occurrence of a character; the whole text
/// if there is none.
pub open spec fn before_char(s: Seq<char>, c: char) -> Seq<char> {
    s.subrange(0, position_of(s, c))
}

/// What stands after the first occurrence of a character; nothing if there
/// is none.
pub open spec fn after_char(s: Seq<char>, c: char) -> Seq<char> {
    if position_of(s, c) < s.len() {
        s.subrange(position_of(s, c) + 1, s.len() as int)
    } else {
        Seq::empty()
    }
}

/// `str::split_once` of the standard library with one character as
/// delimiter: the parts before and after its first occurrence, or nothing if
/// it does not occur.
#[verifier::external_body]
pub(crate) fn split_once_char(s: &str, c: char) -> (parts: Option<(&str, &str)>)
    ensures
        parts is Some <==> position_of(s@, c) < s@.len(),
        parts matches Some((head, rest)) ==> head@ == before_char(s@, c) && rest@ == after_char(
            s@,
            c,
        ),
{
    s.split_once(c)
}

/// Splits a text at the first occurrence of a character; without one, all of
/// it stands before and nothing after.
pub fn split_at_char(s: &str, c: char) -> (parts: (&str, &str))
    ensures
        parts.0@ == before_char(s@, c),
        parts.1@ == after_char(s@, c),
{
    match split_once_char(s, c) {
        Some((head, rest)) => (head, rest),
        None => {
            proof {
                lemma_position_of(s@, c);
                assert(s@.subrange(0, s@.len() as int) =~= s@);
                reveal_strlit("");
                assert(""@ =~= Seq::<char>::empty());
            }
            (s, "")
        },
    }
}

/// The parts of a text between the occurrences of a character; a text
/// without the character is one part, and so is the empty text.
pub open spec fn pieces(s: Seq<char>, c: char) -> Seq<Seq<char>>
    decreases s.len(),
{
    if position_of(s, c) < s.len() {
        proof {
            lemma_position_of(s, c);
        }
        seq![before_char(s, c)] + pieces(after_char(s, c), c)
    } else {
        seq![s]
    }
}

/// `str::split` of the standard library with one character as delimiter,
/// each part copied into a string of its own.
#[verifier::external_body]
pub(crate) fn split_char(s: &str, c: char) -> (parts: Vec<String>)
    ensures
        crate::tools::texts(parts@) == pieces(s@, c),
{
    s.split(c).map(String::from).collect()
}

/// Whether a text starts with another.
pub open spec fn has_prefix(s: Seq<char>, prefix: Seq<char>) -> bool {
    prefix.len() <= s.len() && s.subrange(0, prefix.len() as int) == prefix
}

/// Whether a text occurs inside another.
pub open spec fn has_infix(s: Seq<char>, part: Seq<char>) -> bool {
    exists|i: int|
        0 <= i && i + part.len() <= s.len() && #[trigger] s.subrange(i, i + part.len()) == part
}

/// Whether a text starts with another.
pub fn starts_with(s: &str, prefix: &str) -> (yes: bool)
    ensures
        yes == has_prefix(s@, prefix@),
{
    let n = s.unicode_len();
    let m = prefix.unicode_len();
    if m > n {
        return false;
    }
    text_eq(s.substring_char(0, m), prefix)
}

/// `str::contains` of the standard library with a text as pattern.
#[verifier::external_body]
pub(crate) fn contains(s: &str, part: &str) -> (yes: bool)
    ensures
        yes == has_infix(s@, part@),
{
    s.contains(part)
}

/// A text without the occurrences of a pattern, found from left to right and
/// not overlapping; an empty pattern removes nothing.
pub open spec fn without(s: Seq<char>, pattern: Seq<char>) -> Seq<char>
    decreases s.len(),
{
    if pattern.len() == 0 || s.len() < pattern.len() {
        s
    } else if s.subrange(0, pattern.len() as int) == pattern {
        without(s.subrange(pattern.len() as int, s.len() as int), pattern)
    } else {
        seq![s[0]] + without(s.drop_first(), pattern)
    }
}

/// `str::replace` of the standard library with the empty text as
/// replacement: every match of the pattern is removed.
#[verifier::external_body]
pub(crate) fn remove_all(s: &str, pattern: &str) -> (out: String)
    ensures
        out@ == without(s@, pattern@),
{
    s.replace(pattern, "")
}

/// Whether a text stands before another, or equals it, in the order of
/// strings: character by character, a proper prefix first.
pub open spec fn text_le(a: Seq<char>, b: Seq<char>) -> bool
    decreases a.len(),
{
    if a.len() == 0 {
        true
    } else if b.len() == 0 {
        false
    } else if a[0] != b[0] {
        (a[0] as int) < (b[0] as int)
    } else {
        text_le(a.drop_first(), b.drop_first())
    }
}

/// Of two texts, one stands before the other or equals it.
pub proof fn lemma_text_le_total(a: Seq<char>, b: Seq<char>)
    ensures
        text_le(a, b) || text_le(b, a),
    decreases a.len(),
{
    if a.len() > 0 && b.len() > 0 && a[0] == b[0] {
        lemma_text_le_total(a.drop_first(), b.drop_first());
    }
}

/// The order of texts is transitive.
pub proof fn lemma_text_le_transitive(a: Seq<char>, b: Seq<char>, c: Seq<char>)
    requires
        text_le(a, b),
        text_le(b, c),
    ensures
        text_le(a, c),
    decreases a.len(),
{
    if a.len() > 0 && b.len() > 0 && c.len() > 0 && a[0] == b[0] && b[0] == c[0] {
        lemma_text_le_transitive(a.drop_first(), b.drop_first(), c.drop_first());
    }
}

/// `<=` on `str` of the standard library: the lexicographic order of the
/// texts by character.
#[verifier::external_body]
pub(crate) fn text_at_most(a: &str, b: &str) -> (yes: bool)
    ensures
        yes == text_le(a@, b@),
{
    a <= b
}

/// The lowercase equivalent of a text as `str::to_lowercase` computes it,
/// by the Unicode property `Lowercase`.
pub uninterp spec fn lowercase_of(s: Seq<char>) -> Seq<char>;

/// `str::to_lowercase` of the standard library.
#[verifier::external_body]
pub(crate) fn to_lowercase(s: &str) -> (lower: String)
    ensures
        lower@ == lowercase_of(s@),
{
    s.to_lowercase()
}

/// Number of characters before the first white space.
pub open spec fn word_len(s: Seq<char>) -> nat
    decreases s.len(),
{
    if s.len() == 0 || is_whitespace(s[0]) {
        0
    } else {
        1 + word_len(s.drop_first())
    }
}

/// A word is no longer than the text it starts.
pub proof fn lemma_word_len_in_range(s: Seq<char>)
    ensures
        word_len(s) <= s.len(),
    decreases s.len(),
{
    if s.len() > 0 && !is_whitespace(s[0]) {
        lemma_word_len_in_range(s.drop_first());
    }
}

/// The words of a text: its maximal runs of characters that are no white
/// space, in order.
pub open spec fn words(s: Seq<char>) -> Seq<Seq<char>>
    decreases s.len(),
{
    if s.len() == 0 {
        Seq::empty()
    } else if is_whitespace(s[0]) {
        words(s.drop_first())
    } else {
        proof {
            lemma_word_len_in_range(s);
        }
        seq![s.subrange(0, word_len(s) as int)] + words(s.subrange(word_len(s) as int, s.len() as int))
    }
}

/// `str::split_whitespace` of the standard library, each word copied into a
/// string of its own.
#[verifier::external_body]
pub(crate) fn split_whitespace(s: &str) -> (tokens: Vec<String>)
    ensures
        crate::tools::texts(tokens@) == words(s@),
{
    s.split_whitespace().map(String::from).collect()
}

/// A line without the carriage return at its end, if it has one.
pub open spec fn strip_cr(line: Seq<char>) -> Seq<char> {
    if line.len() > 0 && line.last() == '\r' {
        line.drop_last()
    } else {
        line
    }
}

/// The lines of a text. A line ends at a line feed, or at a carriage return
/// that a line feed follows; the line ending is no part of the line. What
/// follows the last line feed is a line if it is not empty.
pub open spec fn lines_of(s: Seq<char>) -> Seq<Seq<char>>
    decreases s.len(),
{
    if s.len() == 0 {
        Seq::empty()
    } else if position_of(s, '\n') < s.len() {
        proof {
            lemma_position_of(s, '\n');
        }
        seq![strip_cr(before_char(s, '\n'))] + lines_of(after_char(s, '\n'))
    } else {
        seq![s]
    }
}

/// `str::lines` of the standard library, each line copied into a string of
/// its own.
#[verifier::external_body]
pub(crate) fn lines(s: &str) -> (out: Vec<String>)
    ensures
        crate::tools::texts(out@) == lines_of(s@),
{
    s.lines().map(String::from).collect()
}

/// Texts with a separator between them.
pub open spec fn joined(parts: Seq<Seq<char>>, sep: Seq<char>) -> Seq<char>
    decreases parts.len(),
{
    if parts.len() == 0 {
        Seq::empty()
    } else if parts.len() == 1 {
        parts[0]
    } else {
        joined(parts.drop_last(), sep) + sep + parts.last()
    }
}

/// Joins texts with a separator between them.
pub fn join(parts: &Vec<String>, sep: &str) -> (out: String)
    ensures
        out@ == joined(crate::tools::texts(parts@), sep@),
{
    let ghost all = crate::tools::texts(parts@);
    let mut out = String::new();
    let mut i: usize = 0;
    while i < parts.len()
        invariant
            i <= parts.len(),
            all == crate::tools::texts(parts@),
            out@ == joined(all.subrange(0, i as int), sep@),
        decreases parts.len() - i,
    {
        proof {
            let prefix = all.subrange(0, i + 1);
            assert(prefix.drop_last() =~= all.subrange(0, i as int));
            assert(prefix.last() == parts@[i as int]@);
        }
        if i > 0 {
            out = out.concat(sep).concat(parts[i].as_str());
        } else {
            out = out.concat(parts[i].as_str());
            assert(out@ =~= parts@[i as int]@);
        }
        i += 1;
    }
    assert(all.subrange(0, all.len() as int) =~= all);
    out
}

} // verus!
