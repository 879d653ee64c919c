use crate::predicate::{decided, IsThirteen};
use crate::thirteen_strings::{thirteen_strings, ThirteenStrings};
use vstd::prelude::*;

verus! {

/// The lower-case form that `str::to_lowercase` gives a text: the Unicode lower-case
/// mapping, which depends on the text alone.
pub uninterp spec fn lowercase(text: Seq<char>) -> Seq<char>;

/// `str::to_lowercase` returns the lower-case form of the string as a new `String`.
pub assume_specification[ str::to_lowercase ](s: &str) -> (lowered: String)
    ensures
        lowered@ == lowercase(s@),
;

/// A stroke of a tally: the capital I, the small l or the digit 1.
pub open spec fn is_stroke(c: char) -> bool {
    c == 'I' || c == 'l' || c == '1'
}

/// The text is a tally of thirteen strokes.
pub open spec fn thirteen_strokes(text: Seq<char>) -> bool {
    text.len() == 13 && forall|i: int| 0 <= i < text.len() ==> is_stroke(#[trigger] text[i])
}

/// The text is one character, whichever, thirteen times.
pub open spec fn thirteen_equal_chars(text: Seq<char>) -> bool {
    text.len() == 13 && forall|i: int| 0 <= i < text.len() ==> #[trigger] text[i] == text[0]
}

/// The text is thirteen by how it is written, whatever the list holds: it is "13" or
/// "B", a tally of thirteen strokes, or one character thirteen times.
pub open spec fn thirteen_shape(text: Seq<char>) -> bool {
    ||| text == seq!['1', '3']
    ||| text == seq!['B']
    ||| thirteen_strokes(text)
    ||| thirteen_equal_chars(text)
}

/// The rule for a text whose lower-case form is `lowered`: it is thirteen by its shape,
/// or its lower-case form is an entry of the list.
pub open spec fn thirteen_text(text: Seq<char>, lowered: Seq<char>) -> bool {
    thirteen_shape(text) || thirteen_strings().contains(lowered)
}

/// Whether every character of `s` is `c`.
fn every_char_is(s: &str, c: char) -> (res: bool)
    ensures
        res == forall|i: int| 0 <= i < s@.len() ==> #[trigger] s@[i] == c,
{
    let mut res = true;
    for d in it: s.chars()
        invariant
            it.seq() == s@,
            res == forall|i: int| 0 <= i < it.index() ==> #[trigger] s@[i] == c,
    {
        if d != c {
            res = false;
        }
    }
    res
}

/// Whether every character of `s` is a stroke.
fn every_char_is_stroke(s: &str) -> (res: bool)
    ensures
        res == forall|i: int| 0 <= i < s@.len() ==> is_stroke(#[trigger] s@[i]),
{
    let mut res = true;
    for d in it: s.chars()
        invariant
            it.seq() == s@,
            res == forall|i: int| 0 <= i < it.index() ==> is_stroke(#[trigger] s@[i]),
    {
        if !matches!(d, 'I' | 'l' | '1') {
            res = false;
        }
    }
    res
}

/// Returns `true` if `s` is exactly thirteen characters long and all of them are the
/// same character.
pub fn is_thirteen_equal_chars(s: &str) -> (res: bool)
    ensures
        res == thirteen_equal_chars(s@),
{
    let count: usize = s.unicode_len();
    if count == 0 {
        false
    } else {
        let first_char: char = s.get_char(0);
        if count == 13 {
            every_char_is(s, first_char)
        } else {
            false
        }
    }
}

/// Returns `true` if `s` is thirteen by its shape alone.
pub fn has_thirteen_shape(s: &str) -> (res: bool)
    ensures
        res == thirteen_shape(s@),
{
    let count: usize = s.unicode_len();
    if count == 2 && s.get_char(0) == '1' && s.get_char(1) == '3' {
        assert(s@ =~= seq!['1', '3']);
        return true;
    }
    if count == 1 && s.get_char(0) == 'B' {
        assert(s@ =~= seq!['B']);
        return true;
    }
    assert(s@ != seq!['1', '3']) by {
        if s@ == seq!['1', '3'] {
            assert(seq!['1', '3'].len() == 2);
            assert(seq!['1', '3'][0] == '1' && seq!['1', '3'][1] == '3');
        }
    }
    assert(s@ != seq!['B']) by {
        if s@ == seq!['B'] {
            assert(seq!['B'].len() == 1);
            assert(seq!['B'][0] == 'B');
        }
    }
    (count == 13 && every_char_is_stroke(s)) || is_thirteen_equal_chars(s)
}

/// The string rule, for a string `s` whose lower-case form the caller has in `lowered`:
/// `s` is thirteen by its shape, or `lowered` is in the list.
pub fn thirteen_given_lowercase(table: &ThirteenStrings, s: &str, lowered: &str) -> (res: bool)
    ensures
        res == thirteen_text(s@, lowered@),
{
    has_thirteen_shape(s) || table.contains(lowered)
}

/// The string rule with a list set that the caller keeps: `s` is thirteen by its shape,
/// or its lower-case form is in the list.
pub fn thirteen_in(table: &ThirteenStrings, s: &str) -> (res: bool)
    ensures
        res == thirteen_text(s@, lowercase(s@)),
{
    let lowered: String = s.to_lowercase();
    thirteen_given_lowercase(table, s, lowered.as_str())
}

impl IsThirteen for &str {
    open spec fn thirteen_requires(&self) -> bool {
        true
    }

    open spec fn thirteen_ensures(&self, res: bool) -> bool {
        res == thirteen_text(self@, lowercase(self@))
    }

    /// Returns `true` if:
    /// - `self` equals `"13"` or `"B"`
    /// - `self` is 13 characters long and each of them is `I`, `l` or `1`
    /// - `self` is 13 characters long and all characters are equal to each other
    /// - the lower-case version of `self` is included in
    ///   [`THIRTEEN_STRINGS`](crate::thirteen_strings::THIRTEEN_STRINGS)
    fn thirteen(&self) -> (res: bool)
        ensures
            res == thirteen_text(self@, lowercase(self@)),
    {
        let table = ThirteenStrings::new();
        thirteen_in(&table, self)
    }
}

impl IsThirteen for String {
    open spec fn thirteen_requires(&self) -> bool {
        true
    }

    open spec fn thirteen_ensures(&self, res: bool) -> bool {
        res == thirteen_text(self@, lowercase(self@))
    }

    /// The same as for the string slice of `self`.
    fn thirteen(&self) -> (res: bool)
        ensures
            res == thirteen_text(self@, lowercase(self@)),
    {
        self.as_str().thirteen()
    }
}

/// The input without the line feed at its end, if it ends in one: what a line read from
/// a terminal or a pipe says.
pub open spec fn without_final_newline(text: Seq<char>) -> Seq<char> {
    if text.len() > 0 && text.last() == '\n' {
        text.drop_last()
    } else {
        text
    }
}

/// Takes one line feed off the end of `input`, if it ends in one.
pub fn strip_final_newline(input: &str) -> (line: &str)
    ensures
        line@ == without_final_newline(input@),
{
    let count: usize = input.unicode_len();
    if count > 0 && input.get_char(count - 1) == '\n' {
        input.substring_char(0, count - 1)
    } else {
        input
    }
}

/// One character thirteen times is thirteen, whichever character it is and whatever
/// its lower-case form.
pub proof fn lemma_thirteen_equal_chars_is_thirteen(text: Seq<char>, lowered: Seq<char>)
    requires
        text.len() == 13,
        forall|i: int| 0 <= i < 13 ==> #[trigger] text[i] == text[0],
    ensures
        thirteen_equal_chars(text),
        thirteen_text(text, lowered),
{
}

/// Thirteen is the only length at which a run of one character counts: a text of any
/// other length is no such run, and no tally either, and is thirteen only as "13", as
/// "B" or through the list.
pub proof fn lemma_length_must_be_thirteen(text: Seq<char>, lowered: Seq<char>)
    requires
        text.len() != 13,
    ensures
        !thirteen_equal_chars(text),
        !thirteen_strokes(text),
        thirteen_text(text, lowered) <==> text == seq!['1', '3'] || text == seq!['B']
            || thirteen_strings().contains(lowered),
{
}

/// Asking a string again gives the same answer.
pub proof fn lemma_strings_are_decided(s: &str, owned: String)
    ensures
        decided(s),
        decided(owned),
{
}

} // verus!
