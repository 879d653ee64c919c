use crate::predicate::{decided, IsThirteen};
use vstd::prelude::*;

verus! {

/// The character in ASCII lower case: a letter from `A` to `Z` becomes the letter from
/// `a` to `z`, every other character stays.
pub open spec fn ascii_lowercase_char(c: char) -> char {
    if 'A' <= c && c <= 'Z' {
        ((c as u8) + 32) as char
    } else {
        c
    }
}

/// The text with each character in ASCII lower case.
pub open spec fn ascii_lowercase(text: Seq<char>) -> Seq<char> {
    text.map_values(|c: char| ascii_lowercase_char(c))
}

/// `str::eq_ignore_ascii_case` tells whether the two strings match when ASCII case is
/// left aside: whether their ASCII lower-case forms are equal.
pub assume_specification[ str::eq_ignore_ascii_case ](s: &str, other: &str) -> (same: bool)
    ensures
        same == (ascii_lowercase(s@) == ascii_lowercase(other@)),
;

/// "thirteen", letter by letter.
pub open spec fn thirteen_spelled() -> Seq<char> {
    seq!['t', 'h', 'i', 'r', 't', 'e', 'e', 'n']
}

/// "thirteen" read from its end.
pub open spec fn thirteen_spelled_backwards() -> Seq<char> {
    seq!['n', 'e', 'e', 't', 'r', 'i', 'h', 't']
}

/// The name of the element with the atomic number 13.
pub open spec fn aluminum_spelled() -> Seq<char> {
    seq!['a', 'l', 'u', 'm', 'i', 'n', 'u', 'm']
}

/// `Backwards` is thirteen if its lowercase version equals `"neetriht"` (reverse spelling
/// of "thirteen"). Only the case of ASCII letters is left aside.
#[derive(Debug, Clone)]
pub struct Backwards<'s>(pub &'s str);

/// `AtomicNumber` is thirteen if the string equals `"aluminum"`, whatever the case of
/// its letters.
#[derive(Debug, Clone)]
pub struct AtomicNumber<'s>(pub &'s str);

impl IsThirteen for Backwards<'_> {
    open spec fn thirteen_requires(&self) -> bool {
        true
    }

    open spec fn thirteen_ensures(&self, res: bool) -> bool {
        res == (ascii_lowercase(self.0@) == thirteen_spelled_backwards())
    }

    fn thirteen(&self) -> (res: bool)
        ensures
            res == (ascii_lowercase(self.0@) == thirteen_spelled_backwards()),
    {
        proof {
            reveal_strlit("neetriht");
            assert(ascii_lowercase("neetriht"@) =~= thirteen_spelled_backwards());
        }
        self.0.eq_ignore_ascii_case("neetriht")
    }
}

impl IsThirteen for AtomicNumber<'_> {
    open spec fn thirteen_requires(&self) -> bool {
        true
    }

    open spec fn thirteen_ensures(&self, res: bool) -> bool {
        res == (ascii_lowercase(self.0@) == aluminum_spelled())
    }

    fn thirteen(&self) -> (res: bool)
        ensures
            res == (ascii_lowercase(self.0@) == aluminum_spelled()),
    {
        proof {
            reveal_strlit("aluminum");
            assert(ascii_lowercase("aluminum"@) =~= aluminum_spelled());
        }
        self.0.eq_ignore_ascii_case("aluminum")
    }
}

/// A text spells "neetriht" when case is left aside exactly when, read from its end, it
/// spells "thirteen".
pub proof fn lemma_backwards_is_thirteen_reversed(text: Seq<char>)
    ensures
        ascii_lowercase(text) == thirteen_spelled_backwards() <==> ascii_lowercase(text.reverse())
            == thirteen_spelled(),
{
    let forth = ascii_lowercase(text);
    let back = ascii_lowercase(text.reverse());
    assert(back =~= forth.reverse());
    assert(back.reverse() =~= forth);
    assert(thirteen_spelled_backwards() =~= thirteen_spelled().reverse());
    assert(thirteen_spelled() =~= thirteen_spelled_backwards().reverse());
}

/// Asking a `Backwards` or an `AtomicNumber` again gives the same answer.
pub proof fn lemma_spellings_are_decided(backwards: Backwards<'_>, element: AtomicNumber<'_>)
    ensures
        decided(backwards),
        decided(element),
{
}

} // verus!
