use crate::predicate::{decided, IsThirteen};
use fnv::FnvHashSet;
use vstd::prelude::*;
use vstd::string::StringSliceAdditionalSpecFns;
use vstd::utf8::encode_utf8;

verus! {

/// The byte in ASCII lower case: a letter from `A` to `Z` becomes the letter from `a` to
/// `z`, every other byte stays.
pub open spec fn ascii_lowercase_byte(b: u8) -> u8 {
    if 65 <= b && b <= 90 {
        (b + 32) as u8
    } else {
        b
    }
}

/// `u8::to_ascii_lowercase` returns the byte in ASCII lower case.
pub assume_specification[ u8::to_ascii_lowercase ](b: &u8) -> (lowered: u8)
    ensures
        lowered == ascii_lowercase_byte(*b),
;

/// `HashSet::insert`: afterwards the set holds `b` besides what it held.
#[verifier::external_body]
fn insert_byte(set: &mut FnvHashSet<u8>, b: u8)
    ensures
        final(set)@ == old(set)@.insert(b),
{
    set.insert(b);
}

/// `HashSet::contains`: whether the set holds `b`.
#[verifier::external_body]
fn has_byte(set: &FnvHashSet<u8>, b: u8) -> (found: bool)
    ensures
        found == set@.contains(b),
{
    set.contains(&b)
}

/// `==` on two hash sets: whether they hold the same bytes.
#[verifier::external_body]
fn same_bytes(left: &FnvHashSet<u8>, right: &FnvHashSet<u8>) -> (same: bool)
    ensures
        same == (left@ == right@),
{
    left == right
}

/// `HashSet::clone`: a set of its own that holds the same bytes.
#[verifier::external_body]
fn copy_bytes(set: &FnvHashSet<u8>) -> (copy: FnvHashSet<u8>)
    ensures
        copy@ == set@,
{
    set.clone()
}

/// The bytes that occur in the UTF-8 form of the text.
pub open spec fn bytes_of(text: Seq<char>) -> Set<u8> {
    encode_utf8(text).to_set()
}

/// The bytes that occur in the UTF-8 form of the text, each in ASCII lower case.
pub open spec fn lowercase_bytes_of(text: Seq<char>) -> Set<u8> {
    encode_utf8(text).map_values(|b: u8| ascii_lowercase_byte(b)).to_set()
}

/// The letters of "thirteen", each once: t, h, i, r, e and n.
pub open spec fn thirteen_letters() -> Set<u8> {
    set!['t' as u8, 'h' as u8, 'i' as u8, 'r' as u8, 'e' as u8, 'n' as u8]
}

/// Collects the bytes of `s`, each as it is or, with `lowered`, in ASCII lower case.
fn collect_bytes(s: &str, lowered: bool) -> (set: FnvHashSet<u8>)
    ensures
        set@ == if lowered {
            lowercase_bytes_of(s@)
        } else {
            bytes_of(s@)
        },
{
    let bytes = s.as_bytes();
    let ghost kept = if lowered {
        encode_utf8(s@).map_values(|b: u8| ascii_lowercase_byte(b))
    } else {
        encode_utf8(s@)
    };
    let mut set: FnvHashSet<u8> = FnvHashSet::default();
    let mut i: usize = 0;
    assert(kept.take(0).to_set() =~= Set::<u8>::empty());
    while i < bytes.len()
        invariant
            i <= bytes@.len(),
            bytes@ == encode_utf8(s@),
            kept.len() == bytes@.len(),
            forall|j: int|
                0 <= j < kept.len() ==> #[trigger] kept[j] == if lowered {
                    ascii_lowercase_byte(bytes@[j])
                } else {
                    bytes@[j]
                },
            set@ == kept.take(i as int).to_set(),
        decreases bytes@.len() - i,
    {
        let b: u8 = if lowered {
            bytes[i].to_ascii_lowercase()
        } else {
            bytes[i]
        };
        proof {
            assert(kept.take(i + 1) =~= kept.take(i as int).push(kept[i as int]));
            kept.take(i as int).lemma_push_to_set_commute(kept[i as int]);
        }
        insert_byte(&mut set, b);
        i += 1;
    }
    assert(kept.take(i as int) =~= kept);
    set
}

/// The bytes of the word "thirteen" are its six letters.
proof fn lemma_bytes_of_thirteen()
    ensures
        encode_utf8("thirteen"@).len() == 8,
        bytes_of("thirteen"@) == thirteen_letters(),
{
    reveal_strlit("thirteen");
    let word = "thirteen"@;
    vstd::utf8::is_ascii_chars_encode_utf8(word);
    let bytes = encode_utf8(word);
    assert forall|b: u8| #[trigger] bytes.to_set().contains(b) <==> thirteen_letters().contains(
        b,
    ) by {
        if thirteen_letters().contains(b) {
            assert(bytes[0] == 116 && bytes[1] == 104 && bytes[2] == 105 && bytes[3] == 114
                && bytes[5] == 101 && bytes[7] == 110);
        }
    }
    assert(bytes.to_set() =~= thirteen_letters());
}

/// `CanSpell` is thirteen if its set of characters is a superset of those in "thirteen."
#[derive(Debug)]
pub struct CanSpell {
    letters: FnvHashSet<u8>,
}

impl View for CanSpell {
    type V = Set<u8>;

    /// The bytes that the value was made from, each in ASCII lower case.
    closed spec fn view(&self) -> Set<u8> {
        self.letters@
    }
}

impl Clone for CanSpell {
    fn clone(&self) -> (copy: Self)
        ensures
            copy@ == self@,
    {
        Self { letters: copy_bytes(&self.letters) }
    }
}

impl CanSpell {
    /// Keeps the bytes of `s`, each in ASCII lower case.
    pub fn new(s: &str) -> (spell: Self)
        ensures
            spell@ == lowercase_bytes_of(s@),
    {
        Self { letters: collect_bytes(s, true) }
    }
}

impl IsThirteen for CanSpell {
    open spec fn thirteen_requires(&self) -> bool {
        true
    }

    open spec fn thirteen_ensures(&self, res: bool) -> bool {
        res == thirteen_letters().subset_of(self@)
    }

    fn thirteen(&self) -> (res: bool)
        ensures
            res == thirteen_letters().subset_of(self@),
    {
        let word = "thirteen".as_bytes();
        proof {
            lemma_bytes_of_thirteen();
        }
        let mut res = true;
        let mut i: usize = 0;
        while i < word.len()
            invariant
                i <= word@.len(),
                word@.len() == 8,
                res == forall|j: int| 0 <= j < i ==> self.letters@.contains(#[trigger] word@[j]),
            decreases word@.len() - i,
        {
            if !has_byte(&self.letters, word[i]) {
                res = false;
            }
            i += 1;
        }
        proof {
            assert(word@.to_set() == thirteen_letters());
            if res {
                assert forall|b: u8| thirteen_letters().contains(b) implies self@.contains(b) by {
                    let j = choose|j: int| 0 <= j < word@.len() && word@[j] == b;
                    assert(self.letters@.contains(word@[j]));
                }
            } else {
                let j = choose|j: int| 0 <= j < 8 && !self.letters@.contains(#[trigger] word@[j]);
                assert(word@.to_set().contains(word@[j]));
            }
        }
        res
    }
}

/// `AnagramOf` is thirteen if it is an anagram of "thirteen": if its letters, each taken
/// once and in lower case, are the letters of "thirteen".
#[derive(Debug)]
pub struct AnagramOf {
    bytes: FnvHashSet<u8>,
}

impl View for AnagramOf {
    type V = Set<u8>;

    /// The bytes that the value was made from, each in ASCII lower case.
    closed spec fn view(&self) -> Set<u8> {
        self.bytes@
    }
}

impl Clone for AnagramOf {
    fn clone(&self) -> (copy: Self)
        ensures
            copy@ == self@,
    {
        Self { bytes: copy_bytes(&self.bytes) }
    }
}

impl AnagramOf {
    /// Keeps the bytes of `s`, each in ASCII lower case.
    pub fn new(s: &str) -> (anagram: Self)
        ensures
            anagram@ == lowercase_bytes_of(s@),
    {
        Self { bytes: collect_bytes(s, true) }
    }
}

impl IsThirteen for AnagramOf {
    open spec fn thirteen_requires(&self) -> bool {
        true
    }

    open spec fn thirteen_ensures(&self, res: bool) -> bool {
        res == (self@ == thirteen_letters())
    }

    fn thirteen(&self) -> (res: bool)
        ensures
            res == (self@ == thirteen_letters()),
    {
        let letters = collect_bytes("thirteen", false);
        proof {
            lemma_bytes_of_thirteen();
        }
        same_bytes(&self.bytes, &letters)
    }
}

/// What spells "thirteen" by its letter set can spell it: an `AnagramOf` that is
/// thirteen holds the letters that a `CanSpell` asks for.
pub proof fn lemma_anagram_can_spell(anagram: AnagramOf, spell: CanSpell)
    requires
        anagram@ == spell@,
        anagram.thirteen_ensures(true),
    ensures
        spell.thirteen_ensures(true),
{
}

/// Asking a `CanSpell` or an `AnagramOf` again gives the same answer.
pub proof fn lemma_letter_sets_are_decided(spell: CanSpell, anagram: AnagramOf)
    ensures
        decided(spell),
        decided(anagram),
{
}

} // verus!
