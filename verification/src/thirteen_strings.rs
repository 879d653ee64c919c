use fnv::FnvHashSet;
use vstd::prelude::*;

verus! {

/// The words, names and scribbles that mean thirteen, in many languages and scripts.
/// Every entry is in lower case: a string is looked up by its lower-case form.
pub const THIRTEEN_STRINGS: [&'static str; 166] = [
    "۱۳",
    "xiii",
    "https://en.wikipedia.org/wiki/this_is_thirteen",
    "https://scontent.cdninstagram.com/hphotos-xtf1/t51.2885-15/s320x320/e35/12237511_444845689040315_1101385461_n.jpg",
    "https://www.youtube.com/watch?v=pte3jg-2ax4",
    "https://www.youtube.com/watch?v=33kv5d2zwyc",
    "thirteen",
    "remy hadley",
    "olivia wilde",
    "weedle",
    "baker's dozen",
    "dr. remy beauregard hadley",
    "patty tsai",
    "pt",
    "washington luís",
    "millard fillmore",
    "https://en.wikipedia.org/wiki/xiii_(video_game)",
    "http://www.imdb.com/title/tt0798817/",
    "https://www.imdb.com/title/tt2991516/",
    "13+0i",
    "13i",
    "13 + 13i",
    "ei",
    "e1",
    "el",
    "e|",
    "ɩɛ",
    "ɛɩ",
    "th1rt33n",
    "th1rte3n",
    "th1rteen",
    "thirt3en",
    "thirt33n",
    "thirte3n",
    "dertien",
    "ثلاثة عشر",
    "تلطاشر",
    "تلتاشر",
    "طلتاشر",
    "طلطاشر",
    "dertiendertien",
    "seri-un-teng",
    "seriunteng",
    "serí-un-teng",
    "seríunteng",
    "тринадесет",
    "тринайсет",
    "tretze",
    "napulo ug tulo",
    "třináct",
    "十三",
    "拾參",
    "拾叁",
    "拾叄",
    "拾参",
    "trinaest",
    "tretten",
    "senthi",
    "kolmteist",
    "labintatlo",
    "kolmetoista",
    "treize",
    "treizième",
    "dreizehn",
    "ცამეტი",
    "‘umikūmākolu",
    "שלוש עשרה",
    "שלושעשרה",
    "ֹשְלֹש- עֶשְֹרֵה",
    "שלושה עשר",
    "שלושהעשר",
    "ֹשְלֹשָה- עָשָֹר",
    "יג",
    "י״ג",
    "तेरह",
    "tizenhárom",
    "trí déag",
    "tredici",
    "on üç",
    "ಹದಿಮೂರು",
    "పదమూడు",
    "೧೩",
    "열셋",
    "십삼",
    "sêzdeh",
    "tredecim",
    "trīspadsmit",
    "trylika",
    "dräizéng",
    "тринаесет",
    "tiga belas",
    "арван",
    ".---- ...--",
    "matlactlihuan yei",
    "mahtlactli omei",
    "mahtlactli ihuan yei",
    "irteenthay",
    "trzynaście",
    "trzynasty",
    "trzynasta",
    "trzynaste",
    "trzynaści",
    "trzynastego",
    "trzynastej",
    "trzynastych",
    "trzynastemu",
    "trzynastym",
    "trzynastą",
    "trzynastymi",
    "trzynastu",
    "trzynastek",
    "trzynastoma",
    "trzynaścioro",
    "trzynastka",
    "trzynastki",
    "trzynastką",
    "trzynastce",
    "trzynastko",
    "trzynaściorgiem",
    "trzynaściorgu",
    "trzynaściorga",
    "trzynastokrotny",
    "trzynastokrotnie",
    "trzynastokrotną",
    "trzynastokrotnemu",
    "trzynastokrotnej",
    "trzynastokrotnych",
    "trzynastokrotność",
    "trzynastokrotności",
    "trzynastokrotnością",
    "treze",
    "ਤੇਰਾਂ",
    "੧੩",
    "treisprezece",
    "тринадцать",
    "тринаест",
    "trinásť",
    "wa’mah wej",
    "trinajst",
    "trece",
    "dektri",
    "trese",
    "tretton",
    "பதின்மூன்று",
    "สิบสาม",
    "тринадцять",
    "تیرہ",
    "tayra",
    "tri ar ddeg",
    "דרייַצן",
    "דרייצן",
    "kumi na tatu",
    "പതിമൂന്ന്",
    "१३",
    "तेह्र",
    "quainel",
    "mînuiug",
    "7h1r733n",
    "ß",
    "β",
    "阝",
    "i3",
    "l3",
    "|3",
    "!3",
    "dilma",
];

/// The entries of [`THIRTEEN_STRINGS`], each as the sequence of its characters.
pub open spec fn thirteen_strings() -> Set<Seq<char>> {
    THIRTEEN_STRINGS@.map_values(|entry: &'static str| entry@).to_set()
}

/// `fnv::FnvHasher`, the hasher of an `FnvHashSet`. Nothing is said of what is inside it.
#[verifier::external_type_specification]
#[verifier::external_body]
pub struct ExFnvHasher(fnv::FnvHasher);

/// `std::hash::BuildHasherDefault`, which makes the hashers of an `FnvHashSet`. Nothing is
/// said of what is inside it.
#[verifier::external_type_specification]
#[verifier::external_body]
#[verifier::reject_recursive_types(H)]
pub struct ExBuildHasherDefault<H>(std::hash::BuildHasherDefault<H>);

/// The strings that a hash set of string slices holds, each as the sequence of its
/// characters.
pub uninterp spec fn entries_of(set: FnvHashSet<&'static str>) -> Set<Seq<char>>;

/// `FnvHashSet::default`: a new set, which holds nothing.
#[verifier::external_body]
fn no_entries() -> (set: FnvHashSet<&'static str>)
    ensures
        entries_of(set) == Set::<Seq<char>>::empty(),
{
    FnvHashSet::default()
}

/// `HashSet::insert`: afterwards the set holds `entry` besides what it held. String
/// slices are hashed and compared by their text, so the set holds a text once.
#[verifier::external_body]
fn insert_entry(set: &mut FnvHashSet<&'static str>, entry: &'static str)
    ensures
        entries_of(*final(set)) == entries_of(*old(set)).insert(entry@),
{
    set.insert(entry);
}

/// `HashSet::contains`: whether the set holds a string with the text of `candidate`.
#[verifier::external_body]
fn has_entry(set: &FnvHashSet<&'static str>, candidate: &str) -> (found: bool)
    ensures
        found == entries_of(*set).contains(candidate@),
{
    set.contains(candidate)
}

/// [`THIRTEEN_STRINGS`] as a hash set, for looking a string up without walking the list.
pub struct ThirteenStrings {
    entries: FnvHashSet<&'static str>,
}

impl View for ThirteenStrings {
    type V = Set<Seq<char>>;

    closed spec fn view(&self) -> Set<Seq<char>> {
        entries_of(self.entries)
    }
}

impl ThirteenStrings {
    #[verifier::type_invariant]
    spec fn holds_the_list(self) -> bool {
        entries_of(self.entries) == thirteen_strings()
    }

    /// Builds the set from [`THIRTEEN_STRINGS`].
    pub fn new() -> (table: Self)
        ensures
            table@ == thirteen_strings(),
    {
        let ghost texts = THIRTEEN_STRINGS@.map_values(|entry: &'static str| entry@);
        let mut entries = no_entries();
        let mut i: usize = 0;
        assert(texts.take(0).to_set() =~= Set::<Seq<char>>::empty());
        while i < THIRTEEN_STRINGS.len()
            invariant
                i <= THIRTEEN_STRINGS@.len(),
                texts == THIRTEEN_STRINGS@.map_values(|entry: &'static str| entry@),
                entries_of(entries) == texts.take(i as int).to_set(),
            decreases THIRTEEN_STRINGS@.len() - i,
        {
            proof {
                assert(texts.take(i + 1) =~= texts.take(i as int).push(texts[i as int]));
                texts.take(i as int).lemma_push_to_set_commute(texts[i as int]);
            }
            insert_entry(&mut entries, THIRTEEN_STRINGS[i]);
            i += 1;
        }
        assert(texts.take(i as int) == texts);
        ThirteenStrings { entries }
    }

    /// Whether `candidate` is an entry of [`THIRTEEN_STRINGS`]. The entries are in lower
    /// case, so a caller hands in the lower-case form of what it asks about.
    pub fn contains(&self, candidate: &str) -> (found: bool)
        ensures
            found == thirteen_strings().contains(candidate@),
            found == self@.contains(candidate@),
    {
        proof {
            use_type_invariant(self);
        }
        has_entry(&self.entries, candidate)
    }
}

} // verus!
