use vstd::prelude::*;

verus! {

/// The rules edition a character is built for.
#[derive(Clone, Copy, Debug, PartialEq, Eq, Structural)]
pub enum Edition {
    FifthEdition,
    DnDOne,
}

impl Edition {
    /// Whether this is the fifth edition of the rules.
    pub fn is_5e(&self) -> (r: bool)
        ensures
            r == (*self == Edition::FifthEdition),
    {
        match self {
            Edition::FifthEdition => true,
            _ => false,
        }
    }
}

/// Size category of a creature.
#[derive(Clone, Copy, Debug, PartialEq, Eq, Structural, Hash)]
pub enum Size {
    Unknown,
    Tiny,
    Small,
    Medium,
    Large,
}

/// The six ability slots, in sheet order.
#[derive(Clone, Copy, Debug, PartialEq, Eq, Structural, Hash)]
pub enum AP {
    STR,
    DEX,
    CON,
    INT,
    WIS,
    CHA,
}

/// Number of ability slots on a sheet.
pub const ABILITY_COUNT: usize = 6;

impl AP {
    /// Position of the slot in a six-element score array.
    pub open spec fn index(self) -> int {
        match self {
            AP::STR => 0,
            AP::DEX => 1,
            AP::CON => 2,
            AP::INT => 3,
            AP::WIS => 4,
            AP::CHA => 5,
        }
    }

    /// The slot stored at position `i` of a score array.
    pub open spec fn at(i: int) -> AP {
        if i == 0 {
            AP::STR
        } else if i == 1 {
            AP::DEX
        } else if i == 2 {
            AP::CON
        } else if i == 3 {
            AP::INT
        } else if i == 4 {
            AP::WIS
        } else {
            AP::CHA
        }
    }

    pub fn get_index(&self) -> (r: usize)
        ensures
            r as int == self.index(),
            r < ABILITY_COUNT,
    {
        match self {
            AP::STR => 0,
            AP::DEX => 1,
            AP::CON => 2,
            AP::INT => 3,
            AP::WIS => 4,
            AP::CHA => 5,
        }
    }

    pub fn from_index(i: usize) -> (r: AP)
        requires
            i < ABILITY_COUNT,
        ensures
            r == AP::at(i as int),
            r.index() == i,
    {
        if i == 0 {
            AP::STR
        } else if i == 1 {
            AP::DEX
        } else if i == 2 {
            AP::CON
        } else if i == 3 {
            AP::INT
        } else if i == 4 {
            AP::WIS
        } else {
            AP::CHA
        }
    }
}

/// Every slot sits at its own position, and every position holds a slot.
pub proof fn lemma_ap_index_bijective()
    ensures
        forall|a: AP| 0 <= #[trigger] a.index() < 6 && AP::at(a.index()) == a,
        forall|i: int| 0 <= i < 6 ==> #[trigger] AP::at(i).index() == i,
{
}

/// Upper-case form of one character, as std's `char::to_uppercase` gives it;
/// it may be more than one character.
pub uninterp spec fn upper_of(c: char) -> Seq<char>;

/// Relies on char::to_uppercase: the upper-case form of `c`, collected into a
/// string; it depends on the character alone.
#[verifier::external_body]
fn uppercase_char(c: char) -> (r: String)
    ensures
        r@ == upper_of(c),
{
    c.to_uppercase().collect::<String>()
}

/// `s` with its first character replaced by `first`; empty stays empty.
pub open spec fn with_first(s: Seq<char>, first: Seq<char>) -> Seq<char> {
    if s.len() == 0 {
        Seq::empty()
    } else {
        first + s.drop_first()
    }
}

/// Replaces the first character of `s` with the text `first`.
pub fn replace_first_char(s: &str, first: &str) -> (r: String)
    ensures
        r@ == with_first(s@, first@),
{
    let n: usize = s.unicode_len();
    if n == 0 {
        String::new()
    } else {
        let rest = s.substring_char(1, n);
        let head = String::from_str(first);
        head.concat(rest)
    }
}

/// `s` with its first character in upper case.
pub fn first_letter_uppercase(s: &str) -> (r: String)
    ensures
        r@ == with_first(s@, upper_of(s@[0])),
{
    let n: usize = s.unicode_len();
    if n == 0 {
        String::new()
    } else {
        let upper = uppercase_char(s.get_char(0));
        replace_first_char(s, upper.as_str())
    }
}

} // verus!
