use vstd::prelude::*;
use crate::common::{AP, Size, ABILITY_COUNT};
use crate::profeciency::{Armor, Language, Skill, Weapon};
use crate::vecs::copy_vec;

verus! {

/// Traits of one race or subrace as mathematical values.
///
/// `ap` holds the fixed bonus of each ability slot, in sheet order, followed
/// by the number of points the player may place freely.
pub struct RaceTrait {
    pub ap: Seq<u8>,
    pub lang: Seq<Language>,
    pub lang_point: u8,
    pub weap: Seq<Weapon>,
    pub armor: Seq<Armor>,
    pub skill: Seq<Skill>,
    pub speed: u8,
    pub size: Size,
}

impl RaceTrait {
    /// The traits of "no race": nothing granted, nothing to allocate.
    pub open spec fn none() -> RaceTrait {
        RaceTrait {
            ap: seq![0u8, 0, 0, 0, 0, 0, 0],
            lang: Seq::empty(),
            lang_point: 0,
            weap: Seq::empty(),
            armor: Seq::empty(),
            skill: Seq::empty(),
            speed: 0,
            size: Size::Unknown,
        }
    }

    /// Fixed bonus of ability slot `a`.
    pub open spec fn fixed(self, a: AP) -> int {
        self.ap[a.index()] as int
    }

    /// Number of points the player may place on abilities.
    pub open spec fn free_points(self) -> int {
        self.ap[6] as int
    }

    /// Whether a free point may be placed on `a`: only where the race gives no
    /// fixed bonus.
    pub open spec fn usable(self, a: AP) -> bool {
        self.fixed(a) == 0
    }

    /// Shape of a table entry: seven bonus values and lists without repeats.
    pub open spec fn wf(self) -> bool {
        &&& self.ap.len() == 7
        &&& self.lang.no_duplicates()
        &&& self.weap.no_duplicates()
        &&& self.armor.no_duplicates()
        &&& self.skill.no_duplicates()
    }
}

/// One row of the race table.
pub struct SubRace {
    ap: [u8; 7],
    lang: Vec<Language>,
    lang_point: u8,
    weap: Vec<Weapon>,
    armor: Vec<Armor>,
    skill: Vec<Skill>,
    speed: u8,
    size: Size,
}

impl View for SubRace {
    type V = RaceTrait;

    closed spec fn view(&self) -> RaceTrait {
        RaceTrait {
            ap: self.ap@,
            lang: self.lang@,
            lang_point: self.lang_point,
            weap: self.weap@,
            armor: self.armor@,
            skill: self.skill@,
            speed: self.speed,
            size: self.size,
        }
    }
}

impl SubRace {
    /// The row of "no race".
    pub fn none() -> (r: SubRace)
        ensures
            r@ == RaceTrait::none(),
    {
        SubRace {
            ap: [0, 0, 0, 0, 0, 0, 0],
            lang: Vec::new(),
            lang_point: 0,
            weap: Vec::new(),
            armor: Vec::new(),
            skill: Vec::new(),
            speed: 0,
            size: Size::Unknown,
        }
    }

    pub fn get_ap(&self) -> (r: [u8; 7])
        ensures
            r@ == self@.ap,
    {
        self.ap
    }

    pub fn get_lang(&self) -> (r: Vec<Language>)
        ensures
            r@ == self@.lang,
    {
        copy_vec(&self.lang)
    }

    pub fn get_lang_point(&self) -> (r: u8)
        ensures
            r == self@.lang_point,
    {
        self.lang_point
    }

    pub fn get_weap(&self) -> (r: Vec<Weapon>)
        ensures
            r@ == self@.weap,
    {
        copy_vec(&self.weap)
    }

    pub fn get_armor(&self) -> (r: Vec<Armor>)
        ensures
            r@ == self@.armor,
    {
        copy_vec(&self.armor)
    }

    pub fn get_skill(&self) -> (r: Vec<Skill>)
        ensures
            r@ == self@.skill,
    {
        copy_vec(&self.skill)
    }

    pub fn get_speed(&self) -> (r: u8)
        ensures
            r == self@.speed,
    {
        self.speed
    }

    pub fn get_size(&self) -> (r: Size)
        ensures
            r == self@.size,
    {
        self.size
    }
}


/// Subraces of humans.
#[derive(Clone, Copy, Debug, PartialEq, Eq, Structural, Hash)]
pub enum SubHuman {
    Basic,
    Variant,
}

/// Subraces of elves.
#[derive(Clone, Copy, Debug, PartialEq, Eq, Structural, Hash)]
pub enum SubElf {
    Drow,
    High,
    Wood,
    Sea,
}

/// Subraces of dwarves.
#[derive(Clone, Copy, Debug, PartialEq, Eq, Structural, Hash)]
pub enum SubDwarf {
    Duegar,
    Hill,
    Mountain,
}

/// A race selection: "no race", or a race with its subrace.
#[derive(Clone, Copy, Debug, PartialEq, Eq, Structural, Hash)]
pub enum Race {
    Undefined,
    Human(SubHuman),
    Elf(SubElf),
    Dwarf(SubDwarf),
}

impl SubHuman {
    /// Table entry of the subrace.
    pub open spec fn traits(self) -> RaceTrait {
        RaceTrait {
            ap: match self {
                SubHuman::Basic => seq![1u8, 1, 1, 1, 1, 1, 0],
                SubHuman::Variant => seq![0u8, 0, 0, 0, 0, 0, 2],
            },
            lang: seq![Language::Common],
            lang_point: 1,
            weap: Seq::empty(),
            armor: Seq::empty(),
            skill: Seq::empty(),
            speed: 30,
            size: Size::Medium,
        }
    }

    /// Fixed bonuses in sheet order, then the number of free points.
    pub fn get_ap(&self) -> (r: [u8; 7])
        ensures
            r@ == self.traits().ap,
    {
        match self {
            SubHuman::Basic => [1, 1, 1, 1, 1, 1, 0],
            SubHuman::Variant => [0, 0, 0, 0, 0, 0, 2],
        }
    }

    pub fn handle(&self) -> (r: Option<SubRace>)
        ensures
            r is Some,
            r->0@ == self.traits(),
    {
        let r = SubRace {
            ap: self.get_ap(),
            lang: vec![Language::Common],
            lang_point: 1,
            weap: vec![],
            armor: vec![],
            skill: vec![],
            speed: 30,
            size: Size::Medium,
        };
        proof {
            assert(r@.ap =~= self.traits().ap);
            assert(r@.lang =~= self.traits().lang);
            assert(r@.weap =~= self.traits().weap);
            assert(r@.armor =~= self.traits().armor);
            assert(r@.skill =~= self.traits().skill);
        }
        Some(r)
    }
}

impl SubElf {
    /// Table entry of the subrace.
    pub open spec fn traits(self) -> RaceTrait {
        RaceTrait {
            ap: match self {
                SubElf::Drow => seq![0u8, 2, 0, 0, 0, 1, 0],
                SubElf::High => seq![0u8, 2, 0, 1, 0, 0, 0],
                SubElf::Wood => seq![0u8, 2, 0, 0, 1, 0, 0],
                SubElf::Sea => seq![0u8, 2, 1, 0, 0, 0, 0],
            },
            lang: match self {
                SubElf::Sea => seq![Language::Common, Language::Elven, Language::Aquan],
                _ => seq![Language::Common, Language::Elven],
            },
            lang_point: match self {
                SubElf::High => 1u8,
                _ => 0u8,
            },
            weap: match self {
                SubElf::Drow => seq![Weapon::Rapier, Weapon::Shortsword, Weapon::HandCrossbow],
                SubElf::Sea => seq![
                    Weapon::Spear,
                    Weapon::Trident,
                    Weapon::LightCrossbow,
                    Weapon::Net,
                ],
                _ => seq![Weapon::Longsword, Weapon::Shortsword, Weapon::Shortbow, Weapon::Longbow],
            },
            armor: Seq::empty(),
            skill: seq![Skill::Perception],
            speed: match self {
                SubElf::Wood => 35u8,
                _ => 30u8,
            },
            size: Size::Medium,
        }
    }

    /// Fixed bonuses in sheet order, then the number of free points.
    pub fn get_ap(&self) -> (r: [u8; 7])
        ensures
            r@ == self.traits().ap,
    {
        match self {
            SubElf::Drow => [0, 2, 0, 0, 0, 1, 0],
            SubElf::High => [0, 2, 0, 1, 0, 0, 0],
            SubElf::Wood => [0, 2, 0, 0, 1, 0, 0],
            SubElf::Sea => [0, 2, 1, 0, 0, 0, 0],
        }
    }

    pub fn handle(&self) -> (r: Option<SubRace>)
        ensures
            r is Some,
            r->0@ == self.traits(),
    {
        let r = SubRace {
            ap: self.get_ap(),
            lang: match self {
                SubElf::Sea => vec![Language::Common, Language::Elven, Language::Aquan],
                _ => vec![Language::Common, Language::Elven],
            },
            lang_point: match self {
                SubElf::High => 1,
                _ => 0,
            },
            weap: match self {
                SubElf::Drow => vec![Weapon::Rapier, Weapon::Shortsword, Weapon::HandCrossbow],
                SubElf::Sea => vec![
                    Weapon::Spear,
                    Weapon::Trident,
                    Weapon::LightCrossbow,
                    Weapon::Net,
                ],
                _ => vec![
                    Weapon::Longsword,
                    Weapon::Shortsword,
                    Weapon::Shortbow,
                    Weapon::Longbow,
                ],
            },
            armor: vec![],
            skill: vec![Skill::Perception],
            speed: match self {
                SubElf::Wood => 35,
                _ => 30,
            },
            size: Size::Medium,
        };
        proof {
            assert(r@.ap =~= self.traits().ap);
            assert(r@.lang =~= self.traits().lang);
            assert(r@.weap =~= self.traits().weap);
            assert(r@.armor =~= self.traits().armor);
            assert(r@.skill =~= self.traits().skill);
        }
        Some(r)
    }
}

impl SubDwarf {
    /// Table entry of the subrace.
    pub open spec fn traits(self) -> RaceTrait {
        RaceTrait {
            ap: match self {
                SubDwarf::Duegar => seq![1u8, 0, 2, 0, 0, 0, 0],
                SubDwarf::Hill => seq![0u8, 0, 2, 0, 1, 0, 0],
                SubDwarf::Mountain => seq![2u8, 0, 2, 0, 0, 0, 0],
            },
            lang: match self {
                SubDwarf::Duegar => seq![
                    Language::Common,
                    Language::Dwarven,
                    Language::Undercommon,
                ],
                _ => seq![Language::Common, Language::Dwarven],
            },
            lang_point: 0,
            weap: seq![Weapon::Battleaxe, Weapon::Handaxe, Weapon::LightHammer, Weapon::Warhammer],
            armor: match self {
                SubDwarf::Mountain => seq![Armor::Light, Armor::Medium],
                _ => Seq::empty(),
            },
            skill: Seq::empty(),
            speed: 25,
            size: Size::Medium,
        }
    }

    pub fn handle(&self) -> (r: Option<SubRace>)
        ensures
            r is Some,
            r->0@ == self.traits(),
    {
        let r = SubRace {
            ap: match self {
                SubDwarf::Duegar => [1, 0, 2, 0, 0, 0, 0],
                SubDwarf::Hill => [0, 0, 2, 0, 1, 0, 0],
                SubDwarf::Mountain => [2, 0, 2, 0, 0, 0, 0],
            },
            lang: match self {
                SubDwarf::Duegar => vec![
                    Language::Common,
                    Language::Dwarven,
                    Language::Undercommon,
                ],
                _ => vec![Language::Common, Language::Dwarven],
            },
            lang_point: 0,
            weap: vec![
                Weapon::Battleaxe,
                Weapon::Handaxe,
                Weapon::LightHammer,
                Weapon::Warhammer,
            ],
            armor: match self {
                SubDwarf::Mountain => vec![Armor::Light, Armor::Medium],
                _ => vec![],
            },
            skill: vec![],
            speed: 25,
            size: Size::Medium,
        };
        proof {
            assert(r@.ap =~= self.traits().ap);
            assert(r@.lang =~= self.traits().lang);
            assert(r@.weap =~= self.traits().weap);
            assert(r@.armor =~= self.traits().armor);
            assert(r@.skill =~= self.traits().skill);
        }
        Some(r)
    }
}

impl Race {
    /// Table entry of the selection; "no race" has the empty entry.
    pub open spec fn traits(self) -> RaceTrait {
        match self {
            Race::Undefined => RaceTrait::none(),
            Race::Human(s) => s.traits(),
            Race::Elf(s) => s.traits(),
            Race::Dwarf(s) => s.traits(),
        }
    }

    /// Looks up the table row of the selection; "no race" has none.
    pub fn get_buff(&self) -> (r: Option<SubRace>)
        ensures
            *self == Race::Undefined <==> r is None,
            r is Some ==> r->0@ == self.traits(),
    {
        match self {
            Race::Undefined => None,
            Race::Human(s) => s.handle(),
            Race::Elf(s) => s.handle(),
            Race::Dwarf(s) => s.handle(),
        }
    }

    /// The table row of the selection, the empty row for "no race".
    pub fn get_stat(&self) -> (r: SubRace)
        ensures
            r@ == self.traits(),
    {
        match self.get_buff() {
            Some(s) => s,
            None => SubRace::none(),
        }
    }

    /// The abilities that may take a free point: those whose fixed bonus is
    /// zero, in sheet order.
    pub fn get_usable_ability(ap: [u8; 7]) -> (r: Vec<AP>)
        ensures
            r@.no_duplicates(),
            forall|a: AP| r@.contains(a) <==> ap@[a.index()] == 0,
            forall|k: int, l: int| 0 <= k < l < r@.len() ==> r@[k].index() < r@[l].index(),
    {
        let mut r: Vec<AP> = Vec::new();
        let mut i: usize = 0;
        while i < ABILITY_COUNT
            invariant
                i <= ABILITY_COUNT,
                r@.no_duplicates(),
                forall|k: int| 0 <= k < r@.len() ==> #[trigger] r@[k].index() < i,
                forall|a: AP| r@.contains(a) <==> (a.index() < i && ap@[a.index()] == 0),
                forall|k: int, l: int| 0 <= k < l < r@.len() ==> r@[k].index() < r@[l].index(),
            decreases ABILITY_COUNT - i,
        {
            let a: AP = AP::from_index(i);
            if ap[i] == 0 {
                proof {
                    assert forall|b: AP|
                        r@.push(a).contains(b) <==> (b.index() < i + 1 && ap@[b.index()] == 0) by {
                        if b.index() == i {
                            assert(b == a);
                            assert(r@.push(a)[r@.len() as int] == a);
                        }
                        if r@.contains(b) {
                            let k = choose|k: int| 0 <= k < r@.len() && r@[k] == b;
                            assert(r@.push(a)[k] == b);
                        }
                    }
                }
                r.push(a);
            }
            i = i + 1;
        }
        r
    }
}

/// Every entry of the race table is well shaped.
pub proof fn lemma_race_table_wf(r: Race)
    ensures
        r.traits().wf(),
{
}

} // verus!
