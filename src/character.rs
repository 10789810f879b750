use vstd::prelude::*;
use crate::ability::{
    check_point_buy, is_permutation, is_valid_sequence, point_buy_outcome, PointBuyError,
};
use crate::common::{AP, Edition, Size};
use crate::dice::roll;
use crate::profeciency::{Armor, Language, Skill, Weapon};
use crate::race::{lemma_race_table_wf, Race, SubRace};
use crate::sheet::Sheet;
use crate::vecs::{lemma_push_unique, lemma_remove_unique, position_ap, position_lang};

verus! {

/// A character under construction.
///
/// The player's choices are the race, the abilities given a free point, the
/// languages bought, the generated pool and the assignment sequence. All other
/// fields are derived from those and the race table, and every mutating call
/// rebuilds them in full.
pub struct Character {
    edition: Edition,
    race: Race,
    buffer_race: SubRace,
    usable_ability: Vec<AP>,
    race_usable_ap: usize,
    race_used_ability: Vec<AP>,
    race_used_lang: Vec<Language>,
    lang_point: usize,
    lang: Vec<Language>,
    weap: Vec<Weapon>,
    armor: Vec<Armor>,
    skill: Vec<Skill>,
    speed: usize,
    size: Size,
    ap_unassigned: [usize; 6],
    ap_seq: Option<[usize; 6]>,
}

impl View for Character {
    type V = Sheet;

    closed spec fn view(&self) -> Sheet {
        Sheet {
            race: self.race,
            used_abilities: self.race_used_ability@.to_set(),
            used_languages: self.race_used_lang@.to_set(),
            pool: self.ap_unassigned@,
            sequence: match self.ap_seq {
                Some(s) => Some(s@),
                None => None,
            },
        }
    }
}

/// Granted languages followed by bought ones.
fn join_languages(granted: Vec<Language>, bought: &Vec<Language>) -> (r: Vec<Language>)
    ensures
        r@ == granted@ + bought@,
{
    let mut r = granted;
    let ghost start = r@;
    let mut i: usize = 0;
    while i < bought.len()
        invariant
            i <= bought@.len(),
            r@ == start + bought@.subrange(0, i as int),
        decreases bought.len() - i,
    {
        r.push(bought[i]);
        i = i + 1;
    }
    assert(bought@.subrange(0, bought@.len() as int) =~= bought@);
    r
}

impl Character {
    /// The player's choices agree with each other and with the race table.
    closed spec fn inputs_wf(&self) -> bool {
        &&& self@.inv()
        &&& self.race_used_ability@.no_duplicates()
        &&& self.race_used_lang@.no_duplicates()
        &&& self.buffer_race@ == self.race.traits()
        &&& self.edition == Edition::FifthEdition
    }

    /// The choices are consistent and every derived field matches them.
    pub closed spec fn wf(&self) -> bool {
        &&& self.inputs_wf()
        &&& forall|a: AP| #[trigger]
            self.usable_ability@.contains(a) <==> self@.traits().usable(a)
        &&& self.race_usable_ap == self@.remaining_race_points()
        &&& self.lang_point == self@.remaining_language_points()
        &&& self.lang@ == self@.traits().lang + self.race_used_lang@
        &&& self.weap@ == self@.weapons()
        &&& self.armor@ == self@.armor()
        &&& self.skill@ == self@.skills()
        &&& self.speed == self@.traits().speed
        &&& self.size == self@.traits().size
    }

    /// The stored language list holds exactly the known languages, each once.
    proof fn lemma_known_languages(&self)
        requires
            self.wf(),
        ensures
            forall|l: Language| #[trigger]
                self.lang@.contains(l) <==> self@.known_languages().contains(l),
            self.lang@.to_set() == self@.known_languages(),
            self.lang@.no_duplicates(),
    {
        let granted = self@.traits().lang;
        let bought = self.race_used_lang@;
        lemma_race_table_wf(self.race);
        assert forall|l: Language| #[trigger]
            self.lang@.contains(l) <==> self@.known_languages().contains(l) by {
            if self.lang@.contains(l) {
                let k = choose|k: int| 0 <= k < self.lang@.len() && self.lang@[k] == l;
                if k < granted.len() {
                    assert(granted[k] == l);
                } else {
                    assert(bought[k - granted.len()] == l);
                }
            }
            if granted.contains(l) {
                let k = choose|k: int| 0 <= k < granted.len() && granted[k] == l;
                assert(self.lang@[k] == l);
            }
            if bought.contains(l) {
                let k = choose|k: int| 0 <= k < bought.len() && bought[k] == l;
                assert(self.lang@[k + granted.len()] == l);
            }
        }
        assert(self.lang@.to_set() =~= self@.known_languages());
        assert forall|i: int, j: int|
            0 <= i < self.lang@.len() && 0 <= j < self.lang@.len() && i != j implies self.lang@[i]
            != self.lang@[j] by {
            if i >= granted.len() && j < granted.len() {
                assert(bought.to_set().contains(self.lang@[i]));
                assert(granted.contains(self.lang@[j]));
            }
            if j >= granted.len() && i < granted.len() {
                assert(bought.to_set().contains(self.lang@[j]));
                assert(granted.contains(self.lang@[i]));
            }
        }
    }

    /// Rebuilds every derived field from the choices and the race table.
    fn recompute(&mut self)
        requires
            old(self).inputs_wf(),
        ensures
            final(self).wf(),
            final(self)@ == old(self)@,
    {
        proof {
            lemma_race_table_wf(self.race);
            self.race_used_ability@.unique_seq_to_set();
            self.race_used_lang@.unique_seq_to_set();
        }
        let ap = self.buffer_race.get_ap();
        self.usable_ability = Race::get_usable_ability(ap);
        self.race_usable_ap = ap[6] as usize - self.race_used_ability.len();
        self.lang = join_languages(self.buffer_race.get_lang(), &self.race_used_lang);
        self.lang_point = self.buffer_race.get_lang_point() as usize - self.race_used_lang.len();
        self.weap = self.buffer_race.get_weap();
        self.armor = self.buffer_race.get_armor();
        self.skill = self.buffer_race.get_skill();
        self.speed = self.buffer_race.get_speed() as usize;
        self.size = self.buffer_race.get_size();
    }

    /// A fresh character: no race, nothing allocated, nothing generated.
    pub fn build() -> (c: Character)
        ensures
            c.wf(),
            c@ == Sheet::initial(),
    {
        let mut c = Character {
            edition: Edition::FifthEdition,
            race: Race::Undefined,
            buffer_race: SubRace::none(),
            usable_ability: Vec::new(),
            race_usable_ap: 0,
            race_used_ability: Vec::new(),
            race_used_lang: Vec::new(),
            lang_point: 0,
            lang: Vec::new(),
            weap: Vec::new(),
            armor: Vec::new(),
            skill: Vec::new(),
            speed: 0,
            size: Size::Unknown,
            ap_unassigned: [0, 0, 0, 0, 0, 0],
            ap_seq: None,
        };
        proof {
            assert(c.race_used_ability@.to_set() =~= Set::empty());
            assert(c.race_used_lang@.to_set() =~= Set::empty());
        }
        c.recompute();
        c
    }

    /// Selects a race. Choosing another race drops every point and language
    /// the player allocated and loads the new race's traits; choosing the
    /// current race again changes nothing.
    pub fn select_race(&mut self, race: Race)
        requires
            old(self).wf(),
        ensures
            final(self).wf(),
            final(self)@ == old(self)@.select_race(race),
    {
        if race != self.race {
            self.race = race;
            self.buffer_race = race.get_stat();
            self.race_used_ability = Vec::new();
            self.race_used_lang = Vec::new();
            proof {
                assert(self.race_used_ability@.to_set() =~= Set::empty());
                assert(self.race_used_lang@.to_set() =~= Set::empty());
            }
            self.recompute();
        }
    }

    /// Places one of the race's free points on `ability`. Refused, with
    /// nothing changed, when no free point is left, when the race gives the
    /// ability a fixed bonus, or when the ability already has a free point.
    pub fn use_race_point(&mut self, ability: AP) -> (r: bool)
        requires
            old(self).wf(),
        ensures
            final(self).wf(),
            r == old(self)@.can_use_race_point(ability),
            final(self)@ == old(self)@.use_race_point(ability),
            !r ==> *final(self) == *old(self),
    {
        if self.race_usable_ap > 0 && position_ap(&self.usable_ability, ability).is_some()
            && position_ap(&self.race_used_ability, ability).is_none() {
            proof {
                lemma_push_unique(self.race_used_ability@, ability);
                self.race_used_ability@.unique_seq_to_set();
                self.race_used_ability@.push(ability).unique_seq_to_set();
            }
            self.race_used_ability.push(ability);
            self.recompute();
            true
        } else {
            false
        }
    }

    /// Takes back the free point placed on `ability`. Refused, with nothing
    /// changed, when the ability has none.
    pub fn remove_race_point(&mut self, ability: AP) -> (r: bool)
        requires
            old(self).wf(),
        ensures
            final(self).wf(),
            r == old(self)@.can_remove_race_point(ability),
            final(self)@ == old(self)@.remove_race_point(ability),
            !r ==> *final(self) == *old(self),
    {
        match position_ap(&self.race_used_ability, ability) {
            Some(i) => {
                proof {
                    lemma_remove_unique(self.race_used_ability@, i as int);
                    self.race_used_ability@.unique_seq_to_set();
                    self.race_used_ability@.remove(i as int).unique_seq_to_set();
                }
                self.race_used_ability.remove(i);
                self.recompute();
                true
            },
            None => false,
        }
    }

    /// Takes back every free point.
    pub fn clear_race_points(&mut self)
        requires
            old(self).wf(),
        ensures
            final(self).wf(),
            final(self)@ == old(self)@.clear_race_points(),
    {
        self.race_used_ability = Vec::new();
        proof {
            assert(self.race_used_ability@.to_set() =~= Set::empty());
        }
        self.recompute();
    }

    /// Buys `language` with a language point. Refused, with nothing changed,
    /// when no language point is left or the language is already known.
    pub fn use_race_lang(&mut self, language: Language) -> (r: bool)
        requires
            old(self).wf(),
        ensures
            final(self).wf(),
            r == old(self)@.can_use_language(language),
            final(self)@ == old(self)@.use_language(language),
            !r ==> *final(self) == *old(self),
    {
        proof {
            self.lemma_known_languages();
        }
        if self.lang_point > 0 && position_lang(&self.lang, language).is_none() {
            proof {
                lemma_push_unique(self.race_used_lang@, language);
                self.race_used_lang@.unique_seq_to_set();
                self.race_used_lang@.push(language).unique_seq_to_set();
            }
            self.race_used_lang.push(language);
            self.recompute();
            true
        } else {
            false
        }
    }

    /// Gives back a bought language and its point. Refused, with nothing
    /// changed, when the language was not bought; a language the race grants
    /// cannot be given back.
    pub fn remove_race_lang(&mut self, language: Language) -> (r: bool)
        requires
            old(self).wf(),
        ensures
            final(self).wf(),
            r == old(self)@.can_remove_language(language),
            final(self)@ == old(self)@.remove_language(language),
            !r ==> *final(self) == *old(self),
    {
        match position_lang(&self.race_used_lang, language) {
            Some(i) => {
                proof {
                    lemma_remove_unique(self.race_used_lang@, i as int);
                    self.race_used_lang@.unique_seq_to_set();
                    self.race_used_lang@.remove(i as int).unique_seq_to_set();
                }
                self.race_used_lang.remove(i);
                self.recompute();
                true
            },
            None => false,
        }
    }

    /// Gives back every bought language.
    pub fn clear_race_langs(&mut self)
        requires
            old(self).wf(),
        ensures
            final(self).wf(),
            final(self)@ == old(self)@.clear_languages(),
    {
        self.race_used_lang = Vec::new();
        proof {
            assert(self.race_used_lang@.to_set() =~= Set::empty());
        }
        self.recompute();
    }

    /// Total score of one ability: fixed racial bonus, one for a free point,
    /// and the base value.
    pub fn check_score(&self, ap: AP) -> (r: usize)
        requires
            self.wf(),
        ensures
            r == self@.score(ap),
    {
        let i: usize = ap.get_index();
        let fixed: usize = self.buffer_race.get_ap()[i] as usize;
        let bonus: usize = if position_ap(&self.race_used_ability, ap).is_some() {
            1
        } else {
            0
        };
        let base: usize = match self.ap_seq {
            Some(s) => self.ap_unassigned[s[i]],
            None => 0,
        };
        fixed + bonus + base
    }

    /// Total scores of all six abilities, in sheet order.
    pub fn check_all_scores(&self) -> (r: [usize; 6])
        requires
            self.wf(),
        ensures
            forall|i: int| 0 <= i < 6 ==> #[trigger] r@[i] == self@.score(AP::at(i)),
    {
        [
            self.check_score(AP::STR),
            self.check_score(AP::DEX),
            self.check_score(AP::CON),
            self.check_score(AP::INT),
            self.check_score(AP::WIS),
            self.check_score(AP::CHA),
        ]
    }

    /// Replaces the pool with six rolled values, each the sum of the three
    /// highest of four six-sided dice. The committed sequence is dropped.
    pub fn use_dice_roll(&mut self)
        requires
            old(self).wf(),
        ensures
            final(self).wf(),
            final(self)@ == old(self)@.with_pool(final(self)@.pool),
            forall|i: int| 0 <= i < 6 ==> 3 <= #[trigger] final(self)@.pool[i] <= 18,
    {
        self.ap_unassigned = roll();
        self.ap_seq = None;
    }

    /// Replaces the pool with the standard array 15, 14, 13, 12, 10, 8. The
    /// committed sequence is dropped.
    pub fn use_standard_array(&mut self)
        requires
            old(self).wf(),
        ensures
            final(self).wf(),
            final(self)@ == old(self)@.with_pool(seq![15usize, 14, 13, 12, 10, 8]),
    {
        self.ap_unassigned = [15, 14, 13, 12, 10, 8];
        self.ap_seq = None;
    }

    /// Replaces the pool with the heroic array 17, 16, 15, 14, 12, 10. The
    /// committed sequence is dropped. (Some tables print the heroic array as
    /// 17, 16, 14, 14, 12, 10; this library uses the first form.)
    pub fn use_heroic_array(&mut self)
        requires
            old(self).wf(),
        ensures
            final(self).wf(),
            final(self)@ == old(self)@.with_pool(seq![17usize, 16, 15, 14, 12, 10]),
    {
        self.ap_unassigned = [17, 16, 15, 14, 12, 10];
        self.ap_seq = None;
    }

    /// Buys six base scores, in sheet order, with the point-buy budget. On
    /// success the scores become the base values at once and the budget left
    /// over is returned; on refusal nothing changes.
    pub fn use_point_buy(&mut self, points: [usize; 6]) -> (r: Result<usize, PointBuyError>)
        requires
            old(self).wf(),
        ensures
            final(self).wf(),
            r == point_buy_outcome(points@),
            r is Ok ==> final(self)@ == old(self)@.with_bought_scores(points@),
            r is Err ==> *final(self) == *old(self),
    {
        let r = check_point_buy(points);
        if r.is_ok() {
            self.ap_unassigned = points;
            self.ap_seq = Some([0, 1, 2, 3, 4, 5]);
        }
        r
    }

    /// The generated pool, before assignment.
    pub fn get_ap_unassigned(&self) -> (r: [usize; 6])
        ensures
            r@ == self@.pool,
    {
        self.ap_unassigned
    }

    /// Commits an assignment sequence: slot `i` takes the pool value at
    /// position `sequence[i]`. Refused, with nothing changed, unless the
    /// sequence names each position 0 to 5 exactly once.
    pub fn assign_ap_seq(&mut self, sequence: [usize; 6]) -> (r: bool)
        requires
            old(self).wf(),
        ensures
            final(self).wf(),
            r == is_permutation(sequence@),
            final(self)@ == old(self)@.assign(sequence@),
            !r ==> *final(self) == *old(self),
    {
        if is_valid_sequence(sequence) {
            self.ap_seq = Some(sequence);
            true
        } else {
            false
        }
    }

    /// Remaining free race points.
    pub fn race_usable_ap(&self) -> (r: usize)
        requires
            self.wf(),
        ensures
            r == self@.remaining_race_points(),
    {
        self.race_usable_ap
    }

    /// Abilities that hold a free point, each once.
    pub fn race_used_ability(&self) -> (r: &Vec<AP>)
        requires
            self.wf(),
        ensures
            r@.no_duplicates(),
            r@.to_set() == self@.used_abilities,
    {
        &self.race_used_ability
    }

    /// Remaining language points.
    pub fn lang_point(&self) -> (r: usize)
        requires
            self.wf(),
        ensures
            r == self@.remaining_language_points(),
    {
        self.lang_point
    }

    /// Known languages, each once: those the race grants, then those bought.
    pub fn known_lang(&self) -> (r: &Vec<Language>)
        requires
            self.wf(),
        ensures
            r@.no_duplicates(),
            r@.to_set() == self@.known_languages(),
    {
        proof {
            self.lemma_known_languages();
        }
        &self.lang
    }

    /// Weapon proficiencies the race grants.
    pub fn weap(&self) -> (r: &Vec<Weapon>)
        requires
            self.wf(),
        ensures
            r@ == self@.weapons(),
    {
        &self.weap
    }

    /// Armor training the race grants.
    pub fn armor(&self) -> (r: &Vec<Armor>)
        requires
            self.wf(),
        ensures
            r@ == self@.armor(),
    {
        &self.armor
    }

    /// Skill proficiencies the race grants.
    pub fn skill(&self) -> (r: &Vec<Skill>)
        requires
            self.wf(),
        ensures
            r@ == self@.skills(),
    {
        &self.skill
    }

    /// Walking speed of the race.
    pub fn speed(&self) -> (r: usize)
        requires
            self.wf(),
        ensures
            r == self@.traits().speed,
    {
        self.speed
    }

    /// Size category of the race.
    pub fn size(&self) -> (r: Size)
        requires
            self.wf(),
        ensures
            r == self@.traits().size,
    {
        self.size
    }

    /// The selected race.
    pub fn race(&self) -> (r: Race)
        ensures
            r == self@.race,
    {
        self.race
    }

    /// The race table row in use, none while no race is selected.
    pub fn race_buffer(&self) -> (r: Option<SubRace>)
        ensures
            r is None <==> self@.race == Race::Undefined,
            r is Some ==> r->0@ == self@.traits(),
    {
        self.race.get_buff()
    }

    /// The rules edition of the character.
    pub fn edition(&self) -> (r: Edition)
        requires
            self.wf(),
        ensures
            r == Edition::FifthEdition,
    {
        self.edition
    }
}

} // verus!
