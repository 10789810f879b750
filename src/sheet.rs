use vstd::prelude::*;
use crate::ability::is_permutation;
use crate::common::AP;
use crate::profeciency::{Armor, Language, Skill, Weapon};
use crate::race::{Race, RaceTrait};

verus! {

/// The inputs of a character sheet, as mathematical values. Everything else on
/// the sheet is derived from these and the race table.
pub struct Sheet {
    /// The selected race, "no race" at first.
    pub race: Race,
    /// Abilities the player gave one of the race's free points.
    pub used_abilities: Set<AP>,
    /// Languages the player bought with the race's language points.
    pub used_languages: Set<Language>,
    /// The six generated values, before they are placed on abilities.
    pub pool: Seq<usize>,
    /// The committed placement: slot `i` takes `pool[sequence[i]]`.
    pub sequence: Option<Seq<usize>>,
}

/// One of the player's choices about race points and languages.
pub enum Action {
    SelectRace(Race),
    UseRacePoint(AP),
    RemoveRacePoint(AP),
    ClearRacePoints,
    UseLanguage(Language),
    RemoveLanguage(Language),
    ClearLanguages,
}

/// The sequence that keeps every pool value in its own slot.
pub open spec fn identity_sequence() -> Seq<usize> {
    seq![0usize, 1, 2, 3, 4, 5]
}

impl Sheet {
    /// A fresh sheet: no race, nothing allocated, nothing generated.
    pub open spec fn initial() -> Sheet {
        Sheet {
            race: Race::Undefined,
            used_abilities: Set::empty(),
            used_languages: Set::empty(),
            pool: seq![0usize, 0, 0, 0, 0, 0],
            sequence: None,
        }
    }

    pub open spec fn traits(self) -> RaceTrait {
        self.race.traits()
    }

    /// Free race points not yet placed.
    pub open spec fn remaining_race_points(self) -> int {
        self.traits().free_points() - self.used_abilities.len()
    }

    /// Language points not yet spent.
    pub open spec fn remaining_language_points(self) -> int {
        self.traits().lang_point - self.used_languages.len()
    }

    /// Languages the race grants together with those the player bought.
    pub open spec fn known_languages(self) -> Set<Language> {
        self.traits().lang.to_set().union(self.used_languages)
    }

    pub open spec fn weapons(self) -> Seq<Weapon> {
        self.traits().weap
    }

    pub open spec fn armor(self) -> Seq<Armor> {
        self.traits().armor
    }

    pub open spec fn skills(self) -> Seq<Skill> {
        self.traits().skill
    }

    /// Base value of slot `a`: the pool value the committed sequence places
    /// there, or zero while no sequence is committed.
    pub open spec fn base(self, a: AP) -> int {
        match self.sequence {
            Some(s) => self.pool[s[a.index()] as int] as int,
            None => 0,
        }
    }

    /// Total score of slot `a`: fixed racial bonus, one for a free point, and
    /// the base value.
    pub open spec fn score(self, a: AP) -> int {
        self.traits().fixed(a) + (if self.used_abilities.contains(a) {
            1int
        } else {
            0int
        }) + self.base(a)
    }

    /// What every reachable sheet satisfies.
    pub open spec fn inv(self) -> bool {
        &&& self.used_abilities.finite()
        &&& self.used_abilities.len() <= self.traits().free_points()
        &&& forall|a: AP| #[trigger] self.used_abilities.contains(a) ==> self.traits().usable(a)
        &&& self.used_languages.finite()
        &&& self.used_languages.len() <= self.traits().lang_point
        &&& forall|l: Language| #[trigger]
            self.used_languages.contains(l) ==> !self.traits().lang.contains(l)
        &&& self.pool.len() == 6
        &&& forall|i: int| 0 <= i < 6 ==> #[trigger] self.pool[i] <= 18
        &&& self.sequence matches Some(s) ==> is_permutation(s)
    }

    /// Selecting another race clears every allocation; selecting the current
    /// race changes nothing.
    pub open spec fn select_race(self, race: Race) -> Sheet {
        if race == self.race {
            self
        } else {
            Sheet { race, used_abilities: Set::empty(), used_languages: Set::empty(), ..self }
        }
    }

    pub open spec fn can_use_race_point(self, a: AP) -> bool {
        &&& self.remaining_race_points() > 0
        &&& self.traits().usable(a)
        &&& !self.used_abilities.contains(a)
    }

    pub open spec fn use_race_point(self, a: AP) -> Sheet {
        if self.can_use_race_point(a) {
            Sheet { used_abilities: self.used_abilities.insert(a), ..self }
        } else {
            self
        }
    }

    pub open spec fn can_remove_race_point(self, a: AP) -> bool {
        self.used_abilities.contains(a)
    }

    pub open spec fn remove_race_point(self, a: AP) -> Sheet {
        if self.can_remove_race_point(a) {
            Sheet { used_abilities: self.used_abilities.remove(a), ..self }
        } else {
            self
        }
    }

    pub open spec fn clear_race_points(self) -> Sheet {
        Sheet { used_abilities: Set::empty(), ..self }
    }

    pub open spec fn can_use_language(self, l: Language) -> bool {
        &&& self.remaining_language_points() > 0
        &&& !self.known_languages().contains(l)
    }

    pub open spec fn use_language(self, l: Language) -> Sheet {
        if self.can_use_language(l) {
            Sheet { used_languages: self.used_languages.insert(l), ..self }
        } else {
            self
        }
    }

    pub open spec fn can_remove_language(self, l: Language) -> bool {
        self.used_languages.contains(l)
    }

    pub open spec fn remove_language(self, l: Language) -> Sheet {
        if self.can_remove_language(l) {
            Sheet { used_languages: self.used_languages.remove(l), ..self }
        } else {
            self
        }
    }

    pub open spec fn clear_languages(self) -> Sheet {
        Sheet { used_languages: Set::empty(), ..self }
    }

    /// A new pool replaces the old one and drops the committed sequence.
    pub open spec fn with_pool(self, pool: Seq<usize>) -> Sheet {
        Sheet { pool, sequence: None, ..self }
    }

    /// Bought scores go straight to their slots.
    pub open spec fn with_bought_scores(self, points: Seq<usize>) -> Sheet {
        Sheet { pool: points, sequence: Some(identity_sequence()), ..self }
    }

    /// A permutation is committed; anything else leaves the sheet as it is.
    pub open spec fn assign(self, sequence: Seq<usize>) -> Sheet {
        if is_permutation(sequence) {
            Sheet { sequence: Some(sequence), ..self }
        } else {
            self
        }
    }

    pub open spec fn apply(self, action: Action) -> Sheet {
        match action {
            Action::SelectRace(r) => self.select_race(r),
            Action::UseRacePoint(a) => self.use_race_point(a),
            Action::RemoveRacePoint(a) => self.remove_race_point(a),
            Action::ClearRacePoints => self.clear_race_points(),
            Action::UseLanguage(l) => self.use_language(l),
            Action::RemoveLanguage(l) => self.remove_language(l),
            Action::ClearLanguages => self.clear_languages(),
        }
    }

    pub open spec fn apply_all(self, actions: Seq<Action>) -> Sheet
        decreases actions.len(),
    {
        if actions.len() == 0 {
            self
        } else {
            self.apply(actions[0]).apply_all(actions.drop_first())
        }
    }
}

} // verus!
