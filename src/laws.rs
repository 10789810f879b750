use vstd::prelude::*;
use crate::common::AP;
use crate::profeciency::Language;
use crate::race::Race;
use crate::sheet::{Action, Sheet};

verus! {

/// Every choice about race points or languages keeps a sheet within its
/// invariant.
pub proof fn lemma_apply_preserves_inv(s: Sheet, action: Action)
    requires
        s.inv(),
    ensures
        s.apply(action).inv(),
{
    match action {
        Action::UseRacePoint(a) => {
            if s.can_use_race_point(a) {
                assert(s.used_abilities.insert(a).len() == s.used_abilities.len() + 1);
            }
        },
        Action::RemoveRacePoint(a) => {
            if s.can_remove_race_point(a) {
                assert(s.used_abilities.remove(a).len() == s.used_abilities.len() - 1);
            }
        },
        Action::UseLanguage(l) => {
            if s.can_use_language(l) {
                assert(s.used_languages.insert(l).len() == s.used_languages.len() + 1);
            }
        },
        Action::RemoveLanguage(l) => {
            if s.can_remove_language(l) {
                assert(s.used_languages.remove(l).len() == s.used_languages.len() - 1);
            }
        },
        _ => {},
    }
}

/// Clearing race points twice leaves the same sheet as clearing them once,
/// and so does clearing languages twice.
pub proof fn lemma_clears_idempotent(s: Sheet)
    ensures
        s.clear_race_points().clear_race_points() == s.clear_race_points(),
        s.clear_languages().clear_languages() == s.clear_languages(),
{
}

/// Budget conservation: after any sequence of choices, the free race points
/// left and those placed add up to the race's free points, and the language
/// points left and the languages bought add up to the race's language points;
/// neither budget is ever overspent.
pub proof fn lemma_budget_conservation(s: Sheet, actions: Seq<Action>)
    requires
        s.inv(),
    ensures
        s.apply_all(actions).inv(),
        s.apply_all(actions).remaining_race_points() >= 0,
        s.apply_all(actions).remaining_race_points() + s.apply_all(actions).used_abilities.len()
            == s.apply_all(actions).traits().free_points(),
        s.apply_all(actions).remaining_language_points() >= 0,
        s.apply_all(actions).remaining_language_points()
            + s.apply_all(actions).used_languages.len() == s.apply_all(actions).traits().lang_point,
    decreases actions.len(),
{
    if actions.len() > 0 {
        lemma_apply_preserves_inv(s, actions[0]);
        lemma_budget_conservation(s.apply(actions[0]), actions.drop_first());
    }
}

/// Selecting a different race starts from that race's fresh baseline: no
/// points placed, no languages bought, and the same sheet whatever race and
/// allocations came before, given the same generated scores.
pub proof fn lemma_reselect_resets(s: Sheet, t: Sheet, race: Race)
    requires
        race != s.race,
        race != t.race,
        s.pool == t.pool,
        s.sequence == t.sequence,
    ensures
        s.select_race(race).used_abilities == Set::<AP>::empty(),
        s.select_race(race).used_languages == Set::<Language>::empty(),
        s.select_race(race) == t.select_race(race),
        forall|a: AP| #[trigger]
            s.select_race(race).score(a) == race.traits().fixed(a) + s.base(a),
        s.select_race(race).remaining_race_points() == race.traits().free_points(),
        s.select_race(race).remaining_language_points() == race.traits().lang_point,
        s.select_race(race).known_languages() == race.traits().lang.to_set(),
{
    assert(race.traits().lang.to_set().union(Set::empty()) =~= race.traits().lang.to_set());
}

/// A refused point or language leaves the sheet exactly as it was.
pub proof fn lemma_rejection_unchanged(s: Sheet, a: AP, l: Language)
    ensures
        !s.can_use_race_point(a) ==> s.use_race_point(a) == s,
        !s.can_remove_race_point(a) ==> s.remove_race_point(a) == s,
        !s.can_use_language(l) ==> s.use_language(l) == s,
        !s.can_remove_language(l) ==> s.remove_language(l) == s,
{
}

/// Placing a free point and taking it back restores the sheet, its scores and
/// its remaining points; the same holds for buying a language and giving it
/// back.
pub proof fn lemma_round_trip(s: Sheet, a: AP, l: Language)
    requires
        s.inv(),
    ensures
        s.can_use_race_point(a) ==> s.use_race_point(a).remove_race_point(a) == s,
        s.can_use_language(l) ==> s.use_language(l).remove_language(l) == s,
{
    if s.can_use_race_point(a) {
        assert(s.used_abilities.insert(a).remove(a) =~= s.used_abilities);
    }
    if s.can_use_language(l) {
        assert(s.used_languages.insert(l).remove(l) =~= s.used_languages);
    }
}

} // verus!
