use role4me_lib::ability::PointBuyError;
use role4me_lib::character::Character;
use role4me_lib::common::{Size, AP};
use role4me_lib::profeciency::{Armor, Language, Skill, Weapon};
use role4me_lib::race::{Race, SubElf, SubHuman};
use std::collections::HashSet;

fn set_of<T: Copy + Eq + std::hash::Hash>(v: &Vec<T>) -> HashSet<T> {
    v.iter().copied().collect()
}

#[test]
fn tests_test_new_race() {
    let mut player = Character::build();

    player.select_race(Race::Elf(SubElf::High));

    assert_eq!(player.check_all_scores(), [0, 2, 0, 1, 0, 0]);
    assert_eq!(player.race_usable_ap(), 0);
    assert_eq!(set_of(player.race_used_ability()), HashSet::new());
    assert_eq!(
        set_of(player.known_lang()),
        HashSet::from([Language::Elven, Language::Common])
    );
    assert_eq!(player.known_lang().len(), 2);
    assert_eq!(player.lang_point(), 1);
    assert_eq!(
        set_of(player.weap()),
        HashSet::from([
            Weapon::Longsword,
            Weapon::Shortsword,
            Weapon::Shortbow,
            Weapon::Longbow
        ])
    );
    assert_eq!(set_of(player.armor()), HashSet::from([]));
    assert_eq!(set_of(player.skill()), HashSet::from([Skill::Perception]));
    assert_eq!(player.speed(), 30);
    assert_eq!(player.size(), Size::Medium);
}

#[test]
fn tests_test_change_race() {
    let mut player = Character::build();

    // Test clean slate when changing race
    player.select_race(Race::Human(SubHuman::Variant));
    player.use_race_point(AP::INT);
    player.use_race_lang(Language::Elven);
    player.select_race(Race::Elf(SubElf::High));
    player.select_race(Race::Undefined);

    assert_eq!(player.check_all_scores(), [0, 0, 0, 0, 0, 0]);
    assert_eq!(player.race_usable_ap(), 0);
    assert_eq!(set_of(player.race_used_ability()), HashSet::new());
    assert_eq!(player.known_lang().len(), 0);
    assert_eq!(player.lang_point(), 0);
    assert_eq!(set_of(player.weap()), HashSet::new());
    assert_eq!(set_of(player.armor()), HashSet::new());
    assert_eq!(set_of(player.skill()), HashSet::new());
    assert_eq!(player.speed(), 0);
    assert_eq!(player.size(), Size::Unknown);
    assert!(player.race_buffer().is_none());
}

#[test]
fn tests_test_use_ap() {
    let mut player = Character::build();

    // Test Unknown race
    player.use_race_point(AP::STR);
    player.remove_race_point(AP::STR);

    assert_eq!(player.check_all_scores(), [0, 0, 0, 0, 0, 0]);
    assert_eq!(player.race_usable_ap(), 0);
    assert_eq!(set_of(player.race_used_ability()), HashSet::new());

    // Test race with no usable AP
    player.select_race(Race::Human(SubHuman::Basic));
    player.use_race_point(AP::STR);

    assert_eq!(player.check_all_scores(), [1, 1, 1, 1, 1, 1]);
    assert_eq!(player.race_usable_ap(), 0);

    // Test assign same ability
    player.select_race(Race::Human(SubHuman::Variant));
    player.use_race_point(AP::STR);
    player.use_race_point(AP::STR);

    assert_eq!(player.check_all_scores(), [1, 0, 0, 0, 0, 0]);
    assert_eq!(player.race_usable_ap(), 1);

    // Test use all ap
    player.use_race_point(AP::DEX);

    assert_eq!(player.check_all_scores(), [1, 1, 0, 0, 0, 0]);
    assert_eq!(player.race_usable_ap(), 0);
}

#[test]
fn tests_test_remove_ap() {
    let mut player = Character::build();

    // Test Unknown race
    player.remove_race_point(AP::STR);

    assert_eq!(player.check_all_scores(), [0, 0, 0, 0, 0, 0]);
    assert_eq!(set_of(player.race_used_ability()), HashSet::new());

    // Assert point used on STR
    player.select_race(Race::Human(SubHuman::Variant));
    player.use_race_point(AP::STR);

    assert_eq!(player.check_all_scores(), [1, 0, 0, 0, 0, 0]);
    assert_eq!(set_of(player.race_used_ability()), HashSet::from([AP::STR]));

    // Test point removed
    player.remove_race_point(AP::STR);

    assert_eq!(player.check_all_scores(), [0, 0, 0, 0, 0, 0]);
    assert_eq!(set_of(player.race_used_ability()), HashSet::new());
}

#[test]
fn tests_test_no_race() {
    let mut player = Character::build();

    // Test function error when no race is specified
    player.use_race_point(AP::STR);
    player.use_race_lang(Language::Elven);
    player.remove_race_point(AP::STR);
    player.remove_race_lang(Language::Common);
    player.clear_race_langs();
    player.clear_race_points();

    assert_eq!(player.check_all_scores(), [0, 0, 0, 0, 0, 0]);
    assert_eq!(set_of(player.race_used_ability()), HashSet::new());
    assert_eq!(set_of(player.known_lang()), HashSet::new());
}

#[test]
fn variant_human_point_scenario() {
    let mut player = Character::build();
    player.select_race(Race::Human(SubHuman::Variant));
    assert_eq!(player.check_all_scores(), [0, 0, 0, 0, 0, 0]);
    assert_eq!(player.race_usable_ap(), 2);
    assert_eq!(player.lang_point(), 1);
    assert_eq!(set_of(player.known_lang()), HashSet::from([Language::Common]));

    assert!(player.use_race_point(AP::INT));
    assert_eq!(player.check_score(AP::INT), 1);
    assert_eq!(player.race_usable_ap(), 1);

    assert!(!player.use_race_point(AP::INT));
    assert_eq!(player.race_usable_ap(), 1);

    assert!(player.use_race_point(AP::DEX));
    assert_eq!(player.check_score(AP::DEX), 1);
    assert_eq!(player.race_usable_ap(), 0);

    assert!(player.remove_race_point(AP::DEX));
    assert_eq!(player.check_score(AP::DEX), 0);
    assert_eq!(player.race_usable_ap(), 1);
}

#[test]
fn point_buy_scenario() {
    let mut player = Character::build();
    assert_eq!(player.use_point_buy([8, 13, 14, 15, 12, 10]), Ok(0));
    assert_eq!(player.check_all_scores(), [8, 13, 14, 15, 12, 10]);
    assert_eq!(player.use_point_buy([10, 10, 10, 10, 10, 10]), Ok(15));
    assert_eq!(player.check_all_scores(), [10, 10, 10, 10, 10, 10]);
}

#[test]
fn point_buy_refusals_keep_scores() {
    let mut player = Character::build();
    assert_eq!(player.use_point_buy([8, 13, 14, 15, 12, 10]), Ok(0));
    assert_eq!(
        player.use_point_buy([7, 10, 10, 10, 10, 10]),
        Err(PointBuyError::OutOfRange)
    );
    assert_eq!(
        player.use_point_buy([16, 10, 10, 10, 10, 10]),
        Err(PointBuyError::OutOfRange)
    );
    assert_eq!(
        player.use_point_buy([15, 15, 15, 15, 8, 8]),
        Err(PointBuyError::OverBudget)
    );
    assert_eq!(player.check_all_scores(), [8, 13, 14, 15, 12, 10]);
    assert_eq!(player.get_ap_unassigned(), [8, 13, 14, 15, 12, 10]);
}

#[test]
fn point_buy_adds_racial_bonuses() {
    let mut player = Character::build();
    player.select_race(Race::Elf(SubElf::Wood));
    assert_eq!(player.use_point_buy([15, 15, 15, 8, 8, 8]), Ok(0));
    assert_eq!(player.check_all_scores(), [15, 17, 15, 8, 9, 8]);
}

#[test]
fn standard_array_waits_for_sequence() {
    let mut player = Character::build();
    player.use_standard_array();
    assert_eq!(player.get_ap_unassigned(), [15, 14, 13, 12, 10, 8]);
    assert_eq!(player.check_all_scores(), [0, 0, 0, 0, 0, 0]);
    assert!(player.assign_ap_seq([2, 1, 3, 5, 4, 0]));
    assert_eq!(player.check_all_scores(), [13, 14, 12, 8, 10, 15]);
}

#[test]
fn heroic_array_pool() {
    let mut player = Character::build();
    player.use_heroic_array();
    assert_eq!(player.get_ap_unassigned(), [17, 16, 15, 14, 12, 10]);
    assert!(player.assign_ap_seq([0, 1, 2, 3, 4, 5]));
    assert_eq!(player.check_all_scores(), [17, 16, 15, 14, 12, 10]);
}

#[test]
fn new_pool_drops_sequence() {
    let mut player = Character::build();
    player.use_standard_array();
    assert!(player.assign_ap_seq([0, 1, 2, 3, 4, 5]));
    assert_eq!(player.check_all_scores(), [15, 14, 13, 12, 10, 8]);
    player.use_heroic_array();
    assert_eq!(player.check_all_scores(), [0, 0, 0, 0, 0, 0]);
}

#[test]
fn malformed_sequence_is_refused() {
    let mut player = Character::build();
    player.use_standard_array();
    assert!(player.assign_ap_seq([5, 4, 3, 2, 1, 0]));
    assert!(!player.assign_ap_seq([0, 0, 1, 2, 3, 4]));
    assert!(!player.assign_ap_seq([0, 1, 2, 3, 4, 6]));
    assert_eq!(player.check_all_scores(), [8, 10, 12, 13, 14, 15]);
}

#[test]
fn dice_roll_fills_pool_in_range() {
    let mut player = Character::build();
    player.use_dice_roll();
    for v in player.get_ap_unassigned() {
        assert!((3..=18).contains(&v));
    }
    assert_eq!(player.check_all_scores(), [0, 0, 0, 0, 0, 0]);
    assert!(player.assign_ap_seq([0, 1, 2, 3, 4, 5]));
    assert_eq!(player.check_all_scores(), player.get_ap_unassigned());
}

#[test]
fn languages_budget_and_refusals() {
    let mut player = Character::build();
    player.select_race(Race::Human(SubHuman::Variant));
    assert!(!player.use_race_lang(Language::Common));
    assert_eq!(player.lang_point(), 1);
    assert!(player.use_race_lang(Language::Elven));
    assert_eq!(player.lang_point(), 0);
    assert_eq!(
        set_of(player.known_lang()),
        HashSet::from([Language::Common, Language::Elven])
    );
    assert!(!player.use_race_lang(Language::Dwarven));
    assert!(!player.remove_race_lang(Language::Common));
    assert!(player.remove_race_lang(Language::Elven));
    assert_eq!(player.lang_point(), 1);
    assert_eq!(set_of(player.known_lang()), HashSet::from([Language::Common]));
    assert!(!player.remove_race_lang(Language::Elven));
}

#[test]
fn clears_twice_equal_clear_once() {
    let mut player = Character::build();
    player.select_race(Race::Human(SubHuman::Variant));
    player.use_race_point(AP::STR);
    player.use_race_point(AP::CHA);
    player.use_race_lang(Language::Dwarven);
    player.clear_race_points();
    let once_scores = player.check_all_scores();
    let once_points = player.race_usable_ap();
    player.clear_race_points();
    assert_eq!(player.check_all_scores(), once_scores);
    assert_eq!(player.race_usable_ap(), once_points);
    assert_eq!(once_points, 2);
    player.clear_race_langs();
    let once_langs = set_of(player.known_lang());
    player.clear_race_langs();
    assert_eq!(set_of(player.known_lang()), once_langs);
    assert_eq!(player.lang_point(), 1);
}

#[test]
fn budget_conserved_over_calls() {
    let mut player = Character::build();
    player.select_race(Race::Human(SubHuman::Variant));
    let calls = [
        (true, AP::STR),
        (true, AP::STR),
        (true, AP::WIS),
        (true, AP::CON),
        (false, AP::STR),
        (false, AP::DEX),
        (true, AP::CON),
        (false, AP::WIS),
    ];
    for (use_it, ap) in calls {
        if use_it {
            player.use_race_point(ap);
        } else {
            player.remove_race_point(ap);
        }
        assert_eq!(player.race_usable_ap() + player.race_used_ability().len(), 2);
    }
}

#[test]
fn reselect_leaves_no_trace() {
    let mut player = Character::build();
    player.use_point_buy([10, 10, 10, 10, 10, 10]).unwrap();
    player.select_race(Race::Human(SubHuman::Variant));
    player.use_race_point(AP::INT);
    player.use_race_lang(Language::Aquan);
    player.select_race(Race::Elf(SubElf::Sea));

    let mut fresh = Character::build();
    fresh.use_point_buy([10, 10, 10, 10, 10, 10]).unwrap();
    fresh.select_race(Race::Elf(SubElf::Sea));

    assert_eq!(player.check_all_scores(), fresh.check_all_scores());
    assert_eq!(player.check_all_scores(), [10, 12, 11, 10, 10, 10]);
    assert_eq!(player.race_used_ability().len(), 0);
    assert_eq!(player.lang_point(), 0);
    assert_eq!(
        set_of(player.known_lang()),
        HashSet::from([Language::Common, Language::Elven, Language::Aquan])
    );
}

#[test]
fn reselecting_same_race_keeps_choices() {
    let mut player = Character::build();
    player.select_race(Race::Human(SubHuman::Variant));
    player.use_race_point(AP::WIS);
    player.select_race(Race::Human(SubHuman::Variant));
    assert_eq!(player.check_score(AP::WIS), 1);
    assert_eq!(player.race_usable_ap(), 1);
}

#[test]
fn rejected_allocation_changes_nothing() {
    let mut player = Character::build();
    player.select_race(Race::Human(SubHuman::Variant));
    player.use_race_point(AP::STR);
    player.use_race_point(AP::DEX);
    let scores = player.check_all_scores();
    let used = set_of(player.race_used_ability());
    assert!(!player.use_race_point(AP::CON));
    assert!(!player.use_race_point(AP::STR));
    assert_eq!(player.check_all_scores(), scores);
    assert_eq!(set_of(player.race_used_ability()), used);
    assert_eq!(player.race_usable_ap(), 0);
}

#[test]
fn fixed_bonus_slots_take_no_free_point() {
    let mut player = Character::build();
    player.select_race(Race::Elf(SubElf::Drow));
    assert!(!player.use_race_point(AP::DEX));
    assert_eq!(player.check_all_scores(), [0, 2, 0, 0, 0, 1]);
}

#[test]
fn use_then_remove_restores() {
    let mut player = Character::build();
    player.select_race(Race::Human(SubHuman::Variant));
    player.use_standard_array();
    player.assign_ap_seq([0, 1, 2, 3, 4, 5]);
    for ap in [AP::STR, AP::DEX, AP::CON, AP::INT, AP::WIS, AP::CHA] {
        let scores = player.check_all_scores();
        let left = player.race_usable_ap();
        assert!(player.use_race_point(ap));
        assert!(player.remove_race_point(ap));
        assert_eq!(player.check_all_scores(), scores);
        assert_eq!(player.race_usable_ap(), left);
    }
}
