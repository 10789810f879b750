use role4me_lib::ability::{calculate_point_buy, check_point_buy, is_valid_sequence, point_cost, PointBuyError};
use role4me_lib::common::{first_letter_uppercase, replace_first_char, Edition, Size, AP};
use role4me_lib::dice::{roll, roll_ability};
use role4me_lib::profeciency::{Armor, Language, Profeciency, Skill, Weapon};
use role4me_lib::race::{Race, SubDwarf, SubElf, SubHuman};

#[test]
fn human_table_rows() {
    assert_eq!(SubHuman::Basic.get_ap(), [1, 1, 1, 1, 1, 1, 0]);
    assert_eq!(SubHuman::Variant.get_ap(), [0, 0, 0, 0, 0, 0, 2]);
    let row = SubHuman::Variant.handle().unwrap();
    assert_eq!(row.get_ap(), [0, 0, 0, 0, 0, 0, 2]);
    assert_eq!(row.get_lang(), vec![Language::Common]);
    assert_eq!(row.get_lang_point(), 1);
    assert!(row.get_weap().is_empty());
    assert!(row.get_armor().is_empty());
    assert!(row.get_skill().is_empty());
    assert_eq!(row.get_speed(), 30);
    assert_eq!(row.get_size(), Size::Medium);
}

#[test]
fn elf_table_rows() {
    assert_eq!(SubElf::Drow.get_ap(), [0, 2, 0, 0, 0, 1, 0]);
    assert_eq!(SubElf::Sea.get_ap(), [0, 2, 1, 0, 0, 0, 0]);
    let drow = SubElf::Drow.handle().unwrap();
    assert_eq!(
        drow.get_weap(),
        vec![Weapon::Rapier, Weapon::Shortsword, Weapon::HandCrossbow]
    );
    assert_eq!(drow.get_lang_point(), 0);
    let sea = SubElf::Sea.handle().unwrap();
    assert_eq!(
        sea.get_lang(),
        vec![Language::Common, Language::Elven, Language::Aquan]
    );
    assert_eq!(
        sea.get_weap(),
        vec![Weapon::Spear, Weapon::Trident, Weapon::LightCrossbow, Weapon::Net]
    );
    let wood = SubElf::Wood.handle().unwrap();
    assert_eq!(wood.get_speed(), 35);
    assert_eq!(wood.get_skill(), vec![Skill::Perception]);
    assert_eq!(SubElf::High.handle().unwrap().get_lang_point(), 1);
}

#[test]
fn dwarf_table_rows() {
    let duegar = SubDwarf::Duegar.handle().unwrap();
    assert_eq!(duegar.get_ap(), [1, 0, 2, 0, 0, 0, 0]);
    assert_eq!(
        duegar.get_lang(),
        vec![Language::Common, Language::Dwarven, Language::Undercommon]
    );
    assert!(duegar.get_armor().is_empty());
    assert_eq!(duegar.get_speed(), 25);
    let mountain = SubDwarf::Mountain.handle().unwrap();
    assert_eq!(mountain.get_ap(), [2, 0, 2, 0, 0, 0, 0]);
    assert_eq!(mountain.get_armor(), vec![Armor::Light, Armor::Medium]);
    assert_eq!(
        mountain.get_weap(),
        vec![Weapon::Battleaxe, Weapon::Handaxe, Weapon::LightHammer, Weapon::Warhammer]
    );
    assert_eq!(SubDwarf::Hill.handle().unwrap().get_ap(), [0, 0, 2, 0, 1, 0, 0]);
}

#[test]
fn undefined_race_has_empty_row() {
    assert!(Race::Undefined.get_buff().is_none());
    let row = Race::Undefined.get_stat();
    assert_eq!(row.get_ap(), [0, 0, 0, 0, 0, 0, 0]);
    assert!(row.get_lang().is_empty());
    assert_eq!(row.get_speed(), 0);
    assert_eq!(row.get_size(), Size::Unknown);
    assert!(Race::Elf(SubElf::High).get_buff().is_some());
}

#[test]
fn usable_abilities_have_no_fixed_bonus() {
    assert_eq!(
        Race::get_usable_ability([0, 2, 0, 1, 0, 0, 0]),
        vec![AP::STR, AP::CON, AP::WIS, AP::CHA]
    );
    assert!(Race::get_usable_ability([1, 1, 1, 1, 1, 1, 0]).is_empty());
    assert_eq!(Race::get_usable_ability([0, 0, 0, 0, 0, 0, 2]).len(), 6);
}

#[test]
fn point_costs_follow_table() {
    let costs: Vec<usize> = (8..=15).map(point_cost).collect();
    assert_eq!(costs, vec![0, 1, 2, 3, 4, 5, 7, 9]);
}

#[test]
fn check_point_buy_outcomes() {
    assert_eq!(check_point_buy([8, 13, 14, 15, 12, 10]), Ok(0));
    assert_eq!(check_point_buy([10, 10, 10, 10, 10, 10]), Ok(15));
    assert_eq!(check_point_buy([8, 8, 8, 8, 8, 8]), Ok(27));
    assert_eq!(check_point_buy([15, 15, 15, 8, 8, 8]), Ok(0));
    assert_eq!(check_point_buy([15, 15, 15, 9, 8, 8]), Err(PointBuyError::OverBudget));
    assert_eq!(check_point_buy([8, 8, 8, 8, 8, 16]), Err(PointBuyError::OutOfRange));
    assert_eq!(check_point_buy([3, 15, 15, 15, 15, 15]), Err(PointBuyError::OutOfRange));
}

#[test]
fn point_amounts_become_scores() {
    assert_eq!(calculate_point_buy([1, 5, 7, 9, 3, 2]), [9, 13, 14, 15, 11, 10]);
    assert_eq!(calculate_point_buy([0, 0, 0, 0, 0, 0]), [8, 8, 8, 8, 8, 8]);
}

#[test]
fn sequence_validation() {
    assert!(is_valid_sequence([2, 1, 3, 5, 4, 0]));
    assert!(!is_valid_sequence([1, 1, 3, 5, 4, 0]));
    assert!(!is_valid_sequence([1, 2, 3, 4, 5, 6]));
}

#[test]
fn lowest_die_is_dropped() {
    assert_eq!(roll_ability([1, 6, 6, 6]), 18);
    assert_eq!(roll_ability([3, 2, 5, 4]), 12);
    assert_eq!(roll_ability([1, 1, 1, 1]), 3);
}

#[test]
fn rolled_scores_in_range() {
    for _ in 0..50 {
        for v in roll() {
            assert!((3..=18).contains(&v));
        }
    }
}

#[test]
fn first_letter_made_upper_case() {
    assert_eq!(first_letter_uppercase("hello"), "Hello");
    assert_eq!(first_letter_uppercase("variant"), "Variant");
    assert_eq!(first_letter_uppercase("Elf"), "Elf");
    assert_eq!(first_letter_uppercase(""), "");
    assert_eq!(first_letter_uppercase("ßa"), "SSa");
    assert_eq!(replace_first_char("wood", "G"), "Good");
    assert_eq!(replace_first_char("", "G"), "");
}

#[test]
fn proficiency_names() {
    assert_eq!(Language::Undercommon.as_string(), "Undercommon");
    assert_eq!(Weapon::HandCrossbow.as_string(), "HandCrossbow");
    assert_eq!(Armor::Shield.as_string(), "Shield");
    assert_eq!(Skill::SleightOfHand.as_string(), "SleightOfHand");
}

#[test]
fn ability_indices() {
    let all = [AP::STR, AP::DEX, AP::CON, AP::INT, AP::WIS, AP::CHA];
    for (i, ap) in all.iter().enumerate() {
        assert_eq!(ap.get_index(), i);
        assert_eq!(AP::from_index(i), *ap);
    }
}

#[test]
fn edition_check() {
    assert!(Edition::FifthEdition.is_5e());
    assert!(!Edition::DnDOne.is_5e());
}
