use vstd::prelude::*;

verus! {

/// A proficiency tag that can be shown by name.
pub trait Profeciency {
    /// The displayed name of the tag.
    spec fn name(&self) -> Seq<char>;

    fn as_string(&self) -> (r: String)
        ensures
            r@ == self.name(),
    ;
}

/// A language a character can speak.
#[derive(Clone, Copy, Debug, PartialEq, Eq, Structural, Hash)]
pub enum Language {
    Common,
    Elven,
    Aquan,
    Dwarven,
    Undercommon,
}

impl Profeciency for Language {
    open spec fn name(&self) -> Seq<char> {
        match self {
            Language::Common => "Common"@,
            Language::Elven => "Elven"@,
            Language::Aquan => "Aquan"@,
            Language::Dwarven => "Dwarven"@,
            Language::Undercommon => "Undercommon"@,
        }
    }

    fn as_string(&self) -> (r: String) {
        match self {
            Language::Common => String::from_str("Common"),
            Language::Elven => String::from_str("Elven"),
            Language::Aquan => String::from_str("Aquan"),
            Language::Dwarven => String::from_str("Dwarven"),
            Language::Undercommon => String::from_str("Undercommon"),
        }
    }
}

/// A weapon a character can be proficient with.
#[derive(Clone, Copy, Debug, PartialEq, Eq, Structural, Hash)]
pub enum Weapon {
    Club,
    Dagger,
    Greatclub,
    Handaxe,
    Javelin,
    LightHammer,
    Mace,
    Quaterstaff,
    Sickle,
    Spear,
    LightCrossbow,
    Dart,
    Shortbow,
    Sling,
    Battleaxe,
    Flail,
    Glaive,
    Greataxe,
    Greatsword,
    Halberd,
    Lance,
    Longsword,
    Maul,
    Morningstar,
    Pike,
    Rapier,
    Scimitar,
    Shortsword,
    Trident,
    WarPick,
    Warhammer,
    Whip,
    Blowgun,
    HandCrossbow,
    HeavyCrossbow,
    Longbow,
    Net,
}

impl Profeciency for Weapon {
    open spec fn name(&self) -> Seq<char> {
        match self {
            Weapon::Club => "Club"@,
            Weapon::Dagger => "Dagger"@,
            Weapon::Greatclub => "Greatclub"@,
            Weapon::Handaxe => "Handaxe"@,
            Weapon::Javelin => "Javelin"@,
            Weapon::LightHammer => "LightHammer"@,
            Weapon::Mace => "Mace"@,
            Weapon::Quaterstaff => "Quaterstaff"@,
            Weapon::Sickle => "Sickle"@,
            Weapon::Spear => "Spear"@,
            Weapon::LightCrossbow => "LightCrossbow"@,
            Weapon::Dart => "Dart"@,
            Weapon::Shortbow => "Shortbow"@,
            Weapon::Sling => "Sling"@,
            Weapon::Battleaxe => "Battleaxe"@,
            Weapon::Flail => "Flail"@,
            Weapon::Glaive => "Glaive"@,
            Weapon::Greataxe => "Greataxe"@,
            Weapon::Greatsword => "Greatsword"@,
            Weapon::Halberd => "Halberd"@,
            Weapon::Lance => "Lance"@,
            Weapon::Longsword => "Longsword"@,
            Weapon::Maul => "Maul"@,
            Weapon::Morningstar => "Morningstar"@,
            Weapon::Pike => "Pike"@,
            Weapon::Rapier => "Rapier"@,
            Weapon::Scimitar => "Scimitar"@,
            Weapon::Shortsword => "Shortsword"@,
            Weapon::Trident => "Trident"@,
            Weapon::WarPick => "WarPick"@,
            Weapon::Warhammer => "Warhammer"@,
            Weapon::Whip => "Whip"@,
            Weapon::Blowgun => "Blowgun"@,
            Weapon::HandCrossbow => "HandCrossbow"@,
            Weapon::HeavyCrossbow => "HeavyCrossbow"@,
            Weapon::Longbow => "Longbow"@,
            Weapon::Net => "Net"@,
        }
    }

    fn as_string(&self) -> (r: String) {
        match self {
            Weapon::Club => String::from_str("Club"),
            Weapon::Dagger => String::from_str("Dagger"),
            Weapon::Greatclub => String::from_str("Greatclub"),
            Weapon::Handaxe => String::from_str("Handaxe"),
            Weapon::Javelin => String::from_str("Javelin"),
            Weapon::LightHammer => String::from_str("LightHammer"),
            Weapon::Mace => String::from_str("Mace"),
            Weapon::Quaterstaff => String::from_str("Quaterstaff"),
            Weapon::Sickle => String::from_str("Sickle"),
            Weapon::Spear => String::from_str("Spear"),
            Weapon::LightCrossbow => String::from_str("LightCrossbow"),
            Weapon::Dart => String::from_str("Dart"),
            Weapon::Shortbow => String::from_str("Shortbow"),
            Weapon::Sling => String::from_str("Sling"),
            Weapon::Battleaxe => String::from_str("Battleaxe"),
            Weapon::Flail => String::from_str("Flail"),
            Weapon::Glaive => String::from_str("Glaive"),
            Weapon::Greataxe => String::from_str("Greataxe"),
            Weapon::Greatsword => String::from_str("Greatsword"),
            Weapon::Halberd => String::from_str("Halberd"),
            Weapon::Lance => String::from_str("Lance"),
            Weapon::Longsword => String::from_str("Longsword"),
            Weapon::Maul => String::from_str("Maul"),
            Weapon::Morningstar => String::from_str("Morningstar"),
            Weapon::Pike => String::from_str("Pike"),
            Weapon::Rapier => String::from_str("Rapier"),
            Weapon::Scimitar => String::from_str("Scimitar"),
            Weapon::Shortsword => String::from_str("Shortsword"),
            Weapon::Trident => String::from_str("Trident"),
            Weapon::WarPick => String::from_str("WarPick"),
            Weapon::Warhammer => String::from_str("Warhammer"),
            Weapon::Whip => String::from_str("Whip"),
            Weapon::Blowgun => String::from_str("Blowgun"),
            Weapon::HandCrossbow => String::from_str("HandCrossbow"),
            Weapon::HeavyCrossbow => String::from_str("HeavyCrossbow"),
            Weapon::Longbow => String::from_str("Longbow"),
            Weapon::Net => String::from_str("Net"),
        }
    }
}

/// A category of armor a character can be trained in.
#[derive(Clone, Copy, Debug, PartialEq, Eq, Structural, Hash)]
pub enum Armor {
    Light,
    Medium,
    Heavy,
    Shield,
}

impl Profeciency for Armor {
    open spec fn name(&self) -> Seq<char> {
        match self {
            Armor::Light => "Light"@,
            Armor::Medium => "Medium"@,
            Armor::Heavy => "Heavy"@,
            Armor::Shield => "Shield"@,
        }
    }

    fn as_string(&self) -> (r: String) {
        match self {
            Armor::Light => String::from_str("Light"),
            Armor::Medium => String::from_str("Medium"),
            Armor::Heavy => String::from_str("Heavy"),
            Armor::Shield => String::from_str("Shield"),
        }
    }
}

/// A skill a character can be proficient in.
#[derive(Clone, Copy, Debug, PartialEq, Eq, Structural, Hash)]
pub enum Skill {
    Athletics,
    Acrobatics,
    SleightOfHand,
    Stealth,
    Arcana,
    History,
    Investigation,
    Nature,
    Religion,
    AnimalHandling,
    Insight,
    Medicine,
    Perception,
    Survial,
    Deception,
    Intimidation,
    Performance,
    Persuasion,
}

impl Profeciency for Skill {
    open spec fn name(&self) -> Seq<char> {
        match self {
            Skill::Athletics => "Athletics"@,
            Skill::Acrobatics => "Acrobatics"@,
            Skill::SleightOfHand => "SleightOfHand"@,
            Skill::Stealth => "Stealth"@,
            Skill::Arcana => "Arcana"@,
            Skill::History => "History"@,
            Skill::Investigation => "Investigation"@,
            Skill::Nature => "Nature"@,
            Skill::Religion => "Religion"@,
            Skill::AnimalHandling => "AnimalHandling"@,
            Skill::Insight => "Insight"@,
            Skill::Medicine => "Medicine"@,
            Skill::Perception => "Perception"@,
            Skill::Survial => "Survial"@,
            Skill::Deception => "Deception"@,
            Skill::Intimidation => "Intimidation"@,
            Skill::Performance => "Performance"@,
            Skill::Persuasion => "Persuasion"@,
        }
    }

    fn as_string(&self) -> (r: String) {
        match self {
            Skill::Athletics => String::from_str("Athletics"),
            Skill::Acrobatics => String::from_str("Acrobatics"),
            Skill::SleightOfHand => String::from_str("SleightOfHand"),
            Skill::Stealth => String::from_str("Stealth"),
            Skill::Arcana => String::from_str("Arcana"),
            Skill::History => String::from_str("History"),
            Skill::Investigation => String::from_str("Investigation"),
            Skill::Nature => String::from_str("Nature"),
            Skill::Religion => String::from_str("Religion"),
            Skill::AnimalHandling => String::from_str("AnimalHandling"),
            Skill::Insight => String::from_str("Insight"),
            Skill::Medicine => String::from_str("Medicine"),
            Skill::Perception => String::from_str("Perception"),
            Skill::Survial => String::from_str("Survial"),
            Skill::Deception => String::from_str("Deception"),
            Skill::Intimidation => String::from_str("Intimidation"),
            Skill::Performance => String::from_str("Performance"),
            Skill::Persuasion => String::from_str("Persuasion"),
        }
    }
}

} // verus!
