//! The closed vocabularies of tracked statistics, and the tagged `Metric`
//! union over them.
//!
//! Every variant has one canonical PascalCase name; the wire formats derive
//! from it: query parameters always use the snake_case rendering, while an
//! incoming JSON token may use snake_case, camelCase or PascalCase and is
//! resolved through `crate::text::normalize_spec`. The four vocabularies are
//! not disjoint (each has a placeholder named `None`), so an ambiguous key is
//! resolved in the fixed order Skill, Boss, Activity, ComputedMetric.
use vstd::prelude::*;

use crate::text::normalize_spec;
use crate::text::normalize_token;
use crate::text::pascal_token;
use crate::text::snake_spec;
use crate::text::str_eq;
use crate::text::to_snake_token;

verus! {

/// The window over which gains and records are computed.
#[derive(Debug, Clone, Copy, PartialEq, Eq, Structural)]
pub enum Period {
    FiveMin,
    Day,
    Week,
    Month,
    Year,
}

impl Period {
    /// The value this period takes in a `period=` query parameter.
    pub open spec fn as_str_spec(self) -> Seq<char> {
        match self {
            Period::FiveMin => "five_min"@,
            Period::Day => "day"@,
            Period::Week => "week"@,
            Period::Month => "month"@,
            Period::Year => "year"@,
        }
    }

    pub fn as_str(&self) -> (r: &'static str)
        ensures
            r@ == self.as_str_spec(),
    {
        match self {
            Period::FiveMin => "five_min",
            Period::Day => "day",
            Period::Week => "week",
            Period::Month => "month",
            Period::Year => "year",
        }
    }
}

/// An experience-based statistic. The `Unspecified` variant is the
/// placeholder the upstream service names `None`.
#[derive(Debug, Clone, Copy, PartialEq, Eq, Structural)]
pub enum Skill {
    Unspecified,
    Overall,
    Attack,
    Defence,
    Strength,
    Hitpoints,
    Ranged,
    Prayer,
    Magic,
    Cooking,
    Woodcutting,
    Fletching,
    Fishing,
    Firemaking,
    Crafting,
    Smithing,
    Mining,
    Herblore,
    Agility,
    Thieving,
    Slayer,
    Farming,
    Runecrafting,
    Hunter,
    Construction,
}

impl Skill {
    /// The canonical PascalCase name of this skill.
    pub open spec fn name_spec(self) -> Seq<char> {
        match self {
            Skill::Unspecified => "None"@,
            Skill::Overall => "Overall"@,
            Skill::Attack => "Attack"@,
            Skill::Defence => "Defence"@,
            Skill::Strength => "Strength"@,
            Skill::Hitpoints => "Hitpoints"@,
            Skill::Ranged => "Ranged"@,
            Skill::Prayer => "Prayer"@,
            Skill::Magic => "Magic"@,
            Skill::Cooking => "Cooking"@,
            Skill::Woodcutting => "Woodcutting"@,
            Skill::Fletching => "Fletching"@,
            Skill::Fishing => "Fishing"@,
            Skill::Firemaking => "Firemaking"@,
            Skill::Crafting => "Crafting"@,
            Skill::Smithing => "Smithing"@,
            Skill::Mining => "Mining"@,
            Skill::Herblore => "Herblore"@,
            Skill::Agility => "Agility"@,
            Skill::Thieving => "Thieving"@,
            Skill::Slayer => "Slayer"@,
            Skill::Farming => "Farming"@,
            Skill::Runecrafting => "Runecrafting"@,
            Skill::Hunter => "Hunter"@,
            Skill::Construction => "Construction"@,
        }
    }

    pub fn name(&self) -> (r: &'static str)
        ensures
            r@ == self.name_spec(),
    {
        match self {
            Skill::Unspecified => "None",
            Skill::Overall => "Overall",
            Skill::Attack => "Attack",
            Skill::Defence => "Defence",
            Skill::Strength => "Strength",
            Skill::Hitpoints => "Hitpoints",
            Skill::Ranged => "Ranged",
            Skill::Prayer => "Prayer",
            Skill::Magic => "Magic",
            Skill::Cooking => "Cooking",
            Skill::Woodcutting => "Woodcutting",
            Skill::Fletching => "Fletching",
            Skill::Fishing => "Fishing",
            Skill::Firemaking => "Firemaking",
            Skill::Crafting => "Crafting",
            Skill::Smithing => "Smithing",
            Skill::Mining => "Mining",
            Skill::Herblore => "Herblore",
            Skill::Agility => "Agility",
            Skill::Thieving => "Thieving",
            Skill::Slayer => "Slayer",
            Skill::Farming => "Farming",
            Skill::Runecrafting => "Runecrafting",
            Skill::Hunter => "Hunter",
            Skill::Construction => "Construction",
        }
    }

    /// The skill whose canonical name is `key`, if any.
    pub fn from_name(key: &str) -> (r: Option<Skill>)
        ensures
            r matches Some(v) ==> v.name_spec() == key@,
            r is None ==> forall|v: Skill| (#[trigger] v.name_spec()) != key@,
    {
        if str_eq(key, "None") {
            Some(Skill::Unspecified)
        } else if str_eq(key, "Overall") {
            Some(Skill::Overall)
        } else if str_eq(key, "Attack") {
            Some(Skill::Attack)
        } else if str_eq(key, "Defence") {
            Some(Skill::Defence)
        } else if str_eq(key, "Strength") {
            Some(Skill::Strength)
        } else if str_eq(key, "Hitpoints") {
            Some(Skill::Hitpoints)
        } else if str_eq(key, "Ranged") {
            Some(Skill::Ranged)
        } else if str_eq(key, "Prayer") {
            Some(Skill::Prayer)
        } else if str_eq(key, "Magic") {
            Some(Skill::Magic)
        } else if str_eq(key, "Cooking") {
            Some(Skill::Cooking)
        } else if str_eq(key, "Woodcutting") {
            Some(Skill::Woodcutting)
        } else if str_eq(key, "Fletching") {
            Some(Skill::Fletching)
        } else if str_eq(key, "Fishing") {
            Some(Skill::Fishing)
        } else if str_eq(key, "Firemaking") {
            Some(Skill::Firemaking)
        } else if str_eq(key, "Crafting") {
            Some(Skill::Crafting)
        } else if str_eq(key, "Smithing") {
            Some(Skill::Smithing)
        } else if str_eq(key, "Mining") {
            Some(Skill::Mining)
        } else if str_eq(key, "Herblore") {
            Some(Skill::Herblore)
        } else if str_eq(key, "Agility") {
            Some(Skill::Agility)
        } else if str_eq(key, "Thieving") {
            Some(Skill::Thieving)
        } else if str_eq(key, "Slayer") {
            Some(Skill::Slayer)
        } else if str_eq(key, "Farming") {
            Some(Skill::Farming)
        } else if str_eq(key, "Runecrafting") {
            Some(Skill::Runecrafting)
        } else if str_eq(key, "Hunter") {
            Some(Skill::Hunter)
        } else if str_eq(key, "Construction") {
            Some(Skill::Construction)
        } else {
            None
        }
    }
}

impl Default for Skill {
    /// The placeholder is the default, as on the wire.
    fn default() -> (r: Skill)
        ensures
            r == Skill::Unspecified,
    {
        Skill::Unspecified
    }
}

/// Distinct variants of `Skill` have distinct canonical names.
pub proof fn lemma_skill_names_injective(a: Skill, b: Skill)
    requires
        a.name_spec() == b.name_spec(),
    ensures
        a == b,
{
    reveal_strlit("None");
    reveal_strlit("Overall");
    reveal_strlit("Attack");
    reveal_strlit("Defence");
    reveal_strlit("Strength");
    reveal_strlit("Hitpoints");
    reveal_strlit("Ranged");
    reveal_strlit("Prayer");
    reveal_strlit("Magic");
    reveal_strlit("Cooking");
    reveal_strlit("Woodcutting");
    reveal_strlit("Fletching");
    reveal_strlit("Fishing");
    reveal_strlit("Firemaking");
    reveal_strlit("Crafting");
    reveal_strlit("Smithing");
    reveal_strlit("Mining");
    reveal_strlit("Herblore");
    reveal_strlit("Agility");
    reveal_strlit("Thieving");
    reveal_strlit("Slayer");
    reveal_strlit("Farming");
    reveal_strlit("Runecrafting");
    reveal_strlit("Hunter");
    reveal_strlit("Construction");
    assert("None"@.len() == 4);
    assert("Overall"@.len() == 7);
    assert("Attack"@.len() == 6);
    assert("Defence"@.len() == 7);
    assert("Strength"@.len() == 8);
    assert("Hitpoints"@.len() == 9);
    assert("Ranged"@.len() == 6);
    assert("Prayer"@.len() == 6);
    assert("Magic"@.len() == 5);
    assert("Cooking"@.len() == 7);
    assert("Woodcutting"@.len() == 11);
    assert("Fletching"@.len() == 9);
    assert("Fishing"@.len() == 7);
    assert("Firemaking"@.len() == 10);
    assert("Crafting"@.len() == 8);
    assert("Smithing"@.len() == 8);
    assert("Mining"@.len() == 6);
    assert("Herblore"@.len() == 8);
    assert("Agility"@.len() == 7);
    assert("Thieving"@.len() == 8);
    assert("Slayer"@.len() == 6);
    assert("Farming"@.len() == 7);
    assert("Runecrafting"@.len() == 12);
    assert("Hunter"@.len() == 6);
    assert("Construction"@.len() == 12);
    assert("Overall"@ != "Defence"@) by {
        assert("Overall"@[0] != "Defence"@[0]);
    }
    assert("Overall"@ != "Cooking"@) by {
        assert("Overall"@[0] != "Cooking"@[0]);
    }
    assert("Overall"@ != "Fishing"@) by {
        assert("Overall"@[0] != "Fishing"@[0]);
    }
    assert("Overall"@ != "Agility"@) by {
        assert("Overall"@[0] != "Agility"@[0]);
    }
    assert("Overall"@ != "Farming"@) by {
        assert("Overall"@[0] != "Farming"@[0]);
    }
    assert("Attack"@ != "Ranged"@) by {
        assert("Attack"@[0] != "Ranged"@[0]);
    }
    assert("Attack"@ != "Prayer"@) by {
        assert("Attack"@[0] != "Prayer"@[0]);
    }
    assert("Attack"@ != "Mining"@) by {
        assert("Attack"@[0] != "Mining"@[0]);
    }
    assert("Attack"@ != "Slayer"@) by {
        assert("Attack"@[0] != "Slayer"@[0]);
    }
    assert("Attack"@ != "Hunter"@) by {
        assert("Attack"@[0] != "Hunter"@[0]);
    }
    assert("Defence"@ != "Cooking"@) by {
        assert("Defence"@[0] != "Cooking"@[0]);
    }
    assert("Defence"@ != "Fishing"@) by {
        assert("Defence"@[0] != "Fishing"@[0]);
    }
    assert("Defence"@ != "Agility"@) by {
        assert("Defence"@[0] != "Agility"@[0]);
    }
    assert("Defence"@ != "Farming"@) by {
        assert("Defence"@[0] != "Farming"@[0]);
    }
    assert("Strength"@ != "Crafting"@) by {
        assert("Strength"@[0] != "Crafting"@[0]);
    }
    assert("Strength"@ != "Smithing"@) by {
        assert("Strength"@[1] != "Smithing"@[1]);
    }
    assert("Strength"@ != "Herblore"@) by {
        assert("Strength"@[0] != "Herblore"@[0]);
    }
    assert("Strength"@ != "Thieving"@) by {
        assert("Strength"@[0] != "Thieving"@[0]);
    }
    assert("Hitpoints"@ != "Fletching"@) by {
        assert("Hitpoints"@[0] != "Fletching"@[0]);
    }
    assert("Ranged"@ != "Prayer"@) by {
        assert("Ranged"@[0] != "Prayer"@[0]);
    }
    assert("Ranged"@ != "Mining"@) by {
        assert("Ranged"@[0] != "Mining"@[0]);
    }
    assert("Ranged"@ != "Slayer"@) by {
        assert("Ranged"@[0] != "Slayer"@[0]);
    }
    assert("Ranged"@ != "Hunter"@) by {
        assert("Ranged"@[0] != "Hunter"@[0]);
    }
    assert("Prayer"@ != "Mining"@) by {
        assert("Prayer"@[0] != "Mining"@[0]);
    }
    assert("Prayer"@ != "Slayer"@) by {
        assert("Prayer"@[0] != "Slayer"@[0]);
    }
    assert("Prayer"@ != "Hunter"@) by {
        assert("Prayer"@[0] != "Hunter"@[0]);
    }
    assert("Cooking"@ != "Fishing"@) by {
        assert("Cooking"@[0] != "Fishing"@[0]);
    }
    assert("Cooking"@ != "Agility"@) by {
        assert("Cooking"@[0] != "Agility"@[0]);
    }
    assert("Cooking"@ != "Farming"@) by {
        assert("Cooking"@[0] != "Farming"@[0]);
    }
    assert("Fishing"@ != "Agility"@) by {
        assert("Fishing"@[0] != "Agility"@[0]);
    }
    assert("Fishing"@ != "Farming"@) by {
        assert("Fishing"@[1] != "Farming"@[1]);
    }
    assert("Crafting"@ != "Smithing"@) by {
        assert("Crafting"@[0] != "Smithing"@[0]);
    }
    assert("Crafting"@ != "Herblore"@) by {
        assert("Crafting"@[0] != "Herblore"@[0]);
    }
    assert("Crafting"@ != "Thieving"@) by {
        assert("Crafting"@[0] != "Thieving"@[0]);
    }
    assert("Smithing"@ != "Herblore"@) by {
        assert("Smithing"@[0] != "Herblore"@[0]);
    }
    assert("Smithing"@ != "Thieving"@) by {
        assert("Smithing"@[0] != "Thieving"@[0]);
    }
    assert("Mining"@ != "Slayer"@) by {
        assert("Mining"@[0] != "Slayer"@[0]);
    }
    assert("Mining"@ != "Hunter"@) by {
        assert("Mining"@[0] != "Hunter"@[0]);
    }
    assert("Herblore"@ != "Thieving"@) by {
        assert("Herblore"@[0] != "Thieving"@[0]);
    }
    assert("Agility"@ != "Farming"@) by {
        assert("Agility"@[0] != "Farming"@[0]);
    }
    assert("Slayer"@ != "Hunter"@) by {
        assert("Slayer"@[0] != "Hunter"@[0]);
    }
    assert("Runecrafting"@ != "Construction"@) by {
        assert("Runecrafting"@[0] != "Construction"@[0]);
    }
}

/// Every canonical `Skill` name is a PascalCase letter token.
pub proof fn lemma_skill_names_pascal(a: Skill)
    ensures
        pascal_token(a.name_spec()),
{
    reveal_strlit("None");
    reveal_strlit("Overall");
    reveal_strlit("Attack");
    reveal_strlit("Defence");
    reveal_strlit("Strength");
    reveal_strlit("Hitpoints");
    reveal_strlit("Ranged");
    reveal_strlit("Prayer");
    reveal_strlit("Magic");
    reveal_strlit("Cooking");
    reveal_strlit("Woodcutting");
    reveal_strlit("Fletching");
    reveal_strlit("Fishing");
    reveal_strlit("Firemaking");
    reveal_strlit("Crafting");
    reveal_strlit("Smithing");
    reveal_strlit("Mining");
    reveal_strlit("Herblore");
    reveal_strlit("Agility");
    reveal_strlit("Thieving");
    reveal_strlit("Slayer");
    reveal_strlit("Farming");
    reveal_strlit("Runecrafting");
    reveal_strlit("Hunter");
    reveal_strlit("Construction");
}

/// A kill-count statistic. The `Unspecified` variant is the placeholder
/// the upstream service names `None`.
#[derive(Debug, Clone, Copy, PartialEq, Eq, Structural)]
pub enum Boss {
    Unspecified,
    AbyssalSire,
    AlchemicalHydra,
    Artio,
    BarrowsChests,
    Bryophyta,
    Callisto,
    Calvarion,
    Cerberus,
    ChambersOfXeric,
    ChambersOfXericChallengeMode,
    ChaosElemental,
    ChaosFanatic,
    CommanderZilyana,
    CorporealBeast,
    CrazyArchaeologist,
    DagannothPrime,
    DagannothRex,
    DagannothSupreme,
    DerangedArchaeologist,
    DukeSucellus,
    GeneralGraardor,
    GiantMole,
    GrotesqueGuardians,
    Hespori,
    KalphiteQueen,
    KingBlackDragon,
    Kraken,
    Kreearra,
    KrilTsutsaroth,
    Mimic,
    Nex,
    Nightmare,
    PhosanisNightmare,
    Obor,
    PhantomMuspah,
    Sarachnis,
    Scorpia,
    Scurrius,
    Skotizo,
    Spindel,
    Tempoross,
    TheGauntlet,
    TheCorruptedGauntlet,
    TheLeviathan,
    TheWhisperer,
    TheatreOfBlood,
    TheatreOfBloodHardMode,
    ThermonuclearSmokeDevil,
    TombsOfAmascut,
    TombsOfAmascutExpert,
    TzkalZuk,
    TztokJad,
    Vardorvis,
    Venenatis,
    Vetion,
    Vorkath,
    Wintertodt,
    Zalcano,
    Zulrah,
}

impl Boss {
    /// The canonical PascalCase name of this boss.
    pub open spec fn name_spec(self) -> Seq<char> {
        match self {
            Boss::Unspecified => "None"@,
            Boss::AbyssalSire => "AbyssalSire"@,
            Boss::AlchemicalHydra => "AlchemicalHydra"@,
            Boss::Artio => "Artio"@,
            Boss::BarrowsChests => "BarrowsChests"@,
            Boss::Bryophyta => "Bryophyta"@,
            Boss::Callisto => "Callisto"@,
            Boss::Calvarion => "Calvarion"@,
            Boss::Cerberus => "Cerberus"@,
            Boss::ChambersOfXeric => "ChambersOfXeric"@,
            Boss::ChambersOfXericChallengeMode => "ChambersOfXericChallengeMode"@,
            Boss::ChaosElemental => "ChaosElemental"@,
            Boss::ChaosFanatic => "ChaosFanatic"@,
            Boss::CommanderZilyana => "CommanderZilyana"@,
            Boss::CorporealBeast => "CorporealBeast"@,
            Boss::CrazyArchaeologist => "CrazyArchaeologist"@,
            Boss::DagannothPrime => "DagannothPrime"@,
            Boss::DagannothRex => "DagannothRex"@,
            Boss::DagannothSupreme => "DagannothSupreme"@,
            Boss::DerangedArchaeologist => "DerangedArchaeologist"@,
            Boss::DukeSucellus => "DukeSucellus"@,
            Boss::GeneralGraardor => "GeneralGraardor"@,
            Boss::GiantMole => "GiantMole"@,
            Boss::GrotesqueGuardians => "GrotesqueGuardians"@,
            Boss::Hespori => "Hespori"@,
            Boss::KalphiteQueen => "KalphiteQueen"@,
            Boss::KingBlackDragon => "KingBlackDragon"@,
            Boss::Kraken => "Kraken"@,
            Boss::Kreearra => "Kreearra"@,
            Boss::KrilTsutsaroth => "KrilTsutsaroth"@,
            Boss::Mimic => "Mimic"@,
            Boss::Nex => "Nex"@,
            Boss::Nightmare => "Nightmare"@,
            Boss::PhosanisNightmare => "PhosanisNightmare"@,
            Boss::Obor => "Obor"@,
            Boss::PhantomMuspah => "PhantomMuspah"@,
            Boss::Sarachnis => "Sarachnis"@,
            Boss::Scorpia => "Scorpia"@,
            Boss::Scurrius => "Scurrius"@,
            Boss::Skotizo => "Skotizo"@,
            Boss::Spindel => "Spindel"@,
            Boss::Tempoross => "Tempoross"@,
            Boss::TheGauntlet => "TheGauntlet"@,
            Boss::TheCorruptedGauntlet => "TheCorruptedGauntlet"@,
            Boss::TheLeviathan => "TheLeviathan"@,
            Boss::TheWhisperer => "TheWhisperer"@,
            Boss::TheatreOfBlood => "TheatreOfBlood"@,
            Boss::TheatreOfBloodHardMode => "TheatreOfBloodHardMode"@,
            Boss::ThermonuclearSmokeDevil => "ThermonuclearSmokeDevil"@,
            Boss::TombsOfAmascut => "TombsOfAmascut"@,
            Boss::TombsOfAmascutExpert => "TombsOfAmascutExpert"@,
            Boss::TzkalZuk => "TzkalZuk"@,
            Boss::TztokJad => "TztokJad"@,
            Boss::Vardorvis => "Vardorvis"@,
            Boss::Venenatis => "Venenatis"@,
            Boss::Vetion => "Vetion"@,
            Boss::Vorkath => "Vorkath"@,
            Boss::Wintertodt => "Wintertodt"@,
            Boss::Zalcano => "Zalcano"@,
            Boss::Zulrah => "Zulrah"@,
        }
    }

    pub fn name(&self) -> (r: &'static str)
        ensures
            r@ == self.name_spec(),
    {
        match self {
            Boss::Unspecified => "None",
            Boss::AbyssalSire => "AbyssalSire",
            Boss::AlchemicalHydra => "AlchemicalHydra",
            Boss::Artio => "Artio",
            Boss::BarrowsChests => "BarrowsChests",
            Boss::Bryophyta => "Bryophyta",
            Boss::Callisto => "Callisto",
            Boss::Calvarion => "Calvarion",
            Boss::Cerberus => "Cerberus",
            Boss::ChambersOfXeric => "ChambersOfXeric",
            Boss::ChambersOfXericChallengeMode => "ChambersOfXericChallengeMode",
            Boss::ChaosElemental => "ChaosElemental",
            Boss::ChaosFanatic => "ChaosFanatic",
            Boss::CommanderZilyana => "CommanderZilyana",
            Boss::CorporealBeast => "CorporealBeast",
            Boss::CrazyArchaeologist => "CrazyArchaeologist",
            Boss::DagannothPrime => "DagannothPrime",
            Boss::DagannothRex => "DagannothRex",
            Boss::DagannothSupreme => "DagannothSupreme",
            Boss::DerangedArchaeologist => "DerangedArchaeologist",
            Boss::DukeSucellus => "DukeSucellus",
            Boss::GeneralGraardor => "GeneralGraardor",
            Boss::GiantMole => "GiantMole",
            Boss::GrotesqueGuardians => "GrotesqueGuardians",
            Boss::Hespori => "Hespori",
            Boss::KalphiteQueen => "KalphiteQueen",
            Boss::KingBlackDragon => "KingBlackDragon",
            Boss::Kraken => "Kraken",
            Boss::Kreearra => "Kreearra",
            Boss::KrilTsutsaroth => "KrilTsutsaroth",
            Boss::Mimic => "Mimic",
            Boss::Nex => "Nex",
            Boss::Nightmare => "Nightmare",
            Boss::PhosanisNightmare => "PhosanisNightmare",
            Boss::Obor => "Obor",
            Boss::PhantomMuspah => "PhantomMuspah",
            Boss::Sarachnis => "Sarachnis",
            Boss::Scorpia => "Scorpia",
            Boss::Scurrius => "Scurrius",
            Boss::Skotizo => "Skotizo",
            Boss::Spindel => "Spindel",
            Boss::Tempoross => "Tempoross",
            Boss::TheGauntlet => "TheGauntlet",
            Boss::TheCorruptedGauntlet => "TheCorruptedGauntlet",
            Boss::TheLeviathan => "TheLeviathan",
            Boss::TheWhisperer => "TheWhisperer",
            Boss::TheatreOfBlood => "TheatreOfBlood",
            Boss::TheatreOfBloodHardMode => "TheatreOfBloodHardMode",
            Boss::ThermonuclearSmokeDevil => "ThermonuclearSmokeDevil",
            Boss::TombsOfAmascut => "TombsOfAmascut",
            Boss::TombsOfAmascutExpert => "TombsOfAmascutExpert",
            Boss::TzkalZuk => "TzkalZuk",
            Boss::TztokJad => "TztokJad",
            Boss::Vardorvis => "Vardorvis",
            Boss::Venenatis => "Venenatis",
            Boss::Vetion => "Vetion",
            Boss::Vorkath => "Vorkath",
            Boss::Wintertodt => "Wintertodt",
            Boss::Zalcano => "Zalcano",
            Boss::Zulrah => "Zulrah",
        }
    }

    /// The boss whose canonical name is `key`, if any.
    pub fn from_name(key: &str) -> (r: Option<Boss>)
        ensures
            r matches Some(v) ==> v.name_spec() == key@,
            r is None ==> forall|v: Boss| (#[trigger] v.name_spec()) != key@,
    {
        if str_eq(key, "None") {
            Some(Boss::Unspecified)
        } else if str_eq(key, "AbyssalSire") {
            Some(Boss::AbyssalSire)
        } else if str_eq(key, "AlchemicalHydra") {
            Some(Boss::AlchemicalHydra)
        } else if str_eq(key, "Artio") {
            Some(Boss::Artio)
        } else if str_eq(key, "BarrowsChests") {
            Some(Boss::BarrowsChests)
        } else if str_eq(key, "Bryophyta") {
            Some(Boss::Bryophyta)
        } else if str_eq(key, "Callisto") {
            Some(Boss::Callisto)
        } else if str_eq(key, "Calvarion") {
            Some(Boss::Calvarion)
        } else if str_eq(key, "Cerberus") {
            Some(Boss::Cerberus)
        } else if str_eq(key, "ChambersOfXeric") {
            Some(Boss::ChambersOfXeric)
        } else if str_eq(key, "ChambersOfXericChallengeMode") {
            Some(Boss::ChambersOfXericChallengeMode)
        } else if str_eq(key, "ChaosElemental") {
            Some(Boss::ChaosElemental)
        } else if str_eq(key, "ChaosFanatic") {
            Some(Boss::ChaosFanatic)
        } else if str_eq(key, "CommanderZilyana") {
            Some(Boss::CommanderZilyana)
        } else if str_eq(key, "CorporealBeast") {
            Some(Boss::CorporealBeast)
        } else if str_eq(key, "CrazyArchaeologist") {
            Some(Boss::CrazyArchaeologist)
        } else if str_eq(key, "DagannothPrime") {
            Some(Boss::DagannothPrime)
        } else if str_eq(key, "DagannothRex") {
            Some(Boss::DagannothRex)
        } else if str_eq(key, "DagannothSupreme") {
            Some(Boss::DagannothSupreme)
        } else if str_eq(key, "DerangedArchaeologist") {
            Some(Boss::DerangedArchaeologist)
        } else if str_eq(key, "DukeSucellus") {
            Some(Boss::DukeSucellus)
        } else if str_eq(key, "GeneralGraardor") {
            Some(Boss::GeneralGraardor)
        } else if str_eq(key, "GiantMole") {
            Some(Boss::GiantMole)
        } else if str_eq(key, "GrotesqueGuardians") {
            Some(Boss::GrotesqueGuardians)
        } else if str_eq(key, "Hespori") {
            Some(Boss::Hespori)
        } else if str_eq(key, "KalphiteQueen") {
            Some(Boss::KalphiteQueen)
        } else if str_eq(key, "KingBlackDragon") {
            Some(Boss::KingBlackDragon)
        } else if str_eq(key, "Kraken") {
            Some(Boss::Kraken)
        } else if str_eq(key, "Kreearra") {
            Some(Boss::Kreearra)
        } else if str_eq(key, "KrilTsutsaroth") {
            Some(Boss::KrilTsutsaroth)
        } else if str_eq(key, "Mimic") {
            Some(Boss::Mimic)
        } else if str_eq(key, "Nex") {
            Some(Boss::Nex)
        } else if str_eq(key, "Nightmare") {
            Some(Boss::Nightmare)
        } else if str_eq(key, "PhosanisNightmare") {
            Some(Boss::PhosanisNightmare)
        } else if str_eq(key, "Obor") {
            Some(Boss::Obor)
        } else if str_eq(key, "PhantomMuspah") {
            Some(Boss::PhantomMuspah)
        } else if str_eq(key, "Sarachnis") {
            Some(Boss::Sarachnis)
        } else if str_eq(key, "Scorpia") {
            Some(Boss::Scorpia)
        } else if str_eq(key, "Scurrius") {
            Some(Boss::Scurrius)
        } else if str_eq(key, "Skotizo") {
            Some(Boss::Skotizo)
        } else if str_eq(key, "Spindel") {
            Some(Boss::Spindel)
        } else if str_eq(key, "Tempoross") {
            Some(Boss::Tempoross)
        } else if str_eq(key, "TheGauntlet") {
            Some(Boss::TheGauntlet)
        } else if str_eq(key, "TheCorruptedGauntlet") {
            Some(Boss::TheCorruptedGauntlet)
        } else if str_eq(key, "TheLeviathan") {
            Some(Boss::TheLeviathan)
        } else if str_eq(key, "TheWhisperer") {
            Some(Boss::TheWhisperer)
        } else if str_eq(key, "TheatreOfBlood") {
            Some(Boss::TheatreOfBlood)
        } else if str_eq(key, "TheatreOfBloodHardMode") {
            Some(Boss::TheatreOfBloodHardMode)
        } else if str_eq(key, "ThermonuclearSmokeDevil") {
            Some(Boss::ThermonuclearSmokeDevil)
        } else if str_eq(key, "TombsOfAmascut") {
            Some(Boss::TombsOfAmascut)
        } else if str_eq(key, "TombsOfAmascutExpert") {
            Some(Boss::TombsOfAmascutExpert)
        } else if str_eq(key, "TzkalZuk") {
            Some(Boss::TzkalZuk)
        } else if str_eq(key, "TztokJad") {
            Some(Boss::TztokJad)
        } else if str_eq(key, "Vardorvis") {
            Some(Boss::Vardorvis)
        } else if str_eq(key, "Venenatis") {
            Some(Boss::Venenatis)
        } else if str_eq(key, "Vetion") {
            Some(Boss::Vetion)
        } else if str_eq(key, "Vorkath") {
            Some(Boss::Vorkath)
        } else if str_eq(key, "Wintertodt") {
            Some(Boss::Wintertodt)
        } else if str_eq(key, "Zalcano") {
            Some(Boss::Zalcano)
        } else if str_eq(key, "Zulrah") {
            Some(Boss::Zulrah)
        } else {
            None
        }
    }
}

impl Default for Boss {
    /// The placeholder is the default, as on the wire.
    fn default() -> (r: Boss)
        ensures
            r == Boss::Unspecified,
    {
        Boss::Unspecified
    }
}

/// Distinct variants of `Boss` have distinct canonical names.
pub proof fn lemma_boss_names_injective(a: Boss, b: Boss)
    requires
        a.name_spec() == b.name_spec(),
    ensures
        a == b,
{
    reveal_strlit("None");
    reveal_strlit("AbyssalSire");
    reveal_strlit("AlchemicalHydra");
    reveal_strlit("Artio");
    reveal_strlit("BarrowsChests");
    reveal_strlit("Bryophyta");
    reveal_strlit("Callisto");
    reveal_strlit("Calvarion");
    reveal_strlit("Cerberus");
    reveal_strlit("ChambersOfXeric");
    reveal_strlit("ChambersOfXericChallengeMode");
    reveal_strlit("ChaosElemental");
    reveal_strlit("ChaosFanatic");
    reveal_strlit("CommanderZilyana");
    reveal_strlit("CorporealBeast");
    reveal_strlit("CrazyArchaeologist");
    reveal_strlit("DagannothPrime");
    reveal_strlit("DagannothRex");
    reveal_strlit("DagannothSupreme");
    reveal_strlit("DerangedArchaeologist");
    reveal_strlit("DukeSucellus");
    reveal_strlit("GeneralGraardor");
    reveal_strlit("GiantMole");
    reveal_strlit("GrotesqueGuardians");
    reveal_strlit("Hespori");
    reveal_strlit("KalphiteQueen");
    reveal_strlit("KingBlackDragon");
    reveal_strlit("Kraken");
    reveal_strlit("Kreearra");
    reveal_strlit("KrilTsutsaroth");
    reveal_strlit("Mimic");
    reveal_strlit("Nex");
    reveal_strlit("Nightmare");
    reveal_strlit("PhosanisNightmare");
    reveal_strlit("Obor");
    reveal_strlit("PhantomMuspah");
    reveal_strlit("Sarachnis");
    reveal_strlit("Scorpia");
    reveal_strlit("Scurrius");
    reveal_strlit("Skotizo");
    reveal_strlit("Spindel");
    reveal_strlit("Tempoross");
    reveal_strlit("TheGauntlet");
    reveal_strlit("TheCorruptedGauntlet");
    reveal_strlit("TheLeviathan");
    reveal_strlit("TheWhisperer");
    reveal_strlit("TheatreOfBlood");
    reveal_strlit("TheatreOfBloodHardMode");
    reveal_strlit("ThermonuclearSmokeDevil");
    reveal_strlit("TombsOfAmascut");
    reveal_strlit("TombsOfAmascutExpert");
    reveal_strlit("TzkalZuk");
    reveal_strlit("TztokJad");
    reveal_strlit("Vardorvis");
    reveal_strlit("Venenatis");
    reveal_strlit("Vetion");
    reveal_strlit("Vorkath");
    reveal_strlit("Wintertodt");
    reveal_strlit("Zalcano");
    reveal_strlit("Zulrah");
    assert("None"@.len() == 4);
    assert("AbyssalSire"@.len() == 11);
    assert("AlchemicalHydra"@.len() == 15);
    assert("Artio"@.len() == 5);
    assert("BarrowsChests"@.len() == 13);
    assert("Bryophyta"@.len() == 9);
    assert("Callisto"@.len() == 8);
    assert("Calvarion"@.len() == 9);
    assert("Cerberus"@.len() == 8);
    assert("ChambersOfXeric"@.len() == 15);
    assert("ChambersOfXericChallengeMode"@.len() == 28);
    assert("ChaosElemental"@.len() == 14);
    assert("ChaosFanatic"@.len() == 12);
    assert("CommanderZilyana"@.len() == 16);
    assert("CorporealBeast"@.len() == 14);
    assert("CrazyArchaeologist"@.len() == 18);
    assert("DagannothPrime"@.len() == 14);
    assert("DagannothRex"@.len() == 12);
    assert("DagannothSupreme"@.len() == 16);
    assert("DerangedArchaeologist"@.len() == 21);
    assert("DukeSucellus"@.len() == 12);
    assert("GeneralGraardor"@.len() == 15);
    assert("GiantMole"@.len() == 9);
    assert("GrotesqueGuardians"@.len() == 18);
    assert("Hespori"@.len() == 7);
    assert("KalphiteQueen"@.len() == 13);
    assert("KingBlackDragon"@.len() == 15);
    assert("Kraken"@.len() == 6);
    assert("Kreearra"@.len() == 8);
    assert("KrilTsutsaroth"@.len() == 14);
    assert("Mimic"@.len() == 5);
    assert("Nex"@.len() == 3);
    assert("Nightmare"@.len() == 9);
    assert("PhosanisNightmare"@.len() == 17);
    assert("Obor"@.len() == 4);
    assert("PhantomMuspah"@.len() == 13);
    assert("Sarachnis"@.len() == 9);
    assert("Scorpia"@.len() == 7);
    assert("Scurrius"@.len() == 8);
    assert("Skotizo"@.len() == 7);
    assert("Spindel"@.len() == 7);
    assert("Tempoross"@.len() == 9);
    assert("TheGauntlet"@.len() == 11);
    assert("TheCorruptedGauntlet"@.len() == 20);
    assert("TheLeviathan"@.len() == 12);
    assert("TheWhisperer"@.len() == 12);
    assert("TheatreOfBlood"@.len() == 14);
    assert("TheatreOfBloodHardMode"@.len() == 22);
    assert("ThermonuclearSmokeDevil"@.len() == 23);
    assert("TombsOfAmascut"@.len() == 14);
    assert("TombsOfAmascutExpert"@.len() == 20);
    assert("TzkalZuk"@.len() == 8);
    assert("TztokJad"@.len() == 8);
    assert("Vardorvis"@.len() == 9);
    assert("Venenatis"@.len() == 9);
    assert("Vetion"@.len() == 6);
    assert("Vorkath"@.len() == 7);
    assert("Wintertodt"@.len() == 10);
    assert("Zalcano"@.len() == 7);
    assert("Zulrah"@.len() == 6);
    assert("None"@ != "Obor"@) by {
        assert("None"@[0] != "Obor"@[0]);
    }
    assert("AbyssalSire"@ != "TheGauntlet"@) by {
        assert("AbyssalSire"@[0] != "TheGauntlet"@[0]);
    }
    assert("AlchemicalHydra"@ != "ChambersOfXeric"@) by {
        assert("AlchemicalHydra"@[0] != "ChambersOfXeric"@[0]);
    }
    assert("AlchemicalHydra"@ != "GeneralGraardor"@) by {
        assert("AlchemicalHydra"@[0] != "GeneralGraardor"@[0]);
    }
    assert("AlchemicalHydra"@ != "KingBlackDragon"@) by {
        assert("AlchemicalHydra"@[0] != "KingBlackDragon"@[0]);
    }
    assert("Artio"@ != "Mimic"@) by {
        assert("Artio"@[0] != "Mimic"@[0]);
    }
    assert("BarrowsChests"@ != "KalphiteQueen"@) by {
        assert("BarrowsChests"@[0] != "KalphiteQueen"@[0]);
    }
    assert("BarrowsChests"@ != "PhantomMuspah"@) by {
        assert("BarrowsChests"@[0] != "PhantomMuspah"@[0]);
    }
    assert("Bryophyta"@ != "Calvarion"@) by {
        assert("Bryophyta"@[0] != "Calvarion"@[0]);
    }
    assert("Bryophyta"@ != "GiantMole"@) by {
        assert("Bryophyta"@[0] != "GiantMole"@[0]);
    }
    assert("Bryophyta"@ != "Nightmare"@) by {
        assert("Bryophyta"@[0] != "Nightmare"@[0]);
    }
    assert("Bryophyta"@ != "Sarachnis"@) by {
        assert("Bryophyta"@[0] != "Sarachnis"@[0]);
    }
    assert("Bryophyta"@ != "Tempoross"@) by {
        assert("Bryophyta"@[0] != "Tempoross"@[0]);
    }
    assert("Bryophyta"@ != "Vardorvis"@) by {
        assert("Bryophyta"@[0] != "Vardorvis"@[0]);
    }
    assert("Bryophyta"@ != "Venenatis"@) by {
        assert("Bryophyta"@[0] != "Venenatis"@[0]);
    }
    assert("Callisto"@ != "Cerberus"@) by {
        assert("Callisto"@[1] != "Cerberus"@[1]);
    }
    assert("Callisto"@ != "Kreearra"@) by {
        assert("Callisto"@[0] != "Kreearra"@[0]);
    }
    assert("Callisto"@ != "Scurrius"@) by {
        assert("Callisto"@[0] != "Scurrius"@[0]);
    }
    assert("Callisto"@ != "TzkalZuk"@) by {
        assert("Callisto"@[0] != "TzkalZuk"@[0]);
    }
    assert("Callisto"@ != "TztokJad"@) by {
        assert("Callisto"@[0] != "TztokJad"@[0]);
    }
    assert("Calvarion"@ != "GiantMole"@) by {
        assert("Calvarion"@[0] != "GiantMole"@[0]);
    }
    assert("Calvarion"@ != "Nightmare"@) by {
        assert("Calvarion"@[0] != "Nightmare"@[0]);
    }
    assert("Calvarion"@ != "Sarachnis"@) by {
        assert("Calvarion"@[0] != "Sarachnis"@[0]);
    }
    assert("Calvarion"@ != "Tempoross"@) by {
        assert("Calvarion"@[0] != "Tempoross"@[0]);
    }
    assert("Calvarion"@ != "Vardorvis"@) by {
        assert("Calvarion"@[0] != "Vardorvis"@[0]);
    }
    assert("Calvarion"@ != "Venenatis"@) by {
        assert("Calvarion"@[0] != "Venenatis"@[0]);
    }
    assert("Cerberus"@ != "Kreearra"@) by {
        assert("Cerberus"@[0] != "Kreearra"@[0]);
    }
    assert("Cerberus"@ != "Scurrius"@) by {
        assert("Cerberus"@[0] != "Scurrius"@[0]);
    }
    assert("Cerberus"@ != "TzkalZuk"@) by {
        assert("Cerberus"@[0] != "TzkalZuk"@[0]);
    }
    assert("Cerberus"@ != "TztokJad"@) by {
        assert("Cerberus"@[0] != "TztokJad"@[0]);
    }
    assert("ChambersOfXeric"@ != "GeneralGraardor"@) by {
        assert("ChambersOfXeric"@[0] != "GeneralGraardor"@[0]);
    }
    assert("ChambersOfXeric"@ != "KingBlackDragon"@) by {
        assert("ChambersOfXeric"@[0] != "KingBlackDragon"@[0]);
    }
    assert("ChaosElemental"@ != "CorporealBeast"@) by {
        assert("ChaosElemental"@[1] != "CorporealBeast"@[1]);
    }
    assert("ChaosElemental"@ != "DagannothPrime"@) by {
        assert("ChaosElemental"@[0] != "DagannothPrime"@[0]);
    }
    assert("ChaosElemental"@ != "KrilTsutsaroth"@) by {
        assert("ChaosElemental"@[0] != "KrilTsutsaroth"@[0]);
    }
    assert("ChaosElemental"@ != "TheatreOfBlood"@) by {
        assert("ChaosElemental"@[0] != "TheatreOfBlood"@[0]);
    }
    assert("ChaosElemental"@ != "TombsOfAmascut"@) by {
        assert("ChaosElemental"@[0] != "TombsOfAmascut"@[0]);
    }
    assert("ChaosFanatic"@ != "DagannothRex"@) by {
        assert("ChaosFanatic"@[0] != "DagannothRex"@[0]);
    }
    assert("ChaosFanatic"@ != "DukeSucellus"@) by {
        assert("ChaosFanatic"@[0] != "DukeSucellus"@[0]);
    }
    assert("ChaosFanatic"@ != "TheLeviathan"@) by {
        assert("ChaosFanatic"@[0] != "TheLeviathan"@[0]);
    }
    assert("ChaosFanatic"@ != "TheWhisperer"@) by {
        assert("ChaosFanatic"@[0] != "TheWhisperer"@[0]);
    }
    assert("CommanderZilyana"@ != "DagannothSupreme"@) by {
        assert("CommanderZilyana"@[0] != "DagannothSupreme"@[0]);
    }
    assert("CorporealBeast"@ != "DagannothPrime"@) by {
        assert("CorporealBeast"@[0] != "DagannothPrime"@[0]);
    }
    assert("CorporealBeast"@ != "KrilTsutsaroth"@) by {
        assert("CorporealBeast"@[0] != "KrilTsutsaroth"@[0]);
    }
    assert("CorporealBeast"@ != "TheatreOfBlood"@) by {
        assert("CorporealBeast"@[0] != "TheatreOfBlood"@[0]);
    }
    assert("CorporealBeast"@ != "TombsOfAmascut"@) by {
        assert("CorporealBeast"@[0] != "TombsOfAmascut"@[0]);
    }
    assert("CrazyArchaeologist"@ != "GrotesqueGuardians"@) by {
        assert("CrazyArchaeologist"@[0] != "GrotesqueGuardians"@[0]);
    }
    assert("DagannothPrime"@ != "KrilTsutsaroth"@) by {
        assert("DagannothPrime"@[0] != "KrilTsutsaroth"@[0]);
    }
    assert("DagannothPrime"@ != "TheatreOfBlood"@) by {
        assert("DagannothPrime"@[0] != "TheatreOfBlood"@[0]);
    }
    assert("DagannothPrime"@ != "TombsOfAmascut"@) by {
        assert("DagannothPrime"@[0] != "TombsOfAmascut"@[0]);
    }
    assert("DagannothRex"@ != "DukeSucellus"@) by {
        assert("DagannothRex"@[1] != "DukeSucellus"@[1]);
    }
    assert("DagannothRex"@ != "TheLeviathan"@) by {
        assert("DagannothRex"@[0] != "TheLeviathan"@[0]);
    }
    assert("DagannothRex"@ != "TheWhisperer"@) by {
        assert("DagannothRex"@[0] != "TheWhisperer"@[0]);
    }
    assert("DukeSucellus"@ != "TheLeviathan"@) by {
        assert("DukeSucellus"@[0] != "TheLeviathan"@[0]);
    }
    assert("DukeSucellus"@ != "TheWhisperer"@) by {
        assert("DukeSucellus"@[0] != "TheWhisperer"@[0]);
    }
    assert("GeneralGraardor"@ != "KingBlackDragon"@) by {
        assert("GeneralGraardor"@[0] != "KingBlackDragon"@[0]);
    }
    assert("GiantMole"@ != "Nightmare"@) by {
        assert("GiantMole"@[0] != "Nightmare"@[0]);
    }
    assert("GiantMole"@ != "Sarachnis"@) by {
        assert("GiantMole"@[0] != "Sarachnis"@[0]);
    }
    assert("GiantMole"@ != "Tempoross"@) by {
        assert("GiantMole"@[0] != "Tempoross"@[0]);
    }
    assert("GiantMole"@ != "Vardorvis"@) by {
        assert("GiantMole"@[0] != "Vardorvis"@[0]);
    }
    assert("GiantMole"@ != "Venenatis"@) by {
        assert("GiantMole"@[0] != "Venenatis"@[0]);
    }
    assert("Hespori"@ != "Scorpia"@) by {
        assert("Hespori"@[0] != "Scorpia"@[0]);
    }
    assert("Hespori"@ != "Skotizo"@) by {
        assert("Hespori"@[0] != "Skotizo"@[0]);
    }
    assert("Hespori"@ != "Spindel"@) by {
        assert("Hespori"@[0] != "Spindel"@[0]);
    }
    assert("Hespori"@ != "Vorkath"@) by {
        assert("Hespori"@[0] != "Vorkath"@[0]);
    }
    assert("Hespori"@ != "Zalcano"@) by {
        assert("Hespori"@[0] != "Zalcano"@[0]);
    }
    assert("KalphiteQueen"@ != "PhantomMuspah"@) by {
        assert("KalphiteQueen"@[0] != "PhantomMuspah"@[0]);
    }
    assert("Kraken"@ != "Vetion"@) by {
        assert("Kraken"@[0] != "Vetion"@[0]);
    }
    assert("Kraken"@ != "Zulrah"@) by {
        assert("Kraken"@[0] != "Zulrah"@[0]);
    }
    assert("Kreearra"@ != "Scurrius"@) by {
        assert("Kreearra"@[0] != "Scurrius"@[0]);
    }
    assert("Kreearra"@ != "TzkalZuk"@) by {
        assert("Kreearra"@[0] != "TzkalZuk"@[0]);
    }
    assert("Kreearra"@ != "TztokJad"@) by {
        assert("Kreearra"@[0] != "TztokJad"@[0]);
    }
    assert("KrilTsutsaroth"@ != "TheatreOfBlood"@) by {
        assert("KrilTsutsaroth"@[0] != "TheatreOfBlood"@[0]);
    }
    assert("KrilTsutsaroth"@ != "TombsOfAmascut"@) by {
        assert("KrilTsutsaroth"@[0] != "TombsOfAmascut"@[0]);
    }
    assert("Nightmare"@ != "Sarachnis"@) by {
        assert("Nightmare"@[0] != "Sarachnis"@[0]);
    }
    assert("Nightmare"@ != "Tempoross"@) by {
        assert("Nightmare"@[0] != "Tempoross"@[0]);
    }
    assert("Nightmare"@ != "Vardorvis"@) by {
        assert("Nightmare"@[0] != "Vardorvis"@[0]);
    }
    assert("Nightmare"@ != "Venenatis"@) by {
        assert("Nightmare"@[0] != "Venenatis"@[0]);
    }
    assert("Sarachnis"@ != "Tempoross"@) by {
        assert("Sarachnis"@[0] != "Tempoross"@[0]);
    }
    assert("Sarachnis"@ != "Vardorvis"@) by {
        assert("Sarachnis"@[0] != "Vardorvis"@[0]);
    }
    assert("Sarachnis"@ != "Venenatis"@) by {
        assert("Sarachnis"@[0] != "Venenatis"@[0]);
    }
    assert("Scorpia"@ != "Skotizo"@) by {
        assert("Scorpia"@[1] != "Skotizo"@[1]);
    }
    assert("Scorpia"@ != "Spindel"@) by {
        assert("Scorpia"@[1] != "Spindel"@[1]);
    }
    assert("Scorpia"@ != "Vorkath"@) by {
        assert("Scorpia"@[0] != "Vorkath"@[0]);
    }
    assert("Scorpia"@ != "Zalcano"@) by {
        assert("Scorpia"@[0] != "Zalcano"@[0]);
    }
    assert("Scurrius"@ != "TzkalZuk"@) by {
        assert("Scurrius"@[0] != "TzkalZuk"@[0]);
    }
    assert("Scurrius"@ != "TztokJad"@) by {
        assert("Scurrius"@[0] != "TztokJad"@[0]);
    }
    assert("Skotizo"@ != "Spindel"@) by {
        assert("Skotizo"@[1] != "Spindel"@[1]);
    }
    assert("Skotizo"@ != "Vorkath"@) by {
        assert("Skotizo"@[0] != "Vorkath"@[0]);
    }
    assert("Skotizo"@ != "Zalcano"@) by {
        assert("Skotizo"@[0] != "Zalcano"@[0]);
    }
    assert("Spindel"@ != "Vorkath"@) by {
        assert("Spindel"@[0] != "Vorkath"@[0]);
    }
    assert("Spindel"@ != "Zalcano"@) by {
        assert("Spindel"@[0] != "Zalcano"@[0]);
    }
    assert("Tempoross"@ != "Vardorvis"@) by {
        assert("Tempoross"@[0] != "Vardorvis"@[0]);
    }
    assert("Tempoross"@ != "Venenatis"@) by {
        assert("Tempoross"@[0] != "Venenatis"@[0]);
    }
    assert("TheCorruptedGauntlet"@ != "TombsOfAmascutExpert"@) by {
        assert("TheCorruptedGauntlet"@[1] != "TombsOfAmascutExpert"@[1]);
    }
    assert("TheLeviathan"@ != "TheWhisperer"@) by {
        assert("TheLeviathan"@[3] != "TheWhisperer"@[3]);
    }
    assert("TheatreOfBlood"@ != "TombsOfAmascut"@) by {
        assert("TheatreOfBlood"@[1] != "TombsOfAmascut"@[1]);
    }
    assert("TzkalZuk"@ != "TztokJad"@) by {
        assert("TzkalZuk"@[2] != "TztokJad"@[2]);
    }
    assert("Vardorvis"@ != "Venenatis"@) by {
        assert("Vardorvis"@[1] != "Venenatis"@[1]);
    }
    assert("Vetion"@ != "Zulrah"@) by {
        assert("Vetion"@[0] != "Zulrah"@[0]);
    }
    assert("Vorkath"@ != "Zalcano"@) by {
        assert("Vorkath"@[0] != "Zalcano"@[0]);
    }
}

/// Every canonical `Boss` name is a PascalCase letter token.
pub proof fn lemma_boss_names_pascal(a: Boss)
    ensures
        pascal_token(a.name_spec()),
{
    reveal_strlit("None");
    reveal_strlit("AbyssalSire");
    reveal_strlit("AlchemicalHydra");
    reveal_strlit("Artio");
    reveal_strlit("BarrowsChests");
    reveal_strlit("Bryophyta");
    reveal_strlit("Callisto");
    reveal_strlit("Calvarion");
    reveal_strlit("Cerberus");
    reveal_strlit("ChambersOfXeric");
    reveal_strlit("ChambersOfXericChallengeMode");
    reveal_strlit("ChaosElemental");
    reveal_strlit("ChaosFanatic");
    reveal_strlit("CommanderZilyana");
    reveal_strlit("CorporealBeast");
    reveal_strlit("CrazyArchaeologist");
    reveal_strlit("DagannothPrime");
    reveal_strlit("DagannothRex");
    reveal_strlit("DagannothSupreme");
    reveal_strlit("DerangedArchaeologist");
    reveal_strlit("DukeSucellus");
    reveal_strlit("GeneralGraardor");
    reveal_strlit("GiantMole");
    reveal_strlit("GrotesqueGuardians");
    reveal_strlit("Hespori");
    reveal_strlit("KalphiteQueen");
    reveal_strlit("KingBlackDragon");
    reveal_strlit("Kraken");
    reveal_strlit("Kreearra");
    reveal_strlit("KrilTsutsaroth");
    reveal_strlit("Mimic");
    reveal_strlit("Nex");
    reveal_strlit("Nightmare");
    reveal_strlit("PhosanisNightmare");
    reveal_strlit("Obor");
    reveal_strlit("PhantomMuspah");
    reveal_strlit("Sarachnis");
    reveal_strlit("Scorpia");
    reveal_strlit("Scurrius");
    reveal_strlit("Skotizo");
    reveal_strlit("Spindel");
    reveal_strlit("Tempoross");
    reveal_strlit("TheGauntlet");
    reveal_strlit("TheCorruptedGauntlet");
    reveal_strlit("TheLeviathan");
    reveal_strlit("TheWhisperer");
    reveal_strlit("TheatreOfBlood");
    reveal_strlit("TheatreOfBloodHardMode");
    reveal_strlit("ThermonuclearSmokeDevil");
    reveal_strlit("TombsOfAmascut");
    reveal_strlit("TombsOfAmascutExpert");
    reveal_strlit("TzkalZuk");
    reveal_strlit("TztokJad");
    reveal_strlit("Vardorvis");
    reveal_strlit("Venenatis");
    reveal_strlit("Vetion");
    reveal_strlit("Vorkath");
    reveal_strlit("Wintertodt");
    reveal_strlit("Zalcano");
    reveal_strlit("Zulrah");
}

/// A derived statistic computed by the service. The `Unspecified` variant
/// is the placeholder the upstream service names `None`.
#[derive(Debug, Clone, Copy, PartialEq, Eq, Structural)]
pub enum ComputedMetricEnum {
    Unspecified,
    Ehp,
    Ehb,
}

impl ComputedMetricEnum {
    /// The canonical PascalCase name of this computed metric.
    pub open spec fn name_spec(self) -> Seq<char> {
        match self {
            ComputedMetricEnum::Unspecified => "None"@,
            ComputedMetricEnum::Ehp => "Ehp"@,
            ComputedMetricEnum::Ehb => "Ehb"@,
        }
    }

    pub fn name(&self) -> (r: &'static str)
        ensures
            r@ == self.name_spec(),
    {
        match self {
            ComputedMetricEnum::Unspecified => "None",
            ComputedMetricEnum::Ehp => "Ehp",
            ComputedMetricEnum::Ehb => "Ehb",
        }
    }

    /// The computed metric whose canonical name is `key`, if any.
    pub fn from_name(key: &str) -> (r: Option<ComputedMetricEnum>)
        ensures
            r matches Some(v) ==> v.name_spec() == key@,
            r is None ==> forall|v: ComputedMetricEnum| (#[trigger] v.name_spec()) != key@,
    {
        if str_eq(key, "None") {
            Some(ComputedMetricEnum::Unspecified)
        } else if str_eq(key, "Ehp") {
            Some(ComputedMetricEnum::Ehp)
        } else if str_eq(key, "Ehb") {
            Some(ComputedMetricEnum::Ehb)
        } else {
            None
        }
    }
}

impl Default for ComputedMetricEnum {
    /// The placeholder is the default, as on the wire.
    fn default() -> (r: ComputedMetricEnum)
        ensures
            r == ComputedMetricEnum::Unspecified,
    {
        ComputedMetricEnum::Unspecified
    }
}

/// Distinct variants of `ComputedMetricEnum` have distinct canonical names.
pub proof fn lemma_computed_metric_names_injective(a: ComputedMetricEnum, b: ComputedMetricEnum)
    requires
        a.name_spec() == b.name_spec(),
    ensures
        a == b,
{
    reveal_strlit("None");
    reveal_strlit("Ehp");
    reveal_strlit("Ehb");
    assert("None"@.len() == 4);
    assert("Ehp"@.len() == 3);
    assert("Ehb"@.len() == 3);
    assert("Ehp"@ != "Ehb"@) by {
        assert("Ehp"@[2] != "Ehb"@[2]);
    }
}

/// Every canonical `ComputedMetricEnum` name is a PascalCase letter token.
pub proof fn lemma_computed_metric_names_pascal(a: ComputedMetricEnum)
    ensures
        pascal_token(a.name_spec()),
{
    reveal_strlit("None");
    reveal_strlit("Ehp");
    reveal_strlit("Ehb");
}

/// A score-based minigame statistic. The `Unspecified` variant is the
/// placeholder the upstream service names `None`.
#[derive(Debug, Clone, Copy, PartialEq, Eq, Structural)]
pub enum Activity {
    Unspecified,
    LeaguePoints,
    BountyHunterHunter,
    BountyHunterRogue,
    ClueScrollsAll,
    ClueScrollsBeginner,
    ClueScrollsEasy,
    ClueScrollsMedium,
    ClueScrollsHard,
    ClueScrollsElite,
    ClueScrollsMaster,
    LastManStanding,
    PvpArena,
    SoulWarsZeal,
    GuardiansOfTheRift,
}

impl Activity {
    /// The canonical PascalCase name of this activity.
    pub open spec fn name_spec(self) -> Seq<char> {
        match self {
            Activity::Unspecified => "None"@,
            Activity::LeaguePoints => "LeaguePoints"@,
            Activity::BountyHunterHunter => "BountyHunterHunter"@,
            Activity::BountyHunterRogue => "BountyHunterRogue"@,
            Activity::ClueScrollsAll => "ClueScrollsAll"@,
            Activity::ClueScrollsBeginner => "ClueScrollsBeginner"@,
            Activity::ClueScrollsEasy => "ClueScrollsEasy"@,
            Activity::ClueScrollsMedium => "ClueScrollsMedium"@,
            Activity::ClueScrollsHard => "ClueScrollsHard"@,
            Activity::ClueScrollsElite => "ClueScrollsElite"@,
            Activity::ClueScrollsMaster => "ClueScrollsMaster"@,
            Activity::LastManStanding => "LastManStanding"@,
            Activity::PvpArena => "PvpArena"@,
            Activity::SoulWarsZeal => "SoulWarsZeal"@,
            Activity::GuardiansOfTheRift => "GuardiansOfTheRift"@,
        }
    }

    pub fn name(&self) -> (r: &'static str)
        ensures
            r@ == self.name_spec(),
    {
        match self {
            Activity::Unspecified => "None",
            Activity::LeaguePoints => "LeaguePoints",
            Activity::BountyHunterHunter => "BountyHunterHunter",
            Activity::BountyHunterRogue => "BountyHunterRogue",
            Activity::ClueScrollsAll => "ClueScrollsAll",
            Activity::ClueScrollsBeginner => "ClueScrollsBeginner",
            Activity::ClueScrollsEasy => "ClueScrollsEasy",
            Activity::ClueScrollsMedium => "ClueScrollsMedium",
            Activity::ClueScrollsHard => "ClueScrollsHard",
            Activity::ClueScrollsElite => "ClueScrollsElite",
            Activity::ClueScrollsMaster => "ClueScrollsMaster",
            Activity::LastManStanding => "LastManStanding",
            Activity::PvpArena => "PvpArena",
            Activity::SoulWarsZeal => "SoulWarsZeal",
            Activity::GuardiansOfTheRift => "GuardiansOfTheRift",
        }
    }

    /// The activity whose canonical name is `key`, if any.
    pub fn from_name(key: &str) -> (r: Option<Activity>)
        ensures
            r matches Some(v) ==> v.name_spec() == key@,
            r is None ==> forall|v: Activity| (#[trigger] v.name_spec()) != key@,
    {
        if str_eq(key, "None") {
            Some(Activity::Unspecified)
        } else if str_eq(key, "LeaguePoints") {
            Some(Activity::LeaguePoints)
        } else if str_eq(key, "BountyHunterHunter") {
            Some(Activity::BountyHunterHunter)
        } else if str_eq(key, "BountyHunterRogue") {
            Some(Activity::BountyHunterRogue)
        } else if str_eq(key, "ClueScrollsAll") {
            Some(Activity::ClueScrollsAll)
        } else if str_eq(key, "ClueScrollsBeginner") {
            Some(Activity::ClueScrollsBeginner)
        } else if str_eq(key, "ClueScrollsEasy") {
            Some(Activity::ClueScrollsEasy)
        } else if str_eq(key, "ClueScrollsMedium") {
            Some(Activity::ClueScrollsMedium)
        } else if str_eq(key, "ClueScrollsHard") {
            Some(Activity::ClueScrollsHard)
        } else if str_eq(key, "ClueScrollsElite") {
            Some(Activity::ClueScrollsElite)
        } else if str_eq(key, "ClueScrollsMaster") {
            Some(Activity::ClueScrollsMaster)
        } else if str_eq(key, "LastManStanding") {
            Some(Activity::LastManStanding)
        } else if str_eq(key, "PvpArena") {
            Some(Activity::PvpArena)
        } else if str_eq(key, "SoulWarsZeal") {
            Some(Activity::SoulWarsZeal)
        } else if str_eq(key, "GuardiansOfTheRift") {
            Some(Activity::GuardiansOfTheRift)
        } else {
            None
        }
    }
}

impl Default for Activity {
    /// The placeholder is the default, as on the wire.
    fn default() -> (r: Activity)
        ensures
            r == Activity::Unspecified,
    {
        Activity::Unspecified
    }
}

/// Distinct variants of `Activity` have distinct canonical names.
pub proof fn lemma_activity_names_injective(a: Activity, b: Activity)
    requires
        a.name_spec() == b.name_spec(),
    ensures
        a == b,
{
    reveal_strlit("None");
    reveal_strlit("LeaguePoints");
    reveal_strlit("BountyHunterHunter");
    reveal_strlit("BountyHunterRogue");
    reveal_strlit("ClueScrollsAll");
    reveal_strlit("ClueScrollsBeginner");
    reveal_strlit("ClueScrollsEasy");
    reveal_strlit("ClueScrollsMedium");
    reveal_strlit("ClueScrollsHard");
    reveal_strlit("ClueScrollsElite");
    reveal_strlit("ClueScrollsMaster");
    reveal_strlit("LastManStanding");
    reveal_strlit("PvpArena");
    reveal_strlit("SoulWarsZeal");
    reveal_strlit("GuardiansOfTheRift");
    assert("None"@.len() == 4);
    assert("LeaguePoints"@.len() == 12);
    assert("BountyHunterHunter"@.len() == 18);
    assert("BountyHunterRogue"@.len() == 17);
    assert("ClueScrollsAll"@.len() == 14);
    assert("ClueScrollsBeginner"@.len() == 19);
    assert("ClueScrollsEasy"@.len() == 15);
    assert("ClueScrollsMedium"@.len() == 17);
    assert("ClueScrollsHard"@.len() == 15);
    assert("ClueScrollsElite"@.len() == 16);
    assert("ClueScrollsMaster"@.len() == 17);
    assert("LastManStanding"@.len() == 15);
    assert("PvpArena"@.len() == 8);
    assert("SoulWarsZeal"@.len() == 12);
    assert("GuardiansOfTheRift"@.len() == 18);
    assert("LeaguePoints"@ != "SoulWarsZeal"@) by {
        assert("LeaguePoints"@[0] != "SoulWarsZeal"@[0]);
    }
    assert("BountyHunterHunter"@ != "GuardiansOfTheRift"@) by {
        assert("BountyHunterHunter"@[0] != "GuardiansOfTheRift"@[0]);
    }
    assert("BountyHunterRogue"@ != "ClueScrollsMedium"@) by {
        assert("BountyHunterRogue"@[0] != "ClueScrollsMedium"@[0]);
    }
    assert("BountyHunterRogue"@ != "ClueScrollsMaster"@) by {
        assert("BountyHunterRogue"@[0] != "ClueScrollsMaster"@[0]);
    }
    assert("ClueScrollsEasy"@ != "ClueScrollsHard"@) by {
        assert("ClueScrollsEasy"@[11] != "ClueScrollsHard"@[11]);
    }
    assert("ClueScrollsEasy"@ != "LastManStanding"@) by {
        assert("ClueScrollsEasy"@[0] != "LastManStanding"@[0]);
    }
    assert("ClueScrollsMedium"@ != "ClueScrollsMaster"@) by {
        assert("ClueScrollsMedium"@[12] != "ClueScrollsMaster"@[12]);
    }
    assert("ClueScrollsHard"@ != "LastManStanding"@) by {
        assert("ClueScrollsHard"@[0] != "LastManStanding"@[0]);
    }
}

/// Every canonical `Activity` name is a PascalCase letter token.
pub proof fn lemma_activity_names_pascal(a: Activity)
    ensures
        pascal_token(a.name_spec()),
{
    reveal_strlit("None");
    reveal_strlit("LeaguePoints");
    reveal_strlit("BountyHunterHunter");
    reveal_strlit("BountyHunterRogue");
    reveal_strlit("ClueScrollsAll");
    reveal_strlit("ClueScrollsBeginner");
    reveal_strlit("ClueScrollsEasy");
    reveal_strlit("ClueScrollsMedium");
    reveal_strlit("ClueScrollsHard");
    reveal_strlit("ClueScrollsElite");
    reveal_strlit("ClueScrollsMaster");
    reveal_strlit("LastManStanding");
    reveal_strlit("PvpArena");
    reveal_strlit("SoulWarsZeal");
    reveal_strlit("GuardiansOfTheRift");
}

/// Whether `k` is the canonical name of some skill.
pub open spec fn is_skill_key(k: Seq<char>) -> bool {
    exists|v: Skill| (#[trigger] v.name_spec()) == k
}

/// Whether `k` is the canonical name of some boss.
pub open spec fn is_boss_key(k: Seq<char>) -> bool {
    exists|v: Boss| (#[trigger] v.name_spec()) == k
}

/// Whether `k` is the canonical name of some activity.
pub open spec fn is_activity_key(k: Seq<char>) -> bool {
    exists|v: Activity| (#[trigger] v.name_spec()) == k
}

/// Whether `k` is the canonical name of some computed metric.
pub open spec fn is_computed_key(k: Seq<char>) -> bool {
    exists|v: ComputedMetricEnum| (#[trigger] v.name_spec()) == k
}

/// Whether `k` is the canonical name of any variant of any vocabulary.
pub open spec fn metric_key_known(k: Seq<char>) -> bool {
    is_skill_key(k) || is_boss_key(k) || is_activity_key(k) || is_computed_key(k)
}

/// The tagged metric a canonical probe key resolves to: the vocabularies are
/// probed in the fixed order Skill, Boss, Activity, ComputedMetric, and the
/// first that knows the key wins.
pub open spec fn metric_for_key(k: Seq<char>) -> Option<Metric> {
    if is_skill_key(k) {
        Some(Metric::Skill(choose|v: Skill| v.name_spec() == k))
    } else if is_boss_key(k) {
        Some(Metric::Boss(choose|v: Boss| v.name_spec() == k))
    } else if is_activity_key(k) {
        Some(Metric::Activity(choose|v: Activity| v.name_spec() == k))
    } else if is_computed_key(k) {
        Some(Metric::ComputedMetric(choose|v: ComputedMetricEnum| v.name_spec() == k))
    } else {
        None
    }
}

/// The failure of the metric decoder: the wire token matched no vocabulary.
/// It carries the original, non-normalized input.
#[derive(Debug, Clone, PartialEq, Eq)]
pub struct MetricError {
    pub token: String,
}

/// One statistic tracked by the upstream service, tagged by the vocabulary
/// it belongs to.
#[derive(Debug, Clone, Copy, PartialEq, Eq, Structural)]
pub enum Metric {
    Skill(Skill),
    Boss(Boss),
    Activity(Activity),
    ComputedMetric(ComputedMetricEnum),
}

impl Metric {
    /// The canonical PascalCase name of the wrapped variant.
    pub open spec fn name_spec(self) -> Seq<char> {
        match self {
            Metric::Skill(v) => v.name_spec(),
            Metric::Boss(v) => v.name_spec(),
            Metric::Activity(v) => v.name_spec(),
            Metric::ComputedMetric(v) => v.name_spec(),
        }
    }

    /// The one wire rendering used when a metric is emitted into a query
    /// parameter: always snake_case, whichever vocabulary it came from.
    pub open spec fn wire_spec(self) -> Seq<char> {
        snake_spec(self.name_spec())
    }

    /// The query-parameter rendering of this metric.
    pub fn to_string(&self) -> (r: String)
        ensures
            r@ == self.wire_spec(),
    {
        let n: &str = match self {
            Metric::Skill(v) => v.name(),
            Metric::Boss(v) => v.name(),
            Metric::Activity(v) => v.name(),
            Metric::ComputedMetric(v) => v.name(),
        };
        to_snake_token(n)
    }

    /// Decodes a wire token: the token is first normalized to its canonical
    /// probe key, then the four vocabularies are probed in the fixed order
    /// Skill, Boss, Activity, ComputedMetric. An unknown token fails with a
    /// `MetricError` carrying the original input.
    pub fn parse(token: &str) -> (r: Result<Metric, MetricError>)
        ensures
            metric_key_known(normalize_spec(token@)) ==> (r matches Ok(m) && Some(m)
                == metric_for_key(normalize_spec(token@))),
            !metric_key_known(normalize_spec(token@)) ==> (r matches Err(e) && e.token@
                == token@),
    {
        let key = normalize_token(token);
        if let Some(v) = Skill::from_name(key.as_str()) {
            proof {
                let w = choose|w: Skill| w.name_spec() == key@;
                lemma_skill_names_injective(v, w);
            }
            Ok(Metric::Skill(v))
        } else if let Some(v) = Boss::from_name(key.as_str()) {
            proof {
                let w = choose|w: Boss| w.name_spec() == key@;
                lemma_boss_names_injective(v, w);
            }
            Ok(Metric::Boss(v))
        } else if let Some(v) = Activity::from_name(key.as_str()) {
            proof {
                let w = choose|w: Activity| w.name_spec() == key@;
                lemma_activity_names_injective(v, w);
            }
            Ok(Metric::Activity(v))
        } else if let Some(v) = ComputedMetricEnum::from_name(key.as_str()) {
            proof {
                let w = choose|w: ComputedMetricEnum| w.name_spec() == key@;
                lemma_computed_metric_names_injective(v, w);
            }
            Ok(Metric::ComputedMetric(v))
        } else {
            Err(MetricError { token: token.to_owned() })
        }
    }
}

/// Every canonical metric name is a PascalCase letter token.
pub proof fn lemma_metric_names_pascal(m: Metric)
    ensures
        pascal_token(m.name_spec()),
{
    match m {
        Metric::Skill(v) => lemma_skill_names_pascal(v),
        Metric::Boss(v) => lemma_boss_names_pascal(v),
        Metric::Activity(v) => lemma_activity_names_pascal(v),
        Metric::ComputedMetric(v) => lemma_computed_metric_names_pascal(v),
    }
}

/// Apart from the shared placeholder, no boss name is also a skill name:
/// the vocabularies are disjoint, so the probe order cannot hide a boss.
pub proof fn lemma_boss_name_not_skill_name(v: Boss, w: Skill)
    requires
        v != Boss::Unspecified,
    ensures
        v.name_spec() != w.name_spec(),
{
    reveal_strlit("None");
    reveal_strlit("AbyssalSire");
    reveal_strlit("AlchemicalHydra");
    reveal_strlit("Artio");
    reveal_strlit("BarrowsChests");
    reveal_strlit("Bryophyta");
    reveal_strlit("Callisto");
    reveal_strlit("Calvarion");
    reveal_strlit("Cerberus");
    reveal_strlit("ChambersOfXeric");
    reveal_strlit("ChambersOfXericChallengeMode");
    reveal_strlit("ChaosElemental");
    reveal_strlit("ChaosFanatic");
    reveal_strlit("CommanderZilyana");
    reveal_strlit("CorporealBeast");
    reveal_strlit("CrazyArchaeologist");
    reveal_strlit("DagannothPrime");
    reveal_strlit("DagannothRex");
    reveal_strlit("DagannothSupreme");
    reveal_strlit("DerangedArchaeologist");
    reveal_strlit("DukeSucellus");
    reveal_strlit("GeneralGraardor");
    reveal_strlit("GiantMole");
    reveal_strlit("GrotesqueGuardians");
    reveal_strlit("Hespori");
    reveal_strlit("KalphiteQueen");
    reveal_strlit("KingBlackDragon");
    reveal_strlit("Kraken");
    reveal_strlit("Kreearra");
    reveal_strlit("KrilTsutsaroth");
    reveal_strlit("Mimic");
    reveal_strlit("Nex");
    reveal_strlit("Nightmare");
    reveal_strlit("PhosanisNightmare");
    reveal_strlit("Obor");
    reveal_strlit("PhantomMuspah");
    reveal_strlit("Sarachnis");
    reveal_strlit("Scorpia");
    reveal_strlit("Scurrius");
    reveal_strlit("Skotizo");
    reveal_strlit("Spindel");
    reveal_strlit("Tempoross");
    reveal_strlit("TheGauntlet");
    reveal_strlit("TheCorruptedGauntlet");
    reveal_strlit("TheLeviathan");
    reveal_strlit("TheWhisperer");
    reveal_strlit("TheatreOfBlood");
    reveal_strlit("TheatreOfBloodHardMode");
    reveal_strlit("ThermonuclearSmokeDevil");
    reveal_strlit("TombsOfAmascut");
    reveal_strlit("TombsOfAmascutExpert");
    reveal_strlit("TzkalZuk");
    reveal_strlit("TztokJad");
    reveal_strlit("Vardorvis");
    reveal_strlit("Venenatis");
    reveal_strlit("Vetion");
    reveal_strlit("Vorkath");
    reveal_strlit("Wintertodt");
    reveal_strlit("Zalcano");
    reveal_strlit("Zulrah");
    reveal_strlit("Overall");
    reveal_strlit("Attack");
    reveal_strlit("Defence");
    reveal_strlit("Strength");
    reveal_strlit("Hitpoints");
    reveal_strlit("Ranged");
    reveal_strlit("Prayer");
    reveal_strlit("Magic");
    reveal_strlit("Cooking");
    reveal_strlit("Woodcutting");
    reveal_strlit("Fletching");
    reveal_strlit("Fishing");
    reveal_strlit("Firemaking");
    reveal_strlit("Crafting");
    reveal_strlit("Smithing");
    reveal_strlit("Mining");
    reveal_strlit("Herblore");
    reveal_strlit("Agility");
    reveal_strlit("Thieving");
    reveal_strlit("Slayer");
    reveal_strlit("Farming");
    reveal_strlit("Runecrafting");
    reveal_strlit("Hunter");
    reveal_strlit("Construction");
    assert("None"@.len() == 4);
    assert("AbyssalSire"@.len() == 11);
    assert("AlchemicalHydra"@.len() == 15);
    assert("Artio"@.len() == 5);
    assert("BarrowsChests"@.len() == 13);
    assert("Bryophyta"@.len() == 9);
    assert("Callisto"@.len() == 8);
    assert("Calvarion"@.len() == 9);
    assert("Cerberus"@.len() == 8);
    assert("ChambersOfXeric"@.len() == 15);
    assert("ChambersOfXericChallengeMode"@.len() == 28);
    assert("ChaosElemental"@.len() == 14);
    assert("ChaosFanatic"@.len() == 12);
    assert("CommanderZilyana"@.len() == 16);
    assert("CorporealBeast"@.len() == 14);
    assert("CrazyArchaeologist"@.len() == 18);
    assert("DagannothPrime"@.len() == 14);
    assert("DagannothRex"@.len() == 12);
    assert("DagannothSupreme"@.len() == 16);
    assert("DerangedArchaeologist"@.len() == 21);
    assert("DukeSucellus"@.len() == 12);
    assert("GeneralGraardor"@.len() == 15);
    assert("GiantMole"@.len() == 9);
    assert("GrotesqueGuardians"@.len() == 18);
    assert("Hespori"@.len() == 7);
    assert("KalphiteQueen"@.len() == 13);
    assert("KingBlackDragon"@.len() == 15);
    assert("Kraken"@.len() == 6);
    assert("Kreearra"@.len() == 8);
    assert("KrilTsutsaroth"@.len() == 14);
    assert("Mimic"@.len() == 5);
    assert("Nex"@.len() == 3);
    assert("Nightmare"@.len() == 9);
    assert("PhosanisNightmare"@.len() == 17);
    assert("Obor"@.len() == 4);
    assert("PhantomMuspah"@.len() == 13);
    assert("Sarachnis"@.len() == 9);
    assert("Scorpia"@.len() == 7);
    assert("Scurrius"@.len() == 8);
    assert("Skotizo"@.len() == 7);
    assert("Spindel"@.len() == 7);
    assert("Tempoross"@.len() == 9);
    assert("TheGauntlet"@.len() == 11);
    assert("TheCorruptedGauntlet"@.len() == 20);
    assert("TheLeviathan"@.len() == 12);
    assert("TheWhisperer"@.len() == 12);
    assert("TheatreOfBlood"@.len() == 14);
    assert("TheatreOfBloodHardMode"@.len() == 22);
    assert("ThermonuclearSmokeDevil"@.len() == 23);
    assert("TombsOfAmascut"@.len() == 14);
    assert("TombsOfAmascutExpert"@.len() == 20);
    assert("TzkalZuk"@.len() == 8);
    assert("TztokJad"@.len() == 8);
    assert("Vardorvis"@.len() == 9);
    assert("Venenatis"@.len() == 9);
    assert("Vetion"@.len() == 6);
    assert("Vorkath"@.len() == 7);
    assert("Wintertodt"@.len() == 10);
    assert("Zalcano"@.len() == 7);
    assert("Zulrah"@.len() == 6);
    assert("Overall"@.len() == 7);
    assert("Attack"@.len() == 6);
    assert("Defence"@.len() == 7);
    assert("Strength"@.len() == 8);
    assert("Hitpoints"@.len() == 9);
    assert("Ranged"@.len() == 6);
    assert("Prayer"@.len() == 6);
    assert("Magic"@.len() == 5);
    assert("Cooking"@.len() == 7);
    assert("Woodcutting"@.len() == 11);
    assert("Fletching"@.len() == 9);
    assert("Fishing"@.len() == 7);
    assert("Firemaking"@.len() == 10);
    assert("Crafting"@.len() == 8);
    assert("Smithing"@.len() == 8);
    assert("Mining"@.len() == 6);
    assert("Herblore"@.len() == 8);
    assert("Agility"@.len() == 7);
    assert("Thieving"@.len() == 8);
    assert("Slayer"@.len() == 6);
    assert("Farming"@.len() == 7);
    assert("Runecrafting"@.len() == 12);
    assert("Hunter"@.len() == 6);
    assert("Construction"@.len() == 12);
    assert("AbyssalSire"@ != "Woodcutting"@) by {
        assert("AbyssalSire"@[0] != "Woodcutting"@[0]);
    }
    assert("Artio"@ != "Magic"@) by {
        assert("Artio"@[0] != "Magic"@[0]);
    }
    assert("Bryophyta"@ != "Hitpoints"@) by {
        assert("Bryophyta"@[0] != "Hitpoints"@[0]);
    }
    assert("Bryophyta"@ != "Fletching"@) by {
        assert("Bryophyta"@[0] != "Fletching"@[0]);
    }
    assert("Callisto"@ != "Strength"@) by {
        assert("Callisto"@[0] != "Strength"@[0]);
    }
    assert("Callisto"@ != "Crafting"@) by {
        assert("Callisto"@[1] != "Crafting"@[1]);
    }
    assert("Callisto"@ != "Smithing"@) by {
        assert("Callisto"@[0] != "Smithing"@[0]);
    }
    assert("Callisto"@ != "Herblore"@) by {
        assert("Callisto"@[0] != "Herblore"@[0]);
    }
    assert("Callisto"@ != "Thieving"@) by {
        assert("Callisto"@[0] != "Thieving"@[0]);
    }
    assert("Calvarion"@ != "Hitpoints"@) by {
        assert("Calvarion"@[0] != "Hitpoints"@[0]);
    }
    assert("Calvarion"@ != "Fletching"@) by {
        assert("Calvarion"@[0] != "Fletching"@[0]);
    }
    assert("Cerberus"@ != "Strength"@) by {
        assert("Cerberus"@[0] != "Strength"@[0]);
    }
    assert("Cerberus"@ != "Crafting"@) by {
        assert("Cerberus"@[1] != "Crafting"@[1]);
    }
    assert("Cerberus"@ != "Smithing"@) by {
        assert("Cerberus"@[0] != "Smithing"@[0]);
    }
    assert("Cerberus"@ != "Herblore"@) by {
        assert("Cerberus"@[0] != "Herblore"@[0]);
    }
    assert("Cerberus"@ != "Thieving"@) by {
        assert("Cerberus"@[0] != "Thieving"@[0]);
    }
    assert("ChaosFanatic"@ != "Runecrafting"@) by {
        assert("ChaosFanatic"@[0] != "Runecrafting"@[0]);
    }
    assert("ChaosFanatic"@ != "Construction"@) by {
        assert("ChaosFanatic"@[1] != "Construction"@[1]);
    }
    assert("DagannothRex"@ != "Runecrafting"@) by {
        assert("DagannothRex"@[0] != "Runecrafting"@[0]);
    }
    assert("DagannothRex"@ != "Construction"@) by {
        assert("DagannothRex"@[0] != "Construction"@[0]);
    }
    assert("DukeSucellus"@ != "Runecrafting"@) by {
        assert("DukeSucellus"@[0] != "Runecrafting"@[0]);
    }
    assert("DukeSucellus"@ != "Construction"@) by {
        assert("DukeSucellus"@[0] != "Construction"@[0]);
    }
    assert("GiantMole"@ != "Hitpoints"@) by {
        assert("GiantMole"@[0] != "Hitpoints"@[0]);
    }
    assert("GiantMole"@ != "Fletching"@) by {
        assert("GiantMole"@[0] != "Fletching"@[0]);
    }
    assert("Hespori"@ != "Overall"@) by {
        assert("Hespori"@[0] != "Overall"@[0]);
    }
    assert("Hespori"@ != "Defence"@) by {
        assert("Hespori"@[0] != "Defence"@[0]);
    }
    assert("Hespori"@ != "Cooking"@) by {
        assert("Hespori"@[0] != "Cooking"@[0]);
    }
    assert("Hespori"@ != "Fishing"@) by {
        assert("Hespori"@[0] != "Fishing"@[0]);
    }
    assert("Hespori"@ != "Agility"@) by {
        assert("Hespori"@[0] != "Agility"@[0]);
    }
    assert("Hespori"@ != "Farming"@) by {
        assert("Hespori"@[0] != "Farming"@[0]);
    }
    assert("Kraken"@ != "Attack"@) by {
        assert("Kraken"@[0] != "Attack"@[0]);
    }
    assert("Kraken"@ != "Ranged"@) by {
        assert("Kraken"@[0] != "Ranged"@[0]);
    }
    assert("Kraken"@ != "Prayer"@) by {
        assert("Kraken"@[0] != "Prayer"@[0]);
    }
    assert("Kraken"@ != "Mining"@) by {
        assert("Kraken"@[0] != "Mining"@[0]);
    }
    assert("Kraken"@ != "Slayer"@) by {
        assert("Kraken"@[0] != "Slayer"@[0]);
    }
    assert("Kraken"@ != "Hunter"@) by {
        assert("Kraken"@[0] != "Hunter"@[0]);
    }
    assert("Kreearra"@ != "Strength"@) by {
        assert("Kreearra"@[0] != "Strength"@[0]);
    }
    assert("Kreearra"@ != "Crafting"@) by {
        assert("Kreearra"@[0] != "Crafting"@[0]);
    }
    assert("Kreearra"@ != "Smithing"@) by {
        assert("Kreearra"@[0] != "Smithing"@[0]);
    }
    assert("Kreearra"@ != "Herblore"@) by {
        assert("Kreearra"@[0] != "Herblore"@[0]);
    }
    assert("Kreearra"@ != "Thieving"@) by {
        assert("Kreearra"@[0] != "Thieving"@[0]);
    }
    assert("Mimic"@ != "Magic"@) by {
        assert("Mimic"@[1] != "Magic"@[1]);
    }
    assert("Nightmare"@ != "Hitpoints"@) by {
        assert("Nightmare"@[0] != "Hitpoints"@[0]);
    }
    assert("Nightmare"@ != "Fletching"@) by {
        assert("Nightmare"@[0] != "Fletching"@[0]);
    }
    assert("Obor"@ != "None"@) by {
        assert("Obor"@[0] != "None"@[0]);
    }
    assert("Sarachnis"@ != "Hitpoints"@) by {
        assert("Sarachnis"@[0] != "Hitpoints"@[0]);
    }
    assert("Sarachnis"@ != "Fletching"@) by {
        assert("Sarachnis"@[0] != "Fletching"@[0]);
    }
    assert("Scorpia"@ != "Overall"@) by {
        assert("Scorpia"@[0] != "Overall"@[0]);
    }
    assert("Scorpia"@ != "Defence"@) by {
        assert("Scorpia"@[0] != "Defence"@[0]);
    }
    assert("Scorpia"@ != "Cooking"@) by {
        assert("Scorpia"@[0] != "Cooking"@[0]);
    }
    assert("Scorpia"@ != "Fishing"@) by {
        assert("Scorpia"@[0] != "Fishing"@[0]);
    }
    assert("Scorpia"@ != "Agility"@) by {
        assert("Scorpia"@[0] != "Agility"@[0]);
    }
    assert("Scorpia"@ != "Farming"@) by {
        assert("Scorpia"@[0] != "Farming"@[0]);
    }
    assert("Scurrius"@ != "Strength"@) by {
        assert("Scurrius"@[1] != "Strength"@[1]);
    }
    assert("Scurrius"@ != "Crafting"@) by {
        assert("Scurrius"@[0] != "Crafting"@[0]);
    }
    assert("Scurrius"@ != "Smithing"@) by {
        assert("Scurrius"@[1] != "Smithing"@[1]);
    }
    assert("Scurrius"@ != "Herblore"@) by {
        assert("Scurrius"@[0] != "Herblore"@[0]);
    }
    assert("Scurrius"@ != "Thieving"@) by {
        assert("Scurrius"@[0] != "Thieving"@[0]);
    }
    assert("Skotizo"@ != "Overall"@) by {
        assert("Skotizo"@[0] != "Overall"@[0]);
    }
    assert("Skotizo"@ != "Defence"@) by {
        assert("Skotizo"@[0] != "Defence"@[0]);
    }
    assert("Skotizo"@ != "Cooking"@) by {
        assert("Skotizo"@[0] != "Cooking"@[0]);
    }
    assert("Skotizo"@ != "Fishing"@) by {
        assert("Skotizo"@[0] != "Fishing"@[0]);
    }
    assert("Skotizo"@ != "Agility"@) by {
        assert("Skotizo"@[0] != "Agility"@[0]);
    }
    assert("Skotizo"@ != "Farming"@) by {
        assert("Skotizo"@[0] != "Farming"@[0]);
    }
    assert("Spindel"@ != "Overall"@) by {
        assert("Spindel"@[0] != "Overall"@[0]);
    }
    assert("Spindel"@ != "Defence"@) by {
        assert("Spindel"@[0] != "Defence"@[0]);
    }
    assert("Spindel"@ != "Cooking"@) by {
        assert("Spindel"@[0] != "Cooking"@[0]);
    }
    assert("Spindel"@ != "Fishing"@) by {
        assert("Spindel"@[0] != "Fishing"@[0]);
    }
    assert("Spindel"@ != "Agility"@) by {
        assert("Spindel"@[0] != "Agility"@[0]);
    }
    assert("Spindel"@ != "Farming"@) by {
        assert("Spindel"@[0] != "Farming"@[0]);
    }
    assert("Tempoross"@ != "Hitpoints"@) by {
        assert("Tempoross"@[0] != "Hitpoints"@[0]);
    }
    assert("Tempoross"@ != "Fletching"@) by {
        assert("Tempoross"@[0] != "Fletching"@[0]);
    }
    assert("TheGauntlet"@ != "Woodcutting"@) by {
        assert("TheGauntlet"@[0] != "Woodcutting"@[0]);
    }
    assert("TheLeviathan"@ != "Runecrafting"@) by {
        assert("TheLeviathan"@[0] != "Runecrafting"@[0]);
    }
    assert("TheLeviathan"@ != "Construction"@) by {
        assert("TheLeviathan"@[0] != "Construction"@[0]);
    }
    assert("TheWhisperer"@ != "Runecrafting"@) by {
        assert("TheWhisperer"@[0] != "Runecrafting"@[0]);
    }
    assert("TheWhisperer"@ != "Construction"@) by {
        assert("TheWhisperer"@[0] != "Construction"@[0]);
    }
    assert("TzkalZuk"@ != "Strength"@) by {
        assert("TzkalZuk"@[0] != "Strength"@[0]);
    }
    assert("TzkalZuk"@ != "Crafting"@) by {
        assert("TzkalZuk"@[0] != "Crafting"@[0]);
    }
    assert("TzkalZuk"@ != "Smithing"@) by {
        assert("TzkalZuk"@[0] != "Smithing"@[0]);
    }
    assert("TzkalZuk"@ != "Herblore"@) by {
        assert("TzkalZuk"@[0] != "Herblore"@[0]);
    }
    assert("TzkalZuk"@ != "Thieving"@) by {
        assert("TzkalZuk"@[1] != "Thieving"@[1]);
    }
    assert("TztokJad"@ != "Strength"@) by {
        assert("TztokJad"@[0] != "Strength"@[0]);
    }
    assert("TztokJad"@ != "Crafting"@) by {
        assert("TztokJad"@[0] != "Crafting"@[0]);
    }
    assert("TztokJad"@ != "Smithing"@) by {
        assert("TztokJad"@[0] != "Smithing"@[0]);
    }
    assert("TztokJad"@ != "Herblore"@) by {
        assert("TztokJad"@[0] != "Herblore"@[0]);
    }
    assert("TztokJad"@ != "Thieving"@) by {
        assert("TztokJad"@[1] != "Thieving"@[1]);
    }
    assert("Vardorvis"@ != "Hitpoints"@) by {
        assert("Vardorvis"@[0] != "Hitpoints"@[0]);
    }
    assert("Vardorvis"@ != "Fletching"@) by {
        assert("Vardorvis"@[0] != "Fletching"@[0]);
    }
    assert("Venenatis"@ != "Hitpoints"@) by {
        assert("Venenatis"@[0] != "Hitpoints"@[0]);
    }
    assert("Venenatis"@ != "Fletching"@) by {
        assert("Venenatis"@[0] != "Fletching"@[0]);
    }
    assert("Vetion"@ != "Attack"@) by {
        assert("Vetion"@[0] != "Attack"@[0]);
    }
    assert("Vetion"@ != "Ranged"@) by {
        assert("Vetion"@[0] != "Ranged"@[0]);
    }
    assert("Vetion"@ != "Prayer"@) by {
        assert("Vetion"@[0] != "Prayer"@[0]);
    }
    assert("Vetion"@ != "Mining"@) by {
        assert("Vetion"@[0] != "Mining"@[0]);
    }
    assert("Vetion"@ != "Slayer"@) by {
        assert("Vetion"@[0] != "Slayer"@[0]);
    }
    assert("Vetion"@ != "Hunter"@) by {
        assert("Vetion"@[0] != "Hunter"@[0]);
    }
    assert("Vorkath"@ != "Overall"@) by {
        assert("Vorkath"@[0] != "Overall"@[0]);
    }
    assert("Vorkath"@ != "Defence"@) by {
        assert("Vorkath"@[0] != "Defence"@[0]);
    }
    assert("Vorkath"@ != "Cooking"@) by {
        assert("Vorkath"@[0] != "Cooking"@[0]);
    }
    assert("Vorkath"@ != "Fishing"@) by {
        assert("Vorkath"@[0] != "Fishing"@[0]);
    }
    assert("Vorkath"@ != "Agility"@) by {
        assert("Vorkath"@[0] != "Agility"@[0]);
    }
    assert("Vorkath"@ != "Farming"@) by {
        assert("Vorkath"@[0] != "Farming"@[0]);
    }
    assert("Wintertodt"@ != "Firemaking"@) by {
        assert("Wintertodt"@[0] != "Firemaking"@[0]);
    }
    assert("Zalcano"@ != "Overall"@) by {
        assert("Zalcano"@[0] != "Overall"@[0]);
    }
    assert("Zalcano"@ != "Defence"@) by {
        assert("Zalcano"@[0] != "Defence"@[0]);
    }
    assert("Zalcano"@ != "Cooking"@) by {
        assert("Zalcano"@[0] != "Cooking"@[0]);
    }
    assert("Zalcano"@ != "Fishing"@) by {
        assert("Zalcano"@[0] != "Fishing"@[0]);
    }
    assert("Zalcano"@ != "Agility"@) by {
        assert("Zalcano"@[0] != "Agility"@[0]);
    }
    assert("Zalcano"@ != "Farming"@) by {
        assert("Zalcano"@[0] != "Farming"@[0]);
    }
    assert("Zulrah"@ != "Attack"@) by {
        assert("Zulrah"@[0] != "Attack"@[0]);
    }
    assert("Zulrah"@ != "Ranged"@) by {
        assert("Zulrah"@[0] != "Ranged"@[0]);
    }
    assert("Zulrah"@ != "Prayer"@) by {
        assert("Zulrah"@[0] != "Prayer"@[0]);
    }
    assert("Zulrah"@ != "Mining"@) by {
        assert("Zulrah"@[0] != "Mining"@[0]);
    }
    assert("Zulrah"@ != "Slayer"@) by {
        assert("Zulrah"@[0] != "Slayer"@[0]);
    }
    assert("Zulrah"@ != "Hunter"@) by {
        assert("Zulrah"@[0] != "Hunter"@[0]);
    }
}

/// Apart from the shared placeholder, no activity name is also a skill or
/// boss name.
pub proof fn lemma_activity_name_not_earlier_name(v: Activity, w: Skill, x: Boss)
    requires
        v != Activity::Unspecified,
    ensures
        v.name_spec() != w.name_spec(),
        v.name_spec() != x.name_spec(),
{
    reveal_strlit("None");
    reveal_strlit("LeaguePoints");
    reveal_strlit("BountyHunterHunter");
    reveal_strlit("BountyHunterRogue");
    reveal_strlit("ClueScrollsAll");
    reveal_strlit("ClueScrollsBeginner");
    reveal_strlit("ClueScrollsEasy");
    reveal_strlit("ClueScrollsMedium");
    reveal_strlit("ClueScrollsHard");
    reveal_strlit("ClueScrollsElite");
    reveal_strlit("ClueScrollsMaster");
    reveal_strlit("LastManStanding");
    reveal_strlit("PvpArena");
    reveal_strlit("SoulWarsZeal");
    reveal_strlit("GuardiansOfTheRift");
    reveal_strlit("Overall");
    reveal_strlit("Attack");
    reveal_strlit("Defence");
    reveal_strlit("Strength");
    reveal_strlit("Hitpoints");
    reveal_strlit("Ranged");
    reveal_strlit("Prayer");
    reveal_strlit("Magic");
    reveal_strlit("Cooking");
    reveal_strlit("Woodcutting");
    reveal_strlit("Fletching");
    reveal_strlit("Fishing");
    reveal_strlit("Firemaking");
    reveal_strlit("Crafting");
    reveal_strlit("Smithing");
    reveal_strlit("Mining");
    reveal_strlit("Herblore");
    reveal_strlit("Agility");
    reveal_strlit("Thieving");
    reveal_strlit("Slayer");
    reveal_strlit("Farming");
    reveal_strlit("Runecrafting");
    reveal_strlit("Hunter");
    reveal_strlit("Construction");
    reveal_strlit("AbyssalSire");
    reveal_strlit("AlchemicalHydra");
    reveal_strlit("Artio");
    reveal_strlit("BarrowsChests");
    reveal_strlit("Bryophyta");
    reveal_strlit("Callisto");
    reveal_strlit("Calvarion");
    reveal_strlit("Cerberus");
    reveal_strlit("ChambersOfXeric");
    reveal_strlit("ChambersOfXericChallengeMode");
    reveal_strlit("ChaosElemental");
    reveal_strlit("ChaosFanatic");
    reveal_strlit("CommanderZilyana");
    reveal_strlit("CorporealBeast");
    reveal_strlit("CrazyArchaeologist");
    reveal_strlit("DagannothPrime");
    reveal_strlit("DagannothRex");
    reveal_strlit("DagannothSupreme");
    reveal_strlit("DerangedArchaeologist");
    reveal_strlit("DukeSucellus");
    reveal_strlit("GeneralGraardor");
    reveal_strlit("GiantMole");
    reveal_strlit("GrotesqueGuardians");
    reveal_strlit("Hespori");
    reveal_strlit("KalphiteQueen");
    reveal_strlit("KingBlackDragon");
    reveal_strlit("Kraken");
    reveal_strlit("Kreearra");
    reveal_strlit("KrilTsutsaroth");
    reveal_strlit("Mimic");
    reveal_strlit("Nex");
    reveal_strlit("Nightmare");
    reveal_strlit("PhosanisNightmare");
    reveal_strlit("Obor");
    reveal_strlit("PhantomMuspah");
    reveal_strlit("Sarachnis");
    reveal_strlit("Scorpia");
    reveal_strlit("Scurrius");
    reveal_strlit("Skotizo");
    reveal_strlit("Spindel");
    reveal_strlit("Tempoross");
    reveal_strlit("TheGauntlet");
    reveal_strlit("TheCorruptedGauntlet");
    reveal_strlit("TheLeviathan");
    reveal_strlit("TheWhisperer");
    reveal_strlit("TheatreOfBlood");
    reveal_strlit("TheatreOfBloodHardMode");
    reveal_strlit("ThermonuclearSmokeDevil");
    reveal_strlit("TombsOfAmascut");
    reveal_strlit("TombsOfAmascutExpert");
    reveal_strlit("TzkalZuk");
    reveal_strlit("TztokJad");
    reveal_strlit("Vardorvis");
    reveal_strlit("Venenatis");
    reveal_strlit("Vetion");
    reveal_strlit("Vorkath");
    reveal_strlit("Wintertodt");
    reveal_strlit("Zalcano");
    reveal_strlit("Zulrah");
    assert("None"@.len() == 4);
    assert("LeaguePoints"@.len() == 12);
    assert("BountyHunterHunter"@.len() == 18);
    assert("BountyHunterRogue"@.len() == 17);
    assert("ClueScrollsAll"@.len() == 14);
    assert("ClueScrollsBeginner"@.len() == 19);
    assert("ClueScrollsEasy"@.len() == 15);
    assert("ClueScrollsMedium"@.len() == 17);
    assert("ClueScrollsHard"@.len() == 15);
    assert("ClueScrollsElite"@.len() == 16);
    assert("ClueScrollsMaster"@.len() == 17);
    assert("LastManStanding"@.len() == 15);
    assert("PvpArena"@.len() == 8);
    assert("SoulWarsZeal"@.len() == 12);
    assert("GuardiansOfTheRift"@.len() == 18);
    assert("Overall"@.len() == 7);
    assert("Attack"@.len() == 6);
    assert("Defence"@.len() == 7);
    assert("Strength"@.len() == 8);
    assert("Hitpoints"@.len() == 9);
    assert("Ranged"@.len() == 6);
    assert("Prayer"@.len() == 6);
    assert("Magic"@.len() == 5);
    assert("Cooking"@.len() == 7);
    assert("Woodcutting"@.len() == 11);
    assert("Fletching"@.len() == 9);
    assert("Fishing"@.len() == 7);
    assert("Firemaking"@.len() == 10);
    assert("Crafting"@.len() == 8);
    assert("Smithing"@.len() == 8);
    assert("Mining"@.len() == 6);
    assert("Herblore"@.len() == 8);
    assert("Agility"@.len() == 7);
    assert("Thieving"@.len() == 8);
    assert("Slayer"@.len() == 6);
    assert("Farming"@.len() == 7);
    assert("Runecrafting"@.len() == 12);
    assert("Hunter"@.len() == 6);
    assert("Construction"@.len() == 12);
    assert("AbyssalSire"@.len() == 11);
    assert("AlchemicalHydra"@.len() == 15);
    assert("Artio"@.len() == 5);
    assert("BarrowsChests"@.len() == 13);
    assert("Bryophyta"@.len() == 9);
    assert("Callisto"@.len() == 8);
    assert("Calvarion"@.len() == 9);
    assert("Cerberus"@.len() == 8);
    assert("ChambersOfXeric"@.len() == 15);
    assert("ChambersOfXericChallengeMode"@.len() == 28);
    assert("ChaosElemental"@.len() == 14);
    assert("ChaosFanatic"@.len() == 12);
    assert("CommanderZilyana"@.len() == 16);
    assert("CorporealBeast"@.len() == 14);
    assert("CrazyArchaeologist"@.len() == 18);
    assert("DagannothPrime"@.len() == 14);
    assert("DagannothRex"@.len() == 12);
    assert("DagannothSupreme"@.len() == 16);
    assert("DerangedArchaeologist"@.len() == 21);
    assert("DukeSucellus"@.len() == 12);
    assert("GeneralGraardor"@.len() == 15);
    assert("GiantMole"@.len() == 9);
    assert("GrotesqueGuardians"@.len() == 18);
    assert("Hespori"@.len() == 7);
    assert("KalphiteQueen"@.len() == 13);
    assert("KingBlackDragon"@.len() == 15);
    assert("Kraken"@.len() == 6);
    assert("Kreearra"@.len() == 8);
    assert("KrilTsutsaroth"@.len() == 14);
    assert("Mimic"@.len() == 5);
    assert("Nex"@.len() == 3);
    assert("Nightmare"@.len() == 9);
    assert("PhosanisNightmare"@.len() == 17);
    assert("Obor"@.len() == 4);
    assert("PhantomMuspah"@.len() == 13);
    assert("Sarachnis"@.len() == 9);
    assert("Scorpia"@.len() == 7);
    assert("Scurrius"@.len() == 8);
    assert("Skotizo"@.len() == 7);
    assert("Spindel"@.len() == 7);
    assert("Tempoross"@.len() == 9);
    assert("TheGauntlet"@.len() == 11);
    assert("TheCorruptedGauntlet"@.len() == 20);
    assert("TheLeviathan"@.len() == 12);
    assert("TheWhisperer"@.len() == 12);
    assert("TheatreOfBlood"@.len() == 14);
    assert("TheatreOfBloodHardMode"@.len() == 22);
    assert("ThermonuclearSmokeDevil"@.len() == 23);
    assert("TombsOfAmascut"@.len() == 14);
    assert("TombsOfAmascutExpert"@.len() == 20);
    assert("TzkalZuk"@.len() == 8);
    assert("TztokJad"@.len() == 8);
    assert("Vardorvis"@.len() == 9);
    assert("Venenatis"@.len() == 9);
    assert("Vetion"@.len() == 6);
    assert("Vorkath"@.len() == 7);
    assert("Wintertodt"@.len() == 10);
    assert("Zalcano"@.len() == 7);
    assert("Zulrah"@.len() == 6);
    assert("LeaguePoints"@ != "Runecrafting"@) by {
        assert("LeaguePoints"@[0] != "Runecrafting"@[0]);
    }
    assert("LeaguePoints"@ != "Construction"@) by {
        assert("LeaguePoints"@[0] != "Construction"@[0]);
    }
    assert("PvpArena"@ != "Strength"@) by {
        assert("PvpArena"@[0] != "Strength"@[0]);
    }
    assert("PvpArena"@ != "Crafting"@) by {
        assert("PvpArena"@[0] != "Crafting"@[0]);
    }
    assert("PvpArena"@ != "Smithing"@) by {
        assert("PvpArena"@[0] != "Smithing"@[0]);
    }
    assert("PvpArena"@ != "Herblore"@) by {
        assert("PvpArena"@[0] != "Herblore"@[0]);
    }
    assert("PvpArena"@ != "Thieving"@) by {
        assert("PvpArena"@[0] != "Thieving"@[0]);
    }
    assert("SoulWarsZeal"@ != "Runecrafting"@) by {
        assert("SoulWarsZeal"@[0] != "Runecrafting"@[0]);
    }
    assert("SoulWarsZeal"@ != "Construction"@) by {
        assert("SoulWarsZeal"@[0] != "Construction"@[0]);
    }
    assert("LeaguePoints"@ != "ChaosFanatic"@) by {
        assert("LeaguePoints"@[0] != "ChaosFanatic"@[0]);
    }
    assert("LeaguePoints"@ != "DagannothRex"@) by {
        assert("LeaguePoints"@[0] != "DagannothRex"@[0]);
    }
    assert("LeaguePoints"@ != "DukeSucellus"@) by {
        assert("LeaguePoints"@[0] != "DukeSucellus"@[0]);
    }
    assert("LeaguePoints"@ != "TheLeviathan"@) by {
        assert("LeaguePoints"@[0] != "TheLeviathan"@[0]);
    }
    assert("LeaguePoints"@ != "TheWhisperer"@) by {
        assert("LeaguePoints"@[0] != "TheWhisperer"@[0]);
    }
    assert("BountyHunterHunter"@ != "CrazyArchaeologist"@) by {
        assert("BountyHunterHunter"@[0] != "CrazyArchaeologist"@[0]);
    }
    assert("BountyHunterHunter"@ != "GrotesqueGuardians"@) by {
        assert("BountyHunterHunter"@[0] != "GrotesqueGuardians"@[0]);
    }
    assert("BountyHunterRogue"@ != "PhosanisNightmare"@) by {
        assert("BountyHunterRogue"@[0] != "PhosanisNightmare"@[0]);
    }
    assert("ClueScrollsAll"@ != "ChaosElemental"@) by {
        assert("ClueScrollsAll"@[1] != "ChaosElemental"@[1]);
    }
    assert("ClueScrollsAll"@ != "CorporealBeast"@) by {
        assert("ClueScrollsAll"@[1] != "CorporealBeast"@[1]);
    }
    assert("ClueScrollsAll"@ != "DagannothPrime"@) by {
        assert("ClueScrollsAll"@[0] != "DagannothPrime"@[0]);
    }
    assert("ClueScrollsAll"@ != "KrilTsutsaroth"@) by {
        assert("ClueScrollsAll"@[0] != "KrilTsutsaroth"@[0]);
    }
    assert("ClueScrollsAll"@ != "TheatreOfBlood"@) by {
        assert("ClueScrollsAll"@[0] != "TheatreOfBlood"@[0]);
    }
    assert("ClueScrollsAll"@ != "TombsOfAmascut"@) by {
        assert("ClueScrollsAll"@[0] != "TombsOfAmascut"@[0]);
    }
    assert("ClueScrollsEasy"@ != "AlchemicalHydra"@) by {
        assert("ClueScrollsEasy"@[0] != "AlchemicalHydra"@[0]);
    }
    assert("ClueScrollsEasy"@ != "ChambersOfXeric"@) by {
        assert("ClueScrollsEasy"@[1] != "ChambersOfXeric"@[1]);
    }
    assert("ClueScrollsEasy"@ != "GeneralGraardor"@) by {
        assert("ClueScrollsEasy"@[0] != "GeneralGraardor"@[0]);
    }
    assert("ClueScrollsEasy"@ != "KingBlackDragon"@) by {
        assert("ClueScrollsEasy"@[0] != "KingBlackDragon"@[0]);
    }
    assert("ClueScrollsMedium"@ != "PhosanisNightmare"@) by {
        assert("ClueScrollsMedium"@[0] != "PhosanisNightmare"@[0]);
    }
    assert("ClueScrollsHard"@ != "AlchemicalHydra"@) by {
        assert("ClueScrollsHard"@[0] != "AlchemicalHydra"@[0]);
    }
    assert("ClueScrollsHard"@ != "ChambersOfXeric"@) by {
        assert("ClueScrollsHard"@[1] != "ChambersOfXeric"@[1]);
    }
    assert("ClueScrollsHard"@ != "GeneralGraardor"@) by {
        assert("ClueScrollsHard"@[0] != "GeneralGraardor"@[0]);
    }
    assert("ClueScrollsHard"@ != "KingBlackDragon"@) by {
        assert("ClueScrollsHard"@[0] != "KingBlackDragon"@[0]);
    }
    assert("ClueScrollsElite"@ != "CommanderZilyana"@) by {
        assert("ClueScrollsElite"@[1] != "CommanderZilyana"@[1]);
    }
    assert("ClueScrollsElite"@ != "DagannothSupreme"@) by {
        assert("ClueScrollsElite"@[0] != "DagannothSupreme"@[0]);
    }
    assert("ClueScrollsMaster"@ != "PhosanisNightmare"@) by {
        assert("ClueScrollsMaster"@[0] != "PhosanisNightmare"@[0]);
    }
    assert("LastManStanding"@ != "AlchemicalHydra"@) by {
        assert("LastManStanding"@[0] != "AlchemicalHydra"@[0]);
    }
    assert("LastManStanding"@ != "ChambersOfXeric"@) by {
        assert("LastManStanding"@[0] != "ChambersOfXeric"@[0]);
    }
    assert("LastManStanding"@ != "GeneralGraardor"@) by {
        assert("LastManStanding"@[0] != "GeneralGraardor"@[0]);
    }
    assert("LastManStanding"@ != "KingBlackDragon"@) by {
        assert("LastManStanding"@[0] != "KingBlackDragon"@[0]);
    }
    assert("PvpArena"@ != "Callisto"@) by {
        assert("PvpArena"@[0] != "Callisto"@[0]);
    }
    assert("PvpArena"@ != "Cerberus"@) by {
        assert("PvpArena"@[0] != "Cerberus"@[0]);
    }
    assert("PvpArena"@ != "Kreearra"@) by {
        assert("PvpArena"@[0] != "Kreearra"@[0]);
    }
    assert("PvpArena"@ != "Scurrius"@) by {
        assert("PvpArena"@[0] != "Scurrius"@[0]);
    }
    assert("PvpArena"@ != "TzkalZuk"@) by {
        assert("PvpArena"@[0] != "TzkalZuk"@[0]);
    }
    assert("PvpArena"@ != "TztokJad"@) by {
        assert("PvpArena"@[0] != "TztokJad"@[0]);
    }
    assert("SoulWarsZeal"@ != "ChaosFanatic"@) by {
        assert("SoulWarsZeal"@[0] != "ChaosFanatic"@[0]);
    }
    assert("SoulWarsZeal"@ != "DagannothRex"@) by {
        assert("SoulWarsZeal"@[0] != "DagannothRex"@[0]);
    }
    assert("SoulWarsZeal"@ != "DukeSucellus"@) by {
        assert("SoulWarsZeal"@[0] != "DukeSucellus"@[0]);
    }
    assert("SoulWarsZeal"@ != "TheLeviathan"@) by {
        assert("SoulWarsZeal"@[0] != "TheLeviathan"@[0]);
    }
    assert("SoulWarsZeal"@ != "TheWhisperer"@) by {
        assert("SoulWarsZeal"@[0] != "TheWhisperer"@[0]);
    }
    assert("GuardiansOfTheRift"@ != "CrazyArchaeologist"@) by {
        assert("GuardiansOfTheRift"@[0] != "CrazyArchaeologist"@[0]);
    }
    assert("GuardiansOfTheRift"@ != "GrotesqueGuardians"@) by {
        assert("GuardiansOfTheRift"@[1] != "GrotesqueGuardians"@[1]);
    }
}

/// Apart from the shared placeholder, no computed-metric name is also a
/// skill, boss or activity name.
pub proof fn lemma_computed_name_not_earlier_name(
    v: ComputedMetricEnum,
    w: Skill,
    x: Boss,
    y: Activity,
)
    requires
        v != ComputedMetricEnum::Unspecified,
    ensures
        v.name_spec() != w.name_spec(),
        v.name_spec() != x.name_spec(),
        v.name_spec() != y.name_spec(),
{
    reveal_strlit("None");
    reveal_strlit("Ehp");
    reveal_strlit("Ehb");
    reveal_strlit("Overall");
    reveal_strlit("Attack");
    reveal_strlit("Defence");
    reveal_strlit("Strength");
    reveal_strlit("Hitpoints");
    reveal_strlit("Ranged");
    reveal_strlit("Prayer");
    reveal_strlit("Magic");
    reveal_strlit("Cooking");
    reveal_strlit("Woodcutting");
    reveal_strlit("Fletching");
    reveal_strlit("Fishing");
    reveal_strlit("Firemaking");
    reveal_strlit("Crafting");
    reveal_strlit("Smithing");
    reveal_strlit("Mining");
    reveal_strlit("Herblore");
    reveal_strlit("Agility");
    reveal_strlit("Thieving");
    reveal_strlit("Slayer");
    reveal_strlit("Farming");
    reveal_strlit("Runecrafting");
    reveal_strlit("Hunter");
    reveal_strlit("Construction");
    reveal_strlit("AbyssalSire");
    reveal_strlit("AlchemicalHydra");
    reveal_strlit("Artio");
    reveal_strlit("BarrowsChests");
    reveal_strlit("Bryophyta");
    reveal_strlit("Callisto");
    reveal_strlit("Calvarion");
    reveal_strlit("Cerberus");
    reveal_strlit("ChambersOfXeric");
    reveal_strlit("ChambersOfXericChallengeMode");
    reveal_strlit("ChaosElemental");
    reveal_strlit("ChaosFanatic");
    reveal_strlit("CommanderZilyana");
    reveal_strlit("CorporealBeast");
    reveal_strlit("CrazyArchaeologist");
    reveal_strlit("DagannothPrime");
    reveal_strlit("DagannothRex");
    reveal_strlit("DagannothSupreme");
    reveal_strlit("DerangedArchaeologist");
    reveal_strlit("DukeSucellus");
    reveal_strlit("GeneralGraardor");
    reveal_strlit("GiantMole");
    reveal_strlit("GrotesqueGuardians");
    reveal_strlit("Hespori");
    reveal_strlit("KalphiteQueen");
    reveal_strlit("KingBlackDragon");
    reveal_strlit("Kraken");
    reveal_strlit("Kreearra");
    reveal_strlit("KrilTsutsaroth");
    reveal_strlit("Mimic");
    reveal_strlit("Nex");
    reveal_strlit("Nightmare");
    reveal_strlit("PhosanisNightmare");
    reveal_strlit("Obor");
    reveal_strlit("PhantomMuspah");
    reveal_strlit("Sarachnis");
    reveal_strlit("Scorpia");
    reveal_strlit("Scurrius");
    reveal_strlit("Skotizo");
    reveal_strlit("Spindel");
    reveal_strlit("Tempoross");
    reveal_strlit("TheGauntlet");
    reveal_strlit("TheCorruptedGauntlet");
    reveal_strlit("TheLeviathan");
    reveal_strlit("TheWhisperer");
    reveal_strlit("TheatreOfBlood");
    reveal_strlit("TheatreOfBloodHardMode");
    reveal_strlit("ThermonuclearSmokeDevil");
    reveal_strlit("TombsOfAmascut");
    reveal_strlit("TombsOfAmascutExpert");
    reveal_strlit("TzkalZuk");
    reveal_strlit("TztokJad");
    reveal_strlit("Vardorvis");
    reveal_strlit("Venenatis");
    reveal_strlit("Vetion");
    reveal_strlit("Vorkath");
    reveal_strlit("Wintertodt");
    reveal_strlit("Zalcano");
    reveal_strlit("Zulrah");
    reveal_strlit("LeaguePoints");
    reveal_strlit("BountyHunterHunter");
    reveal_strlit("BountyHunterRogue");
    reveal_strlit("ClueScrollsAll");
    reveal_strlit("ClueScrollsBeginner");
    reveal_strlit("ClueScrollsEasy");
    reveal_strlit("ClueScrollsMedium");
    reveal_strlit("ClueScrollsHard");
    reveal_strlit("ClueScrollsElite");
    reveal_strlit("ClueScrollsMaster");
    reveal_strlit("LastManStanding");
    reveal_strlit("PvpArena");
    reveal_strlit("SoulWarsZeal");
    reveal_strlit("GuardiansOfTheRift");
    assert("None"@.len() == 4);
    assert("Ehp"@.len() == 3);
    assert("Ehb"@.len() == 3);
    assert("Overall"@.len() == 7);
    assert("Attack"@.len() == 6);
    assert("Defence"@.len() == 7);
    assert("Strength"@.len() == 8);
    assert("Hitpoints"@.len() == 9);
    assert("Ranged"@.len() == 6);
    assert("Prayer"@.len() == 6);
    assert("Magic"@.len() == 5);
    assert("Cooking"@.len() == 7);
    assert("Woodcutting"@.len() == 11);
    assert("Fletching"@.len() == 9);
    assert("Fishing"@.len() == 7);
    assert("Firemaking"@.len() == 10);
    assert("Crafting"@.len() == 8);
    assert("Smithing"@.len() == 8);
    assert("Mining"@.len() == 6);
    assert("Herblore"@.len() == 8);
    assert("Agility"@.len() == 7);
    assert("Thieving"@.len() == 8);
    assert("Slayer"@.len() == 6);
    assert("Farming"@.len() == 7);
    assert("Runecrafting"@.len() == 12);
    assert("Hunter"@.len() == 6);
    assert("Construction"@.len() == 12);
    assert("AbyssalSire"@.len() == 11);
    assert("AlchemicalHydra"@.len() == 15);
    assert("Artio"@.len() == 5);
    assert("BarrowsChests"@.len() == 13);
    assert("Bryophyta"@.len() == 9);
    assert("Callisto"@.len() == 8);
    assert("Calvarion"@.len() == 9);
    assert("Cerberus"@.len() == 8);
    assert("ChambersOfXeric"@.len() == 15);
    assert("ChambersOfXericChallengeMode"@.len() == 28);
    assert("ChaosElemental"@.len() == 14);
    assert("ChaosFanatic"@.len() == 12);
    assert("CommanderZilyana"@.len() == 16);
    assert("CorporealBeast"@.len() == 14);
    assert("CrazyArchaeologist"@.len() == 18);
    assert("DagannothPrime"@.len() == 14);
    assert("DagannothRex"@.len() == 12);
    assert("DagannothSupreme"@.len() == 16);
    assert("DerangedArchaeologist"@.len() == 21);
    assert("DukeSucellus"@.len() == 12);
    assert("GeneralGraardor"@.len() == 15);
    assert("GiantMole"@.len() == 9);
    assert("GrotesqueGuardians"@.len() == 18);
    assert("Hespori"@.len() == 7);
    assert("KalphiteQueen"@.len() == 13);
    assert("KingBlackDragon"@.len() == 15);
    assert("Kraken"@.len() == 6);
    assert("Kreearra"@.len() == 8);
    assert("KrilTsutsaroth"@.len() == 14);
    assert("Mimic"@.len() == 5);
    assert("Nex"@.len() == 3);
    assert("Nightmare"@.len() == 9);
    assert("PhosanisNightmare"@.len() == 17);
    assert("Obor"@.len() == 4);
    assert("PhantomMuspah"@.len() == 13);
    assert("Sarachnis"@.len() == 9);
    assert("Scorpia"@.len() == 7);
    assert("Scurrius"@.len() == 8);
    assert("Skotizo"@.len() == 7);
    assert("Spindel"@.len() == 7);
    assert("Tempoross"@.len() == 9);
    assert("TheGauntlet"@.len() == 11);
    assert("TheCorruptedGauntlet"@.len() == 20);
    assert("TheLeviathan"@.len() == 12);
    assert("TheWhisperer"@.len() == 12);
    assert("TheatreOfBlood"@.len() == 14);
    assert("TheatreOfBloodHardMode"@.len() == 22);
    assert("ThermonuclearSmokeDevil"@.len() == 23);
    assert("TombsOfAmascut"@.len() == 14);
    assert("TombsOfAmascutExpert"@.len() == 20);
    assert("TzkalZuk"@.len() == 8);
    assert("TztokJad"@.len() == 8);
    assert("Vardorvis"@.len() == 9);
    assert("Venenatis"@.len() == 9);
    assert("Vetion"@.len() == 6);
    assert("Vorkath"@.len() == 7);
    assert("Wintertodt"@.len() == 10);
    assert("Zalcano"@.len() == 7);
    assert("Zulrah"@.len() == 6);
    assert("LeaguePoints"@.len() == 12);
    assert("BountyHunterHunter"@.len() == 18);
    assert("BountyHunterRogue"@.len() == 17);
    assert("ClueScrollsAll"@.len() == 14);
    assert("ClueScrollsBeginner"@.len() == 19);
    assert("ClueScrollsEasy"@.len() == 15);
    assert("ClueScrollsMedium"@.len() == 17);
    assert("ClueScrollsHard"@.len() == 15);
    assert("ClueScrollsElite"@.len() == 16);
    assert("ClueScrollsMaster"@.len() == 17);
    assert("LastManStanding"@.len() == 15);
    assert("PvpArena"@.len() == 8);
    assert("SoulWarsZeal"@.len() == 12);
    assert("GuardiansOfTheRift"@.len() == 18);
    assert("Ehp"@ != "Nex"@) by {
        assert("Ehp"@[0] != "Nex"@[0]);
    }
    assert("Ehb"@ != "Nex"@) by {
        assert("Ehb"@[0] != "Nex"@[0]);
    }
}
/// Decoding a token written in any casing of a skill's canonical name yields
/// that skill, and re-encoding it yields the snake_case form of the token.
pub proof fn lemma_decode_skill_token(t: Seq<char>, v: Skill)
    requires
        normalize_spec(t) == v.name_spec(),
    ensures
        metric_for_key(normalize_spec(t)) == Some(Metric::Skill(v)),
        Metric::Skill(v).wire_spec() == snake_spec(normalize_spec(t)),
{
    let k = normalize_spec(t);
    assert(is_skill_key(k));
    lemma_skill_names_injective(v, choose|w: Skill| w.name_spec() == k);
}

/// Decoding a token written in any casing of a boss's canonical name yields
/// that boss, and re-encoding yields the snake_case form of the token. Only
/// the shared placeholder is excluded: its name belongs to the skill
/// vocabulary, which the decoder probes first.
pub proof fn lemma_decode_boss_token(t: Seq<char>, v: Boss)
    requires
        normalize_spec(t) == v.name_spec(),
        v != Boss::Unspecified,
    ensures
        metric_for_key(normalize_spec(t)) == Some(Metric::Boss(v)),
        Metric::Boss(v).wire_spec() == snake_spec(normalize_spec(t)),
{
    let k = normalize_spec(t);
    assert(is_boss_key(k));
    assert forall|w: Skill| (#[trigger] w.name_spec()) != k by {
        lemma_boss_name_not_skill_name(v, w);
    }
    assert(!is_skill_key(k));
    lemma_boss_names_injective(v, choose|w: Boss| w.name_spec() == k);
}

/// As `lemma_decode_boss_token`, for activities: only the shared
/// placeholder resolves into an earlier vocabulary.
pub proof fn lemma_decode_activity_token(t: Seq<char>, v: Activity)
    requires
        normalize_spec(t) == v.name_spec(),
        v != Activity::Unspecified,
    ensures
        metric_for_key(normalize_spec(t)) == Some(Metric::Activity(v)),
        Metric::Activity(v).wire_spec() == snake_spec(normalize_spec(t)),
{
    let k = normalize_spec(t);
    assert(is_activity_key(k));
    assert forall|w: Skill| (#[trigger] w.name_spec()) != k by {
        lemma_activity_name_not_earlier_name(v, w, Boss::Unspecified);
    }
    assert forall|x: Boss| (#[trigger] x.name_spec()) != k by {
        lemma_activity_name_not_earlier_name(v, Skill::Unspecified, x);
    }
    assert(!is_skill_key(k));
    assert(!is_boss_key(k));
    lemma_activity_names_injective(v, choose|w: Activity| w.name_spec() == k);
}

/// As `lemma_decode_boss_token`, for computed metrics: only the shared
/// placeholder resolves into an earlier vocabulary.
pub proof fn lemma_decode_computed_token(t: Seq<char>, v: ComputedMetricEnum)
    requires
        normalize_spec(t) == v.name_spec(),
        v != ComputedMetricEnum::Unspecified,
    ensures
        metric_for_key(normalize_spec(t)) == Some(Metric::ComputedMetric(v)),
        Metric::ComputedMetric(v).wire_spec() == snake_spec(normalize_spec(t)),
{
    let k = normalize_spec(t);
    assert(is_computed_key(k));
    assert forall|w: Skill| (#[trigger] w.name_spec()) != k by {
        lemma_computed_name_not_earlier_name(v, w, Boss::Unspecified, Activity::Unspecified);
    }
    assert forall|x: Boss| (#[trigger] x.name_spec()) != k by {
        lemma_computed_name_not_earlier_name(v, Skill::Unspecified, x, Activity::Unspecified);
    }
    assert forall|y: Activity| (#[trigger] y.name_spec()) != k by {
        lemma_computed_name_not_earlier_name(v, Skill::Unspecified, Boss::Unspecified, y);
    }
    assert(!is_skill_key(k));
    assert(!is_boss_key(k));
    assert(!is_activity_key(k));
    lemma_computed_metric_names_injective(v, choose|w: ComputedMetricEnum| w.name_spec() == k);
}

/// The decoder's tie-break is the fixed priority Skill over Boss over
/// Activity over ComputedMetric: whenever a key is known to a vocabulary,
/// no lower-priority vocabulary is consulted.
pub proof fn lemma_decode_priority(k: Seq<char>)
    ensures
        is_skill_key(k) ==> (metric_for_key(k) matches Some(m) && m is Skill),
        !is_skill_key(k) && is_boss_key(k) ==> (metric_for_key(k) matches Some(m) && m is Boss),
        !is_skill_key(k) && !is_boss_key(k) && is_activity_key(k) ==> (metric_for_key(k)
            matches Some(m) && m is Activity),
        !is_skill_key(k) && !is_boss_key(k) && !is_activity_key(k) && is_computed_key(k)
            ==> (metric_for_key(k) matches Some(m) && m is ComputedMetric),
        !metric_key_known(k) ==> metric_for_key(k) is None,
{
}

/// Round-trip idempotence: whatever metric a wire token decodes to, encoding
/// that metric and decoding the result yields the same tagged variant.
pub proof fn lemma_encode_decode_roundtrip(t: Seq<char>, m: Metric)
    requires
        metric_for_key(normalize_spec(t)) == Some(m),
    ensures
        metric_for_key(normalize_spec(m.wire_spec())) == Some(m),
{
    let k = normalize_spec(t);
    assert(m.name_spec() == k);
    lemma_metric_names_pascal(m);
    crate::text::lemma_snake_normalize_roundtrip(m.name_spec());
}

} // verus!
