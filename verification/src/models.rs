//! The optimizer's option enums, their names, and the preset weight tables.
//!
//! Weights are held as signed integers in ten-thousandths (`10000` stands for a weight
//! of `1.0`, `-80` for `-0.008`); every preset weight is such a multiple exactly.

use vstd::prelude::*;

use crate::text::{ascii_lower, lowercase, str_eq, to_lowercase};
use vstd::utf8::is_ascii_chars;
use crate::weights::WeightTable;

verus! {

/// Richness of a resource node.
#[derive(Clone, Copy, Debug, PartialEq, Eq, Structural)]
pub enum Purity {
    Impure,
    Normal,
    Pure,
}

/// The purity that a database purity string names; anything unknown is `Normal`.
pub open spec fn purity_named(s: Seq<char>) -> Purity {
    if s == "RP_Inpure"@ || s == "RP_Impure"@ || s == "impure"@ {
        Purity::Impure
    } else if s == "RP_Normal"@ || s == "normal"@ {
        Purity::Normal
    } else if s == "RP_Pure"@ || s == "pure"@ {
        Purity::Pure
    } else {
        Purity::Normal
    }
}

impl Purity {
    /// Reads a purity as the map database or the user writes it. The database's
    /// misspelling `RP_Inpure` is accepted; unknown strings give `Normal`.
    pub fn from_str(s: &str) -> (r: Self)
        ensures
            r == purity_named(s@),
    {
        if str_eq(s, "RP_Inpure") || str_eq(s, "RP_Impure") || str_eq(s, "impure") {
            Purity::Impure
        } else if str_eq(s, "RP_Normal") || str_eq(s, "normal") {
            Purity::Normal
        } else if str_eq(s, "RP_Pure") || str_eq(s, "pure") {
            Purity::Pure
        } else {
            Purity::Normal
        }
    }

    /// The yield multiplier in halves: 1 (0.5x), 2 (1.0x) or 4 (2.0x).
    pub fn multiplier_halves(self) -> (r: u32)
        ensures
            r == match self {
                Purity::Impure => 1u32,
                Purity::Normal => 2u32,
                Purity::Pure => 4u32,
            },
    {
        match self {
            Purity::Impure => 1,
            Purity::Normal => 2,
            Purity::Pure => 4,
        }
    }

    /// The word with which node inventories are labelled ("Pure iron", ...).
    pub fn label(self) -> (r: &'static str)
        ensures
            r@ == match self {
                Purity::Impure => "Impure"@,
                Purity::Normal => "Normal"@,
                Purity::Pure => "Pure"@,
            },
    {
        match self {
            Purity::Impure => "Impure",
            Purity::Normal => "Normal",
            Purity::Pure => "Pure",
        }
    }
}

/// A global override of every node's purity.
#[derive(Clone, Copy, Debug, PartialEq, Eq, Structural)]
pub enum PurityOverride {
    Default,
    Impure,
    Normal,
    Pure,
}

impl PurityOverride {
    /// The description shown for the override.
    pub fn to_str(self) -> (r: &'static str)
        ensures
            r@ == match self {
                PurityOverride::Default => "Default (Database)"@,
                PurityOverride::Impure => "All Impure (0.5x)"@,
                PurityOverride::Normal => "All Normal (1.0x)"@,
                PurityOverride::Pure => "All Pure (2.0x)"@,
            },
    {
        match self {
            PurityOverride::Default => "Default (Database)",
            PurityOverride::Impure => "All Impure (0.5x)",
            PurityOverride::Normal => "All Normal (1.0x)",
            PurityOverride::Pure => "All Pure (2.0x)",
        }
    }

    /// The purity with which a node of database purity `p` is scored: the database
    /// value under `Default`, the forced value otherwise.
    pub fn apply(self, p: Purity) -> (r: Purity)
        ensures
            r == match self {
                PurityOverride::Default => p,
                PurityOverride::Impure => Purity::Impure,
                PurityOverride::Normal => Purity::Normal,
                PurityOverride::Pure => Purity::Pure,
            },
    {
        match self {
            PurityOverride::Default => p,
            PurityOverride::Impure => Purity::Impure,
            PurityOverride::Normal => Purity::Normal,
            PurityOverride::Pure => Purity::Pure,
        }
    }
}

/// Progression stage of a playthrough.
#[derive(Clone, Copy, Debug, PartialEq, Eq, Structural)]
pub enum GamePhase {
    Phase1,
    Phase2,
    Phase3,
    Phase4,
    Phase5,
}

/// The phase that an already lowercased phase keyword names.
pub open spec fn phase_keyword(s: Seq<char>) -> Option<GamePhase> {
    if s == "phase1"@ || s == "1"@ || s == "early"@ {
        Some(GamePhase::Phase1)
    } else if s == "phase2"@ || s == "2"@ || s == "steel"@ {
        Some(GamePhase::Phase2)
    } else if s == "phase3"@ || s == "3"@ || s == "oil"@ {
        Some(GamePhase::Phase3)
    } else if s == "phase4"@ || s == "4"@ || s == "late"@ || s == "nuclear"@ {
        Some(GamePhase::Phase4)
    } else if s == "phase5"@ || s == "5"@ || s == "quantum"@ || s == "end"@ {
        Some(GamePhase::Phase5)
    } else {
        None
    }
}

/// Ordinal of a phase, 1 to 5.
pub open spec fn phase_number(p: GamePhase) -> int {
    match p {
        GamePhase::Phase1 => 1,
        GamePhase::Phase2 => 2,
        GamePhase::Phase3 => 3,
        GamePhase::Phase4 => 4,
        GamePhase::Phase5 => 5,
    }
}

impl GamePhase {
    /// Reads a phase keyword that is already in lower case.
    pub fn from_lowercase(s: &str) -> (r: Option<Self>)
        ensures
            r == phase_keyword(s@),
    {
        if str_eq(s, "phase1") || str_eq(s, "1") || str_eq(s, "early") {
            Some(GamePhase::Phase1)
        } else if str_eq(s, "phase2") || str_eq(s, "2") || str_eq(s, "steel") {
            Some(GamePhase::Phase2)
        } else if str_eq(s, "phase3") || str_eq(s, "3") || str_eq(s, "oil") {
            Some(GamePhase::Phase3)
        } else if str_eq(s, "phase4") || str_eq(s, "4") || str_eq(s, "late") || str_eq(
            s,
            "nuclear",
        ) {
            Some(GamePhase::Phase4)
        } else if str_eq(s, "phase5") || str_eq(s, "5") || str_eq(s, "quantum") || str_eq(
            s,
            "end",
        ) {
            Some(GamePhase::Phase5)
        } else {
            None
        }
    }

    /// Reads a phase keyword in any letter case ("Phase2", "STEEL", "4", ...).
    pub fn from_str(s: &str) -> (r: Option<Self>)
        ensures
            r == phase_keyword(lowercase(s@)),
            is_ascii_chars(s@) ==> r == phase_keyword(ascii_lower(s@)),
    {
        let lower = to_lowercase(s);
        Self::from_lowercase(lower.as_str())
    }

    /// The description of the phase.
    pub fn to_str(self) -> (r: &'static str)
        ensures
            r@ == match self {
                GamePhase::Phase1 => "Phase 1 (Tiers 1-2: Early Game)"@,
                GamePhase::Phase2 => "Phase 2 (Tiers 3-4: Steel & Coal Power)"@,
                GamePhase::Phase3 => "Phase 3 (Tiers 5-6: Oil & Quartz)"@,
                GamePhase::Phase4 => "Phase 4 (Tiers 7-8: Aluminum & Nuclear)"@,
                GamePhase::Phase5 => "Phase 5 (Tier 9: Quantum End-game)"@,
            },
    {
        match self {
            GamePhase::Phase1 => "Phase 1 (Tiers 1-2: Early Game)",
            GamePhase::Phase2 => "Phase 2 (Tiers 3-4: Steel & Coal Power)",
            GamePhase::Phase3 => "Phase 3 (Tiers 5-6: Oil & Quartz)",
            GamePhase::Phase4 => "Phase 4 (Tiers 7-8: Aluminum & Nuclear)",
            GamePhase::Phase5 => "Phase 5 (Tier 9: Quantum End-game)",
        }
    }
}

/// How the candidate sites are searched.
#[derive(Clone, Copy, Debug, PartialEq, Eq, Structural)]
pub enum SearchStrategy {
    Hybrid,
    Fast,
    Slow,
}

impl SearchStrategy {
    /// The description of the strategy.
    pub fn to_str(self) -> (r: &'static str)
        ensures
            r@ == match self {
                SearchStrategy::Hybrid => "Hybrid (recommended)"@,
                SearchStrategy::Fast => "Multi-Start (fast but less accurate)"@,
                SearchStrategy::Slow => "High-Res (slow but accurate)"@,
            },
    {
        match self {
            SearchStrategy::Hybrid => "Hybrid (recommended)",
            SearchStrategy::Fast => "Multi-Start (fast but less accurate)",
            SearchStrategy::Slow => "High-Res (slow but accurate)",
        }
    }
}

/// How the yields of several resources combine into one score.
#[derive(Clone, Copy, Debug, PartialEq, Eq, Structural)]
pub enum UtilityFunction {
    CobbDouglas,
    Leontief,
    Linear,
}

impl UtilityFunction {
    /// The description of the utility function.
    pub fn to_str(self) -> (r: &'static str)
        ensures
            r@ == match self {
                UtilityFunction::CobbDouglas => "Cobb-Douglas (Balanced)"@,
                UtilityFunction::Leontief => "Leontief (Min-Bottleneck)"@,
                UtilityFunction::Linear => "Linear (Additive/Volume)"@,
            },
    {
        match self {
            UtilityFunction::CobbDouglas => "Cobb-Douglas (Balanced)",
            UtilityFunction::Leontief => "Leontief (Min-Bottleneck)",
            UtilityFunction::Linear => "Linear (Additive/Volume)",
        }
    }
}

/// How a node's value falls off with distance.
#[derive(Clone, Copy, Debug, PartialEq, Eq, Structural)]
pub enum DistanceDecay {
    Gaussian,
    Exponential,
    PowerLaw,
    Linear,
    LogisticStep,
}

impl DistanceDecay {
    /// The description of the decay function.
    pub fn to_str(self) -> (r: &'static str)
        ensures
            r@ == match self {
                DistanceDecay::Gaussian => "Gaussian (Smooth Drop)"@,
                DistanceDecay::Exponential => "Exponential (Linear Cost)"@,
                DistanceDecay::PowerLaw => "Power-Law (Heavy Tail)"@,
                DistanceDecay::Linear => "Linear (Hard Cutoff)"@,
                DistanceDecay::LogisticStep => "Logistic (Step Function / Trains)"@,
            },
    {
        match self {
            DistanceDecay::Gaussian => "Gaussian (Smooth Drop)",
            DistanceDecay::Exponential => "Exponential (Linear Cost)",
            DistanceDecay::PowerLaw => "Power-Law (Heavy Tail)",
            DistanceDecay::Linear => "Linear (Hard Cutoff)",
            DistanceDecay::LogisticStep => "Logistic (Step Function / Trains)",
        }
    }
}

/// The preset weights (ten-thousandths) of a game phase.
pub open spec fn phase_weights(p: GamePhase) -> Map<Seq<char>, int> {
    match p {
        GamePhase::Phase1 => {
            Map::<Seq<char>, int>::empty()
                .insert("iron"@, 10000)
                .insert("copper"@, 8000)
                .insert("limestone"@, 7000)
                .insert("coal"@, 2000)
                .insert("caterium"@, 2000)
                .insert("uranium"@, -20000)
                .insert("blueslug"@, 1000)
                .insert("yellowslug"@, 1500)
                .insert("purpleslug"@, 2000)
                .insert("mercer"@, 1500)
                .insert("somersloop"@, 1500)
                .insert("harddrive"@, 2500)
                .insert("paleberry"@, 1000)
                .insert("berylnut"@, 800)
                .insert("baconagaric"@, 1200)
                .insert("sporeflower"@, -100)
                .insert("gaspillar"@, -200)
        },
        GamePhase::Phase2 => {
            Map::<Seq<char>, int>::empty()
                .insert("iron"@, 10000)
                .insert("copper"@, 8000)
                .insert("limestone"@, 7000)
                .insert("coal"@, 10000)
                .insert("water"@, 12000)
                .insert("caterium"@, 4000)
                .insert("sulfur"@, 3000)
                .insert("quartz"@, 2000)
                .insert("uranium"@, -20000)
                .insert("blueslug"@, 800)
                .insert("yellowslug"@, 1200)
                .insert("purpleslug"@, 1800)
                .insert("mercer"@, 1200)
                .insert("somersloop"@, 1200)
                .insert("harddrive"@, 2000)
                .insert("paleberry"@, 800)
                .insert("berylnut"@, 600)
                .insert("baconagaric"@, 1000)
                .insert("sporeflower"@, -80)
                .insert("gaspillar"@, -150)
        },
        GamePhase::Phase3 => {
            Map::<Seq<char>, int>::empty()
                .insert("iron"@, 8000)
                .insert("copper"@, 8000)
                .insert("limestone"@, 6000)
                .insert("coal"@, 8000)
                .insert("water"@, 9000)
                .insert("oil"@, 10000)
                .insert("sulfur"@, 6000)
                .insert("quartz"@, 6000)
                .insert("caterium"@, 6000)
                .insert("bauxite"@, 3000)
                .insert("uranium"@, -20000)
                .insert("blueslug"@, 500)
                .insert("yellowslug"@, 800)
                .insert("purpleslug"@, 1200)
                .insert("mercer"@, 1000)
                .insert("somersloop"@, 1000)
                .insert("harddrive"@, 1500)
                .insert("paleberry"@, 500)
                .insert("berylnut"@, 400)
                .insert("baconagaric"@, 600)
                .insert("sporeflower"@, -40)
                .insert("gaspillar"@, -80)
        },
        GamePhase::Phase4 => {
            Map::<Seq<char>, int>::empty()
                .insert("iron"@, 6000)
                .insert("copper"@, 6000)
                .insert("limestone"@, 5000)
                .insert("coal"@, 6000)
                .insert("water"@, 12000)
                .insert("oil"@, 8000)
                .insert("sulfur"@, 8000)
                .insert("quartz"@, 8000)
                .insert("caterium"@, 8000)
                .insert("bauxite"@, 10000)
                .insert("nitrogenwell"@, 8000)
                .insert("geyser"@, 8000)
                .insert("uranium"@, 6000)
                .insert("sam"@, 6000)
                .insert("blueslug"@, 500)
                .insert("yellowslug"@, 800)
                .insert("purpleslug"@, 1200)
                .insert("mercer"@, 1000)
                .insert("somersloop"@, 1000)
                .insert("harddrive"@, 1500)
                .insert("paleberry"@, 200)
                .insert("berylnut"@, 200)
                .insert("baconagaric"@, 200)
                .insert("sporeflower"@, -10)
                .insert("gaspillar"@, -20)
        },
        GamePhase::Phase5 => {
            Map::<Seq<char>, int>::empty()
                .insert("iron"@, 5000)
                .insert("copper"@, 5000)
                .insert("limestone"@, 4000)
                .insert("coal"@, 5000)
                .insert("water"@, 5000)
                .insert("oil"@, 7000)
                .insert("sulfur"@, 8000)
                .insert("quartz"@, 8000)
                .insert("caterium"@, 8000)
                .insert("bauxite"@, 8000)
                .insert("nitrogenwell"@, 8000)
                .insert("geyser"@, 8000)
                .insert("uranium"@, 5000)
                .insert("sam"@, 10000)
                .insert("blueslug"@, 300)
                .insert("yellowslug"@, 500)
                .insert("purpleslug"@, 800)
                .insert("mercer"@, 500)
                .insert("somersloop"@, 500)
                .insert("harddrive"@, 1000)
                .insert("paleberry"@, 100)
                .insert("berylnut"@, 100)
                .insert("baconagaric"@, 100)
                .insert("sporeflower"@, -5)
                .insert("gaspillar"@, -10)
        },
    }
}

/// The weights (ten-thousandths) of the default configuration.
pub open spec fn default_weight_map() -> Map<Seq<char>, int> {
    Map::<Seq<char>, int>::empty()
        .insert("iron"@, 10000)
        .insert("copper"@, 8000)
        .insert("limestone"@, 7000)
        .insert("coal"@, 9000)
        .insert("caterium"@, 3000)
        .insert("oil"@, 5000)
        .insert("sulfur"@, 2000)
        .insert("quartz"@, 4000)
        .insert("bauxite"@, 1000)
        .insert("uranium"@, 500)
        .insert("sam"@, 500)
        .insert("blueslug"@, 500)
        .insert("yellowslug"@, 800)
        .insert("purpleslug"@, 1200)
        .insert("mercer"@, 1000)
        .insert("somersloop"@, 1000)
        .insert("harddrive"@, 1500)
        .insert("paleberry"@, 500)
        .insert("berylnut"@, 500)
        .insert("baconagaric"@, 500)
        .insert("sporeflower"@, -80)
        .insert("gaspillar"@, -150)
}

impl GamePhase {
    /// Replaces the whole table by the phase's preset weights.
    pub fn apply_weights(self, weights: &mut WeightTable)
        ensures
            final(weights)@ == phase_weights(self),
    {
        weights.clear();
        match self {
            GamePhase::Phase1 => {
                weights.insert("iron", 10000);
                weights.insert("copper", 8000);
                weights.insert("limestone", 7000);
                weights.insert("coal", 2000);
                weights.insert("caterium", 2000);
                weights.insert("uranium", -20000);
                weights.insert("blueslug", 1000);
                weights.insert("yellowslug", 1500);
                weights.insert("purpleslug", 2000);
                weights.insert("mercer", 1500);
                weights.insert("somersloop", 1500);
                weights.insert("harddrive", 2500);
                weights.insert("paleberry", 1000);
                weights.insert("berylnut", 800);
                weights.insert("baconagaric", 1200);
                weights.insert("sporeflower", -100);
                weights.insert("gaspillar", -200);
            },
            GamePhase::Phase2 => {
                weights.insert("iron", 10000);
                weights.insert("copper", 8000);
                weights.insert("limestone", 7000);
                weights.insert("coal", 10000);
                weights.insert("water", 12000);
                weights.insert("caterium", 4000);
                weights.insert("sulfur", 3000);
                weights.insert("quartz", 2000);
                weights.insert("uranium", -20000);
                weights.insert("blueslug", 800);
                weights.insert("yellowslug", 1200);
                weights.insert("purpleslug", 1800);
                weights.insert("mercer", 1200);
                weights.insert("somersloop", 1200);
                weights.insert("harddrive", 2000);
                weights.insert("paleberry", 800);
                weights.insert("berylnut", 600);
                weights.insert("baconagaric", 1000);
                weights.insert("sporeflower", -80);
                weights.insert("gaspillar", -150);
            },
            GamePhase::Phase3 => {
                weights.insert("iron", 8000);
                weights.insert("copper", 8000);
                weights.insert("limestone", 6000);
                weights.insert("coal", 8000);
                weights.insert("water", 9000);
                weights.insert("oil", 10000);
                weights.insert("sulfur", 6000);
                weights.insert("quartz", 6000);
                weights.insert("caterium", 6000);
                weights.insert("bauxite", 3000);
                weights.insert("uranium", -20000);
                weights.insert("blueslug", 500);
                weights.insert("yellowslug", 800);
                weights.insert("purpleslug", 1200);
                weights.insert("mercer", 1000);
                weights.insert("somersloop", 1000);
                weights.insert("harddrive", 1500);
                weights.insert("paleberry", 500);
                weights.insert("berylnut", 400);
                weights.insert("baconagaric", 600);
                weights.insert("sporeflower", -40);
                weights.insert("gaspillar", -80);
            },
            GamePhase::Phase4 => {
                weights.insert("iron", 6000);
                weights.insert("copper", 6000);
                weights.insert("limestone", 5000);
                weights.insert("coal", 6000);
                weights.insert("water", 12000);
                weights.insert("oil", 8000);
                weights.insert("sulfur", 8000);
                weights.insert("quartz", 8000);
                weights.insert("caterium", 8000);
                weights.insert("bauxite", 10000);
                weights.insert("nitrogenwell", 8000);
                weights.insert("geyser", 8000);
                weights.insert("uranium", 6000);
                weights.insert("sam", 6000);
                weights.insert("blueslug", 500);
                weights.insert("yellowslug", 800);
                weights.insert("purpleslug", 1200);
                weights.insert("mercer", 1000);
                weights.insert("somersloop", 1000);
                weights.insert("harddrive", 1500);
                weights.insert("paleberry", 200);
                weights.insert("berylnut", 200);
                weights.insert("baconagaric", 200);
                weights.insert("sporeflower", -10);
                weights.insert("gaspillar", -20);
            },
            GamePhase::Phase5 => {
                weights.insert("iron", 5000);
                weights.insert("copper", 5000);
                weights.insert("limestone", 4000);
                weights.insert("coal", 5000);
                weights.insert("water", 5000);
                weights.insert("oil", 7000);
                weights.insert("sulfur", 8000);
                weights.insert("quartz", 8000);
                weights.insert("caterium", 8000);
                weights.insert("bauxite", 8000);
                weights.insert("nitrogenwell", 8000);
                weights.insert("geyser", 8000);
                weights.insert("uranium", 5000);
                weights.insert("sam", 10000);
                weights.insert("blueslug", 300);
                weights.insert("yellowslug", 500);
                weights.insert("purpleslug", 800);
                weights.insert("mercer", 500);
                weights.insert("somersloop", 500);
                weights.insert("harddrive", 1000);
                weights.insert("paleberry", 100);
                weights.insert("berylnut", 100);
                weights.insert("baconagaric", 100);
                weights.insert("sporeflower", -5);
                weights.insert("gaspillar", -10);
            },
        }
    }
}

/// The weight table of the default configuration.
pub fn default_weights() -> (t: WeightTable)
    ensures
        t@ == default_weight_map(),
{
    let mut weights = WeightTable::new();
    weights.insert("iron", 10000);
    weights.insert("copper", 8000);
    weights.insert("limestone", 7000);
    weights.insert("coal", 9000);
    weights.insert("caterium", 3000);
    weights.insert("oil", 5000);
    weights.insert("sulfur", 2000);
    weights.insert("quartz", 4000);
    weights.insert("bauxite", 1000);
    weights.insert("uranium", 500);
    weights.insert("sam", 500);
    weights.insert("blueslug", 500);
    weights.insert("yellowslug", 800);
    weights.insert("purpleslug", 1200);
    weights.insert("mercer", 1000);
    weights.insert("somersloop", 1000);
    weights.insert("harddrive", 1500);
    weights.insert("paleberry", 500);
    weights.insert("berylnut", 500);
    weights.insert("baconagaric", 500);
    weights.insert("sporeflower", -80);
    weights.insert("gaspillar", -150);
    weights
}

/// The default walking radius, in metres.
pub const DEFAULT_SIGMA_M: u32 = 700;

/// Law: uranium is a hazard (negative weight) in phases 1 to 3, before the hazmat suit,
/// and a wanted resource (positive weight) in phases 4 and 5.
pub proof fn lemma_uranium_turns_from_hazard_to_resource(p: GamePhase)
    ensures
        phase_weights(p).contains_key("uranium"@),
        phase_number(p) <= 3 ==> phase_weights(p)["uranium"@] < 0,
        phase_number(p) >= 4 ==> phase_weights(p)["uranium"@] > 0,
{
    reveal_strlit("uranium");
    assert("uranium"@.len() == 7);
    reveal_strlit("baconagaric");
    assert("baconagaric"@.len() == 11);
    reveal_strlit("bauxite");
    assert("bauxite"@.len() == 7);
    reveal_strlit("berylnut");
    assert("berylnut"@.len() == 8);
    reveal_strlit("blueslug");
    assert("blueslug"@.len() == 8);
    reveal_strlit("caterium");
    assert("caterium"@.len() == 8);
    reveal_strlit("coal");
    assert("coal"@.len() == 4);
    reveal_strlit("copper");
    assert("copper"@.len() == 6);
    reveal_strlit("gaspillar");
    assert("gaspillar"@.len() == 9);
    reveal_strlit("geyser");
    assert("geyser"@.len() == 6);
    reveal_strlit("harddrive");
    assert("harddrive"@.len() == 9);
    reveal_strlit("iron");
    assert("iron"@.len() == 4);
    reveal_strlit("limestone");
    assert("limestone"@.len() == 9);
    reveal_strlit("mercer");
    assert("mercer"@.len() == 6);
    reveal_strlit("nitrogenwell");
    assert("nitrogenwell"@.len() == 12);
    reveal_strlit("oil");
    assert("oil"@.len() == 3);
    reveal_strlit("paleberry");
    assert("paleberry"@.len() == 9);
    reveal_strlit("purpleslug");
    assert("purpleslug"@.len() == 10);
    reveal_strlit("quartz");
    assert("quartz"@.len() == 6);
    reveal_strlit("sam");
    assert("sam"@.len() == 3);
    reveal_strlit("somersloop");
    assert("somersloop"@.len() == 10);
    reveal_strlit("sporeflower");
    assert("sporeflower"@.len() == 11);
    reveal_strlit("sulfur");
    assert("sulfur"@.len() == 6);
    reveal_strlit("water");
    assert("water"@.len() == 5);
    reveal_strlit("yellowslug");
    assert("yellowslug"@.len() == 10);
    assert("bauxite"@[0] != "uranium"@[0]);
}

/// The entries of the phase 1 table.
pub(crate) proof fn lemma_phase1_table()
    ensures
        phase_weights(GamePhase::Phase1).contains_key("iron"@),
        phase_weights(GamePhase::Phase1)["iron"@] == 10000,
        phase_weights(GamePhase::Phase1).contains_key("copper"@),
        phase_weights(GamePhase::Phase1)["copper"@] == 8000,
        phase_weights(GamePhase::Phase1).contains_key("limestone"@),
        phase_weights(GamePhase::Phase1)["limestone"@] == 7000,
        phase_weights(GamePhase::Phase1).contains_key("coal"@),
        phase_weights(GamePhase::Phase1)["coal"@] == 2000,
        phase_weights(GamePhase::Phase1).contains_key("caterium"@),
        phase_weights(GamePhase::Phase1)["caterium"@] == 2000,
        phase_weights(GamePhase::Phase1).contains_key("uranium"@),
        phase_weights(GamePhase::Phase1)["uranium"@] == -20000,
        phase_weights(GamePhase::Phase1).contains_key("blueslug"@),
        phase_weights(GamePhase::Phase1)["blueslug"@] == 1000,
        phase_weights(GamePhase::Phase1).contains_key("yellowslug"@),
        phase_weights(GamePhase::Phase1)["yellowslug"@] == 1500,
        phase_weights(GamePhase::Phase1).contains_key("purpleslug"@),
        phase_weights(GamePhase::Phase1)["purpleslug"@] == 2000,
        phase_weights(GamePhase::Phase1).contains_key("mercer"@),
        phase_weights(GamePhase::Phase1)["mercer"@] == 1500,
        phase_weights(GamePhase::Phase1).contains_key("somersloop"@),
        phase_weights(GamePhase::Phase1)["somersloop"@] == 1500,
        phase_weights(GamePhase::Phase1).contains_key("harddrive"@),
        phase_weights(GamePhase::Phase1)["harddrive"@] == 2500,
        phase_weights(GamePhase::Phase1).contains_key("paleberry"@),
        phase_weights(GamePhase::Phase1)["paleberry"@] == 1000,
        phase_weights(GamePhase::Phase1).contains_key("berylnut"@),
        phase_weights(GamePhase::Phase1)["berylnut"@] == 800,
        phase_weights(GamePhase::Phase1).contains_key("baconagaric"@),
        phase_weights(GamePhase::Phase1)["baconagaric"@] == 1200,
        phase_weights(GamePhase::Phase1).contains_key("sporeflower"@),
        phase_weights(GamePhase::Phase1)["sporeflower"@] == -100,
        phase_weights(GamePhase::Phase1).contains_key("gaspillar"@),
        phase_weights(GamePhase::Phase1)["gaspillar"@] == -200,
        phase_weights(GamePhase::Phase1).dom() =~= set!["iron"@, "copper"@, "limestone"@, "coal"@, "caterium"@, "uranium"@, "blueslug"@, "yellowslug"@, "purpleslug"@, "mercer"@, "somersloop"@, "harddrive"@, "paleberry"@, "berylnut"@, "baconagaric"@, "sporeflower"@, "gaspillar"@],
{
    reveal_strlit("iron");
    assert("iron"@.len() == 4);
    reveal_strlit("copper");
    assert("copper"@.len() == 6);
    reveal_strlit("limestone");
    assert("limestone"@.len() == 9);
    reveal_strlit("coal");
    assert("coal"@.len() == 4);
    reveal_strlit("caterium");
    assert("caterium"@.len() == 8);
    reveal_strlit("uranium");
    assert("uranium"@.len() == 7);
    reveal_strlit("blueslug");
    assert("blueslug"@.len() == 8);
    reveal_strlit("yellowslug");
    assert("yellowslug"@.len() == 10);
    reveal_strlit("purpleslug");
    assert("purpleslug"@.len() == 10);
    reveal_strlit("mercer");
    assert("mercer"@.len() == 6);
    reveal_strlit("somersloop");
    assert("somersloop"@.len() == 10);
    reveal_strlit("harddrive");
    assert("harddrive"@.len() == 9);
    reveal_strlit("paleberry");
    assert("paleberry"@.len() == 9);
    reveal_strlit("berylnut");
    assert("berylnut"@.len() == 8);
    reveal_strlit("baconagaric");
    assert("baconagaric"@.len() == 11);
    reveal_strlit("sporeflower");
    assert("sporeflower"@.len() == 11);
    reveal_strlit("gaspillar");
    assert("gaspillar"@.len() == 9);
    assert("iron"@[0] != "coal"@[0]);
    assert("copper"@[0] != "mercer"@[0]);
    assert("limestone"@[0] != "harddrive"@[0]);
    assert("limestone"@[0] != "paleberry"@[0]);
    assert("limestone"@[0] != "gaspillar"@[0]);
    assert("caterium"@[0] != "blueslug"@[0]);
    assert("caterium"@[0] != "berylnut"@[0]);
    assert("blueslug"@[1] != "berylnut"@[1]);
    assert("yellowslug"@[0] != "purpleslug"@[0]);
    assert("yellowslug"@[0] != "somersloop"@[0]);
    assert("purpleslug"@[0] != "somersloop"@[0]);
    assert("harddrive"@[0] != "paleberry"@[0]);
    assert("harddrive"@[0] != "gaspillar"@[0]);
    assert("paleberry"@[0] != "gaspillar"@[0]);
    assert("baconagaric"@[0] != "sporeflower"@[0]);
}

/// The entries of the phase 2 table.
pub(crate) proof fn lemma_phase2_table()
    ensures
        phase_weights(GamePhase::Phase2).contains_key("iron"@),
        phase_weights(GamePhase::Phase2)["iron"@] == 10000,
        phase_weights(GamePhase::Phase2).contains_key("copper"@),
        phase_weights(GamePhase::Phase2)["copper"@] == 8000,
        phase_weights(GamePhase::Phase2).contains_key("limestone"@),
        phase_weights(GamePhase::Phase2)["limestone"@] == 7000,
        phase_weights(GamePhase::Phase2).contains_key("coal"@),
        phase_weights(GamePhase::Phase2)["coal"@] == 10000,
        phase_weights(GamePhase::Phase2).contains_key("water"@),
        phase_weights(GamePhase::Phase2)["water"@] == 12000,
        phase_weights(GamePhase::Phase2).contains_key("caterium"@),
        phase_weights(GamePhase::Phase2)["caterium"@] == 4000,
        phase_weights(GamePhase::Phase2).contains_key("sulfur"@),
        phase_weights(GamePhase::Phase2)["sulfur"@] == 3000,
        phase_weights(GamePhase::Phase2).contains_key("quartz"@),
        phase_weights(GamePhase::Phase2)["quartz"@] == 2000,
        phase_weights(GamePhase::Phase2).contains_key("uranium"@),
        phase_weights(GamePhase::Phase2)["uranium"@] == -20000,
        phase_weights(GamePhase::Phase2).contains_key("blueslug"@),
        phase_weights(GamePhase::Phase2)["blueslug"@] == 800,
        phase_weights(GamePhase::Phase2).contains_key("yellowslug"@),
        phase_weights(GamePhase::Phase2)["yellowslug"@] == 1200,
        phase_weights(GamePhase::Phase2).contains_key("purpleslug"@),
        phase_weights(GamePhase::Phase2)["purpleslug"@] == 1800,
        phase_weights(GamePhase::Phase2).contains_key("mercer"@),
        phase_weights(GamePhase::Phase2)["mercer"@] == 1200,
        phase_weights(GamePhase::Phase2).contains_key("somersloop"@),
        phase_weights(GamePhase::Phase2)["somersloop"@] == 1200,
        phase_weights(GamePhase::Phase2).contains_key("harddrive"@),
        phase_weights(GamePhase::Phase2)["harddrive"@] == 2000,
        phase_weights(GamePhase::Phase2).contains_key("paleberry"@),
        phase_weights(GamePhase::Phase2)["paleberry"@] == 800,
        phase_weights(GamePhase::Phase2).contains_key("berylnut"@),
        phase_weights(GamePhase::Phase2)["berylnut"@] == 600,
        phase_weights(GamePhase::Phase2).contains_key("baconagaric"@),
        phase_weights(GamePhase::Phase2)["baconagaric"@] == 1000,
        phase_weights(GamePhase::Phase2).contains_key("sporeflower"@),
        phase_weights(GamePhase::Phase2)["sporeflower"@] == -80,
        phase_weights(GamePhase::Phase2).contains_key("gaspillar"@),
        phase_weights(GamePhase::Phase2)["gaspillar"@] == -150,
        phase_weights(GamePhase::Phase2).dom() =~= set!["iron"@, "copper"@, "limestone"@, "coal"@, "water"@, "caterium"@, "sulfur"@, "quartz"@, "uranium"@, "blueslug"@, "yellowslug"@, "purpleslug"@, "mercer"@, "somersloop"@, "harddrive"@, "paleberry"@, "berylnut"@, "baconagaric"@, "sporeflower"@, "gaspillar"@],
{
    reveal_strlit("iron");
    assert("iron"@.len() == 4);
    reveal_strlit("copper");
    assert("copper"@.len() == 6);
    reveal_strlit("limestone");
    assert("limestone"@.len() == 9);
    reveal_strlit("coal");
    assert("coal"@.len() == 4);
    reveal_strlit("water");
    assert("water"@.len() == 5);
    reveal_strlit("caterium");
    assert("caterium"@.len() == 8);
    reveal_strlit("sulfur");
    assert("sulfur"@.len() == 6);
    reveal_strlit("quartz");
    assert("quartz"@.len() == 6);
    reveal_strlit("uranium");
    assert("uranium"@.len() == 7);
    reveal_strlit("blueslug");
    assert("blueslug"@.len() == 8);
    reveal_strlit("yellowslug");
    assert("yellowslug"@.len() == 10);
    reveal_strlit("purpleslug");
    assert("purpleslug"@.len() == 10);
    reveal_strlit("mercer");
    assert("mercer"@.len() == 6);
    reveal_strlit("somersloop");
    assert("somersloop"@.len() == 10);
    reveal_strlit("harddrive");
    assert("harddrive"@.len() == 9);
    reveal_strlit("paleberry");
    assert("paleberry"@.len() == 9);
    reveal_strlit("berylnut");
    assert("berylnut"@.len() == 8);
    reveal_strlit("baconagaric");
    assert("baconagaric"@.len() == 11);
    reveal_strlit("sporeflower");
    assert("sporeflower"@.len() == 11);
    reveal_strlit("gaspillar");
    assert("gaspillar"@.len() == 9);
    assert("iron"@[0] != "coal"@[0]);
    assert("copper"@[0] != "sulfur"@[0]);
    assert("copper"@[0] != "quartz"@[0]);
    assert("copper"@[0] != "mercer"@[0]);
    assert("limestone"@[0] != "harddrive"@[0]);
    assert("limestone"@[0] != "paleberry"@[0]);
    assert("limestone"@[0] != "gaspillar"@[0]);
    assert("caterium"@[0] != "blueslug"@[0]);
    assert("caterium"@[0] != "berylnut"@[0]);
    assert("sulfur"@[0] != "quartz"@[0]);
    assert("sulfur"@[0] != "mercer"@[0]);
    assert("quartz"@[0] != "mercer"@[0]);
    assert("blueslug"@[1] != "berylnut"@[1]);
    assert("yellowslug"@[0] != "purpleslug"@[0]);
    assert("yellowslug"@[0] != "somersloop"@[0]);
    assert("purpleslug"@[0] != "somersloop"@[0]);
    assert("harddrive"@[0] != "paleberry"@[0]);
    assert("harddrive"@[0] != "gaspillar"@[0]);
    assert("paleberry"@[0] != "gaspillar"@[0]);
    assert("baconagaric"@[0] != "sporeflower"@[0]);
}

/// The entries of the phase 3 table.
pub(crate) proof fn lemma_phase3_table()
    ensures
        phase_weights(GamePhase::Phase3).contains_key("iron"@),
        phase_weights(GamePhase::Phase3)["iron"@] == 8000,
        phase_weights(GamePhase::Phase3).contains_key("copper"@),
        phase_weights(GamePhase::Phase3)["copper"@] == 8000,
        phase_weights(GamePhase::Phase3).contains_key("limestone"@),
        phase_weights(GamePhase::Phase3)["limestone"@] == 6000,
        phase_weights(GamePhase::Phase3).contains_key("coal"@),
        phase_weights(GamePhase::Phase3)["coal"@] == 8000,
        phase_weights(GamePhase::Phase3).contains_key("water"@),
        phase_weights(GamePhase::Phase3)["water"@] == 9000,
        phase_weights(GamePhase::Phase3).contains_key("oil"@),
        phase_weights(GamePhase::Phase3)["oil"@] == 10000,
        phase_weights(GamePhase::Phase3).contains_key("sulfur"@),
        phase_weights(GamePhase::Phase3)["sulfur"@] == 6000,
        phase_weights(GamePhase::Phase3).contains_key("quartz"@),
        phase_weights(GamePhase::Phase3)["quartz"@] == 6000,
        phase_weights(GamePhase::Phase3).contains_key("caterium"@),
        phase_weights(GamePhase::Phase3)["caterium"@] == 6000,
        phase_weights(GamePhase::Phase3).contains_key("bauxite"@),
        phase_weights(GamePhase::Phase3)["bauxite"@] == 3000,
        phase_weights(GamePhase::Phase3).contains_key("uranium"@),
        phase_weights(GamePhase::Phase3)["uranium"@] == -20000,
        phase_weights(GamePhase::Phase3).contains_key("blueslug"@),
        phase_weights(GamePhase::Phase3)["blueslug"@] == 500,
        phase_weights(GamePhase::Phase3).contains_key("yellowslug"@),
        phase_weights(GamePhase::Phase3)["yellowslug"@] == 800,
        phase_weights(GamePhase::Phase3).contains_key("purpleslug"@),
        phase_weights(GamePhase::Phase3)["purpleslug"@] == 1200,
        phase_weights(GamePhase::Phase3).contains_key("mercer"@),
        phase_weights(GamePhase::Phase3)["mercer"@] == 1000,
        phase_weights(GamePhase::Phase3).contains_key("somersloop"@),
        phase_weights(GamePhase::Phase3)["somersloop"@] == 1000,
        phase_weights(GamePhase::Phase3).contains_key("harddrive"@),
        phase_weights(GamePhase::Phase3)["harddrive"@] == 1500,
        phase_weights(GamePhase::Phase3).contains_key("paleberry"@),
        phase_weights(GamePhase::Phase3)["paleberry"@] == 500,
        phase_weights(GamePhase::Phase3).contains_key("berylnut"@),
        phase_weights(GamePhase::Phase3)["berylnut"@] == 400,
        phase_weights(GamePhase::Phase3).contains_key("baconagaric"@),
        phase_weights(GamePhase::Phase3)["baconagaric"@] == 600,
        phase_weights(GamePhase::Phase3).contains_key("sporeflower"@),
        phase_weights(GamePhase::Phase3)["sporeflower"@] == -40,
        phase_weights(GamePhase::Phase3).contains_key("gaspillar"@),
        phase_weights(GamePhase::Phase3)["gaspillar"@] == -80,
        phase_weights(GamePhase::Phase3).dom() =~= set!["iron"@, "copper"@, "limestone"@, "coal"@, "water"@, "oil"@, "sulfur"@, "quartz"@, "caterium"@, "bauxite"@, "uranium"@, "blueslug"@, "yellowslug"@, "purpleslug"@, "mercer"@, "somersloop"@, "harddrive"@, "paleberry"@, "berylnut"@, "baconagaric"@, "sporeflower"@, "gaspillar"@],
{
    reveal_strlit("iron");
    assert("iron"@.len() == 4);
    reveal_strlit("copper");
    assert("copper"@.len() == 6);
    reveal_strlit("limestone");
    assert("limestone"@.len() == 9);
    reveal_strlit("coal");
    assert("coal"@.len() == 4);
    reveal_strlit("water");
    assert("water"@.len() == 5);
    reveal_strlit("oil");
    assert("oil"@.len() == 3);
    reveal_strlit("sulfur");
    assert("sulfur"@.len() == 6);
    reveal_strlit("quartz");
    assert("quartz"@.len() == 6);
    reveal_strlit("caterium");
    assert("caterium"@.len() == 8);
    reveal_strlit("bauxite");
    assert("bauxite"@.len() == 7);
    reveal_strlit("uranium");
    assert("uranium"@.len() == 7);
    reveal_strlit("blueslug");
    assert("blueslug"@.len() == 8);
    reveal_strlit("yellowslug");
    assert("yellowslug"@.len() == 10);
    reveal_strlit("purpleslug");
    assert("purpleslug"@.len() == 10);
    reveal_strlit("mercer");
    assert("mercer"@.len() == 6);
    reveal_strlit("somersloop");
    assert("somersloop"@.len() == 10);
    reveal_strlit("harddrive");
    assert("harddrive"@.len() == 9);
    reveal_strlit("paleberry");
    assert("paleberry"@.len() == 9);
    reveal_strlit("berylnut");
    assert("berylnut"@.len() == 8);
    reveal_strlit("baconagaric");
    assert("baconagaric"@.len() == 11);
    reveal_strlit("sporeflower");
    assert("sporeflower"@.len() == 11);
    reveal_strlit("gaspillar");
    assert("gaspillar"@.len() == 9);
    assert("iron"@[0] != "coal"@[0]);
    assert("copper"@[0] != "sulfur"@[0]);
    assert("copper"@[0] != "quartz"@[0]);
    assert("copper"@[0] != "mercer"@[0]);
    assert("limestone"@[0] != "harddrive"@[0]);
    assert("limestone"@[0] != "paleberry"@[0]);
    assert("limestone"@[0] != "gaspillar"@[0]);
    assert("sulfur"@[0] != "quartz"@[0]);
    assert("sulfur"@[0] != "mercer"@[0]);
    assert("quartz"@[0] != "mercer"@[0]);
    assert("caterium"@[0] != "blueslug"@[0]);
    assert("caterium"@[0] != "berylnut"@[0]);
    assert("bauxite"@[0] != "uranium"@[0]);
    assert("blueslug"@[1] != "berylnut"@[1]);
    assert("yellowslug"@[0] != "purpleslug"@[0]);
    assert("yellowslug"@[0] != "somersloop"@[0]);
    assert("purpleslug"@[0] != "somersloop"@[0]);
    assert("harddrive"@[0] != "paleberry"@[0]);
    assert("harddrive"@[0] != "gaspillar"@[0]);
    assert("paleberry"@[0] != "gaspillar"@[0]);
    assert("baconagaric"@[0] != "sporeflower"@[0]);
}

/// The entries of the phase 4 table.
pub(crate) proof fn lemma_phase4_table()
    ensures
        phase_weights(GamePhase::Phase4).contains_key("iron"@),
        phase_weights(GamePhase::Phase4)["iron"@] == 6000,
        phase_weights(GamePhase::Phase4).contains_key("copper"@),
        phase_weights(GamePhase::Phase4)["copper"@] == 6000,
        phase_weights(GamePhase::Phase4).contains_key("limestone"@),
        phase_weights(GamePhase::Phase4)["limestone"@] == 5000,
        phase_weights(GamePhase::Phase4).contains_key("coal"@),
        phase_weights(GamePhase::Phase4)["coal"@] == 6000,
        phase_weights(GamePhase::Phase4).contains_key("water"@),
        phase_weights(GamePhase::Phase4)["water"@] == 12000,
        phase_weights(GamePhase::Phase4).contains_key("oil"@),
        phase_weights(GamePhase::Phase4)["oil"@] == 8000,
        phase_weights(GamePhase::Phase4).contains_key("sulfur"@),
        phase_weights(GamePhase::Phase4)["sulfur"@] == 8000,
        phase_weights(GamePhase::Phase4).contains_key("quartz"@),
        phase_weights(GamePhase::Phase4)["quartz"@] == 8000,
        phase_weights(GamePhase::Phase4).contains_key("caterium"@),
        phase_weights(GamePhase::Phase4)["caterium"@] == 8000,
        phase_weights(GamePhase::Phase4).contains_key("bauxite"@),
        phase_weights(GamePhase::Phase4)["bauxite"@] == 10000,
        phase_weights(GamePhase::Phase4).contains_key("nitrogenwell"@),
        phase_weights(GamePhase::Phase4)["nitrogenwell"@] == 8000,
        phase_weights(GamePhase::Phase4).contains_key("geyser"@),
        phase_weights(GamePhase::Phase4)["geyser"@] == 8000,
        phase_weights(GamePhase::Phase4).contains_key("uranium"@),
        phase_weights(GamePhase::Phase4)["uranium"@] == 6000,
        phase_weights(GamePhase::Phase4).contains_key("sam"@),
        phase_weights(GamePhase::Phase4)["sam"@] == 6000,
        phase_weights(GamePhase::Phase4).contains_key("blueslug"@),
        phase_weights(GamePhase::Phase4)["blueslug"@] == 500,
        phase_weights(GamePhase::Phase4).contains_key("yellowslug"@),
        phase_weights(GamePhase::Phase4)["yellowslug"@] == 800,
        phase_weights(GamePhase::Phase4).contains_key("purpleslug"@),
        phase_weights(GamePhase::Phase4)["purpleslug"@] == 1200,
        phase_weights(GamePhase::Phase4).contains_key("mercer"@),
        phase_weights(GamePhase::Phase4)["mercer"@] == 1000,
        phase_weights(GamePhase::Phase4).contains_key("somersloop"@),
        phase_weights(GamePhase::Phase4)["somersloop"@] == 1000,
        phase_weights(GamePhase::Phase4).contains_key("harddrive"@),
        phase_weights(GamePhase::Phase4)["harddrive"@] == 1500,
        phase_weights(GamePhase::Phase4).contains_key("paleberry"@),
        phase_weights(GamePhase::Phase4)["paleberry"@] == 200,
        phase_weights(GamePhase::Phase4).contains_key("berylnut"@),
        phase_weights(GamePhase::Phase4)["berylnut"@] == 200,
        phase_weights(GamePhase::Phase4).contains_key("baconagaric"@),
        phase_weights(GamePhase::Phase4)["baconagaric"@] == 200,
        phase_weights(GamePhase::Phase4).contains_key("sporeflower"@),
        phase_weights(GamePhase::Phase4)["sporeflower"@] == -10,
        phase_weights(GamePhase::Phase4).contains_key("gaspillar"@),
        phase_weights(GamePhase::Phase4)["gaspillar"@] == -20,
        phase_weights(GamePhase::Phase4).dom() =~= set!["iron"@, "copper"@, "limestone"@, "coal"@, "water"@, "oil"@, "sulfur"@, "quartz"@, "caterium"@, "bauxite"@, "nitrogenwell"@, "geyser"@, "uranium"@, "sam"@, "blueslug"@, "yellowslug"@, "purpleslug"@, "mercer"@, "somersloop"@, "harddrive"@, "paleberry"@, "berylnut"@, "baconagaric"@, "sporeflower"@, "gaspillar"@],
{
    reveal_strlit("iron");
    assert("iron"@.len() == 4);
    reveal_strlit("copper");
    assert("copper"@.len() == 6);
    reveal_strlit("limestone");
    assert("limestone"@.len() == 9);
    reveal_strlit("coal");
    assert("coal"@.len() == 4);
    reveal_strlit("water");
    assert("water"@.len() == 5);
    reveal_strlit("oil");
    assert("oil"@.len() == 3);
    reveal_strlit("sulfur");
    assert("sulfur"@.len() == 6);
    reveal_strlit("quartz");
    assert("quartz"@.len() == 6);
    reveal_strlit("caterium");
    assert("caterium"@.len() == 8);
    reveal_strlit("bauxite");
    assert("bauxite"@.len() == 7);
    reveal_strlit("nitrogenwell");
    assert("nitrogenwell"@.len() == 12);
    reveal_strlit("geyser");
    assert("geyser"@.len() == 6);
    reveal_strlit("uranium");
    assert("uranium"@.len() == 7);
    reveal_strlit("sam");
    assert("sam"@.len() == 3);
    reveal_strlit("blueslug");
    assert("blueslug"@.len() == 8);
    reveal_strlit("yellowslug");
    assert("yellowslug"@.len() == 10);
    reveal_strlit("purpleslug");
    assert("purpleslug"@.len() == 10);
    reveal_strlit("mercer");
    assert("mercer"@.len() == 6);
    reveal_strlit("somersloop");
    assert("somersloop"@.len() == 10);
    reveal_strlit("harddrive");
    assert("harddrive"@.len() == 9);
    reveal_strlit("paleberry");
    assert("paleberry"@.len() == 9);
    reveal_strlit("berylnut");
    assert("berylnut"@.len() == 8);
    reveal_strlit("baconagaric");
    assert("baconagaric"@.len() == 11);
    reveal_strlit("sporeflower");
    assert("sporeflower"@.len() == 11);
    reveal_strlit("gaspillar");
    assert("gaspillar"@.len() == 9);
    assert("iron"@[0] != "coal"@[0]);
    assert("copper"@[0] != "sulfur"@[0]);
    assert("copper"@[0] != "quartz"@[0]);
    assert("copper"@[0] != "geyser"@[0]);
    assert("copper"@[0] != "mercer"@[0]);
    assert("limestone"@[0] != "harddrive"@[0]);
    assert("limestone"@[0] != "paleberry"@[0]);
    assert("limestone"@[0] != "gaspillar"@[0]);
    assert("oil"@[0] != "sam"@[0]);
    assert("sulfur"@[0] != "quartz"@[0]);
    assert("sulfur"@[0] != "geyser"@[0]);
    assert("sulfur"@[0] != "mercer"@[0]);
    assert("quartz"@[0] != "geyser"@[0]);
    assert("quartz"@[0] != "mercer"@[0]);
    assert("caterium"@[0] != "blueslug"@[0]);
    assert("caterium"@[0] != "berylnut"@[0]);
    assert("bauxite"@[0] != "uranium"@[0]);
    assert("geyser"@[0] != "mercer"@[0]);
    assert("blueslug"@[1] != "berylnut"@[1]);
    assert("yellowslug"@[0] != "purpleslug"@[0]);
    assert("yellowslug"@[0] != "somersloop"@[0]);
    assert("purpleslug"@[0] != "somersloop"@[0]);
    assert("harddrive"@[0] != "paleberry"@[0]);
    assert("harddrive"@[0] != "gaspillar"@[0]);
    assert("paleberry"@[0] != "gaspillar"@[0]);
    assert("baconagaric"@[0] != "sporeflower"@[0]);
}

/// The entries of the phase 5 table.
pub(crate) proof fn lemma_phase5_table()
    ensures
        phase_weights(GamePhase::Phase5).contains_key("iron"@),
        phase_weights(GamePhase::Phase5)["iron"@] == 5000,
        phase_weights(GamePhase::Phase5).contains_key("copper"@),
        phase_weights(GamePhase::Phase5)["copper"@] == 5000,
        phase_weights(GamePhase::Phase5).contains_key("limestone"@),
        phase_weights(GamePhase::Phase5)["limestone"@] == 4000,
        phase_weights(GamePhase::Phase5).contains_key("coal"@),
        phase_weights(GamePhase::Phase5)["coal"@] == 5000,
        phase_weights(GamePhase::Phase5).contains_key("water"@),
        phase_weights(GamePhase::Phase5)["water"@] == 5000,
        phase_weights(GamePhase::Phase5).contains_key("oil"@),
        phase_weights(GamePhase::Phase5)["oil"@] == 7000,
        phase_weights(GamePhase::Phase5).contains_key("sulfur"@),
        phase_weights(GamePhase::Phase5)["sulfur"@] == 8000,
        phase_weights(GamePhase::Phase5).contains_key("quartz"@),
        phase_weights(GamePhase::Phase5)["quartz"@] == 8000,
        phase_weights(GamePhase::Phase5).contains_key("caterium"@),
        phase_weights(GamePhase::Phase5)["caterium"@] == 8000,
        phase_weights(GamePhase::Phase5).contains_key("bauxite"@),
        phase_weights(GamePhase::Phase5)["bauxite"@] == 8000,
        phase_weights(GamePhase::Phase5).contains_key("nitrogenwell"@),
        phase_weights(GamePhase::Phase5)["nitrogenwell"@] == 8000,
        phase_weights(GamePhase::Phase5).contains_key("geyser"@),
        phase_weights(GamePhase::Phase5)["geyser"@] == 8000,
        phase_weights(GamePhase::Phase5).contains_key("uranium"@),
        phase_weights(GamePhase::Phase5)["uranium"@] == 5000,
        phase_weights(GamePhase::Phase5).contains_key("sam"@),
        phase_weights(GamePhase::Phase5)["sam"@] == 10000,
        phase_weights(GamePhase::Phase5).contains_key("blueslug"@),
        phase_weights(GamePhase::Phase5)["blueslug"@] == 300,
        phase_weights(GamePhase::Phase5).contains_key("yellowslug"@),
        phase_weights(GamePhase::Phase5)["yellowslug"@] == 500,
        phase_weights(GamePhase::Phase5).contains_key("purpleslug"@),
        phase_weights(GamePhase::Phase5)["purpleslug"@] == 800,
        phase_weights(GamePhase::Phase5).contains_key("mercer"@),
        phase_weights(GamePhase::Phase5)["mercer"@] == 500,
        phase_weights(GamePhase::Phase5).contains_key("somersloop"@),
        phase_weights(GamePhase::Phase5)["somersloop"@] == 500,
        phase_weights(GamePhase::Phase5).contains_key("harddrive"@),
        phase_weights(GamePhase::Phase5)["harddrive"@] == 1000,
        phase_weights(GamePhase::Phase5).contains_key("paleberry"@),
        phase_weights(GamePhase::Phase5)["paleberry"@] == 100,
        phase_weights(GamePhase::Phase5).contains_key("berylnut"@),
        phase_weights(GamePhase::Phase5)["berylnut"@] == 100,
        phase_weights(GamePhase::Phase5).contains_key("baconagaric"@),
        phase_weights(GamePhase::Phase5)["baconagaric"@] == 100,
        phase_weights(GamePhase::Phase5).contains_key("sporeflower"@),
        phase_weights(GamePhase::Phase5)["sporeflower"@] == -5,
        phase_weights(GamePhase::Phase5).contains_key("gaspillar"@),
        phase_weights(GamePhase::Phase5)["gaspillar"@] == -10,
        phase_weights(GamePhase::Phase5).dom() =~= set!["iron"@, "copper"@, "limestone"@, "coal"@, "water"@, "oil"@, "sulfur"@, "quartz"@, "caterium"@, "bauxite"@, "nitrogenwell"@, "geyser"@, "uranium"@, "sam"@, "blueslug"@, "yellowslug"@, "purpleslug"@, "mercer"@, "somersloop"@, "harddrive"@, "paleberry"@, "berylnut"@, "baconagaric"@, "sporeflower"@, "gaspillar"@],
{
    reveal_strlit("iron");
    assert("iron"@.len() == 4);
    reveal_strlit("copper");
    assert("copper"@.len() == 6);
    reveal_strlit("limestone");
    assert("limestone"@.len() == 9);
    reveal_strlit("coal");
    assert("coal"@.len() == 4);
    reveal_strlit("water");
    assert("water"@.len() == 5);
    reveal_strlit("oil");
    assert("oil"@.len() == 3);
    reveal_strlit("sulfur");
    assert("sulfur"@.len() == 6);
    reveal_strlit("quartz");
    assert("quartz"@.len() == 6);
    reveal_strlit("caterium");
    assert("caterium"@.len() == 8);
    reveal_strlit("bauxite");
    assert("bauxite"@.len() == 7);
    reveal_strlit("nitrogenwell");
    assert("nitrogenwell"@.len() == 12);
    reveal_strlit("geyser");
    assert("geyser"@.len() == 6);
    reveal_strlit("uranium");
    assert("uranium"@.len() == 7);
    reveal_strlit("sam");
    assert("sam"@.len() == 3);
    reveal_strlit("blueslug");
    assert("blueslug"@.len() == 8);
    reveal_strlit("yellowslug");
    assert("yellowslug"@.len() == 10);
    reveal_strlit("purpleslug");
    assert("purpleslug"@.len() == 10);
    reveal_strlit("mercer");
    assert("mercer"@.len() == 6);
    reveal_strlit("somersloop");
    assert("somersloop"@.len() == 10);
    reveal_strlit("harddrive");
    assert("harddrive"@.len() == 9);
    reveal_strlit("paleberry");
    assert("paleberry"@.len() == 9);
    reveal_strlit("berylnut");
    assert("berylnut"@.len() == 8);
    reveal_strlit("baconagaric");
    assert("baconagaric"@.len() == 11);
    reveal_strlit("sporeflower");
    assert("sporeflower"@.len() == 11);
    reveal_strlit("gaspillar");
    assert("gaspillar"@.len() == 9);
    assert("iron"@[0] != "coal"@[0]);
    assert("copper"@[0] != "sulfur"@[0]);
    assert("copper"@[0] != "quartz"@[0]);
    assert("copper"@[0] != "geyser"@[0]);
    assert("copper"@[0] != "mercer"@[0]);
    assert("limestone"@[0] != "harddrive"@[0]);
    assert("limestone"@[0] != "paleberry"@[0]);
    assert("limestone"@[0] != "gaspillar"@[0]);
    assert("oil"@[0] != "sam"@[0]);
    assert("sulfur"@[0] != "quartz"@[0]);
    assert("sulfur"@[0] != "geyser"@[0]);
    assert("sulfur"@[0] != "mercer"@[0]);
    assert("quartz"@[0] != "geyser"@[0]);
    assert("quartz"@[0] != "mercer"@[0]);
    assert("caterium"@[0] != "blueslug"@[0]);
    assert("caterium"@[0] != "berylnut"@[0]);
    assert("bauxite"@[0] != "uranium"@[0]);
    assert("geyser"@[0] != "mercer"@[0]);
    assert("blueslug"@[1] != "berylnut"@[1]);
    assert("yellowslug"@[0] != "purpleslug"@[0]);
    assert("yellowslug"@[0] != "somersloop"@[0]);
    assert("purpleslug"@[0] != "somersloop"@[0]);
    assert("harddrive"@[0] != "paleberry"@[0]);
    assert("harddrive"@[0] != "gaspillar"@[0]);
    assert("paleberry"@[0] != "gaspillar"@[0]);
    assert("baconagaric"@[0] != "sporeflower"@[0]);
}

/// Law: spore flowers and gas pillars are threats, with a negative weight in every
/// phase, and the penalty eases strictly as the game advances.
pub proof fn lemma_threat_penalties_ease(p: GamePhase, q: GamePhase)
    requires
        phase_number(p) < phase_number(q),
    ensures
        phase_weights(p).contains_key("sporeflower"@),
        phase_weights(p)["sporeflower"@] < 0,
        phase_weights(q)["sporeflower"@] < 0,
        phase_weights(p)["sporeflower"@] < phase_weights(q)["sporeflower"@],
        phase_weights(p).contains_key("gaspillar"@),
        phase_weights(p)["gaspillar"@] < 0,
        phase_weights(q)["gaspillar"@] < 0,
        phase_weights(p)["gaspillar"@] < phase_weights(q)["gaspillar"@],
{
    lemma_phase1_table();
    lemma_phase2_table();
    lemma_phase3_table();
    lemma_phase4_table();
    lemma_phase5_table();
}

/// Law: collectibles, edible plants and the staple ores are wanted (positive weight)
/// in every phase, and none of them gains weight as the game advances.
pub proof fn lemma_early_wants_fade(p: GamePhase, q: GamePhase)
    requires
        phase_number(p) <= phase_number(q),
    ensures
        phase_weights(p).contains_key("blueslug"@),
        phase_weights(q)["blueslug"@] > 0,
        phase_weights(q)["blueslug"@] <= phase_weights(p)["blueslug"@],
        phase_weights(p).contains_key("yellowslug"@),
        phase_weights(q)["yellowslug"@] > 0,
        phase_weights(q)["yellowslug"@] <= phase_weights(p)["yellowslug"@],
        phase_weights(p).contains_key("purpleslug"@),
        phase_weights(q)["purpleslug"@] > 0,
        phase_weights(q)["purpleslug"@] <= phase_weights(p)["purpleslug"@],
        phase_weights(p).contains_key("mercer"@),
        phase_weights(q)["mercer"@] > 0,
        phase_weights(q)["mercer"@] <= phase_weights(p)["mercer"@],
        phase_weights(p).contains_key("somersloop"@),
        phase_weights(q)["somersloop"@] > 0,
        phase_weights(q)["somersloop"@] <= phase_weights(p)["somersloop"@],
        phase_weights(p).contains_key("harddrive"@),
        phase_weights(q)["harddrive"@] > 0,
        phase_weights(q)["harddrive"@] <= phase_weights(p)["harddrive"@],
        phase_weights(p).contains_key("paleberry"@),
        phase_weights(q)["paleberry"@] > 0,
        phase_weights(q)["paleberry"@] <= phase_weights(p)["paleberry"@],
        phase_weights(p).contains_key("berylnut"@),
        phase_weights(q)["berylnut"@] > 0,
        phase_weights(q)["berylnut"@] <= phase_weights(p)["berylnut"@],
        phase_weights(p).contains_key("baconagaric"@),
        phase_weights(q)["baconagaric"@] > 0,
        phase_weights(q)["baconagaric"@] <= phase_weights(p)["baconagaric"@],
        phase_weights(p).contains_key("iron"@),
        phase_weights(q)["iron"@] > 0,
        phase_weights(q)["iron"@] <= phase_weights(p)["iron"@],
        phase_weights(p).contains_key("copper"@),
        phase_weights(q)["copper"@] > 0,
        phase_weights(q)["copper"@] <= phase_weights(p)["copper"@],
        phase_weights(p).contains_key("limestone"@),
        phase_weights(q)["limestone"@] > 0,
        phase_weights(q)["limestone"@] <= phase_weights(p)["limestone"@],
{
    lemma_phase1_table();
    lemma_phase2_table();
    lemma_phase3_table();
    lemma_phase4_table();
    lemma_phase5_table();
}

/// Law: each phase weights most what it is about: iron in phase 1; water for coal
/// power in phase 2, with coal as heavy as iron; oil in phase 3; bauxite in phase 4,
/// water aside; SAM in phase 5.
pub proof fn lemma_phase_focus()
    ensures
        forall|k: Seq<char>| #[trigger] phase_weights(GamePhase::Phase1).contains_key(k)
            ==> phase_weights(GamePhase::Phase1)[k] <= phase_weights(GamePhase::Phase1)["iron"@],
        forall|k: Seq<char>| #[trigger] phase_weights(GamePhase::Phase2).contains_key(k)
            ==> phase_weights(GamePhase::Phase2)[k] <= phase_weights(GamePhase::Phase2)["water"@],
        phase_weights(GamePhase::Phase2)["coal"@] >= phase_weights(GamePhase::Phase2)["iron"@],
        phase_weights(GamePhase::Phase2)["coal"@] > phase_weights(GamePhase::Phase1)["coal"@],
        forall|k: Seq<char>| #[trigger] phase_weights(GamePhase::Phase3).contains_key(k)
            ==> phase_weights(GamePhase::Phase3)[k] <= phase_weights(GamePhase::Phase3)["oil"@],
        forall|k: Seq<char>| #[trigger] phase_weights(GamePhase::Phase4).contains_key(k) && k != "water"@
            ==> phase_weights(GamePhase::Phase4)[k] <= phase_weights(GamePhase::Phase4)["bauxite"@],
        forall|k: Seq<char>| #[trigger] phase_weights(GamePhase::Phase5).contains_key(k)
            ==> phase_weights(GamePhase::Phase5)[k] <= phase_weights(GamePhase::Phase5)["sam"@],
{
    lemma_phase1_table();
    lemma_phase2_table();
    lemma_phase3_table();
    lemma_phase4_table();
    lemma_phase5_table();
}

/// The digit character for `n` in 0..9.
pub open spec fn digit_char(n: int) -> char {
    (('0' as int) + n) as char
}

/// The phase words that the `--tier` help lists, in phase order.
pub open spec fn tier_word(p: GamePhase) -> Seq<char> {
    match p {
        GamePhase::Phase1 => "early"@,
        GamePhase::Phase2 => "steel"@,
        GamePhase::Phase3 => "oil"@,
        GamePhase::Phase4 => "late"@,
        GamePhase::Phase5 => "quantum"@,
    }
}

proof fn lemma_phase_keywords_distinct()
    ensures
        "phase1"@ != "1"@,
        "phase1"@ != "early"@,
        "phase1"@ != "phase2"@,
        "phase1"@ != "2"@,
        "phase1"@ != "steel"@,
        "phase1"@ != "phase3"@,
        "phase1"@ != "3"@,
        "phase1"@ != "oil"@,
        "phase1"@ != "phase4"@,
        "phase1"@ != "4"@,
        "phase1"@ != "late"@,
        "phase1"@ != "nuclear"@,
        "phase1"@ != "phase5"@,
        "phase1"@ != "5"@,
        "phase1"@ != "quantum"@,
        "phase1"@ != "end"@,
        "1"@ != "early"@,
        "1"@ != "phase2"@,
        "1"@ != "2"@,
        "1"@ != "steel"@,
        "1"@ != "phase3"@,
        "1"@ != "3"@,
        "1"@ != "oil"@,
        "1"@ != "phase4"@,
        "1"@ != "4"@,
        "1"@ != "late"@,
        "1"@ != "nuclear"@,
        "1"@ != "phase5"@,
        "1"@ != "5"@,
        "1"@ != "quantum"@,
        "1"@ != "end"@,
        "early"@ != "phase2"@,
        "early"@ != "2"@,
        "early"@ != "steel"@,
        "early"@ != "phase3"@,
        "early"@ != "3"@,
        "early"@ != "oil"@,
        "early"@ != "phase4"@,
        "early"@ != "4"@,
        "early"@ != "late"@,
        "early"@ != "nuclear"@,
        "early"@ != "phase5"@,
        "early"@ != "5"@,
        "early"@ != "quantum"@,
        "early"@ != "end"@,
        "phase2"@ != "2"@,
        "phase2"@ != "steel"@,
        "phase2"@ != "phase3"@,
        "phase2"@ != "3"@,
        "phase2"@ != "oil"@,
        "phase2"@ != "phase4"@,
        "phase2"@ != "4"@,
        "phase2"@ != "late"@,
        "phase2"@ != "nuclear"@,
        "phase2"@ != "phase5"@,
        "phase2"@ != "5"@,
        "phase2"@ != "quantum"@,
        "phase2"@ != "end"@,
        "2"@ != "steel"@,
        "2"@ != "phase3"@,
        "2"@ != "3"@,
        "2"@ != "oil"@,
        "2"@ != "phase4"@,
        "2"@ != "4"@,
        "2"@ != "late"@,
        "2"@ != "nuclear"@,
        "2"@ != "phase5"@,
        "2"@ != "5"@,
        "2"@ != "quantum"@,
        "2"@ != "end"@,
        "steel"@ != "phase3"@,
        "steel"@ != "3"@,
        "steel"@ != "oil"@,
        "steel"@ != "phase4"@,
        "steel"@ != "4"@,
        "steel"@ != "late"@,
        "steel"@ != "nuclear"@,
        "steel"@ != "phase5"@,
        "steel"@ != "5"@,
        "steel"@ != "quantum"@,
        "steel"@ != "end"@,
        "phase3"@ != "3"@,
        "phase3"@ != "oil"@,
        "phase3"@ != "phase4"@,
        "phase3"@ != "4"@,
        "phase3"@ != "late"@,
        "phase3"@ != "nuclear"@,
        "phase3"@ != "phase5"@,
        "phase3"@ != "5"@,
        "phase3"@ != "quantum"@,
        "phase3"@ != "end"@,
        "3"@ != "oil"@,
        "3"@ != "phase4"@,
        "3"@ != "4"@,
        "3"@ != "late"@,
        "3"@ != "nuclear"@,
        "3"@ != "phase5"@,
        "3"@ != "5"@,
        "3"@ != "quantum"@,
        "3"@ != "end"@,
        "oil"@ != "phase4"@,
        "oil"@ != "4"@,
        "oil"@ != "late"@,
        "oil"@ != "nuclear"@,
        "oil"@ != "phase5"@,
        "oil"@ != "5"@,
        "oil"@ != "quantum"@,
        "oil"@ != "end"@,
        "phase4"@ != "4"@,
        "phase4"@ != "late"@,
        "phase4"@ != "nuclear"@,
        "phase4"@ != "phase5"@,
        "phase4"@ != "5"@,
        "phase4"@ != "quantum"@,
        "phase4"@ != "end"@,
        "4"@ != "late"@,
        "4"@ != "nuclear"@,
        "4"@ != "phase5"@,
        "4"@ != "5"@,
        "4"@ != "quantum"@,
        "4"@ != "end"@,
        "late"@ != "nuclear"@,
        "late"@ != "phase5"@,
        "late"@ != "5"@,
        "late"@ != "quantum"@,
        "late"@ != "end"@,
        "nuclear"@ != "phase5"@,
        "nuclear"@ != "5"@,
        "nuclear"@ != "quantum"@,
        "nuclear"@ != "end"@,
        "phase5"@ != "5"@,
        "phase5"@ != "quantum"@,
        "phase5"@ != "end"@,
        "5"@ != "quantum"@,
        "5"@ != "end"@,
        "quantum"@ != "end"@,
{
    reveal_strlit("phase1");
    assert("phase1"@.len() == 6);
    reveal_strlit("1");
    assert("1"@.len() == 1);
    reveal_strlit("early");
    assert("early"@.len() == 5);
    reveal_strlit("phase2");
    assert("phase2"@.len() == 6);
    reveal_strlit("2");
    assert("2"@.len() == 1);
    reveal_strlit("steel");
    assert("steel"@.len() == 5);
    reveal_strlit("phase3");
    assert("phase3"@.len() == 6);
    reveal_strlit("3");
    assert("3"@.len() == 1);
    reveal_strlit("oil");
    assert("oil"@.len() == 3);
    reveal_strlit("phase4");
    assert("phase4"@.len() == 6);
    reveal_strlit("4");
    assert("4"@.len() == 1);
    reveal_strlit("late");
    assert("late"@.len() == 4);
    reveal_strlit("nuclear");
    assert("nuclear"@.len() == 7);
    reveal_strlit("phase5");
    assert("phase5"@.len() == 6);
    reveal_strlit("5");
    assert("5"@.len() == 1);
    reveal_strlit("quantum");
    assert("quantum"@.len() == 7);
    reveal_strlit("end");
    assert("end"@.len() == 3);
    assert("phase1"@[5] != "phase2"@[5]);
    assert("phase1"@[5] != "phase3"@[5]);
    assert("phase1"@[5] != "phase4"@[5]);
    assert("phase1"@[5] != "phase5"@[5]);
    assert("1"@[0] != "2"@[0]);
    assert("1"@[0] != "3"@[0]);
    assert("1"@[0] != "4"@[0]);
    assert("1"@[0] != "5"@[0]);
    assert("early"@[0] != "steel"@[0]);
    assert("phase2"@[5] != "phase3"@[5]);
    assert("phase2"@[5] != "phase4"@[5]);
    assert("phase2"@[5] != "phase5"@[5]);
    assert("2"@[0] != "3"@[0]);
    assert("2"@[0] != "4"@[0]);
    assert("2"@[0] != "5"@[0]);
    assert("phase3"@[5] != "phase4"@[5]);
    assert("phase3"@[5] != "phase5"@[5]);
    assert("3"@[0] != "4"@[0]);
    assert("3"@[0] != "5"@[0]);
    assert("oil"@[0] != "end"@[0]);
    assert("phase4"@[5] != "phase5"@[5]);
    assert("4"@[0] != "5"@[0]);
    assert("nuclear"@[0] != "quantum"@[0]);
}

/// Law: a tier number n from 1 to 5 names phase n, the same phase as the keyword
/// `phase` followed by n; each word of the `--tier` help names its phase, and the
/// aliases "nuclear" and "end" name the last two phases.
pub proof fn lemma_tier_keywords(n: int, p: GamePhase)
    requires
        1 <= n <= 5,
    ensures
        phase_keyword(seq![digit_char(n)]) is Some,
        phase_number(phase_keyword(seq![digit_char(n)])->0) == n,
        phase_keyword("phase"@ + seq![digit_char(n)]) == phase_keyword(seq![digit_char(n)]),
        phase_keyword(tier_word(p)) == Some(p),
        phase_keyword("nuclear"@) == Some(GamePhase::Phase4),
        phase_keyword("end"@) == Some(GamePhase::Phase5),
{
    lemma_phase_keywords_distinct();
    reveal_strlit("phase");
    assert("phase"@.len() == 5);
    reveal_strlit("phase1");
    assert("phase1"@.len() == 6);
    reveal_strlit("1");
    assert("1"@.len() == 1);
    reveal_strlit("early");
    assert("early"@.len() == 5);
    reveal_strlit("phase2");
    assert("phase2"@.len() == 6);
    reveal_strlit("2");
    assert("2"@.len() == 1);
    reveal_strlit("steel");
    assert("steel"@.len() == 5);
    reveal_strlit("phase3");
    assert("phase3"@.len() == 6);
    reveal_strlit("3");
    assert("3"@.len() == 1);
    reveal_strlit("oil");
    assert("oil"@.len() == 3);
    reveal_strlit("phase4");
    assert("phase4"@.len() == 6);
    reveal_strlit("4");
    assert("4"@.len() == 1);
    reveal_strlit("late");
    assert("late"@.len() == 4);
    reveal_strlit("nuclear");
    assert("nuclear"@.len() == 7);
    reveal_strlit("phase5");
    assert("phase5"@.len() == 6);
    reveal_strlit("5");
    assert("5"@.len() == 1);
    reveal_strlit("quantum");
    assert("quantum"@.len() == 7);
    reveal_strlit("end");
    assert("end"@.len() == 3);
    if n == 1 {
        assert(seq![digit_char(n)] =~= "1"@);
        assert("phase"@ + seq![digit_char(n)] =~= "phase1"@);
    }
    if n == 2 {
        assert(seq![digit_char(n)] =~= "2"@);
        assert("phase"@ + seq![digit_char(n)] =~= "phase2"@);
    }
    if n == 3 {
        assert(seq![digit_char(n)] =~= "3"@);
        assert("phase"@ + seq![digit_char(n)] =~= "phase3"@);
    }
    if n == 4 {
        assert(seq![digit_char(n)] =~= "4"@);
        assert("phase"@ + seq![digit_char(n)] =~= "phase4"@);
    }
    if n == 5 {
        assert(seq![digit_char(n)] =~= "5"@);
        assert("phase"@ + seq![digit_char(n)] =~= "phase5"@);
    }
}

} // verus!
