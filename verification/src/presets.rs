//! The six weight presets: the five game phases and collectible hunting.

use vstd::prelude::*;

use crate::models::{phase_weights, GamePhase};
use crate::optimizer::{spawn_tolerance, spawn_tolerance_m};
use crate::server::spec_parse_phase;
use crate::weights::WeightTable;

verus! {

/// Number of presets.
pub const PRESET_COUNT: usize = 6;

/// Weights (ten-thousandths) of the collectible-hunting preset.
pub open spec fn collectibles_weights() -> Map<Seq<char>, int> {
    Map::<Seq<char>, int>::empty()
        .insert("blueslug"@, 3000)
        .insert("yellowslug"@, 8000)
        .insert("purpleslug"@, 12000)
        .insert("mercer"@, 10000)
        .insert("somersloop"@, 10000)
        .insert("harddrive"@, 15000)
        .insert("paleberry"@, 0)
        .insert("berylnut"@, 0)
        .insert("baconagaric"@, 0)
}

/// The weights (ten-thousandths) of preset `idx`: the phases in order, then
/// collectibles; an unknown preset has none.
pub open spec fn preset_weights(idx: usize) -> Map<Seq<char>, int> {
    if idx == 0 {
        phase_weights(GamePhase::Phase1)
    } else if idx == 1 {
        phase_weights(GamePhase::Phase2)
    } else if idx == 2 {
        phase_weights(GamePhase::Phase3)
    } else if idx == 3 {
        phase_weights(GamePhase::Phase4)
    } else if idx == 4 {
        phase_weights(GamePhase::Phase5)
    } else if idx == 5 {
        collectibles_weights()
    } else {
        Map::empty()
    }
}

/// The game phase in which preset `idx` is played; collectible hunting (and any
/// unknown preset) counts as phase 1 here.
pub open spec fn preset_phase_of(idx: usize) -> GamePhase {
    if idx == 1 {
        GamePhase::Phase2
    } else if idx == 2 {
        GamePhase::Phase3
    } else if idx == 3 {
        GamePhase::Phase4
    } else if idx == 4 {
        GamePhase::Phase5
    } else {
        GamePhase::Phase1
    }
}

/// Replaces the table by the collectible-hunting weights: slugs, spheres,
/// somersloops and hard drives, with the edible plants disabled.
pub fn apply_collectibles_weights(weights: &mut WeightTable)
    ensures
        final(weights)@ == collectibles_weights(),
{
    weights.clear();
    weights.insert("blueslug", 3000);
    weights.insert("yellowslug", 8000);
    weights.insert("purpleslug", 12000);
    weights.insert("mercer", 10000);
    weights.insert("somersloop", 10000);
    weights.insert("harddrive", 15000);
    weights.insert("paleberry", 0);
    weights.insert("berylnut", 0);
    weights.insert("baconagaric", 0);
}

/// Replaces the table by the weights of preset `idx`.
pub fn apply_preset_weights(preset_idx: usize, weights: &mut WeightTable)
    ensures
        final(weights)@ == preset_weights(preset_idx),
{
    weights.clear();
    if preset_idx == 0 {
        GamePhase::Phase1.apply_weights(weights);
    } else if preset_idx == 1 {
        GamePhase::Phase2.apply_weights(weights);
    } else if preset_idx == 2 {
        GamePhase::Phase3.apply_weights(weights);
    } else if preset_idx == 3 {
        GamePhase::Phase4.apply_weights(weights);
    } else if preset_idx == 4 {
        GamePhase::Phase5.apply_weights(weights);
    } else if preset_idx == 5 {
        apply_collectibles_weights(weights);
    }
}

/// The game phase in which preset `idx` is simulated.
pub fn preset_phase(preset_idx: usize) -> (r: GamePhase)
    ensures
        r == preset_phase_of(preset_idx),
{
    if preset_idx == 1 {
        GamePhase::Phase2
    } else if preset_idx == 2 {
        GamePhase::Phase3
    } else if preset_idx == 3 {
        GamePhase::Phase4
    } else if preset_idx == 4 {
        GamePhase::Phase5
    } else {
        GamePhase::Phase1
    }
}

/// The display name of preset `idx`.
pub fn preset_name(preset_idx: usize) -> (r: &'static str)
    ensures
        r@ == (if preset_idx == 0 {
            "Phase 1: Early Game"@
        } else if preset_idx == 1 {
            "Phase 2: Steel & Coal"@
        } else if preset_idx == 2 {
            "Phase 3: Oil & Quartz"@
        } else if preset_idx == 3 {
            "Phase 4: Late Game"@
        } else if preset_idx == 4 {
            "Phase 5: Quantum"@
        } else if preset_idx == 5 {
            "Collectible Hunting"@
        } else {
            "Unknown"@
        }),
{
    if preset_idx == 0 {
        "Phase 1: Early Game"
    } else if preset_idx == 1 {
        "Phase 2: Steel & Coal"
    } else if preset_idx == 2 {
        "Phase 3: Oil & Quartz"
    } else if preset_idx == 3 {
        "Phase 4: Late Game"
    } else if preset_idx == 4 {
        "Phase 5: Quantum"
    } else if preset_idx == 5 {
        "Collectible Hunting"
    } else {
        "Unknown"
    }
}

/// The id under which the dashboard knows preset `idx`.
pub open spec fn preset_id_of(idx: usize) -> Seq<char> {
    if idx == 0 {
        "phase1"@
    } else if idx == 1 {
        "phase2"@
    } else if idx == 2 {
        "phase3"@
    } else if idx == 3 {
        "phase4"@
    } else if idx == 4 {
        "phase5"@
    } else {
        "collectibles"@
    }
}

/// The id under which the dashboard knows preset `idx` (the same ids that name the
/// game phase of an optimize request).
pub fn preset_id(preset_idx: usize) -> (r: &'static str)
    requires
        preset_idx < PRESET_COUNT,
    ensures
        r@ == preset_id_of(preset_idx),
{
    if preset_idx == 0 {
        "phase1"
    } else if preset_idx == 1 {
        "phase2"
    } else if preset_idx == 2 {
        "phase3"
    } else if preset_idx == 3 {
        "phase4"
    } else if preset_idx == 4 {
        "phase5"
    } else {
        "collectibles"
    }
}

/// Law: the id of every preset is a game phase that optimize requests accept, and a
/// phase preset's id names its own phase.
pub proof fn lemma_preset_ids_are_request_phases(idx: usize)
    requires
        idx < PRESET_COUNT,
    ensures
        spec_parse_phase(preset_id_of(idx)) is Ok,
        idx < 5 ==> spec_parse_phase(preset_id_of(idx)) == Ok::<GamePhase, Seq<char>>(
            preset_phase_of(idx),
        ),
        idx == 5 ==> spec_parse_phase(preset_id_of(idx)) == Ok::<GamePhase, Seq<char>>(
            GamePhase::Phase5,
        ),
{
    reveal_strlit("phase1");
    reveal_strlit("phase2");
    reveal_strlit("phase3");
    reveal_strlit("phase4");
    reveal_strlit("phase5");
    reveal_strlit("collectibles");
    assert("phase2"@ != "phase1"@) by {
        assert("phase2"@[5] != "phase1"@[5]);
    }
    assert("phase3"@ != "phase1"@) by {
        assert("phase3"@[5] != "phase1"@[5]);
    }
    assert("phase3"@ != "phase2"@) by {
        assert("phase3"@[5] != "phase2"@[5]);
    }
    assert("phase4"@ != "phase1"@) by {
        assert("phase4"@[5] != "phase1"@[5]);
    }
    assert("phase4"@ != "phase2"@) by {
        assert("phase4"@[5] != "phase2"@[5]);
    }
    assert("phase4"@ != "phase3"@) by {
        assert("phase4"@[5] != "phase3"@[5]);
    }
    assert("phase5"@ != "phase1"@) by {
        assert("phase5"@[5] != "phase1"@[5]);
    }
    assert("phase5"@ != "phase2"@) by {
        assert("phase5"@[5] != "phase2"@[5]);
    }
    assert("phase5"@ != "phase3"@) by {
        assert("phase5"@[5] != "phase3"@[5]);
    }
    assert("phase5"@ != "phase4"@) by {
        assert("phase5"@[5] != "phase4"@[5]);
    }
    assert("collectibles"@.len() != "phase1"@.len());
}

/// The weights (ten-thousandths) of dashboard preset `idx`. They are the game-phase
/// and collectible tables, except that the late phases, where water extractors are in
/// reach, also weight water wells as they weight water.
pub open spec fn dashboard_preset_weights(idx: usize) -> Map<Seq<char>, int> {
    if idx == 3 {
        phase_weights(GamePhase::Phase4).insert("waterwell"@, 12000)
    } else if idx == 4 {
        phase_weights(GamePhase::Phase5).insert("waterwell"@, 5000)
    } else {
        preset_weights(idx)
    }
}

/// The game phase that dashboard preset `idx` is played in: the phases in order, and
/// phase 5 for collectible hunting.
pub open spec fn dashboard_phase_of(idx: usize) -> GamePhase {
    if idx == 0 {
        GamePhase::Phase1
    } else if idx == 1 {
        GamePhase::Phase2
    } else if idx == 2 {
        GamePhase::Phase3
    } else if idx == 3 {
        GamePhase::Phase4
    } else {
        GamePhase::Phase5
    }
}

/// Replaces the table by the weights of dashboard preset `idx`.
pub fn apply_dashboard_preset_weights(preset_idx: usize, weights: &mut WeightTable)
    ensures
        final(weights)@ == dashboard_preset_weights(preset_idx),
{
    apply_preset_weights(preset_idx, weights);
    if preset_idx == 3 {
        weights.insert("waterwell", 12000);
    } else if preset_idx == 4 {
        weights.insert("waterwell", 5000);
    }
}

/// Whether dashboard preset `idx` ignores the distance to the spawns: it does exactly
/// where its phase puts no penalty on that distance.
pub fn preset_ignores_spawns(preset_idx: usize) -> (r: bool)
    ensures
        r == (spawn_tolerance(dashboard_phase_of(preset_idx), false) is None),
{
    let phase = if preset_idx == 0 {
        GamePhase::Phase1
    } else if preset_idx == 1 {
        GamePhase::Phase2
    } else if preset_idx == 2 {
        GamePhase::Phase3
    } else if preset_idx == 3 {
        GamePhase::Phase4
    } else {
        GamePhase::Phase5
    };
    spawn_tolerance_m(phase, false).is_none()
}

/// Law: the late-phase dashboard presets weight water wells, the collectible preset
/// weights hard drives and purple slugs, and exactly the presets from phase 4 on
/// (collectibles included) ignore spawn distance.
pub proof fn lemma_dashboard_presets(idx: usize)
    requires
        idx < PRESET_COUNT,
    ensures
        dashboard_preset_weights(3).contains_key("waterwell"@),
        dashboard_preset_weights(3)["waterwell"@] > 0,
        dashboard_preset_weights(4).contains_key("waterwell"@),
        dashboard_preset_weights(4)["waterwell"@] > 0,
        dashboard_preset_weights(5).contains_key("harddrive"@),
        dashboard_preset_weights(5)["harddrive"@] > 0,
        dashboard_preset_weights(5).contains_key("purpleslug"@),
        dashboard_preset_weights(5)["purpleslug"@] > 0,
        (spawn_tolerance(dashboard_phase_of(idx), false) is None) <==> idx >= 3,
{
    reveal_strlit("harddrive");
    reveal_strlit("purpleslug");
    reveal_strlit("paleberry");
    reveal_strlit("berylnut");
    reveal_strlit("baconagaric");
    assert("paleberry"@ != "harddrive"@) by {
        assert("paleberry"@[0] != "harddrive"@[0]);
    }
    assert("berylnut"@.len() != "harddrive"@.len());
    assert("baconagaric"@.len() != "harddrive"@.len());
    assert("paleberry"@.len() != "purpleslug"@.len());
    assert("berylnut"@.len() != "purpleslug"@.len());
    assert("baconagaric"@.len() != "purpleslug"@.len());
}

/// The entries of the collectible-hunting table.
proof fn lemma_collectibles_table()
    ensures
        collectibles_weights().contains_key("blueslug"@),
        collectibles_weights()["blueslug"@] == 3000,
        collectibles_weights().contains_key("yellowslug"@),
        collectibles_weights()["yellowslug"@] == 8000,
        collectibles_weights().contains_key("purpleslug"@),
        collectibles_weights()["purpleslug"@] == 12000,
        collectibles_weights().contains_key("mercer"@),
        collectibles_weights()["mercer"@] == 10000,
        collectibles_weights().contains_key("somersloop"@),
        collectibles_weights()["somersloop"@] == 10000,
        collectibles_weights().contains_key("harddrive"@),
        collectibles_weights()["harddrive"@] == 15000,
        collectibles_weights().contains_key("paleberry"@),
        collectibles_weights()["paleberry"@] == 0,
        collectibles_weights().contains_key("berylnut"@),
        collectibles_weights()["berylnut"@] == 0,
        collectibles_weights().contains_key("baconagaric"@),
        collectibles_weights()["baconagaric"@] == 0,
        collectibles_weights().dom() =~= set!["blueslug"@, "yellowslug"@, "purpleslug"@, "mercer"@, "somersloop"@, "harddrive"@, "paleberry"@, "berylnut"@, "baconagaric"@],
{
    reveal_strlit("blueslug");
    reveal_strlit("yellowslug");
    reveal_strlit("purpleslug");
    reveal_strlit("mercer");
    reveal_strlit("somersloop");
    reveal_strlit("harddrive");
    reveal_strlit("paleberry");
    reveal_strlit("berylnut");
    reveal_strlit("baconagaric");
    assert("blueslug"@.len() != "yellowslug"@.len());
    assert("blueslug"@.len() != "purpleslug"@.len());
    assert("blueslug"@.len() != "mercer"@.len());
    assert("blueslug"@.len() != "somersloop"@.len());
    assert("blueslug"@.len() != "harddrive"@.len());
    assert("blueslug"@.len() != "paleberry"@.len());
    assert("blueslug"@[1] != "berylnut"@[1]);
    assert("blueslug"@.len() != "baconagaric"@.len());
    assert("yellowslug"@[0] != "purpleslug"@[0]);
    assert("yellowslug"@.len() != "mercer"@.len());
    assert("yellowslug"@[0] != "somersloop"@[0]);
    assert("yellowslug"@.len() != "harddrive"@.len());
    assert("yellowslug"@.len() != "paleberry"@.len());
    assert("yellowslug"@.len() != "berylnut"@.len());
    assert("yellowslug"@.len() != "baconagaric"@.len());
    assert("purpleslug"@.len() != "mercer"@.len());
    assert("purpleslug"@[0] != "somersloop"@[0]);
    assert("purpleslug"@.len() != "harddrive"@.len());
    assert("purpleslug"@.len() != "paleberry"@.len());
    assert("purpleslug"@.len() != "berylnut"@.len());
    assert("purpleslug"@.len() != "baconagaric"@.len());
    assert("mercer"@.len() != "somersloop"@.len());
    assert("mercer"@.len() != "harddrive"@.len());
    assert("mercer"@.len() != "paleberry"@.len());
    assert("mercer"@.len() != "berylnut"@.len());
    assert("mercer"@.len() != "baconagaric"@.len());
    assert("somersloop"@.len() != "harddrive"@.len());
    assert("somersloop"@.len() != "paleberry"@.len());
    assert("somersloop"@.len() != "berylnut"@.len());
    assert("somersloop"@.len() != "baconagaric"@.len());
    assert("harddrive"@[0] != "paleberry"@[0]);
    assert("harddrive"@.len() != "berylnut"@.len());
    assert("harddrive"@.len() != "baconagaric"@.len());
    assert("paleberry"@.len() != "berylnut"@.len());
    assert("paleberry"@.len() != "baconagaric"@.len());
    assert("berylnut"@.len() != "baconagaric"@.len());
}

/// Law: collectible hunting weights every collectible (slugs, Mercer spheres,
/// somersloops, hard drives) above zero and above what any game phase gives it, ranks
/// the power slugs by tier (blue below yellow below purple), values hard drives most,
/// and disables exactly the edible plants, which every phase weights.
pub proof fn lemma_collectible_hunt(p: GamePhase)
    ensures
        collectibles_weights().contains_key("blueslug"@),
        collectibles_weights()["blueslug"@] > 0,
        collectibles_weights()["blueslug"@] > phase_weights(p)["blueslug"@],
        collectibles_weights().contains_key("yellowslug"@),
        collectibles_weights()["yellowslug"@] > 0,
        collectibles_weights()["yellowslug"@] > phase_weights(p)["yellowslug"@],
        collectibles_weights().contains_key("purpleslug"@),
        collectibles_weights()["purpleslug"@] > 0,
        collectibles_weights()["purpleslug"@] > phase_weights(p)["purpleslug"@],
        collectibles_weights().contains_key("mercer"@),
        collectibles_weights()["mercer"@] > 0,
        collectibles_weights()["mercer"@] > phase_weights(p)["mercer"@],
        collectibles_weights().contains_key("somersloop"@),
        collectibles_weights()["somersloop"@] > 0,
        collectibles_weights()["somersloop"@] > phase_weights(p)["somersloop"@],
        collectibles_weights().contains_key("harddrive"@),
        collectibles_weights()["harddrive"@] > 0,
        collectibles_weights()["harddrive"@] > phase_weights(p)["harddrive"@],
        collectibles_weights().contains_key("paleberry"@),
        collectibles_weights()["paleberry"@] == 0,
        phase_weights(p)["paleberry"@] > 0,
        collectibles_weights().contains_key("berylnut"@),
        collectibles_weights()["berylnut"@] == 0,
        phase_weights(p)["berylnut"@] > 0,
        collectibles_weights().contains_key("baconagaric"@),
        collectibles_weights()["baconagaric"@] == 0,
        phase_weights(p)["baconagaric"@] > 0,
        collectibles_weights()["blueslug"@] < collectibles_weights()["yellowslug"@],
        collectibles_weights()["yellowslug"@] < collectibles_weights()["purpleslug"@],
        forall|k: Seq<char>| #[trigger] collectibles_weights().contains_key(k) ==> collectibles_weights()[k] <= collectibles_weights()["harddrive"@],
        forall|k: Seq<char>| #[trigger] collectibles_weights().contains_key(k) && collectibles_weights()[k] == 0
            ==> k == "paleberry"@ || k == "berylnut"@ || k == "baconagaric"@,
{
    lemma_collectibles_table();
    crate::models::lemma_early_wants_fade(p, p);
    crate::models::lemma_early_wants_fade(GamePhase::Phase1, p);
    crate::models::lemma_phase1_table();
    crate::models::lemma_phase2_table();
    crate::models::lemma_phase3_table();
    crate::models::lemma_phase4_table();
    crate::models::lemma_phase5_table();
}

} // verus!
