use satisfactory_start_optimizer::models::{
    default_weights, DistanceDecay, GamePhase, Purity, PurityOverride, SearchStrategy,
    UtilityFunction, DEFAULT_SIGMA_M,
};
use satisfactory_start_optimizer::presets::{
    apply_collectibles_weights, apply_preset_weights, preset_id, preset_name, preset_phase,
    PRESET_COUNT,
};
use satisfactory_start_optimizer::weights::WeightTable;

#[test]
fn purity_from_str_reads_database_and_user_spellings() {
    assert_eq!(Purity::from_str("RP_Inpure"), Purity::Impure);
    assert_eq!(Purity::from_str("RP_Impure"), Purity::Impure);
    assert_eq!(Purity::from_str("impure"), Purity::Impure);
    assert_eq!(Purity::from_str("RP_Normal"), Purity::Normal);
    assert_eq!(Purity::from_str("normal"), Purity::Normal);
    assert_eq!(Purity::from_str("RP_Pure"), Purity::Pure);
    assert_eq!(Purity::from_str("pure"), Purity::Pure);
    assert_eq!(Purity::from_str("PURE"), Purity::Normal);
    assert_eq!(Purity::from_str(""), Purity::Normal);
}

#[test]
fn purity_multiplier_and_label() {
    assert_eq!(Purity::Impure.multiplier_halves(), 1);
    assert_eq!(Purity::Normal.multiplier_halves(), 2);
    assert_eq!(Purity::Pure.multiplier_halves(), 4);
    assert_eq!(Purity::Impure.label(), "Impure");
    assert_eq!(Purity::Normal.label(), "Normal");
    assert_eq!(Purity::Pure.label(), "Pure");
}

#[test]
fn purity_override_forces_or_keeps() {
    for p in [Purity::Impure, Purity::Normal, Purity::Pure] {
        assert_eq!(PurityOverride::Default.apply(p), p);
        assert_eq!(PurityOverride::Impure.apply(p), Purity::Impure);
        assert_eq!(PurityOverride::Normal.apply(p), Purity::Normal);
        assert_eq!(PurityOverride::Pure.apply(p), Purity::Pure);
    }
    assert_eq!(PurityOverride::Default.to_str(), "Default (Database)");
    assert_eq!(PurityOverride::Impure.to_str(), "All Impure (0.5x)");
    assert_eq!(PurityOverride::Normal.to_str(), "All Normal (1.0x)");
    assert_eq!(PurityOverride::Pure.to_str(), "All Pure (2.0x)");
}

#[test]
fn game_phase_from_str_ignores_case() {
    assert_eq!(GamePhase::from_str("phase1"), Some(GamePhase::Phase1));
    assert_eq!(GamePhase::from_str("PHASE2"), Some(GamePhase::Phase2));
    assert_eq!(GamePhase::from_str("Steel"), Some(GamePhase::Phase2));
    assert_eq!(GamePhase::from_str("3"), Some(GamePhase::Phase3));
    assert_eq!(GamePhase::from_str("OIL"), Some(GamePhase::Phase3));
    assert_eq!(GamePhase::from_str("Nuclear"), Some(GamePhase::Phase4));
    assert_eq!(GamePhase::from_str("late"), Some(GamePhase::Phase4));
    assert_eq!(GamePhase::from_str("End"), Some(GamePhase::Phase5));
    assert_eq!(GamePhase::from_str("quantum"), Some(GamePhase::Phase5));
    assert_eq!(GamePhase::from_str("EARLY"), Some(GamePhase::Phase1));
    assert_eq!(GamePhase::from_str("phase6"), None);
    assert_eq!(GamePhase::from_str(""), None);
    assert_eq!(GamePhase::from_lowercase("steel"), Some(GamePhase::Phase2));
    assert_eq!(GamePhase::from_lowercase("STEEL"), None);
}

#[test]
fn descriptions_of_the_options() {
    assert_eq!(GamePhase::Phase1.to_str(), "Phase 1 (Tiers 1-2: Early Game)");
    assert_eq!(GamePhase::Phase2.to_str(), "Phase 2 (Tiers 3-4: Steel & Coal Power)");
    assert_eq!(GamePhase::Phase3.to_str(), "Phase 3 (Tiers 5-6: Oil & Quartz)");
    assert_eq!(GamePhase::Phase4.to_str(), "Phase 4 (Tiers 7-8: Aluminum & Nuclear)");
    assert_eq!(GamePhase::Phase5.to_str(), "Phase 5 (Tier 9: Quantum End-game)");
    assert_eq!(SearchStrategy::Hybrid.to_str(), "Hybrid (recommended)");
    assert_eq!(SearchStrategy::Fast.to_str(), "Multi-Start (fast but less accurate)");
    assert_eq!(SearchStrategy::Slow.to_str(), "High-Res (slow but accurate)");
    assert_eq!(UtilityFunction::CobbDouglas.to_str(), "Cobb-Douglas (Balanced)");
    assert_eq!(UtilityFunction::Leontief.to_str(), "Leontief (Min-Bottleneck)");
    assert_eq!(UtilityFunction::Linear.to_str(), "Linear (Additive/Volume)");
    assert_eq!(DistanceDecay::Gaussian.to_str(), "Gaussian (Smooth Drop)");
    assert_eq!(DistanceDecay::Exponential.to_str(), "Exponential (Linear Cost)");
    assert_eq!(DistanceDecay::PowerLaw.to_str(), "Power-Law (Heavy Tail)");
    assert_eq!(DistanceDecay::Linear.to_str(), "Linear (Hard Cutoff)");
    assert_eq!(DistanceDecay::LogisticStep.to_str(), "Logistic (Step Function / Trains)");
}

#[test]
fn weight_table_read_gives_back_write() {
    let mut t = WeightTable::new();
    assert_eq!(t.len(), 0);
    assert_eq!(t.get("iron"), None);
    t.insert("iron", 15000);
    t.insert("uranium", -50000);
    assert_eq!(t.get("iron"), Some(15000));
    assert_eq!(t.get("uranium"), Some(-50000));
    t.insert("iron", 7);
    assert_eq!(t.get("iron"), Some(7));
    assert_eq!(t.len(), 2);
    assert_eq!(t.pairs().len(), 2);
    t.clear();
    assert_eq!(t.len(), 0);
    assert_eq!(t.get("iron"), None);
}

#[test]
fn apply_weights_replaces_previous_contents() {
    let mut t = WeightTable::new();
    t.insert("custom", 123);
    GamePhase::Phase1.apply_weights(&mut t);
    assert_eq!(t.get("custom"), None);
    assert_eq!(t.len(), 17);
    assert_eq!(t.get("iron"), Some(10000));
    assert_eq!(t.get("copper"), Some(8000));
    assert_eq!(t.get("uranium"), Some(-20000));
    assert_eq!(t.get("sporeflower"), Some(-100));
    assert_eq!(t.get("water"), None);
}

#[test]
fn phase_presets_have_expected_sizes_and_values() {
    let mut t = WeightTable::new();
    GamePhase::Phase2.apply_weights(&mut t);
    assert_eq!(t.len(), 20);
    assert_eq!(t.get("water"), Some(12000));
    assert_eq!(t.get("gaspillar"), Some(-150));
    GamePhase::Phase3.apply_weights(&mut t);
    assert_eq!(t.len(), 22);
    assert_eq!(t.get("oil"), Some(10000));
    assert_eq!(t.get("bauxite"), Some(3000));
    GamePhase::Phase4.apply_weights(&mut t);
    assert_eq!(t.len(), 25);
    assert_eq!(t.get("bauxite"), Some(10000));
    assert_eq!(t.get("uranium"), Some(6000));
    GamePhase::Phase5.apply_weights(&mut t);
    assert_eq!(t.len(), 25);
    assert_eq!(t.get("sam"), Some(10000));
    assert_eq!(t.get("sporeflower"), Some(-5));
}

#[test]
fn uranium_is_a_hazard_until_phase_four() {
    for (phase, negative) in [
        (GamePhase::Phase1, true),
        (GamePhase::Phase2, true),
        (GamePhase::Phase3, true),
        (GamePhase::Phase4, false),
        (GamePhase::Phase5, false),
    ] {
        let mut t = WeightTable::new();
        phase.apply_weights(&mut t);
        let u = t.get("uranium").unwrap();
        assert_eq!(u < 0, negative);
    }
}

#[test]
fn default_configuration_values() {
    let t = default_weights();
    assert_eq!(t.len(), 22);
    assert_eq!(t.get("iron"), Some(10000));
    assert_eq!(t.get("coal"), Some(9000));
    assert_eq!(t.get("uranium"), Some(500));
    assert_eq!(t.get("gaspillar"), Some(-150));
    assert_eq!(DEFAULT_SIGMA_M, 700);
}

#[test]
fn collectibles_preset_weights() {
    let mut t = WeightTable::new();
    t.insert("iron", 10000);
    apply_collectibles_weights(&mut t);
    assert_eq!(t.get("iron"), None);
    assert_eq!(t.len(), 9);
    assert!(t.get("harddrive").unwrap() > 0);
    assert!(t.get("purpleslug").unwrap() > 0);
    assert_eq!(t.get("harddrive"), Some(15000));
    assert_eq!(t.get("paleberry"), Some(0));
}

#[test]
fn preset_table_order_and_names() {
    let ids: Vec<&str> = (0..PRESET_COUNT).map(preset_id).collect();
    assert_eq!(ids, ["phase1", "phase2", "phase3", "phase4", "phase5", "collectibles"]);
    assert_eq!(preset_name(0), "Phase 1: Early Game");
    assert_eq!(preset_name(5), "Collectible Hunting");
    assert_eq!(preset_name(6), "Unknown");
    assert_eq!(preset_phase(4), GamePhase::Phase5);
    assert_eq!(preset_phase(5), GamePhase::Phase1);
    let mut t = WeightTable::new();
    apply_preset_weights(3, &mut t);
    assert_eq!(t.get("bauxite"), Some(10000));
    apply_preset_weights(5, &mut t);
    assert_eq!(t.get("harddrive"), Some(15000));
    apply_preset_weights(9, &mut t);
    assert_eq!(t.len(), 0);
}
