use satisfactory_start_optimizer::models::DEFAULT_SIGMA_M;
use satisfactory_start_optimizer::presets::{
    apply_dashboard_preset_weights, preset_id, preset_ignores_spawns, PRESET_COUNT,
};
use satisfactory_start_optimizer::weights::WeightTable;

struct Preset {
    id: &'static str,
    sigma: u32,
    ignore_spawns: bool,
    weights: WeightTable,
}

fn build_presets() -> Vec<Preset> {
    (0..PRESET_COUNT)
        .map(|idx| {
            let mut weights = WeightTable::new();
            apply_dashboard_preset_weights(idx, &mut weights);
            Preset {
                id: preset_id(idx),
                sigma: DEFAULT_SIGMA_M,
                ignore_spawns: preset_ignores_spawns(idx),
                weights,
            }
        })
        .collect()
}

#[test]
fn presets_include_collectibles_and_late_water_wells() {
    let presets = build_presets();

    let collectibles = presets
        .iter()
        .find(|p| p.id == "collectibles")
        .expect("collectibles preset missing");
    assert!(collectibles.weights.get("harddrive").unwrap_or(0) > 0);
    assert!(collectibles.weights.get("purpleslug").unwrap_or(0) > 0);

    for phase_id in ["phase4", "phase5"] {
        let preset = presets
            .iter()
            .find(|p| p.id == phase_id)
            .expect("late phase preset missing");
        assert!(preset.weights.get("waterwell").unwrap_or(0) > 0);
    }
}

#[test]
fn presets_keep_phase_contract() {
    let presets = build_presets();
    let ids = presets.iter().map(|preset| preset.id).collect::<Vec<_>>();

    assert_eq!(
        ids,
        ["phase1", "phase2", "phase3", "phase4", "phase5", "collectibles"]
    );
    assert_eq!(presets.len(), 6);
    assert!(presets.iter().all(|preset| preset.sigma > 0));

    for phase_id in ["phase1", "phase2"] {
        let preset = presets
            .iter()
            .find(|preset| preset.id == phase_id)
            .expect("early phase preset missing");
        assert!(!preset.ignore_spawns);
    }

    for phase_id in ["phase4", "phase5", "collectibles"] {
        let preset = presets
            .iter()
            .find(|preset| preset.id == phase_id)
            .expect("late phase preset missing");
        assert!(preset.ignore_spawns);
    }
}

#[test]
fn dashboard_presets_extend_the_phase_tables() {
    let mut t = WeightTable::new();
    apply_dashboard_preset_weights(3, &mut t);
    assert_eq!(t.get("waterwell"), Some(12000));
    assert_eq!(t.get("water"), Some(12000));
    assert_eq!(t.len(), 26);
    apply_dashboard_preset_weights(4, &mut t);
    assert_eq!(t.get("waterwell"), Some(5000));
    assert_eq!(t.len(), 26);
    apply_dashboard_preset_weights(0, &mut t);
    assert_eq!(t.get("waterwell"), None);
    assert_eq!(t.len(), 17);
    apply_dashboard_preset_weights(5, &mut t);
    assert_eq!(t.get("harddrive"), Some(15000));
    assert!(!preset_ignores_spawns(2));
}
