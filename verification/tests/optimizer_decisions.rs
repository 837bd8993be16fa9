use satisfactory_start_optimizer::models::{GamePhase, UtilityFunction};
use satisfactory_start_optimizer::optimizer::{
    effective_obstruction, epsilon_hundred_thousandths, obstructed_node_contributes, resource_universe,
    spawn_tolerance_m,
};
use satisfactory_start_optimizer::simulation::{purity_override_name, simulation_configs, SIM_CASES};
use satisfactory_start_optimizer::models::{DistanceDecay, PurityOverride};

#[test]
fn obstructed_nodes_count_from_phase_three() {
    for phase in [GamePhase::Phase1, GamePhase::Phase2] {
        assert!(!obstructed_node_contributes(true, phase));
        assert!(obstructed_node_contributes(false, phase));
    }
    for phase in [GamePhase::Phase3, GamePhase::Phase4, GamePhase::Phase5] {
        assert!(obstructed_node_contributes(true, phase));
        assert!(obstructed_node_contributes(false, phase));
    }
}

#[test]
fn spawn_tolerance_by_phase() {
    assert_eq!(spawn_tolerance_m(GamePhase::Phase1, false), Some(800));
    assert_eq!(spawn_tolerance_m(GamePhase::Phase2, false), Some(1500));
    assert_eq!(spawn_tolerance_m(GamePhase::Phase3, false), Some(3000));
    assert_eq!(spawn_tolerance_m(GamePhase::Phase4, false), None);
    assert_eq!(spawn_tolerance_m(GamePhase::Phase5, false), None);
    assert_eq!(spawn_tolerance_m(GamePhase::Phase1, true), None);
}

#[test]
fn caterium_is_obstructed_except_at_the_start() {
    assert!(effective_obstruction(false, "caterium", false));
    assert!(!effective_obstruction(false, "caterium", true));
    assert!(effective_obstruction(true, "caterium", true));
    assert!(!effective_obstruction(false, "iron", false));
    assert!(effective_obstruction(true, "iron", false));
}

#[test]
fn epsilon_floors() {
    assert_eq!(epsilon_hundred_thousandths(UtilityFunction::CobbDouglas), 1);
    assert_eq!(epsilon_hundred_thousandths(UtilityFunction::Leontief), 0);
    assert_eq!(epsilon_hundred_thousandths(UtilityFunction::Linear), 0);
    assert_eq!(1.0 / 100000.0, 1e-5);
}

#[test]
fn resource_universe_is_sorted_and_deduplicated() {
    let nodes: Vec<String> = ["iron", "copper", "iron", "water", "Zinc"]
        .iter()
        .map(|s| s.to_string())
        .collect();
    let weights: Vec<String> = ["uranium", "copper", "water", "", "iron2"]
        .iter()
        .map(|s| s.to_string())
        .collect();
    let u = resource_universe(&nodes, &weights);
    let mut expected: Vec<String> = nodes.iter().chain(weights.iter()).cloned().collect();
    expected.sort();
    expected.dedup();
    assert_eq!(u, expected);
    assert_eq!(u, vec!["", "Zinc", "copper", "iron", "iron2", "uranium", "water"]);
}

#[test]
fn resource_universe_orders_non_ascii_like_std() {
    let nodes: Vec<String> = ["é", "z", "ä", "a", "\u{1F600}", "\u{FF}"]
        .iter()
        .map(|s| s.to_string())
        .collect();
    let u = resource_universe(&nodes, &Vec::new());
    let mut expected = nodes.clone();
    expected.sort();
    assert_eq!(u, expected);
}

#[test]
fn simulation_matrix_runs_every_combination_once() {
    let configs = simulation_configs();
    assert_eq!(configs.len(), SIM_CASES);
    assert_eq!(configs.len(), 270);
    let first = configs[0];
    assert_eq!(first.preset_idx, 0);
    assert_eq!(first.purity, PurityOverride::Default);
    assert_eq!(first.utility, UtilityFunction::CobbDouglas);
    assert_eq!(first.decay, DistanceDecay::Gaussian);
    assert_eq!(first.sigma_m, 700);
    let last = configs[269];
    assert_eq!(last.preset_idx, 5);
    assert_eq!(last.purity, PurityOverride::Pure);
    assert_eq!(last.utility, UtilityFunction::Linear);
    assert_eq!(last.decay, DistanceDecay::LogisticStep);
    for (i, a) in configs.iter().enumerate() {
        for b in configs.iter().skip(i + 1) {
            assert!(a != b);
        }
        assert!(a.purity != PurityOverride::Impure);
    }
    assert_eq!(purity_override_name(PurityOverride::Normal), "Normal");
    assert_eq!(purity_override_name(PurityOverride::Impure), "Impure");
}
