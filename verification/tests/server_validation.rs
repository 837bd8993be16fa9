use satisfactory_start_optimizer::models::{
    DistanceDecay, GamePhase, PurityOverride, SearchStrategy, UtilityFunction,
};
use satisfactory_start_optimizer::server::{
    parse_decay, parse_optimize_request, parse_phase, parse_purity, parse_strategy,
    parse_utility, validate_optimize_request, OptimizeRequest, WeightKind,
};

fn kind(w: f64) -> WeightKind {
    if !w.is_finite() {
        WeightKind::NonFinite
    } else if w == 0.0 {
        WeightKind::Zero
    } else {
        WeightKind::NonZero
    }
}

fn test_nodes() -> Vec<String> {
    vec!["iron".to_string()]
}

fn test_request(weights: &[(&str, f64)]) -> OptimizeRequest {
    let sigma: f64 = 200.0;
    OptimizeRequest {
        utility_func: "cobb_douglas".to_string(),
        decay_func: "gaussian".to_string(),
        purity_override: "default".to_string(),
        strategy: "hybrid".to_string(),
        game_phase: "phase1".to_string(),
        sigma_is_finite: sigma.is_finite(),
        ignore_spawns: false,
        weights: weights
            .iter()
            .map(|(resource_id, weight)| (resource_id.to_string(), kind(*weight)))
            .collect(),
    }
}

#[test]
fn validation_rejects_empty_weights() {
    let nodes = test_nodes();
    let req = test_request(&[]);
    assert!(validate_optimize_request(&req, &nodes).is_err());
}

#[test]
fn validation_rejects_all_zero_weights() {
    let nodes = test_nodes();
    let req = test_request(&[("iron", 0.0), ("water", 0.0)]);
    assert!(validate_optimize_request(&req, &nodes).is_err());
}

#[test]
fn validation_rejects_unknown_resource_ids() {
    let nodes = test_nodes();
    let req = test_request(&[("unknown", 1.0)]);
    assert!(validate_optimize_request(&req, &nodes).is_err());
}

#[test]
fn validation_rejects_non_finite_values() {
    let nodes = test_nodes();
    let mut req = test_request(&[("iron", 1.0)]);
    req.sigma_is_finite = f64::INFINITY.is_finite();
    assert!(validate_optimize_request(&req, &nodes).is_err());

    let req = test_request(&[("iron", f64::NAN)]);
    assert!(validate_optimize_request(&req, &nodes).is_err());
}

#[test]
fn validation_accepts_known_resource_ids_and_water() {
    let nodes = test_nodes();
    let req = test_request(&[("iron", 1.0), ("water", 0.5)]);
    assert!(validate_optimize_request(&req, &nodes).is_ok());
}

#[test]
fn validation_rejects_unknown_utility_func() {
    let nodes = test_nodes();
    let mut req = test_request(&[("iron", 1.0)]);
    req.utility_func = "weighted_sum".to_string();
    assert_eq!(
        validate_optimize_request(&req, &nodes),
        Err("Invalid optimize request: unknown utility function".to_string())
    );
}

#[test]
fn validation_rejects_unknown_decay_func() {
    let nodes = test_nodes();
    let mut req = test_request(&[("iron", 1.0)]);
    req.decay_func = "inverse_square".to_string();
    assert_eq!(
        validate_optimize_request(&req, &nodes),
        Err("Invalid optimize request: unknown decay function".to_string())
    );
}

#[test]
fn validation_rejects_unknown_purity_override() {
    let nodes = test_nodes();
    let mut req = test_request(&[("iron", 1.0)]);
    req.purity_override = "mixed".to_string();
    assert_eq!(
        validate_optimize_request(&req, &nodes),
        Err("Invalid optimize request: unknown purity override".to_string())
    );
}

#[test]
fn validation_rejects_unknown_strategy() {
    let nodes = test_nodes();
    let mut req = test_request(&[("iron", 1.0)]);
    req.strategy = "medium".to_string();
    assert_eq!(
        validate_optimize_request(&req, &nodes),
        Err("Invalid optimize request: unknown search strategy".to_string())
    );
}

#[test]
fn validation_rejects_unknown_game_phase() {
    let nodes = test_nodes();
    let mut req = test_request(&[("iron", 1.0)]);
    req.game_phase = "phase6".to_string();
    assert_eq!(
        validate_optimize_request(&req, &nodes),
        Err("Invalid optimize request: unknown game phase".to_string())
    );
}

#[test]
fn validation_accepts_current_ui_enum_values() {
    let nodes = test_nodes();

    for utility_func in ["cobb_douglas", "leontief", "linear"] {
        let mut req = test_request(&[("iron", 1.0)]);
        req.utility_func = utility_func.to_string();
        assert!(validate_optimize_request(&req, &nodes).is_ok());
    }

    for decay_func in ["gaussian", "exponential", "power_law", "linear", "logistic"] {
        let mut req = test_request(&[("iron", 1.0)]);
        req.decay_func = decay_func.to_string();
        assert!(validate_optimize_request(&req, &nodes).is_ok());
    }

    for purity_override in ["default", "impure", "normal", "pure"] {
        let mut req = test_request(&[("iron", 1.0)]);
        req.purity_override = purity_override.to_string();
        assert!(validate_optimize_request(&req, &nodes).is_ok());
    }

    for strategy in ["hybrid", "fast", "slow"] {
        let mut req = test_request(&[("iron", 1.0)]);
        req.strategy = strategy.to_string();
        assert!(validate_optimize_request(&req, &nodes).is_ok());
    }

    for game_phase in ["phase1", "phase2", "phase3", "phase4", "phase5", "collectibles"] {
        let mut req = test_request(&[("iron", 1.0)]);
        req.game_phase = game_phase.to_string();
        assert!(validate_optimize_request(&req, &nodes).is_ok());
    }
}

#[test]
fn validation_rejects_resource_universe_over_fixed_limit() {
    let nodes = (0..129)
        .map(|index| format!("resource{index}"))
        .collect::<Vec<_>>();
    let req = test_request(&[("resource0", 1.0)]);
    assert!(validate_optimize_request(&req, &nodes).is_err());
}

#[test]
fn validation_accepts_universe_at_fixed_limit() {
    let nodes = (0..128)
        .map(|index| format!("resource{index}"))
        .collect::<Vec<_>>();
    let req = test_request(&[("resource0", 1.0), ("water", 0.0)]);
    assert_eq!(validate_optimize_request(&req, &nodes), Ok(()));
    let req = test_request(&[("resource0", 1.0), ("water", 2.0)]);
    assert_eq!(
        validate_optimize_request(&req, &nodes),
        Err("Invalid optimize request: too many resource types".to_string())
    );
}

#[test]
fn validation_reports_each_error_message() {
    let nodes = test_nodes();
    let mut req = test_request(&[("iron", 1.0)]);
    req.sigma_is_finite = false;
    assert_eq!(
        validate_optimize_request(&req, &nodes),
        Err("Invalid optimize request: sigma must be finite".to_string())
    );
    let req = test_request(&[("iron", f64::INFINITY)]);
    assert_eq!(
        validate_optimize_request(&req, &nodes),
        Err("Invalid optimize request: weight must be finite".to_string())
    );
    let req = test_request(&[("iron", 0.0)]);
    assert_eq!(
        validate_optimize_request(&req, &nodes),
        Err("Invalid optimize request: at least one resource weight is required".to_string())
    );
    let req = test_request(&[("iron", 1.0), ("copper", 1.0)]);
    assert_eq!(
        validate_optimize_request(&req, &nodes),
        Err("Invalid optimize request: unknown resource id".to_string())
    );
    // An unknown id with a zero weight is ignored.
    let req = test_request(&[("iron", 1.0), ("copper", 0.0)]);
    assert_eq!(validate_optimize_request(&req, &nodes), Ok(()));
}

#[test]
fn validation_checks_options_before_numbers() {
    let nodes = test_nodes();
    let mut req = test_request(&[("iron", f64::NAN)]);
    req.sigma_is_finite = false;
    req.strategy = "medium".to_string();
    req.game_phase = "phase6".to_string();
    assert_eq!(
        validate_optimize_request(&req, &nodes),
        Err("Invalid optimize request: unknown search strategy".to_string())
    );
}

#[test]
fn parsers_map_every_ui_value() {
    assert_eq!(parse_utility("cobb_douglas"), Ok(UtilityFunction::CobbDouglas));
    assert_eq!(parse_utility("leontief"), Ok(UtilityFunction::Leontief));
    assert_eq!(parse_utility("linear"), Ok(UtilityFunction::Linear));
    assert_eq!(parse_decay("gaussian"), Ok(DistanceDecay::Gaussian));
    assert_eq!(parse_decay("exponential"), Ok(DistanceDecay::Exponential));
    assert_eq!(parse_decay("power_law"), Ok(DistanceDecay::PowerLaw));
    assert_eq!(parse_decay("linear"), Ok(DistanceDecay::Linear));
    assert_eq!(parse_decay("logistic"), Ok(DistanceDecay::LogisticStep));
    assert_eq!(parse_purity("default"), Ok(PurityOverride::Default));
    assert_eq!(parse_purity("impure"), Ok(PurityOverride::Impure));
    assert_eq!(parse_purity("normal"), Ok(PurityOverride::Normal));
    assert_eq!(parse_purity("pure"), Ok(PurityOverride::Pure));
    assert_eq!(parse_strategy("hybrid"), Ok(SearchStrategy::Hybrid));
    assert_eq!(parse_strategy("fast"), Ok(SearchStrategy::Fast));
    assert_eq!(parse_strategy("slow"), Ok(SearchStrategy::Slow));
    assert_eq!(parse_phase("phase1"), Ok(GamePhase::Phase1));
    assert_eq!(parse_phase("phase2"), Ok(GamePhase::Phase2));
    assert_eq!(parse_phase("phase3"), Ok(GamePhase::Phase3));
    assert_eq!(parse_phase("phase4"), Ok(GamePhase::Phase4));
    assert_eq!(parse_phase("phase5"), Ok(GamePhase::Phase5));
    assert_eq!(parse_phase("collectibles"), Ok(GamePhase::Phase5));
    assert!(parse_phase("Phase1").is_err());
    assert!(parse_utility("Linear").is_err());
}

#[test]
fn parse_optimize_request_reads_all_options() {
    let mut req = test_request(&[("iron", 1.0)]);
    req.utility_func = "leontief".to_string();
    req.decay_func = "power_law".to_string();
    req.purity_override = "pure".to_string();
    req.strategy = "slow".to_string();
    req.game_phase = "collectibles".to_string();
    let parsed = parse_optimize_request(&req).unwrap();
    assert_eq!(parsed.utility_func, UtilityFunction::Leontief);
    assert_eq!(parsed.decay_func, DistanceDecay::PowerLaw);
    assert_eq!(parsed.purity_override, PurityOverride::Pure);
    assert_eq!(parsed.strategy, SearchStrategy::Slow);
    assert_eq!(parsed.game_phase, GamePhase::Phase5);

    req.decay_func = "cubic".to_string();
    req.strategy = "medium".to_string();
    assert_eq!(
        parse_optimize_request(&req).err(),
        Some("Invalid optimize request: unknown decay function".to_string())
    );
}
