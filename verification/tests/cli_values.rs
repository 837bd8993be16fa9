use satisfactory_start_optimizer::cli::{
    cli_decay, cli_purity_override, cli_strategy, cli_utility, decay_from_lowercase,
    purity_override_from_lowercase, strategy_from_lowercase, utility_from_lowercase,
};
use satisfactory_start_optimizer::models::{
    DistanceDecay, GamePhase, PurityOverride, SearchStrategy, UtilityFunction,
};

#[test]
fn purity_values_in_any_case() {
    assert_eq!(cli_purity_override("IMPURE"), PurityOverride::Impure);
    assert_eq!(cli_purity_override("Normal"), PurityOverride::Normal);
    assert_eq!(cli_purity_override("pure"), PurityOverride::Pure);
    assert_eq!(cli_purity_override("default"), PurityOverride::Default);
    assert_eq!(cli_purity_override("mixed"), PurityOverride::Default);
    assert_eq!(purity_override_from_lowercase("PURE"), PurityOverride::Default);
}

#[test]
fn strategy_values_in_any_case() {
    assert_eq!(cli_strategy("FAST"), SearchStrategy::Fast);
    assert_eq!(cli_strategy("Slow"), SearchStrategy::Slow);
    assert_eq!(cli_strategy("hybrid"), SearchStrategy::Hybrid);
    assert_eq!(cli_strategy("medium"), SearchStrategy::Hybrid);
    assert_eq!(strategy_from_lowercase("FAST"), SearchStrategy::Hybrid);
}

#[test]
fn utility_values_in_any_case() {
    assert_eq!(cli_utility("CobbDouglas"), Some(UtilityFunction::CobbDouglas));
    assert_eq!(cli_utility("cobb-douglas"), Some(UtilityFunction::CobbDouglas));
    assert_eq!(cli_utility("COBB_DOUGLAS"), Some(UtilityFunction::CobbDouglas));
    assert_eq!(cli_utility("Leontief"), Some(UtilityFunction::Leontief));
    assert_eq!(cli_utility("LINEAR"), Some(UtilityFunction::Linear));
    assert_eq!(cli_utility("weighted_sum"), None);
    assert_eq!(utility_from_lowercase("Linear"), None);
}

#[test]
fn decay_values_in_any_case() {
    assert_eq!(cli_decay("Gaussian"), Some(DistanceDecay::Gaussian));
    assert_eq!(cli_decay("EXPONENTIAL"), Some(DistanceDecay::Exponential));
    assert_eq!(cli_decay("Power-Law"), Some(DistanceDecay::PowerLaw));
    assert_eq!(cli_decay("gravity"), Some(DistanceDecay::PowerLaw));
    assert_eq!(cli_decay("power_law"), Some(DistanceDecay::PowerLaw));
    assert_eq!(cli_decay("linear"), Some(DistanceDecay::Linear));
    assert_eq!(cli_decay("Step"), Some(DistanceDecay::LogisticStep));
    assert_eq!(cli_decay("logistic-step"), Some(DistanceDecay::LogisticStep));
    assert_eq!(cli_decay("inverse_square"), None);
    assert_eq!(decay_from_lowercase("STEP"), None);
}

#[test]
fn ascii_values_lower_as_expected() {
    assert_eq!(GamePhase::from_str("LATE"), Some(GamePhase::Phase4));
    assert_eq!(cli_decay("LOGISTICSTEP"), Some(DistanceDecay::LogisticStep));
}
