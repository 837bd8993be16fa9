//! The option values that the command line accepts, in any letter case.

use vstd::prelude::*;

use crate::models::{DistanceDecay, PurityOverride, SearchStrategy, UtilityFunction};
use crate::text::{ascii_lower, lowercase, str_eq, to_lowercase};
use vstd::utf8::is_ascii_chars;

verus! {

/// The purity override a lowercased `--purity` value names; unknown values keep the
/// database purities.
pub open spec fn purity_keyword(s: Seq<char>) -> PurityOverride {
    if s == "impure"@ {
        PurityOverride::Impure
    } else if s == "normal"@ {
        PurityOverride::Normal
    } else if s == "pure"@ {
        PurityOverride::Pure
    } else {
        PurityOverride::Default
    }
}

/// The strategy a lowercased `--strategy` value names; unknown values give the hybrid
/// search.
pub open spec fn strategy_keyword(s: Seq<char>) -> SearchStrategy {
    if s == "fast"@ {
        SearchStrategy::Fast
    } else if s == "slow"@ {
        SearchStrategy::Slow
    } else {
        SearchStrategy::Hybrid
    }
}

/// The utility function a lowercased `--utility` value names, if any.
pub open spec fn utility_keyword(s: Seq<char>) -> Option<UtilityFunction> {
    if s == "cobbdouglas"@ || s == "cobb-douglas"@ || s == "cobb_douglas"@ {
        Some(UtilityFunction::CobbDouglas)
    } else if s == "leontief"@ {
        Some(UtilityFunction::Leontief)
    } else if s == "linear"@ {
        Some(UtilityFunction::Linear)
    } else {
        None
    }
}

/// The decay function a lowercased `--decay` value names, if any.
pub open spec fn decay_keyword(s: Seq<char>) -> Option<DistanceDecay> {
    if s == "gaussian"@ {
        Some(DistanceDecay::Gaussian)
    } else if s == "exponential"@ {
        Some(DistanceDecay::Exponential)
    } else if s == "powerlaw"@ || s == "power-law"@ || s == "power_law"@ || s == "gravity"@ {
        Some(DistanceDecay::PowerLaw)
    } else if s == "linear"@ {
        Some(DistanceDecay::Linear)
    } else if s == "logisticstep"@ || s == "logistic-step"@ || s == "step"@ {
        Some(DistanceDecay::LogisticStep)
    } else {
        None
    }
}

/// Reads an already lowercased `--purity` value.
pub fn purity_override_from_lowercase(s: &str) -> (r: PurityOverride)
    ensures
        r == purity_keyword(s@),
{
    if str_eq(s, "impure") {
        PurityOverride::Impure
    } else if str_eq(s, "normal") {
        PurityOverride::Normal
    } else if str_eq(s, "pure") {
        PurityOverride::Pure
    } else {
        PurityOverride::Default
    }
}

/// Reads a `--purity` value in any letter case.
pub fn cli_purity_override(arg: &str) -> (r: PurityOverride)
    ensures
        r == purity_keyword(lowercase(arg@)),
        is_ascii_chars(arg@) ==> r == purity_keyword(ascii_lower(arg@)),
{
    let lower = to_lowercase(arg);
    purity_override_from_lowercase(lower.as_str())
}

/// Reads an already lowercased `--strategy` value.
pub fn strategy_from_lowercase(s: &str) -> (r: SearchStrategy)
    ensures
        r == strategy_keyword(s@),
{
    if str_eq(s, "fast") {
        SearchStrategy::Fast
    } else if str_eq(s, "slow") {
        SearchStrategy::Slow
    } else {
        SearchStrategy::Hybrid
    }
}

/// Reads a `--strategy` value in any letter case.
pub fn cli_strategy(arg: &str) -> (r: SearchStrategy)
    ensures
        r == strategy_keyword(lowercase(arg@)),
        is_ascii_chars(arg@) ==> r == strategy_keyword(ascii_lower(arg@)),
{
    let lower = to_lowercase(arg);
    strategy_from_lowercase(lower.as_str())
}

/// Reads an already lowercased `--utility` value.
pub fn utility_from_lowercase(s: &str) -> (r: Option<UtilityFunction>)
    ensures
        r == utility_keyword(s@),
{
    if str_eq(s, "cobbdouglas") || str_eq(s, "cobb-douglas") || str_eq(s, "cobb_douglas") {
        Some(UtilityFunction::CobbDouglas)
    } else if str_eq(s, "leontief") {
        Some(UtilityFunction::Leontief)
    } else if str_eq(s, "linear") {
        Some(UtilityFunction::Linear)
    } else {
        None
    }
}

/// Reads a `--utility` value in any letter case.
pub fn cli_utility(arg: &str) -> (r: Option<UtilityFunction>)
    ensures
        r == utility_keyword(lowercase(arg@)),
        is_ascii_chars(arg@) ==> r == utility_keyword(ascii_lower(arg@)),
{
    let lower = to_lowercase(arg);
    utility_from_lowercase(lower.as_str())
}

/// Reads an already lowercased `--decay` value.
pub fn decay_from_lowercase(s: &str) -> (r: Option<DistanceDecay>)
    ensures
        r == decay_keyword(s@),
{
    if str_eq(s, "gaussian") {
        Some(DistanceDecay::Gaussian)
    } else if str_eq(s, "exponential") {
        Some(DistanceDecay::Exponential)
    } else if str_eq(s, "powerlaw") || str_eq(s, "power-law") || str_eq(s, "power_law") || str_eq(
        s,
        "gravity",
    ) {
        Some(DistanceDecay::PowerLaw)
    } else if str_eq(s, "linear") {
        Some(DistanceDecay::Linear)
    } else if str_eq(s, "logisticstep") || str_eq(s, "logistic-step") || str_eq(s, "step") {
        Some(DistanceDecay::LogisticStep)
    } else {
        None
    }
}

/// Reads a `--decay` value in any letter case.
pub fn cli_decay(arg: &str) -> (r: Option<DistanceDecay>)
    ensures
        r == decay_keyword(lowercase(arg@)),
        is_ascii_chars(arg@) ==> r == decay_keyword(ascii_lower(arg@)),
{
    let lower = to_lowercase(arg);
    decay_from_lowercase(lower.as_str())
}

/// The `--decay` values that the help text lists.
pub open spec fn decay_help_name(d: DistanceDecay) -> Seq<char> {
    match d {
        DistanceDecay::Gaussian => "gaussian"@,
        DistanceDecay::Exponential => "exponential"@,
        DistanceDecay::PowerLaw => "powerlaw"@,
        DistanceDecay::Linear => "linear"@,
        DistanceDecay::LogisticStep => "logisticstep"@,
    }
}

/// The `--utility` values that the help text lists.
pub open spec fn utility_help_name(u: UtilityFunction) -> Seq<char> {
    match u {
        UtilityFunction::CobbDouglas => "cobbdouglas"@,
        UtilityFunction::Leontief => "leontief"@,
        UtilityFunction::Linear => "linear"@,
    }
}

/// The `--purity` values that the help text lists.
pub open spec fn purity_help_name(p: PurityOverride) -> Seq<char> {
    match p {
        PurityOverride::Default => "default"@,
        PurityOverride::Impure => "impure"@,
        PurityOverride::Normal => "normal"@,
        PurityOverride::Pure => "pure"@,
    }
}

/// The `--strategy` values that the help text lists.
pub open spec fn strategy_help_name(s: SearchStrategy) -> Seq<char> {
    match s {
        SearchStrategy::Hybrid => "hybrid"@,
        SearchStrategy::Fast => "fast"@,
        SearchStrategy::Slow => "slow"@,
    }
}

proof fn lemma_decay_words_distinct()
    ensures
        "gaussian"@ != "exponential"@,
        "gaussian"@ != "powerlaw"@,
        "gaussian"@ != "power-law"@,
        "gaussian"@ != "power_law"@,
        "gaussian"@ != "gravity"@,
        "gaussian"@ != "linear"@,
        "gaussian"@ != "logisticstep"@,
        "gaussian"@ != "logistic-step"@,
        "gaussian"@ != "step"@,
        "exponential"@ != "powerlaw"@,
        "exponential"@ != "power-law"@,
        "exponential"@ != "power_law"@,
        "exponential"@ != "gravity"@,
        "exponential"@ != "linear"@,
        "exponential"@ != "logisticstep"@,
        "exponential"@ != "logistic-step"@,
        "exponential"@ != "step"@,
        "powerlaw"@ != "power-law"@,
        "powerlaw"@ != "power_law"@,
        "powerlaw"@ != "gravity"@,
        "powerlaw"@ != "linear"@,
        "powerlaw"@ != "logisticstep"@,
        "powerlaw"@ != "logistic-step"@,
        "powerlaw"@ != "step"@,
        "power-law"@ != "power_law"@,
        "power-law"@ != "gravity"@,
        "power-law"@ != "linear"@,
        "power-law"@ != "logisticstep"@,
        "power-law"@ != "logistic-step"@,
        "power-law"@ != "step"@,
        "power_law"@ != "gravity"@,
        "power_law"@ != "linear"@,
        "power_law"@ != "logisticstep"@,
        "power_law"@ != "logistic-step"@,
        "power_law"@ != "step"@,
        "gravity"@ != "linear"@,
        "gravity"@ != "logisticstep"@,
        "gravity"@ != "logistic-step"@,
        "gravity"@ != "step"@,
        "linear"@ != "logisticstep"@,
        "linear"@ != "logistic-step"@,
        "linear"@ != "step"@,
        "logisticstep"@ != "logistic-step"@,
        "logisticstep"@ != "step"@,
        "logistic-step"@ != "step"@,
{
    reveal_strlit("gaussian");
    reveal_strlit("exponential");
    reveal_strlit("powerlaw");
    reveal_strlit("power-law");
    reveal_strlit("power_law");
    reveal_strlit("gravity");
    reveal_strlit("linear");
    reveal_strlit("logisticstep");
    reveal_strlit("logistic-step");
    reveal_strlit("step");
    assert("gaussian"@.len() != "exponential"@.len());
    assert("gaussian"@[0] != "powerlaw"@[0]);
    assert("gaussian"@.len() != "power-law"@.len());
    assert("gaussian"@.len() != "power_law"@.len());
    assert("gaussian"@.len() != "gravity"@.len());
    assert("gaussian"@.len() != "linear"@.len());
    assert("gaussian"@.len() != "logisticstep"@.len());
    assert("gaussian"@.len() != "logistic-step"@.len());
    assert("gaussian"@.len() != "step"@.len());
    assert("exponential"@.len() != "powerlaw"@.len());
    assert("exponential"@.len() != "power-law"@.len());
    assert("exponential"@.len() != "power_law"@.len());
    assert("exponential"@.len() != "gravity"@.len());
    assert("exponential"@.len() != "linear"@.len());
    assert("exponential"@.len() != "logisticstep"@.len());
    assert("exponential"@.len() != "logistic-step"@.len());
    assert("exponential"@.len() != "step"@.len());
    assert("powerlaw"@.len() != "power-law"@.len());
    assert("powerlaw"@.len() != "power_law"@.len());
    assert("powerlaw"@.len() != "gravity"@.len());
    assert("powerlaw"@.len() != "linear"@.len());
    assert("powerlaw"@.len() != "logisticstep"@.len());
    assert("powerlaw"@.len() != "logistic-step"@.len());
    assert("powerlaw"@.len() != "step"@.len());
    assert("power-law"@[5] != "power_law"@[5]);
    assert("power-law"@.len() != "gravity"@.len());
    assert("power-law"@.len() != "linear"@.len());
    assert("power-law"@.len() != "logisticstep"@.len());
    assert("power-law"@.len() != "logistic-step"@.len());
    assert("power-law"@.len() != "step"@.len());
    assert("power_law"@.len() != "gravity"@.len());
    assert("power_law"@.len() != "linear"@.len());
    assert("power_law"@.len() != "logisticstep"@.len());
    assert("power_law"@.len() != "logistic-step"@.len());
    assert("power_law"@.len() != "step"@.len());
    assert("gravity"@.len() != "linear"@.len());
    assert("gravity"@.len() != "logisticstep"@.len());
    assert("gravity"@.len() != "logistic-step"@.len());
    assert("gravity"@.len() != "step"@.len());
    assert("linear"@.len() != "logisticstep"@.len());
    assert("linear"@.len() != "logistic-step"@.len());
    assert("linear"@.len() != "step"@.len());
    assert("logisticstep"@.len() != "logistic-step"@.len());
    assert("logisticstep"@.len() != "step"@.len());
    assert("logistic-step"@.len() != "step"@.len());
}

proof fn lemma_utility_words_distinct()
    ensures
        "cobbdouglas"@ != "cobb-douglas"@,
        "cobbdouglas"@ != "cobb_douglas"@,
        "cobbdouglas"@ != "leontief"@,
        "cobbdouglas"@ != "linear"@,
        "cobb-douglas"@ != "cobb_douglas"@,
        "cobb-douglas"@ != "leontief"@,
        "cobb-douglas"@ != "linear"@,
        "cobb_douglas"@ != "leontief"@,
        "cobb_douglas"@ != "linear"@,
        "leontief"@ != "linear"@,
{
    reveal_strlit("cobbdouglas");
    reveal_strlit("cobb-douglas");
    reveal_strlit("cobb_douglas");
    reveal_strlit("leontief");
    reveal_strlit("linear");
    assert("cobbdouglas"@.len() != "cobb-douglas"@.len());
    assert("cobbdouglas"@.len() != "cobb_douglas"@.len());
    assert("cobbdouglas"@.len() != "leontief"@.len());
    assert("cobbdouglas"@.len() != "linear"@.len());
    assert("cobb-douglas"@[4] != "cobb_douglas"@[4]);
    assert("cobb-douglas"@.len() != "leontief"@.len());
    assert("cobb-douglas"@.len() != "linear"@.len());
    assert("cobb_douglas"@.len() != "leontief"@.len());
    assert("cobb_douglas"@.len() != "linear"@.len());
    assert("leontief"@.len() != "linear"@.len());
}

proof fn lemma_purity_words_distinct()
    ensures
        "impure"@ != "normal"@,
        "impure"@ != "pure"@,
        "impure"@ != "default"@,
        "normal"@ != "pure"@,
        "normal"@ != "default"@,
        "pure"@ != "default"@,
{
    reveal_strlit("impure");
    reveal_strlit("normal");
    reveal_strlit("pure");
    reveal_strlit("default");
    assert("impure"@[0] != "normal"@[0]);
    assert("impure"@.len() != "pure"@.len());
    assert("impure"@.len() != "default"@.len());
    assert("normal"@.len() != "pure"@.len());
    assert("normal"@.len() != "default"@.len());
    assert("pure"@.len() != "default"@.len());
}

proof fn lemma_strategy_words_distinct()
    ensures
        "fast"@ != "slow"@,
        "fast"@ != "hybrid"@,
        "slow"@ != "hybrid"@,
{
    reveal_strlit("fast");
    reveal_strlit("slow");
    reveal_strlit("hybrid");
    assert("fast"@[0] != "slow"@[0]);
    assert("fast"@.len() != "hybrid"@.len());
    assert("slow"@.len() != "hybrid"@.len());
}

/// Law: every value that the help text lists for `--decay`, `--utility`, `--purity`
/// and `--strategy` is accepted and names the option it lists; the spelled-out aliases
/// name the same options.
pub proof fn lemma_cli_help_values(d: DistanceDecay, u: UtilityFunction, p: PurityOverride, s: SearchStrategy)
    ensures
        decay_keyword(decay_help_name(d)) == Some(d),
        utility_keyword(utility_help_name(u)) == Some(u),
        purity_keyword(purity_help_name(p)) == p,
        strategy_keyword(strategy_help_name(s)) == s,
        decay_keyword("power-law"@) == Some(DistanceDecay::PowerLaw),
        decay_keyword("power_law"@) == Some(DistanceDecay::PowerLaw),
        decay_keyword("gravity"@) == Some(DistanceDecay::PowerLaw),
        decay_keyword("logistic-step"@) == Some(DistanceDecay::LogisticStep),
        decay_keyword("step"@) == Some(DistanceDecay::LogisticStep),
        utility_keyword("cobb-douglas"@) == Some(UtilityFunction::CobbDouglas),
        utility_keyword("cobb_douglas"@) == Some(UtilityFunction::CobbDouglas),
{
    lemma_decay_words_distinct();
    lemma_utility_words_distinct();
    lemma_purity_words_distinct();
    lemma_strategy_words_distinct();
}

} // verus!
