//! Parsing and validation of optimize requests sent by the web dashboard.
//!
//! The request's floating-point fields enter as what the validation reads of them:
//! whether `sigma` is finite, and for each weight whether it is non-finite, zero or
//! nonzero.

use vstd::prelude::*;

use crate::models::{
    digit_char, phase_number, DistanceDecay, GamePhase, PurityOverride, SearchStrategy,
    UtilityFunction,
};
use crate::names::{add_distinct, contains_id, ids_distinct, ids_of, lemma_ids_of_len, lemma_ids_of_push};
use crate::text::str_eq;

verus! {

/// A `Result` with its error message taken by its characters.
pub open spec fn msg_view<T>(r: Result<T, String>) -> Result<T, Seq<char>> {
    match r {
        Ok(t) => Ok(t),
        Err(e) => Err(e@),
    }
}

/// The utility function that a request names.
pub open spec fn spec_parse_utility(s: Seq<char>) -> Result<UtilityFunction, Seq<char>> {
    if s == "cobb_douglas"@ {
        Ok(UtilityFunction::CobbDouglas)
    } else if s == "leontief"@ {
        Ok(UtilityFunction::Leontief)
    } else if s == "linear"@ {
        Ok(UtilityFunction::Linear)
    } else {
        Err("Invalid optimize request: unknown utility function"@)
    }
}

/// The decay function that a request names.
pub open spec fn spec_parse_decay(s: Seq<char>) -> Result<DistanceDecay, Seq<char>> {
    if s == "gaussian"@ {
        Ok(DistanceDecay::Gaussian)
    } else if s == "exponential"@ {
        Ok(DistanceDecay::Exponential)
    } else if s == "power_law"@ {
        Ok(DistanceDecay::PowerLaw)
    } else if s == "linear"@ {
        Ok(DistanceDecay::Linear)
    } else if s == "logistic"@ {
        Ok(DistanceDecay::LogisticStep)
    } else {
        Err("Invalid optimize request: unknown decay function"@)
    }
}

/// The purity override that a request names.
pub open spec fn spec_parse_purity(s: Seq<char>) -> Result<PurityOverride, Seq<char>> {
    if s == "default"@ {
        Ok(PurityOverride::Default)
    } else if s == "impure"@ {
        Ok(PurityOverride::Impure)
    } else if s == "normal"@ {
        Ok(PurityOverride::Normal)
    } else if s == "pure"@ {
        Ok(PurityOverride::Pure)
    } else {
        Err("Invalid optimize request: unknown purity override"@)
    }
}

/// The search strategy that a request names.
pub open spec fn spec_parse_strategy(s: Seq<char>) -> Result<SearchStrategy, Seq<char>> {
    if s == "hybrid"@ {
        Ok(SearchStrategy::Hybrid)
    } else if s == "fast"@ {
        Ok(SearchStrategy::Fast)
    } else if s == "slow"@ {
        Ok(SearchStrategy::Slow)
    } else {
        Err("Invalid optimize request: unknown search strategy"@)
    }
}

/// The game phase that a request names; the collectibles preset runs as phase 5.
pub open spec fn spec_parse_phase(s: Seq<char>) -> Result<GamePhase, Seq<char>> {
    if s == "phase1"@ {
        Ok(GamePhase::Phase1)
    } else if s == "phase2"@ {
        Ok(GamePhase::Phase2)
    } else if s == "phase3"@ {
        Ok(GamePhase::Phase3)
    } else if s == "phase4"@ {
        Ok(GamePhase::Phase4)
    } else if s == "phase5"@ {
        Ok(GamePhase::Phase5)
    } else if s == "collectibles"@ {
        Ok(GamePhase::Phase5)
    } else {
        Err("Invalid optimize request: unknown game phase"@)
    }
}

/// Reads the utility function of a request.
pub fn parse_utility(s: &str) -> (r: Result<UtilityFunction, String>)
    ensures
        msg_view(r) == spec_parse_utility(s@),
{
    if str_eq(s, "cobb_douglas") {
        Ok(UtilityFunction::CobbDouglas)
    } else if str_eq(s, "leontief") {
        Ok(UtilityFunction::Leontief)
    } else if str_eq(s, "linear") {
        Ok(UtilityFunction::Linear)
    } else {
        Err("Invalid optimize request: unknown utility function".to_owned())
    }
}

/// Reads the decay function of a request.
pub fn parse_decay(s: &str) -> (r: Result<DistanceDecay, String>)
    ensures
        msg_view(r) == spec_parse_decay(s@),
{
    if str_eq(s, "gaussian") {
        Ok(DistanceDecay::Gaussian)
    } else if str_eq(s, "exponential") {
        Ok(DistanceDecay::Exponential)
    } else if str_eq(s, "power_law") {
        Ok(DistanceDecay::PowerLaw)
    } else if str_eq(s, "linear") {
        Ok(DistanceDecay::Linear)
    } else if str_eq(s, "logistic") {
        Ok(DistanceDecay::LogisticStep)
    } else {
        Err("Invalid optimize request: unknown decay function".to_owned())
    }
}

/// Reads the purity override of a request.
pub fn parse_purity(s: &str) -> (r: Result<PurityOverride, String>)
    ensures
        msg_view(r) == spec_parse_purity(s@),
{
    if str_eq(s, "default") {
        Ok(PurityOverride::Default)
    } else if str_eq(s, "impure") {
        Ok(PurityOverride::Impure)
    } else if str_eq(s, "normal") {
        Ok(PurityOverride::Normal)
    } else if str_eq(s, "pure") {
        Ok(PurityOverride::Pure)
    } else {
        Err("Invalid optimize request: unknown purity override".to_owned())
    }
}

/// Reads the search strategy of a request.
pub fn parse_strategy(s: &str) -> (r: Result<SearchStrategy, String>)
    ensures
        msg_view(r) == spec_parse_strategy(s@),
{
    if str_eq(s, "hybrid") {
        Ok(SearchStrategy::Hybrid)
    } else if str_eq(s, "fast") {
        Ok(SearchStrategy::Fast)
    } else if str_eq(s, "slow") {
        Ok(SearchStrategy::Slow)
    } else {
        Err("Invalid optimize request: unknown search strategy".to_owned())
    }
}

/// Reads the game phase of a request.
pub fn parse_phase(s: &str) -> (r: Result<GamePhase, String>)
    ensures
        msg_view(r) == spec_parse_phase(s@),
{
    if str_eq(s, "phase1") {
        Ok(GamePhase::Phase1)
    } else if str_eq(s, "phase2") {
        Ok(GamePhase::Phase2)
    } else if str_eq(s, "phase3") {
        Ok(GamePhase::Phase3)
    } else if str_eq(s, "phase4") {
        Ok(GamePhase::Phase4)
    } else if str_eq(s, "phase5") {
        Ok(GamePhase::Phase5)
    } else if str_eq(s, "collectibles") {
        Ok(GamePhase::Phase5)
    } else {
        Err("Invalid optimize request: unknown game phase".to_owned())
    }
}

/// What the validation reads of a requested weight.
#[derive(Clone, Copy, Debug, PartialEq, Eq, Structural)]
pub enum WeightKind {
    /// Infinite or NaN.
    NonFinite,
    /// Exactly zero: the dashboard sends this for disabled resources.
    Zero,
    /// Finite and not zero.
    NonZero,
}

/// An optimize request as the validation reads it.
pub struct OptimizeRequest {
    pub utility_func: String,
    pub decay_func: String,
    pub purity_override: String,
    pub strategy: String,
    pub game_phase: String,
    /// Whether the requested walking radius is a finite number.
    pub sigma_is_finite: bool,
    pub ignore_spawns: bool,
    /// Each requested resource id with what its weight is.
    pub weights: Vec<(String, WeightKind)>,
}

/// The option enums that a request names.
#[derive(Clone, Copy, Debug, PartialEq, Eq, Structural)]
pub struct ParsedOptimizeRequest {
    pub utility_func: UtilityFunction,
    pub decay_func: DistanceDecay,
    pub purity_override: PurityOverride,
    pub strategy: SearchStrategy,
    pub game_phase: GamePhase,
}

/// The options of a request, or the message of the first field (in the order
/// utility, decay, purity, strategy, phase) that names none.
pub open spec fn spec_parse_optimize_request(req: OptimizeRequest) -> Result<
    ParsedOptimizeRequest,
    Seq<char>,
> {
    match spec_parse_utility(req.utility_func@) {
        Err(e) => Err(e),
        Ok(u) => match spec_parse_decay(req.decay_func@) {
            Err(e) => Err(e),
            Ok(d) => match spec_parse_purity(req.purity_override@) {
                Err(e) => Err(e),
                Ok(p) => match spec_parse_strategy(req.strategy@) {
                    Err(e) => Err(e),
                    Ok(s) => match spec_parse_phase(req.game_phase@) {
                        Err(e) => Err(e),
                        Ok(g) => Ok(
                            ParsedOptimizeRequest {
                                utility_func: u,
                                decay_func: d,
                                purity_override: p,
                                strategy: s,
                                game_phase: g,
                            },
                        ),
                    },
                },
            },
        },
    }
}

/// Reads the option enums of a request.
pub fn parse_optimize_request(req: &OptimizeRequest) -> (r: Result<ParsedOptimizeRequest, String>)
    ensures
        msg_view(r) == spec_parse_optimize_request(*req),
{
    let utility_func = match parse_utility(req.utility_func.as_str()) {
        Ok(v) => v,
        Err(e) => return Err(e),
    };
    let decay_func = match parse_decay(req.decay_func.as_str()) {
        Ok(v) => v,
        Err(e) => return Err(e),
    };
    let purity_override = match parse_purity(req.purity_override.as_str()) {
        Ok(v) => v,
        Err(e) => return Err(e),
    };
    let strategy = match parse_strategy(req.strategy.as_str()) {
        Ok(v) => v,
        Err(e) => return Err(e),
    };
    let game_phase = match parse_phase(req.game_phase.as_str()) {
        Ok(v) => v,
        Err(e) => return Err(e),
    };
    Ok(ParsedOptimizeRequest { utility_func, decay_func, purity_override, strategy, game_phase })
}

/// The largest number of distinct resource types the optimizer scores at once.
pub const MAX_RESOURCE_TYPES: usize = 128;

/// Some requested weight is infinite or NaN.
pub open spec fn has_non_finite_weight(w: Seq<(String, WeightKind)>) -> bool {
    exists|i: int| 0 <= i < w.len() && (#[trigger] w[i]).1 == WeightKind::NonFinite
}

/// The ids among the first `n` requested weights whose weight is not zero.
pub open spec fn nonzero_ids_upto(w: Seq<(String, WeightKind)>, n: int) -> Set<Seq<char>> {
    Set::new(
        |k: Seq<char>|
            exists|i: int| 0 <= i < n && (#[trigger] w[i]).1 == WeightKind::NonZero && w[i].0@ == k,
    )
}

/// The ids whose requested weight is not zero.
pub open spec fn nonzero_ids(w: Seq<(String, WeightKind)>) -> Set<Seq<char>> {
    nonzero_ids_upto(w, w.len() as int)
}

/// The ids a request may weight: those of the map's nodes, and water.
pub open spec fn known_ids(node_types: Seq<String>) -> Set<Seq<char>> {
    ids_of(node_types).insert("water"@)
}

/// Whether the optimizer accepts a request, for a map whose nodes have the types
/// `node_types`; otherwise the message of the first check that fails.
pub open spec fn spec_validate(req: OptimizeRequest, node_types: Seq<String>) -> Result<
    (),
    Seq<char>,
> {
    match spec_parse_optimize_request(req) {
        Err(e) => Err(e),
        Ok(_) => if !req.sigma_is_finite {
            Err("Invalid optimize request: sigma must be finite"@)
        } else if has_non_finite_weight(req.weights@) {
            Err("Invalid optimize request: weight must be finite"@)
        } else if nonzero_ids(req.weights@).is_empty() {
            Err("Invalid optimize request: at least one resource weight is required"@)
        } else if !nonzero_ids(req.weights@).subset_of(known_ids(node_types)) {
            Err("Invalid optimize request: unknown resource id"@)
        } else if ids_of(node_types).union(nonzero_ids(req.weights@)).len()
            > MAX_RESOURCE_TYPES as nat {
            Err("Invalid optimize request: too many resource types"@)
        } else {
            Ok(())
        },
    }
}

/// Checks an optimize request against the map's node types before it is run.
#[verifier::loop_isolation(false)]
pub fn validate_optimize_request(req: &OptimizeRequest, node_types: &Vec<String>) -> (r: Result<
    (),
    String,
>)
    ensures
        msg_view(r) == spec_validate(*req, node_types@),
{
    match parse_optimize_request(req) {
        Ok(_) => {},
        Err(e) => return Err(e),
    }
    if !req.sigma_is_finite {
        return Err("Invalid optimize request: sigma must be finite".to_owned());
    }
    let ghost w = req.weights@;
    let mut meaningful: Vec<String> = Vec::new();
    let mut i: usize = 0;
    while i < req.weights.len()
        invariant
            w == req.weights@,
            i <= w.len(),
            forall|j: int| 0 <= j < i ==> (#[trigger] w[j]).1 != WeightKind::NonFinite,
            ids_of(meaningful@) == nonzero_ids_upto(w, i as int),
        decreases w.len() - i,
    {
        let ghost before = meaningful@;
        match req.weights[i].1 {
            WeightKind::NonFinite => {
                assert(has_non_finite_weight(w));
                return Err("Invalid optimize request: weight must be finite".to_owned());
            },
            WeightKind::Zero => {
                assert(nonzero_ids_upto(w, i + 1) =~= nonzero_ids_upto(w, i as int)) by {
                    assert forall|k: Seq<char>| #[trigger] nonzero_ids_upto(w, i + 1).contains(k)
                        implies nonzero_ids_upto(w, i as int).contains(k) by {
                        let j = choose|j: int|
                            0 <= j < i + 1 && (#[trigger] w[j]).1 == WeightKind::NonZero && w[j].0@
                                == k;
                        assert(j != i);
                    }
                }
            },
            WeightKind::NonZero => {
                let id = req.weights[i].0.clone();
                let ghost idv = id;
                meaningful.push(id);
                proof {
                    lemma_ids_of_push(before, idv);
                    assert(nonzero_ids_upto(w, i + 1) =~= nonzero_ids_upto(w, i as int).insert(
                        w[i as int].0@,
                    )) by {
                        assert forall|k: Seq<char>| #[trigger] nonzero_ids_upto(w, i + 1).contains(k)
                            implies nonzero_ids_upto(w, i as int).insert(w[i as int].0@).contains(
                            k,
                        ) by {
                            let j = choose|j: int|
                                0 <= j < i + 1 && (#[trigger] w[j]).1 == WeightKind::NonZero
                                    && w[j].0@ == k;
                            if j < i {
                                assert(nonzero_ids_upto(w, i as int).contains(k));
                            }
                        }
                        assert(w[i as int].1 == WeightKind::NonZero);
                    }
                }
            },
        }
        i = i + 1;
    }
    assert(!has_non_finite_weight(w));
    let ghost meaningful_set = nonzero_ids(w);
    assert(ids_of(meaningful@) == meaningful_set);
    if meaningful.len() == 0 {
        assert(meaningful_set =~= Set::<Seq<char>>::empty());
        return Err("Invalid optimize request: at least one resource weight is required".to_owned());
    }
    assert(meaningful_set.contains(meaningful@[0]@));
    let mut j: usize = 0;
    while j < meaningful.len()
        invariant
            j <= meaningful.len(),
            forall|m: int| 0 <= m < j ==> known_ids(node_types@).contains(#[trigger] meaningful@[m]@),
        decreases meaningful.len() - j,
    {
        let known = contains_id(node_types, meaningful[j].as_str()) || str_eq(
            meaningful[j].as_str(),
            "water",
        );
        if !known {
            assert(meaningful_set.contains(meaningful@[j as int]@));
            assert(!known_ids(node_types@).contains(meaningful@[j as int]@));
            return Err("Invalid optimize request: unknown resource id".to_owned());
        }
        j = j + 1;
    }
    assert(meaningful_set.subset_of(known_ids(node_types@))) by {
        assert forall|k: Seq<char>| meaningful_set.contains(k) implies known_ids(
            node_types@,
        ).contains(k) by {
            let m = choose|m: int| 0 <= m < meaningful@.len() && #[trigger] meaningful@[m]@ == k;
            assert(known_ids(node_types@).contains(meaningful@[m]@));
        }
    }
    let mut universe: Vec<String> = Vec::new();
    assert(ids_of(universe@) =~= Set::<Seq<char>>::empty());
    let mut a: usize = 0;
    while a < node_types.len()
        invariant
            a <= node_types.len(),
            ids_distinct(universe@),
            ids_of(universe@) == ids_of(node_types@.take(a as int)),
        decreases node_types.len() - a,
    {
        add_distinct(&mut universe, &node_types[a]);
        proof {
            assert(node_types@.take(a + 1) == node_types@.take(a as int).push(node_types@[a as int]));
            lemma_ids_of_push(node_types@.take(a as int), node_types@[a as int]);
        }
        a = a + 1;
    }
    assert(node_types@.take(node_types.len() as int) == node_types@);
    let mut b: usize = 0;
    while b < meaningful.len()
        invariant
            b <= meaningful.len(),
            ids_distinct(universe@),
            ids_of(universe@) == ids_of(node_types@).union(ids_of(meaningful@.take(b as int))),
        decreases meaningful.len() - b,
    {
        add_distinct(&mut universe, &meaningful[b]);
        proof {
            assert(meaningful@.take(b + 1) == meaningful@.take(b as int).push(meaningful@[b as int]));
            lemma_ids_of_push(meaningful@.take(b as int), meaningful@[b as int]);
            assert(ids_of(universe@) =~= ids_of(node_types@).union(
                ids_of(meaningful@.take(b + 1)),
            ));
        }
        b = b + 1;
    }
    assert(meaningful@.take(meaningful.len() as int) == meaningful@);
    proof {
        lemma_ids_of_len(universe@);
    }
    if universe.len() > MAX_RESOURCE_TYPES {
        return Err("Invalid optimize request: too many resource types".to_owned());
    }
    Ok(())
}

/// Law: a request that validation accepts names a valid option in every field,
/// weights at least one resource, and weights only resources of the map or water.
pub proof fn lemma_accepted_request_is_well_formed(req: OptimizeRequest, node_types: Seq<String>)
    requires
        spec_validate(req, node_types) is Ok,
    ensures
        spec_parse_optimize_request(req) is Ok,
        req.sigma_is_finite,
        !has_non_finite_weight(req.weights@),
        !nonzero_ids(req.weights@).is_empty(),
        nonzero_ids(req.weights@).subset_of(known_ids(node_types)),
        ids_of(node_types).union(nonzero_ids(req.weights@)).len() <= MAX_RESOURCE_TYPES,
{
}

/// The utility names that the dashboard sends.
pub open spec fn request_utility_name(u: UtilityFunction) -> Seq<char> {
    match u {
        UtilityFunction::CobbDouglas => "cobb_douglas"@,
        UtilityFunction::Leontief => "leontief"@,
        UtilityFunction::Linear => "linear"@,
    }
}

/// The decay names that the dashboard sends.
pub open spec fn request_decay_name(d: DistanceDecay) -> Seq<char> {
    match d {
        DistanceDecay::Gaussian => "gaussian"@,
        DistanceDecay::Exponential => "exponential"@,
        DistanceDecay::PowerLaw => "power_law"@,
        DistanceDecay::Linear => "linear"@,
        DistanceDecay::LogisticStep => "logistic"@,
    }
}

/// The purity override names that the dashboard sends.
pub open spec fn request_purity_name(p: PurityOverride) -> Seq<char> {
    match p {
        PurityOverride::Default => "default"@,
        PurityOverride::Impure => "impure"@,
        PurityOverride::Normal => "normal"@,
        PurityOverride::Pure => "pure"@,
    }
}

/// The strategy names that the dashboard sends.
pub open spec fn request_strategy_name(s: SearchStrategy) -> Seq<char> {
    match s {
        SearchStrategy::Hybrid => "hybrid"@,
        SearchStrategy::Fast => "fast"@,
        SearchStrategy::Slow => "slow"@,
    }
}

proof fn lemma_request_utility_names_distinct()
    ensures
        "cobb_douglas"@ != "leontief"@,
        "cobb_douglas"@ != "linear"@,
        "leontief"@ != "linear"@,
{
    reveal_strlit("cobb_douglas");
    reveal_strlit("leontief");
    reveal_strlit("linear");
    assert("cobb_douglas"@.len() != "leontief"@.len());
    assert("cobb_douglas"@.len() != "linear"@.len());
    assert("leontief"@.len() != "linear"@.len());
}

proof fn lemma_request_decay_names_distinct()
    ensures
        "gaussian"@ != "exponential"@,
        "gaussian"@ != "power_law"@,
        "gaussian"@ != "linear"@,
        "gaussian"@ != "logistic"@,
        "exponential"@ != "power_law"@,
        "exponential"@ != "linear"@,
        "exponential"@ != "logistic"@,
        "power_law"@ != "linear"@,
        "power_law"@ != "logistic"@,
        "linear"@ != "logistic"@,
{
    reveal_strlit("gaussian");
    reveal_strlit("exponential");
    reveal_strlit("power_law");
    reveal_strlit("linear");
    reveal_strlit("logistic");
    assert("gaussian"@.len() != "exponential"@.len());
    assert("gaussian"@.len() != "power_law"@.len());
    assert("gaussian"@.len() != "linear"@.len());
    assert("gaussian"@[0] != "logistic"@[0]);
    assert("exponential"@.len() != "power_law"@.len());
    assert("exponential"@.len() != "linear"@.len());
    assert("exponential"@.len() != "logistic"@.len());
    assert("power_law"@.len() != "linear"@.len());
    assert("power_law"@.len() != "logistic"@.len());
    assert("linear"@.len() != "logistic"@.len());
}

proof fn lemma_request_purity_names_distinct()
    ensures
        "default"@ != "impure"@,
        "default"@ != "normal"@,
        "default"@ != "pure"@,
        "impure"@ != "normal"@,
        "impure"@ != "pure"@,
        "normal"@ != "pure"@,
{
    reveal_strlit("default");
    reveal_strlit("impure");
    reveal_strlit("normal");
    reveal_strlit("pure");
    assert("default"@.len() != "impure"@.len());
    assert("default"@.len() != "normal"@.len());
    assert("default"@.len() != "pure"@.len());
    assert("impure"@[0] != "normal"@[0]);
    assert("impure"@.len() != "pure"@.len());
    assert("normal"@.len() != "pure"@.len());
}

proof fn lemma_request_strategy_names_distinct()
    ensures
        "hybrid"@ != "fast"@,
        "hybrid"@ != "slow"@,
        "fast"@ != "slow"@,
{
    reveal_strlit("hybrid");
    reveal_strlit("fast");
    reveal_strlit("slow");
    assert("hybrid"@.len() != "fast"@.len());
    assert("hybrid"@.len() != "slow"@.len());
    assert("fast"@[0] != "slow"@[0]);
}

proof fn lemma_request_phase_names_distinct()
    ensures
        "phase1"@ != "phase2"@,
        "phase1"@ != "phase3"@,
        "phase1"@ != "phase4"@,
        "phase1"@ != "phase5"@,
        "phase1"@ != "collectibles"@,
        "phase2"@ != "phase3"@,
        "phase2"@ != "phase4"@,
        "phase2"@ != "phase5"@,
        "phase2"@ != "collectibles"@,
        "phase3"@ != "phase4"@,
        "phase3"@ != "phase5"@,
        "phase3"@ != "collectibles"@,
        "phase4"@ != "phase5"@,
        "phase4"@ != "collectibles"@,
        "phase5"@ != "collectibles"@,
{
    reveal_strlit("phase1");
    reveal_strlit("phase2");
    reveal_strlit("phase3");
    reveal_strlit("phase4");
    reveal_strlit("phase5");
    reveal_strlit("collectibles");
    assert("phase1"@[5] != "phase2"@[5]);
    assert("phase1"@[5] != "phase3"@[5]);
    assert("phase1"@[5] != "phase4"@[5]);
    assert("phase1"@[5] != "phase5"@[5]);
    assert("phase1"@.len() != "collectibles"@.len());
    assert("phase2"@[5] != "phase3"@[5]);
    assert("phase2"@[5] != "phase4"@[5]);
    assert("phase2"@[5] != "phase5"@[5]);
    assert("phase2"@.len() != "collectibles"@.len());
    assert("phase3"@[5] != "phase4"@[5]);
    assert("phase3"@[5] != "phase5"@[5]);
    assert("phase3"@.len() != "collectibles"@.len());
    assert("phase4"@[5] != "phase5"@[5]);
    assert("phase4"@.len() != "collectibles"@.len());
    assert("phase5"@.len() != "collectibles"@.len());
}

/// Law: every option name that the dashboard sends is accepted and names its option;
/// the phase `phase` followed by n, for n from 1 to 5, is phase n, and collectible
/// hunting is played in phase 5.
pub proof fn lemma_request_names(
    u: UtilityFunction,
    d: DistanceDecay,
    p: PurityOverride,
    s: SearchStrategy,
    n: int,
)
    requires
        1 <= n <= 5,
    ensures
        spec_parse_utility(request_utility_name(u)) == Ok::<UtilityFunction, Seq<char>>(u),
        spec_parse_decay(request_decay_name(d)) == Ok::<DistanceDecay, Seq<char>>(d),
        spec_parse_purity(request_purity_name(p)) == Ok::<PurityOverride, Seq<char>>(p),
        spec_parse_strategy(request_strategy_name(s)) == Ok::<SearchStrategy, Seq<char>>(s),
        spec_parse_phase("phase"@ + seq![digit_char(n)]) is Ok,
        phase_number(spec_parse_phase("phase"@ + seq![digit_char(n)])->Ok_0) == n,
        spec_parse_phase("collectibles"@) == Ok::<GamePhase, Seq<char>>(GamePhase::Phase5),
{
    lemma_request_utility_names_distinct();
    lemma_request_decay_names_distinct();
    lemma_request_purity_names_distinct();
    lemma_request_strategy_names_distinct();
    lemma_request_phase_names_distinct();
    reveal_strlit("phase");
    reveal_strlit("phase1");
    reveal_strlit("phase2");
    reveal_strlit("phase3");
    reveal_strlit("phase4");
    reveal_strlit("phase5");
    reveal_strlit("collectibles");
    if n == 1 {
        assert("phase"@ + seq![digit_char(n)] =~= "phase1"@);
    }
    if n == 2 {
        assert("phase"@ + seq![digit_char(n)] =~= "phase2"@);
    }
    if n == 3 {
        assert("phase"@ + seq![digit_char(n)] =~= "phase3"@);
    }
    if n == 4 {
        assert("phase"@ + seq![digit_char(n)] =~= "phase4"@);
    }
    if n == 5 {
        assert("phase"@ + seq![digit_char(n)] =~= "phase5"@);
    }
}

} // verus!
