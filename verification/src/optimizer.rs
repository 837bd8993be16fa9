//! The discrete decisions of the site optimizer: which nodes count, how hard spawn
//! distance is penalised, the yield floors, and the resource index space.

use vstd::prelude::*;

use crate::models::{phase_number, GamePhase, UtilityFunction};
use crate::names::{ids_distinct, ids_of, lemma_ids_of_push};
use crate::text::{chars_of, lex_less, lex_lt, lemma_lex_lt_total, lemma_lex_lt_transitive, str_eq};

verus! {

/// An obstructed node (one that needs explosives to reach) counts only once the player
/// has them, from phase 3 on; an open node always counts.
pub open spec fn contributes(obstructed: bool, game_phase: GamePhase) -> bool {
    !obstructed || (game_phase != GamePhase::Phase1 && game_phase != GamePhase::Phase2)
}

/// Whether a node adds to the yields in the given phase.
pub fn obstructed_node_contributes(obstructed: bool, game_phase: GamePhase) -> (r: bool)
    ensures
        r == contributes(obstructed, game_phase),
{
    !obstructed || (game_phase != GamePhase::Phase1 && game_phase != GamePhase::Phase2)
}

/// The distance from the nearest spawn (in metres) at which a site's score is
/// multiplied by 1/e, or `None` where spawn distance is not penalised.
pub open spec fn spawn_tolerance(game_phase: GamePhase, ignore_spawns: bool) -> Option<u32> {
    if ignore_spawns {
        None
    } else {
        match game_phase {
            GamePhase::Phase1 => Some(800u32),
            GamePhase::Phase2 => Some(1500u32),
            GamePhase::Phase3 => Some(3000u32),
            GamePhase::Phase4 => None,
            GamePhase::Phase5 => None,
        }
    }
}

/// How far from spawn a site may lie before its score suffers: early players walk,
/// later ones drive, and from phase 4 on distance does not matter.
pub fn spawn_tolerance_m(game_phase: GamePhase, ignore_spawns: bool) -> (r: Option<u32>)
    ensures
        r == spawn_tolerance(game_phase, ignore_spawns),
{
    if ignore_spawns {
        None
    } else {
        match game_phase {
            GamePhase::Phase1 => Some(800),
            GamePhase::Phase2 => Some(1500),
            GamePhase::Phase3 => Some(3000),
            GamePhase::Phase4 | GamePhase::Phase5 => None,
        }
    }
}

/// Law: the spawn penalty only relaxes as the game advances. A later phase never has
/// a penalty where an earlier one has none, and never a stricter tolerance.
pub proof fn lemma_spawn_tolerance_relaxes(p: GamePhase, q: GamePhase, ignore_spawns: bool)
    requires
        phase_number(p) <= phase_number(q),
    ensures
        spawn_tolerance(q, ignore_spawns) is Some ==> spawn_tolerance(p, ignore_spawns) is Some,
        spawn_tolerance(p, ignore_spawns) is Some && spawn_tolerance(q, ignore_spawns) is Some
            ==> spawn_tolerance(p, ignore_spawns)->0 <= spawn_tolerance(q, ignore_spawns)->0,
        phase_number(q) >= 4 ==> spawn_tolerance(q, ignore_spawns) is None,
        ignore_spawns ==> spawn_tolerance(p, ignore_spawns) is None,
{
}

/// Whether a node is treated as obstructed. Caterium nodes are, except the one that
/// starts open in the Rocky Desert (`near_starting_caterium`).
pub fn effective_obstruction(obstructed: bool, resource_type: &str, near_starting_caterium: bool) -> (r:
    bool)
    ensures
        r == (obstructed || (resource_type@ == "caterium"@ && !near_starting_caterium)),
{
    if !obstructed && str_eq(resource_type, "caterium") {
        !near_starting_caterium
    } else {
        obstructed
    }
}

/// The smoothing constant added to every yield, in hundred-thousandths: 10^-5 under
/// Cobb-Douglas, so that a missing resource does not zero the whole product; none under
/// Leontief, where a weighted resource with no yield makes the score 0; none under the
/// linear sum, which adds the yields as they are.
pub open spec fn epsilon_of(utility_func: UtilityFunction) -> u32 {
    match utility_func {
        UtilityFunction::CobbDouglas => 1,
        UtilityFunction::Leontief => 0,
        UtilityFunction::Linear => 0,
    }
}

/// The smoothing constant of a utility function, in hundred-thousandths.
pub fn epsilon_hundred_thousandths(utility_func: UtilityFunction) -> (r: u32)
    ensures
        r == epsilon_of(utility_func),
{
    match utility_func {
        UtilityFunction::CobbDouglas => 1,
        UtilityFunction::Leontief => 0,
        UtilityFunction::Linear => 0,
    }
}

/// The ids of `s` are in strictly increasing lexicographic order.
pub open spec fn strictly_sorted(s: Seq<String>) -> bool {
    forall|i: int, j: int| 0 <= i < j < s.len() ==> lex_lt(#[trigger] s[i]@, #[trigger] s[j]@)
}

/// Inserts `x` into the strictly sorted `v` at its place, unless `v` holds it already.
fn insert_sorted(v: &mut Vec<String>, x: &String)
    requires
        strictly_sorted(old(v)@),
    ensures
        strictly_sorted(final(v)@),
        ids_of(final(v)@) == ids_of(old(v)@).insert(x@),
{
    let xc = chars_of(x.as_str());
    let ghost old_v = v@;
    let mut p: usize = 0;
    while p < v.len()
        invariant
            v@ == old_v,
            strictly_sorted(old_v),
            xc@ == x@,
            p <= old_v.len(),
            forall|i: int| 0 <= i < p ==> lex_lt(#[trigger] old_v[i]@, x@),
        ensures
            v@ == old_v,
            p <= old_v.len(),
            forall|i: int| 0 <= i < p ==> lex_lt(#[trigger] old_v[i]@, x@),
            p < old_v.len() ==> !lex_lt(old_v[p as int]@, x@),
        decreases old_v.len() - p,
    {
        let pc = chars_of(v[p].as_str());
        if !lex_less(&pc, &xc) {
            break;
        }
        p = p + 1;
    }
    if p < v.len() && str_eq(v[p].as_str(), x.as_str()) {
        assert(ids_of(old_v).contains(x@)) by {
            assert(old_v[p as int]@ == x@);
        }
        assert(ids_of(old_v).insert(x@) =~= ids_of(old_v));
        return;
    }
    proof {
        if p < old_v.len() {
            lemma_lex_lt_total(old_v[p as int]@, x@);
            assert(lex_lt(x@, old_v[p as int]@));
        }
        assert forall|m: int| p <= m < old_v.len() implies lex_lt(x@, #[trigger] old_v[m]@) by {
            if m > p {
                assert(lex_lt(old_v[p as int]@, old_v[m]@));
                lemma_lex_lt_transitive(x@, old_v[p as int]@, old_v[m]@);
            }
        }
    }
    let xs = x.clone();
    let ghost xg = xs;
    v.insert(p, xs);
    proof {
        let nv = v@;
        assert(nv == old_v.insert(p as int, xg));
        assert forall|i: int, j: int| 0 <= i < j < nv.len() implies lex_lt(
            #[trigger] nv[i]@,
            #[trigger] nv[j]@,
        ) by {
            if j < p {
                assert(nv[i] == old_v[i] && nv[j] == old_v[j]);
            } else if j == p {
                assert(nv[i] == old_v[i]);
            } else if i < p {
                assert(nv[i] == old_v[i] && nv[j] == old_v[j - 1]);
                assert(lex_lt(x@, old_v[j - 1]@));
                lemma_lex_lt_transitive(old_v[i]@, x@, old_v[j - 1]@);
            } else if i == p {
                assert(nv[j] == old_v[j - 1]);
                assert(lex_lt(x@, old_v[j - 1]@));
            } else {
                assert(nv[i] == old_v[i - 1] && nv[j] == old_v[j - 1]);
            }
        }
        assert forall|k: Seq<char>| ids_of(nv).contains(k) == ids_of(old_v).insert(x@).contains(
            k,
        ) by {
            if ids_of(old_v).contains(k) {
                let i = choose|i: int| 0 <= i < old_v.len() && #[trigger] old_v[i]@ == k;
                if i < p {
                    assert(nv[i] == old_v[i]);
                } else {
                    assert(nv[i + 1] == old_v[i]);
                }
            }
            if k == x@ {
                assert(nv[p as int]@ == k);
            }
            if ids_of(nv).contains(k) && k != x@ {
                let i = choose|i: int| 0 <= i < nv.len() && #[trigger] nv[i]@ == k;
                if i < p {
                    assert(nv[i] == old_v[i]);
                } else if i > p {
                    assert(nv[i] == old_v[i - 1]);
                }
            }
        }
        assert(ids_of(nv) =~= ids_of(old_v).insert(x@));
    }
}

/// The resource types that the optimizer indexes: every node type and every weighted
/// id, each once, in lexicographic order. A resource's index is its position here.
pub fn resource_universe(node_types: &Vec<String>, weight_ids: &Vec<String>) -> (u: Vec<String>)
    ensures
        strictly_sorted(u@),
        ids_of(u@) == ids_of(node_types@).union(ids_of(weight_ids@)),
{
    let mut u: Vec<String> = Vec::new();
    assert(ids_of(u@) =~= Set::<Seq<char>>::empty());
    let mut a: usize = 0;
    while a < node_types.len()
        invariant
            a <= node_types.len(),
            strictly_sorted(u@),
            ids_of(u@) == ids_of(node_types@.take(a as int)),
        decreases node_types.len() - a,
    {
        insert_sorted(&mut u, &node_types[a]);
        proof {
            assert(node_types@.take(a + 1) == node_types@.take(a as int).push(node_types@[a as int]));
            lemma_ids_of_push(node_types@.take(a as int), node_types@[a as int]);
        }
        a = a + 1;
    }
    assert(node_types@.take(node_types.len() as int) == node_types@);
    let mut b: usize = 0;
    while b < weight_ids.len()
        invariant
            b <= weight_ids.len(),
            strictly_sorted(u@),
            ids_of(u@) == ids_of(node_types@).union(ids_of(weight_ids@.take(b as int))),
        decreases weight_ids.len() - b,
    {
        insert_sorted(&mut u, &weight_ids[b]);
        proof {
            assert(weight_ids@.take(b + 1) == weight_ids@.take(b as int).push(weight_ids@[b as int]));
            lemma_ids_of_push(weight_ids@.take(b as int), weight_ids@[b as int]);
            assert(ids_of(u@) =~= ids_of(node_types@).union(ids_of(weight_ids@.take(b + 1))));
        }
        b = b + 1;
    }
    assert(weight_ids@.take(weight_ids.len() as int) == weight_ids@);
    assert(ids_of(u@) =~= ids_of(node_types@).union(ids_of(weight_ids@)));
    u
}

/// Law: a strictly sorted list holds each id once, so positions index the ids
/// one-to-one.
pub proof fn lemma_sorted_ids_distinct(s: Seq<String>)
    requires
        strictly_sorted(s),
    ensures
        ids_distinct(s),
{
    assert forall|i: int, j: int| 0 <= i < j < s.len() implies #[trigger] s[i]@ != #[trigger] s[j]@ by {
        assert(lex_lt(s[i]@, s[j]@));
        lemma_lex_lt_total(s[i]@, s[j]@);
    }
}

} // verus!
