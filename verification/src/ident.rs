//! Identifiers of agents, commands and file transfers.
//!
//! An identifier is a 128-bit number. New ones start from a random number and
//! step past every number that is already in use, so an operation never
//! shares its identifier with an earlier one of the same session.

use skynet_api::HyUuid;
use std::collections::HashMap;
use vstd::prelude::*;
use vstd::arithmetic::div_mod::{
    lemma_fundamental_div_mod, lemma_fundamental_div_mod_converse, lemma_mod_bound,
    lemma_small_mod,
};
use vstd::set_lib::lemma_len_subset;

verus! {

/// A 128-bit identifier of an agent, a command or a file transfer.
pub type Id = u128;

/// Whether `id` has the form of a random UUID: the four version bits say 4
/// and the two variant bits say RFC 9562. The other 122 bits are free.
pub open spec fn is_random_uuid(id: Id) -> bool {
    id & 0x0000_0000_0000_f000_c000_0000_0000_0000u128
        == 0x0000_0000_0000_4000_8000_0000_0000_0000u128
}

/// Calls `HyUuid::new`, which draws a random version-4 UUID, and returns its
/// 128 bits as a number, most significant byte first.
///
/// The 122 random bits come from the operating system, so all that is
/// claimed is the form that every such UUID has.
#[verifier::external_body]
pub(crate) fn random_id() -> (id: Id)
    ensures
        is_random_uuid(id),
{
    HyUuid::new().0.as_u128()
}

/// The identifier is the first free one at or after some random UUID.
pub open spec fn drawn_past(used: Set<Id>, id: Id) -> bool {
    exists|seed: Id| #[trigger] is_random_uuid(seed) && id == first_free(used, seed)
}

/// How many identifiers there are: 2^128.
pub open spec fn id_space() -> nat {
    (u128::MAX + 1) as nat
}

/// The identifier `steps` places after `seed`, wrapping round at 2^128.
pub open spec fn stepped(seed: Id, steps: nat) -> Id {
    ((seed + steps) % (id_space() as int)) as Id
}

/// `steps` is the least number of places after `seed` at which an
/// identifier is not in `used`.
pub open spec fn least_free(used: Set<Id>, seed: Id, steps: nat) -> bool {
    &&& !used.contains(stepped(seed, steps))
    &&& forall|j: nat| j < steps ==> used.contains(#[trigger] stepped(seed, j))
}

/// The first identifier at or after `seed` that is not in `used`.
pub open spec fn first_free(used: Set<Id>, seed: Id) -> Id {
    stepped(seed, choose|steps: nat| least_free(used, seed, steps))
}

/// Stepping once more moves to the next number, or from the largest back to 0.
pub proof fn lemma_stepped_next(seed: Id, steps: nat)
    ensures
        stepped(seed, 0) == seed,
        stepped(seed, steps + 1) == if stepped(seed, steps) == u128::MAX {
            0
        } else {
            (stepped(seed, steps) + 1) as Id
        },
{
    let m = id_space() as int;
    let x = seed + steps;
    let q = x / m;
    let here = x % m;
    lemma_small_mod(seed as nat, m as nat);
    lemma_fundamental_div_mod(x, m);
    lemma_mod_bound(x, m);
    assert(x == q * m + here) by (nonlinear_arith)
        requires
            x == m * q + here,
    ;
    if here == u128::MAX {
        assert(x + 1 == (q + 1) * m + 0) by (nonlinear_arith)
            requires
                x == q * m + here,
                here + 1 == m,
        ;
        lemma_fundamental_div_mod_converse(x + 1, m, q + 1, 0);
    } else {
        lemma_fundamental_div_mod_converse(x + 1, m, q, here + 1);
    }
}

/// The identifiers `seed`, `seed + 1`, ... up to `count` of them.
pub open spec fn run_from(seed: Id, count: nat) -> Set<Id> {
    Set::new(|id: Id| exists|j: nat| j < count && id == stepped(seed, j))
}

/// A run of at most 2^128 identifiers holds no identifier twice.
proof fn lemma_run_len(seed: Id, count: nat)
    requires
        count <= id_space(),
    ensures
        run_from(seed, count).finite(),
        run_from(seed, count).len() == count,
    decreases count,
{
    if count == 0 {
        assert(run_from(seed, count) =~= Set::<Id>::empty());
    } else {
        let shorter = (count - 1) as nat;
        lemma_run_len(seed, shorter);
        let last = stepped(seed, shorter);
        assert(!run_from(seed, shorter).contains(last)) by {
            if run_from(seed, shorter).contains(last) {
                let j = choose|j: nat| j < shorter && last == stepped(seed, j);
                assert(false);
            }
        }
        assert(run_from(seed, count) =~= run_from(seed, shorter).insert(last)) by {
            assert forall|id: Id| run_from(seed, count).contains(id) implies run_from(
                seed,
                shorter,
            ).insert(last).contains(id) by {
                let j = choose|j: nat| j < count && id == stepped(seed, j);
                if j < shorter {
                    assert(run_from(seed, shorter).contains(id));
                }
            }
            assert forall|id: Id|
                run_from(seed, shorter).insert(last).contains(id) implies run_from(
                seed,
                count,
            ).contains(id) by {
                if id == last {
                    assert(shorter < count && id == stepped(seed, shorter));
                } else {
                    let j = choose|j: nat| j < shorter && id == stepped(seed, j);
                    assert(j < count && id == stepped(seed, j));
                }
            }
        }
    }
}

/// Where every one of the first `count` identifiers after `seed` is in use,
/// at least `count` identifiers are in use.
proof fn lemma_run_fits(used: Set<Id>, seed: Id, count: nat)
    requires
        used.finite(),
        count <= id_space(),
        forall|j: nat| j < count ==> used.contains(#[trigger] stepped(seed, j)),
    ensures
        count <= used.len(),
{
    lemma_run_len(seed, count);
    assert(run_from(seed, count).subset_of(used));
    lemma_len_subset(run_from(seed, count), used);
}

/// Two least free offsets for the same set and seed are the same offset.
pub proof fn lemma_least_free_unique(used: Set<Id>, seed: Id, a: nat, b: nat)
    requires
        least_free(used, seed, a),
        least_free(used, seed, b),
    ensures
        a == b,
{
    if a < b {
        assert(used.contains(stepped(seed, a)));
    }
    if b < a {
        assert(used.contains(stepped(seed, b)));
    }
}

/// The first free identifier is the one at the least free offset; it is
/// never in use; and it is the seed itself where the seed is free.
pub proof fn lemma_first_free(used: Set<Id>, seed: Id, steps: nat)
    requires
        least_free(used, seed, steps),
    ensures
        first_free(used, seed) == stepped(seed, steps),
        !used.contains(first_free(used, seed)),
        !used.contains(seed) ==> first_free(used, seed) == seed,
{
    let chosen = choose|k: nat| least_free(used, seed, k);
    lemma_least_free_unique(used, seed, steps, chosen);
    lemma_stepped_next(seed, 0);
    if !used.contains(seed) && steps > 0 {
        assert(used.contains(stepped(seed, 0)));
    }
}

/// Returns the first identifier at or after `seed` that is not a key of
/// `taken`.
pub fn fresh_id<V>(taken: &HashMap<Id, V>, seed: Id) -> (id: Id)
    ensures
        !taken@.contains_key(id),
        id == first_free(taken@.dom(), seed),
        !taken@.contains_key(seed) ==> id == seed,
{
    broadcast use vstd::std_specs::hash::group_hash_axioms;

    let mut candidate: Id = seed;
    let ghost mut steps: nat = 0;
    let ghost used = taken@.dom();
    proof {
        lemma_stepped_next(seed, 0);
        assert(vstd::std_specs::hash::spec_hash_map_len(taken) == taken@.len());
    }
    while taken.contains_key(&candidate)
        invariant
            used == taken@.dom(),
            used.finite(),
            used.len() <= usize::MAX,
            candidate == stepped(seed, steps),
            steps <= used.len(),
            forall|j: nat| j < steps ==> used.contains(#[trigger] stepped(seed, j)),
        decreases used.len() - steps,
    {
        proof {
            assert forall|j: nat| j < steps + 1 implies used.contains(
                #[trigger] stepped(seed, j),
            ) by {
                if j == steps {
                    assert(used.contains(candidate));
                }
            }
            lemma_run_fits(used, seed, steps + 1);
            lemma_stepped_next(seed, steps);
            steps = steps + 1;
        }
        candidate = if candidate == u128::MAX {
            0
        } else {
            candidate + 1
        };
    }
    proof {
        lemma_first_free(used, seed, steps);
    }
    candidate
}

} // verus!
