//! Laws of the pool registry, stated over the same spec function that
//! [`crate::registry::Registry::add_pool`]'s contract uses.

use vstd::prelude::*;
use crate::registry::add_pool_map;

verus! {

/// Registry symmetry: after a pool is registered for a pair of distinct
/// assets, the mapping answers with that pool id in both directions.
pub proof fn lemma_add_pool_symmetry(
    m: Map<(Seq<char>, Seq<char>), u64>,
    token_1: Seq<char>,
    token_2: Seq<char>,
    pool_id: u64,
)
    requires
        token_1 != token_2,
    ensures
        add_pool_map(m, token_1, token_2, pool_id).contains_key((token_1, token_2)),
        add_pool_map(m, token_1, token_2, pool_id)[(token_1, token_2)] == pool_id,
        add_pool_map(m, token_1, token_2, pool_id).contains_key((token_2, token_1)),
        add_pool_map(m, token_1, token_2, pool_id)[(token_2, token_1)] == pool_id,
{
}

/// Last write wins: registering the same pair again replaces the pool id, in
/// both directions.
pub proof fn lemma_add_pool_overwrite(
    m: Map<(Seq<char>, Seq<char>), u64>,
    token_1: Seq<char>,
    token_2: Seq<char>,
    first_pool_id: u64,
    second_pool_id: u64,
)
    ensures
        add_pool_map(add_pool_map(m, token_1, token_2, first_pool_id), token_1, token_2, second_pool_id)[(token_1, token_2)]
            == second_pool_id,
        add_pool_map(add_pool_map(m, token_1, token_2, first_pool_id), token_1, token_2, second_pool_id)[(token_2, token_1)]
            == second_pool_id,
{
}

} // verus!
