//! The pool registry: a bidirectional index from asset pairs to the
//! identifier of the liquidity pool that trades them.

use vstd::prelude::*;

verus! {

/// One directed registry entry: the pool that quotes `token_from` against
/// `token_to`.
pub struct PoolEntry {
    /// The asset the entry is keyed by.
    pub token_from: String,
    /// The other asset of the pair.
    pub token_to: String,
    /// The external exchange's handle for the pool.
    pub pool_id: u64,
}

/// Failures raised by the registry itself.
#[derive(Debug, Clone, PartialEq, Eq)]
pub enum RegistryError {
    /// The requested (from, to) pair has never been registered.
    NotFound,
}

/// The key of a directed entry.
pub open spec fn entry_key(e: PoolEntry) -> (Seq<char>, Seq<char>) {
    (e.token_from@, e.token_to@)
}

/// The mapping that a sequence of directed entries describes; a later entry
/// overrides an earlier one with the same key.
pub open spec fn entries_map(s: Seq<PoolEntry>) -> Map<(Seq<char>, Seq<char>), u64>
    decreases s.len(),
{
    if s.len() == 0 {
        Map::empty()
    } else {
        entries_map(s.drop_last()).insert(entry_key(s.last()), s.last().pool_id)
    }
}

/// What registering a pool does to the mapping: the pair is indexed in both
/// directions, so that lookup direction never matters to callers.
pub open spec fn add_pool_map(
    m: Map<(Seq<char>, Seq<char>), u64>,
    token_1: Seq<char>,
    token_2: Seq<char>,
    pool_id: u64,
) -> Map<(Seq<char>, Seq<char>), u64> {
    m.insert((token_1, token_2), pool_id).insert((token_2, token_1), pool_id)
}

/// What a lookup in mapping `m` answers: the pool id registered for the
/// directed pair, and `NotFound` when the pair is unregistered.
pub open spec fn lookup_map(
    m: Map<(Seq<char>, Seq<char>), u64>,
    token_from: Seq<char>,
    token_to: Seq<char>,
) -> Result<u64, RegistryError> {
    if m.contains_key((token_from, token_to)) {
        Ok(m[(token_from, token_to)])
    } else {
        Err(RegistryError::NotFound)
    }
}

/// The registry: a persistent bidirectional index from (asset, asset) pairs
/// to a pool identifier. Entries are created by [`Registry::add_pool`] and
/// never deleted.
pub struct Registry {
    entries: Vec<PoolEntry>,
}

impl View for Registry {
    type V = Map<(Seq<char>, Seq<char>), u64>;

    closed spec fn view(&self) -> Map<(Seq<char>, Seq<char>), u64> {
        entries_map(self.entries@)
    }
}

/// Entries after the last one with key `k` do not change what the mapping
/// holds at `k`.
proof fn lemma_entries_map_skip_last(s: Seq<PoolEntry>, k: (Seq<char>, Seq<char>))
    requires
        s.len() > 0,
        entry_key(s.last()) != k,
    ensures
        entries_map(s).contains_key(k) == entries_map(s.drop_last()).contains_key(k),
        entries_map(s).contains_key(k) ==> entries_map(s)[k] == entries_map(s.drop_last())[k],
{
}

impl Registry {
    /// An empty registry.
    pub fn new() -> (r: Registry)
        ensures
            r@ == Map::<(Seq<char>, Seq<char>), u64>::empty(),
    {
        Registry { entries: Vec::new() }
    }

    /// Registers the single directed entry `token_from -> token_to`,
    /// overwriting an earlier registration of the same directed pair.
    fn internal_add_pool(&mut self, token_from: &String, token_to: &String, pool_id: u64)
        ensures
            final(self)@ == old(self)@.insert((token_from@, token_to@), pool_id),
    {
        let entry = PoolEntry {
            token_from: token_from.clone(),
            token_to: token_to.clone(),
            pool_id,
        };
        self.entries.push(entry);
        proof {
            assert(self.entries@.drop_last() =~= old(self).entries@);
        }
    }

    /// Registers a pool for the unordered pair: both directional entries are
    /// inserted, and the latest registration for a given directed pair wins.
    pub fn add_pool(&mut self, token_1: String, token_2: String, pool_id: u64)
        ensures
            final(self)@ == add_pool_map(old(self)@, token_1@, token_2@, pool_id),
    {
        self.internal_add_pool(&token_1, &token_2, pool_id);
        self.internal_add_pool(&token_2, &token_1, pool_id);
    }

    /// Returns the pool id registered for the directed pair, and `NotFound`
    /// when the pair is unregistered — whether the `token_from` side has no
    /// entry at all or only the `token_to` side is missing. The result is a
    /// function of the registry's mapping alone, so repeated lookups with no
    /// intervening registration answer identically, and nothing is mutated.
    pub fn lookup(&self, token_from: &String, token_to: &String) -> (r: Result<u64, RegistryError>)
        ensures
            r == lookup_map(self@, token_from@, token_to@),
    {
        let ghost k = (token_from@, token_to@);
        let mut i: usize = self.entries.len();
        proof {
            assert(self.entries@.take(i as int) =~= self.entries@);
        }
        while i > 0
            invariant
                k == (token_from@, token_to@),
                i <= self.entries.len(),
                entries_map(self.entries@.take(i as int)).contains_key(k)
                    == self@.contains_key(k),
                entries_map(self.entries@.take(i as int)).contains_key(k)
                    ==> entries_map(self.entries@.take(i as int))[k] == self@[k],
            decreases i,
        {
            i = i - 1;
            let ghost prefix = self.entries@.take((i + 1) as int);
            proof {
                assert(prefix.last() == self.entries@[i as int]);
                assert(prefix.drop_last() =~= self.entries@.take(i as int));
            }
            let entry = &self.entries[i];
            if entry.token_from == *token_from && entry.token_to == *token_to {
                proof {
                    assert(entry_key(prefix.last()) == k);
                }
                return Ok(entry.pool_id);
            }
            proof {
                lemma_entries_map_skip_last(prefix, k);
            }
        }
        proof {
            assert(self.entries@.take(0) =~= Seq::<PoolEntry>::empty());
        }
        Err(RegistryError::NotFound)
    }
}

} // verus!
