use vstd::prelude::*;

verus! {

/// The largest fee rate: 10000 ten-thousandths, all of the offer.
pub const FEE_RATE_MAX: u64 = 10000;

/// What the contract keeps about itself.
#[derive(Clone, Debug, PartialEq, Eq)]
pub struct State {
    pub owner: String,
    pub fee_rate: u64,
}

impl State {
    /// The contract's invariant: the fee rate is at most 100%.
    pub open spec fn wf(self) -> bool {
        self.fee_rate <= FEE_RATE_MAX
    }
}

/// A registered pool: its address and its two tokens.
#[derive(Clone, Debug, PartialEq, Eq)]
pub struct PoolInfo {
    pub address: String,
    pub token_1: String,
    pub token_2: String,
}

/// The primary key under which a pool of a pair is stored: the two tokens
/// joined by an underscore.
pub open spec fn pool_key_of(token_1: Seq<char>, token_2: Seq<char>) -> Seq<char> {
    token_1 + seq!['_'] + token_2
}

/// Computes the primary key of a pool of `token_1` and `token_2`.
pub fn pool_key(token_1: &str, token_2: &str) -> (k: String)
    ensures
        k@ == pool_key_of(token_1@, token_2@),
{
    let mut k = String::from_str(token_1);
    let sep = "_";
    proof {
        reveal_strlit("_");
    }
    k.append(sep);
    k.append(token_2);
    k
}

/// The value by which the address index finds a pool: its address.
pub fn address_index(pool: &PoolInfo) -> (k: String)
    ensures
        k@ == pool.address@,
{
    pool.address.clone()
}

/// The value by which the pair index finds a pool: its two tokens, in order.
pub fn pair_index(pool: &PoolInfo) -> (k: (String, String))
    ensures
        k.0@ == pool.token_1@,
        k.1@ == pool.token_2@,
{
    (pool.token_1.clone(), pool.token_2.clone())
}

} // verus!
