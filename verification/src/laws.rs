//! Properties of the contract that span its operations.
use crate::asset::{is_native, same_asset};
use crate::contract::{
    addresses_of, asked_asset, fee_of, get_pair_answer, other_token, pair_holds, pool_offers,
    registers, PoolRecord,
};
use crate::state::{pool_key_of, PoolInfo, FEE_RATE_MAX};
use crate::types::{AssetInfo, Response};
use vstd::prelude::*;

verus! {

/// A pool registered for `pool_address`, `token_1` and `token_2` is answered
/// by `GetPair` with those two tokens when it is the first pool that the
/// address index holds for `pool_address`, and its address is the first
/// that `GetPoolAddr` lists when it is the first pool held for its pair.
pub proof fn lemma_registered_pool_is_answered(
    info: PoolInfo,
    pool_address: Seq<char>,
    token_1: Seq<char>,
    token_2: Seq<char>,
    later: Seq<PoolInfo>,
)
    requires
        info.address@ == pool_address,
        info.token_1@ == token_1,
        info.token_2@ == token_2,
    ensures
        get_pair_answer(seq![info] + later) == Some((token_1, token_2)),
        addresses_of(seq![info] + later).len() == later.len() + 1,
        addresses_of(seq![info] + later)[0] == pool_address,
{
    assert((seq![info] + later)[0] == info);
}

/// Registering the same pool again stores the same record under the same
/// key and gives the same answer, so the registry is left as it was.
pub proof fn lemma_registration_is_repeatable(
    first: (PoolRecord, Response),
    again: (PoolRecord, Response),
    pool_address: Seq<char>,
    token_1: Seq<char>,
    token_2: Seq<char>,
)
    requires
        registers(first, pool_address, token_1, token_2),
        registers(again, pool_address, token_1, token_2),
    ensures
        first.0.key@ == again.0.key@,
        first.0.info.address@ == again.0.info.address@,
        first.0.info.token_1@ == again.0.info.token_1@,
        first.0.info.token_2@ == again.0.info.token_2@,
        first.1.submessages@.len() == 0 && again.1.submessages@.len() == 0,
        first.1.attributes@.len() == again.1.attributes@.len(),
        forall|i: int| 0 <= i < first.1.attributes@.len() ==> (#[trigger] first.1.attributes@[i]).key@ == again.1.attributes@[i].key@ && first.1.attributes@[i].value@ == again.1.attributes@[i].value@,
{
}

/// The fee kept on a swap lies between nothing and the whole offer: it is
/// nothing at rate 0, the whole offer at rate 10000, and grows with the
/// rate; what is forwarded and the fee add up to the offer.
pub proof fn lemma_fee_bounds(amount: u128, fee_rate: u64, higher_rate: u64)
    requires
        fee_rate <= higher_rate <= FEE_RATE_MAX,
    ensures
        0 <= fee_of(amount, fee_rate) <= amount,
        (amount - fee_of(amount, fee_rate)) + fee_of(amount, fee_rate) == amount,
        fee_of(amount, 0) == 0,
        fee_of(amount, FEE_RATE_MAX) == amount,
        fee_of(amount, fee_rate) <= fee_of(amount, higher_rate),
{
    let a = amount as int;
    assert(0 <= a * fee_rate <= a * higher_rate <= a * 10000) by (nonlinear_arith)
        requires
            0 <= a,
            0 <= fee_rate <= higher_rate <= 10000,
    ;
    vstd::arithmetic::div_mod::lemma_div_is_ordered(a * fee_rate, a * higher_rate, 10000);
    vstd::arithmetic::div_mod::lemma_div_is_ordered(a * fee_rate, a * 10000, 10000);
    vstd::arithmetic::div_mod::lemma_div_pos_is_pos(a * fee_rate, 10000);
    assert(a * 10000 == 10000 * a) by (nonlinear_arith);
    vstd::arithmetic::div_mod::lemma_div_multiples_vanish(a, 10000);
    assert(a * 0 == 0);
}

/// A registered pair swap asks the other token of the pair: when the pair's
/// tokens differ, the asked token is in the pair and is not the offered one.
pub proof fn lemma_astro_asks_other_token(pool: PoolInfo, denom: Seq<char>)
    requires
        pool.token_1@ != pool.token_2@,
        pair_holds(pool, denom),
    ensures
        other_token(pool, denom) != denom,
        pair_holds(pool, other_token(pool, denom)),
{
}

/// A pool swap asks the other asset of the pool: when the two native assets
/// differ and the offer is one of them, the asked asset is not the offered
/// denom.
pub proof fn lemma_swap_asks_other_asset(assets: Seq<AssetInfo>, denom: Seq<char>)
    requires
        assets.len() >= 2,
        is_native(assets[0]),
        is_native(assets[1]),
        !same_asset(assets[0], assets[1]),
        pool_offers(assets, denom),
    ensures
        asked_asset(assets, denom) != denom,
{
}

/// The fee is the offer's share at the rate, rounded down: `fee * 10000`
/// is at most `amount * rate` and within 10000 of it. In particular an
/// offer of `k * 10000` pays exactly `k * rate`.
pub proof fn lemma_fee_is_proportional(amount: u128, fee_rate: u64, k: u128)
    requires
        fee_rate <= FEE_RATE_MAX,
    ensures
        fee_of(amount, fee_rate) * 10000 <= amount * fee_rate,
        amount * fee_rate < (fee_of(amount, fee_rate) + 1) * 10000,
        k * 10000 <= u128::MAX ==> fee_of((k * 10000) as u128, fee_rate) == k * fee_rate,
{
    let p = amount as int * fee_rate as int;
    vstd::arithmetic::div_mod::lemma_fundamental_div_mod(p, 10000);
    vstd::arithmetic::div_mod::lemma_remainder(p, 10000);
    if k * 10000 <= u128::MAX {
        let a = (k * 10000) as u128;
        assert(a as int * fee_rate as int == 10000 * (k * fee_rate)) by (nonlinear_arith)
            requires
                a == k * 10000,
        ;
        vstd::arithmetic::div_mod::lemma_div_multiples_vanish(k * fee_rate, 10000);
    }
}

/// A registered pair holds each of its two tokens, and nothing else: a coin
/// of either token is swapped, and the token asked is the pair's other one.
pub proof fn lemma_pair_holds_its_tokens(pool: PoolInfo, denom: Seq<char>)
    ensures
        pair_holds(pool, pool.token_1@),
        pair_holds(pool, pool.token_2@),
        pair_holds(pool, denom) ==> denom == pool.token_1@ || denom == pool.token_2@,
        other_token(pool, pool.token_1@) == pool.token_2@,
        pool.token_1@ != pool.token_2@ ==> other_token(pool, pool.token_2@) == pool.token_1@,
{
}

/// A pool offers exactly its native assets: an offer of the denom of either
/// of its first two assets, when native, is accepted, and no other.
pub proof fn lemma_pool_offers_its_native_assets(assets: Seq<AssetInfo>, denom: Seq<char>)
    requires
        assets.len() >= 2,
    ensures
        (assets[0] matches AssetInfo::NativeToken { denom: d } && d@ == denom) ==> pool_offers(assets, denom),
        (assets[1] matches AssetInfo::NativeToken { denom: d } && d@ == denom) ==> pool_offers(assets, denom),
        pool_offers(assets, denom) ==> (assets[0] matches AssetInfo::NativeToken { denom: d } && d@ == denom) || (assets[1] matches AssetInfo::NativeToken { denom: d } && d@ == denom),
{
}

/// The storage key of a pair holds both tokens whole: the first token, an
/// underscore, then the second, so pairs of tokens without an underscore
/// get distinct keys.
pub proof fn lemma_pool_key_holds_both_tokens(token_1: Seq<char>, token_2: Seq<char>, other_1: Seq<char>, other_2: Seq<char>)
    ensures
        pool_key_of(token_1, token_2).len() == token_1.len() + token_2.len() + 1,
        pool_key_of(token_1, token_2).take(token_1.len() as int) == token_1,
        pool_key_of(token_1, token_2)[token_1.len() as int] == '_',
        pool_key_of(token_1, token_2).skip(token_1.len() as int + 1) == token_2,
        !token_1.contains('_') && !other_1.contains('_') && pool_key_of(token_1, token_2) == pool_key_of(other_1, other_2) ==> token_1 == other_1 && token_2 == other_2,
{
    let key = pool_key_of(token_1, token_2);
    assert(key.take(token_1.len() as int) =~= token_1);
    assert(key.skip(token_1.len() as int + 1) =~= token_2);
    let other = pool_key_of(other_1, other_2);
    assert(other.take(other_1.len() as int) =~= other_1);
    assert(other.skip(other_1.len() as int + 1) =~= other_2);
    if !token_1.contains('_') && !other_1.contains('_') && key == other {
        if token_1.len() < other_1.len() {
            assert(other_1[token_1.len() as int] == other[token_1.len() as int]);
            assert(other_1.contains('_'));
        } else if other_1.len() < token_1.len() {
            assert(token_1[other_1.len() as int] == key[other_1.len() as int]);
            assert(token_1.contains('_'));
        }
    }
}

/// A pool swap asks the pool's other asset, written as its denom or its
/// contract's address: an offer of the first asset's denom asks the second,
/// and an offer of only the second's asks the first.
pub proof fn lemma_asked_asset_is_the_other(assets: Seq<AssetInfo>, denom: Seq<char>)
    requires
        assets.len() >= 2,
    ensures
        (assets[0] matches AssetInfo::NativeToken { denom: d } && d@ == denom) ==> asked_asset(assets, denom) == match assets[1] {
            AssetInfo::NativeToken { denom: x } => x@,
            AssetInfo::Token { contract_addr: x } => x@,
        },
        !(assets[0] matches AssetInfo::NativeToken { denom: d } && d@ == denom) ==> asked_asset(assets, denom) == match assets[0] {
            AssetInfo::NativeToken { denom: x } => x@,
            AssetInfo::Token { contract_addr: x } => x@,
        },
{
}

/// `GetPair` answers the tokens of the first pool it is handed and fails on
/// none; `GetPoolAddr` lists the address of every pool it is handed, in
/// order.
pub proof fn lemma_query_answers(pools: Seq<PoolInfo>)
    ensures
        pools.len() == 0 ==> get_pair_answer(pools) is None,
        pools.len() > 0 ==> get_pair_answer(pools) == Some((pools[0].token_1@, pools[0].token_2@)),
        addresses_of(pools).len() == pools.len(),
        forall|i: int| 0 <= i < pools.len() ==> #[trigger] addresses_of(pools)[i] == pools[i].address@,
{
}

} // verus!
