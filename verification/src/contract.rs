use crate::asset::{
    asset_equal, asset_is_native, asset_text, asset_to_string, encode_swap, is_native,
    is_native_denom, one_coin, one_coin_accepts, one_coin_error, swap_message_json,
};
use crate::error::{generic_err, ContractError, PaymentError, StdError};
use crate::msg::{GetPairResponse, GetPoolAddrResponse, InstantiateMsg};
use crate::state::{pool_key, pool_key_of, PoolInfo, State, FEE_RATE_MAX};
use crate::text::{decimal, lowercase, push_decimal, to_lowercase};
use crate::types::{
    attribute_is, attributes_are, lemma_attributes_push, plain_response, AssetInfo, Attribute,
    Coin, Event, Response, SubMsg,
};
use vstd::prelude::*;

verus! {

/// The name under which the contract records its version.
pub const CONTRACT_NAME: &'static str = "crates.io:lq-express-sm";

/// The id that marks the reply of a swap sub-message.
pub const SWAP_REPLY_ID: u64 = 2;

/// The largest spread, in percent, that a forwarded swap accepts.
pub const MAX_SPREAD_PERCENT: u64 = 50;

/// What instantiation stores and answers.
#[derive(Clone, Debug, PartialEq, Eq)]
pub struct Instantiation {
    pub state: State,
    pub response: Response,
}

/// Instantiates the contract for `sender`: the sender becomes the owner and
/// the fee rate is recorded. A fee rate above 100% is refused.
pub fn instantiate(sender: String, msg: InstantiateMsg) -> (r: Result<Instantiation, ContractError>)
    ensures
        r is Ok <==> msg.fee_rate <= FEE_RATE_MAX,
        r matches Err(e) ==> e matches ContractError::Std(StdError::GenericErr { msg: m }) && m@ == "fee_rate must not exceed 10000"@,
        r matches Ok(i) ==> {
            &&& i.state.owner@ == sender@
            &&& i.state.fee_rate == msg.fee_rate
            &&& i.state.wf()
            &&& plain_response(i.response, seq![("method"@, "instantiate"@), ("owner"@, sender@)])
        },
{
    if msg.fee_rate > FEE_RATE_MAX {
        return Err(ContractError::Std(generic_err(String::from_str("fee_rate must not exceed 10000"))));
    }
    let state = State { owner: sender.clone(), fee_rate: msg.fee_rate };
    let mut response = Response::new();
    response.add_attribute("method", String::from_str("instantiate"));
    let ghost a1 = response.attributes@;
    response.add_attribute("owner", sender);
    proof {
        lemma_attributes_push(seq![], seq![], "method"@, "instantiate"@, a1);
        lemma_attributes_push(a1, seq![("method"@, "instantiate"@)], "owner"@, sender@, response.attributes@);
    }
    Ok(Instantiation { state, response })
}

/// A pool to store: under `key`, the record `info`.
#[derive(Clone, Debug, PartialEq, Eq)]
pub struct PoolRecord {
    pub key: String,
    pub info: PoolInfo,
}

/// The registration of the pool at `pool_address` for `token_1` and
/// `token_2`: the record is stored under `token_1 + "_" + token_2`, holds
/// the three values, and the answer lists them.
pub open spec fn registers(r: (PoolRecord, Response), pool_address: Seq<char>, token_1: Seq<char>, token_2: Seq<char>) -> bool {
    &&& r.0.key@ == pool_key_of(token_1, token_2)
    &&& r.0.info.address@ == pool_address
    &&& r.0.info.token_1@ == token_1
    &&& r.0.info.token_2@ == token_2
    &&& plain_response(r.1, seq![("method"@, "add_supported_pool"@), ("pool_address"@, pool_address), ("token 1"@, token_1), ("token2"@, token_2)])
}

/// Registers the pool at `pool_address` for `token_1` and `token_2`: the
/// record is stored under the key `token_1 + "_" + token_2` (replacing any
/// earlier pool of that pair), and the answer lists what was registered.
pub fn add_supported_pool(pool_address: String, token_1: String, token_2: String) -> (r: (PoolRecord, Response))
    ensures
        registers(r, pool_address@, token_1@, token_2@),
{
    let key = pool_key(token_1.as_str(), token_2.as_str());
    let info = PoolInfo { address: pool_address, token_1: token_1.clone(), token_2: token_2.clone() };
    let mut response = Response::new();
    response.add_attribute("method", String::from_str("add_supported_pool"));
    let ghost a1 = response.attributes@;
    response.add_attribute("pool_address", info.address.clone());
    let ghost a2 = response.attributes@;
    response.add_attribute("token 1", token_1);
    let ghost a3 = response.attributes@;
    response.add_attribute("token2", token_2);
    proof {
        let e1 = seq![("method"@, "add_supported_pool"@)];
        let e2 = e1.push(("pool_address"@, info.address@));
        let e3 = e2.push(("token 1"@, info.token_1@));
        lemma_attributes_push(seq![], seq![], "method"@, "add_supported_pool"@, a1);
        lemma_attributes_push(a1, e1, "pool_address"@, info.address@, a2);
        lemma_attributes_push(a2, e2, "token 1"@, info.token_1@, a3);
        lemma_attributes_push(a3, e3, "token2"@, info.token_2@, response.attributes@);
    }
    (PoolRecord { key, info }, response)
}

/// The swap sub-message sends `amount` of `denom` to the pair at `pair`
/// with the message `msg`, and its successful reply is marked as a swap
/// reply.
pub open spec fn swap_call_is(c: SubMsg, pair: Seq<char>, denom: Seq<char>, amount: u128, msg: Seq<u8>) -> bool {
    &&& c.contract_addr@ == pair
    &&& c.reply_id == SWAP_REPLY_ID
    &&& c.msg@ == msg
    &&& c.funds@.len() == 1
    &&& c.funds@[0].denom@ == denom
    &&& c.funds@[0].amount == amount
}

/// The answer to a forwarded swap: one swap sub-message carrying `msg`,
/// then the attributes `action`, `pair`, `offer_asset` and `ask_asset_info`.
pub open spec fn is_swap_response(r: Response, pair: Seq<char>, denom: Seq<char>, amount: u128, asked: Seq<char>, msg: Seq<u8>) -> bool {
    &&& r.submessages@.len() == 1
    &&& swap_call_is(r.submessages@[0], pair, denom, amount, msg)
    &&& attributes_are(r.attributes@, seq![("action"@, "swap"@), ("pair"@, pair), ("offer_asset"@, denom), ("ask_asset_info"@, asked)])
}

/// The pair's `Swap` message that the contract sends: it offers `amount` of
/// `denom`, names no ask asset and no belief price, accepts the largest
/// spread allowed, and sends the return to `to`.
pub open spec fn forwarded_swap_message(denom: Seq<char>, amount: u128, to: Seq<char>) -> Seq<u8> {
    swap_message_json(denom, amount, None, None, Some(MAX_SPREAD_PERCENT), Some(to))
}

/// The outcome of forwarding a swap of `amount` of `denom` to the pair at
/// `pair`, the return going to `to` and `asked` being the asset asked: the
/// answer carries the pair's `Swap` message for that offer.
pub open spec fn forwards_swap(r: Result<Response, ContractError>, pair: Seq<char>, denom: Seq<char>, amount: u128, to: Seq<char>, asked: Seq<char>) -> bool {
    r matches Ok(resp) && is_swap_response(resp, pair, denom, amount, asked, forwarded_swap_message(denom, amount, to))
}

/// Builds the answer to a forwarded swap from the outcome of encoding its
/// message: an encoding error is answered as a standard error; encoded
/// bytes are sent to `pair` with `amount` of `denom`.
pub fn swap_response(pair: String, denom: String, amount: u128, asked: String, encoded: Result<Vec<u8>, StdError>) -> (r: Result<Response, ContractError>)
    ensures
        encoded matches Err(e) ==> (r matches Err(ContractError::Std(e2)) && e2 == e),
        encoded matches Ok(b) ==> (r matches Ok(resp) && is_swap_response(resp, pair@, denom@, amount, asked@, b@)),
{
    let msg = match encoded {
        Ok(b) => b,
        Err(e) => {
            return Err(ContractError::Std(e));
        },
    };
    let mut funds: Vec<Coin> = Vec::new();
    funds.push(Coin { denom: denom.clone(), amount });
    let call = SubMsg { contract_addr: pair.clone(), msg, funds, reply_id: SWAP_REPLY_ID };
    let mut response = Response::new();
    response.add_submessage(call);
    let ghost a0 = response.attributes@;
    response.add_attribute("action", String::from_str("swap"));
    let ghost a1 = response.attributes@;
    response.add_attribute("pair", pair);
    let ghost a2 = response.attributes@;
    response.add_attribute("offer_asset", denom);
    let ghost a3 = response.attributes@;
    response.add_attribute("ask_asset_info", asked);
    proof {
        let e1 = seq![("action"@, "swap"@)];
        let e2 = e1.push(("pair"@, pair@));
        let e3 = e2.push(("offer_asset"@, denom@));
        assert(a0 == Seq::<Attribute>::empty());
        lemma_attributes_push(a0, seq![], "action"@, "swap"@, a1);
        lemma_attributes_push(a1, e1, "pair"@, pair@, a2);
        lemma_attributes_push(a2, e2, "offer_asset"@, denom@, a3);
        lemma_attributes_push(a3, e3, "ask_asset_info"@, asked@, response.attributes@);
        assert(response.submessages@ =~= seq![call]);
    }
    Ok(response)
}

/// Encodes the pair's `Swap` message and builds the answer to the swap.
fn forward_swap(pair: String, denom: String, amount: u128, to: String, asked: String) -> (r: Result<Response, ContractError>)
    ensures
        forwards_swap(r, pair@, denom@, amount, to@, asked@),
{
    let encoded = encode_swap(denom.as_str(), amount, None, None, Some(MAX_SPREAD_PERCENT), Some(to));
    swap_response(pair, denom, amount, asked, encoded)
}

/// The fee kept on a swap of `amount` at `fee_rate` ten-thousandths,
/// rounded down.
pub open spec fn fee_of(amount: u128, fee_rate: u64) -> int {
    (amount as int * fee_rate as int) / 10000
}

/// Splitting the amount at the ten-thousandths computes the fee exactly,
/// and the fee never exceeds the amount.
proof fn lemma_fee_split(a: int, f: int)
    requires
        0 <= a,
        0 <= f <= 10000,
    ensures
        (a * f) / 10000 == (a / 10000) * f + ((a % 10000) * f) / 10000,
        0 <= (a % 10000) * f < 10000 * 10001,
        0 <= (a * f) / 10000 <= a,
        0 <= ((a % 10000) * f) / 10000,
{
    let q = a / 10000;
    let r = a % 10000;
    vstd::arithmetic::div_mod::lemma_fundamental_div_mod(a, 10000);
    vstd::arithmetic::div_mod::lemma_hoist_over_denominator(r * f, q * f, 10000);
    assert(r * f + (q * f) * 10000 == a * f) by (nonlinear_arith)
        requires
            a == 10000 * q + r,
    ;
    assert(0 <= r * f < 10000 * 10001) by (nonlinear_arith)
        requires
            0 <= r < 10000,
            0 <= f <= 10000,
    ;
    assert(0 <= a * f <= a * 10000) by (nonlinear_arith)
        requires
            0 <= a,
            0 <= f <= 10000,
    ;
    vstd::arithmetic::div_mod::lemma_div_is_ordered(a * f, a * 10000, 10000);
    vstd::arithmetic::div_mod::lemma_div_multiples_vanish(a, 10000);
    vstd::arithmetic::div_mod::lemma_div_pos_is_pos(a * f, 10000);
    vstd::arithmetic::div_mod::lemma_div_pos_is_pos(r * f, 10000);
    assert(a * 10000 == 10000 * a) by (nonlinear_arith);
}

/// Computes the fee kept on a swap of `amount` at `fee_rate`.
pub fn swap_fee(amount: u128, fee_rate: u64) -> (fee: u128)
    requires
        fee_rate <= FEE_RATE_MAX,
    ensures
        fee == fee_of(amount, fee_rate),
        fee <= amount,
        fee * 10000 <= amount * fee_rate < (fee + 1) * 10000,
{
    proof {
        lemma_fee_split(amount as int, fee_rate as int);
        vstd::arithmetic::div_mod::lemma_fundamental_div_mod(amount as int * fee_rate as int, 10000);
        vstd::arithmetic::div_mod::lemma_remainder(amount as int * fee_rate as int, 10000);
    }
    let rate = fee_rate as u128;
    let whole = amount / 10000;
    let rest = amount % 10000;
    whole * rate + rest * rate / 10000
}

/// The pool's pair holds the denom.
pub open spec fn pair_holds(pool: PoolInfo, denom: Seq<char>) -> bool {
    pool.token_1@ == denom || pool.token_2@ == denom
}

/// The token of the pool's pair that is asked for `denom`: the second if
/// `denom` is the first, else the first.
pub open spec fn other_token(pool: PoolInfo, denom: Seq<char>) -> Seq<char> {
    if pool.token_1@ == denom {
        pool.token_2@
    } else {
        pool.token_1@
    }
}

/// Forwards the attached coin to the registered pair `pair_address`.
/// `pools` is what the address index holds for `pair_address`, in key
/// order; the first is the pair used. The fee at `fee_rate` is kept, the
/// rest of the coin is offered, the other token of the pair is asked, and
/// the return goes to `sender`.
pub fn astro_exec(pools: &Vec<PoolInfo>, sender: String, funds: &Vec<Coin>, pair_address: String, fee_rate: u64) -> (r: Result<Response, ContractError>)
    requires
        fee_rate <= FEE_RATE_MAX,
    ensures
        pools@.len() == 0 ==> r matches Err(ContractError::PoolNotExist {}),
        pools@.len() > 0 && !one_coin_accepts(funds@) ==> (r matches Err(ContractError::Payment(e)) && e == one_coin_error(funds@)),
        pools@.len() > 0 && one_coin_accepts(funds@) && !pair_holds(pools@[0], funds@[0].denom@) ==> (r matches Err(ContractError::Payment(PaymentError::MissingDenom(d))) && d@ == funds@[0].denom@),
        pools@.len() > 0 && one_coin_accepts(funds@) && pair_holds(pools@[0], funds@[0].denom@) ==> r is Ok,
        pools@.len() > 0 && one_coin_accepts(funds@) && pair_holds(pools@[0], funds@[0].denom@) ==> forwards_swap(r, pair_address@, funds@[0].denom@, (funds@[0].amount - fee_of(funds@[0].amount, fee_rate)) as u128, sender@, other_token(pools@[0], funds@[0].denom@)),
{
    if pools.len() == 0 {
        return Err(ContractError::PoolNotExist {});
    }
    let pool = &pools[0];
    let coin = match one_coin(funds) {
        Ok(c) => c,
        Err(e) => {
            return Err(ContractError::Payment(e));
        },
    };
    if coin.denom != pool.token_1 && coin.denom != pool.token_2 {
        return Err(ContractError::Payment(PaymentError::MissingDenom(coin.denom)));
    }
    let asked = if pool.token_1 == coin.denom {
        pool.token_2.clone()
    } else {
        pool.token_1.clone()
    };
    let fee = swap_fee(coin.amount, fee_rate);
    forward_swap(pair_address, coin.denom, coin.amount - fee, sender, asked)
}

/// The offer is of an asset of the pool: the native token `denom` is one of
/// its first two assets.
pub open spec fn pool_offers(assets: Seq<AssetInfo>, denom: Seq<char>) -> bool {
    is_native_denom(assets[0], denom) || is_native_denom(assets[1], denom)
}

/// Checks the coin attached to a swap on a pool whose assets are
/// `asset_infos`: both assets must be native, exactly one coin of non-zero
/// amount must come, and it must be of one of the two assets.
pub fn swap_offer(asset_infos: &Vec<AssetInfo>, funds: &Vec<Coin>) -> (r: Result<Coin, ContractError>)
    requires
        asset_infos@.len() >= 2,
    ensures
        !(is_native(asset_infos@[0]) && is_native(asset_infos@[1])) ==> (r matches Err(ContractError::Payment(PaymentError::MissingDenom(d))) && d@ == "native token"@),
        is_native(asset_infos@[0]) && is_native(asset_infos@[1]) && !one_coin_accepts(funds@) ==> (r matches Err(ContractError::Payment(e)) && e == one_coin_error(funds@)),
        is_native(asset_infos@[0]) && is_native(asset_infos@[1]) && one_coin_accepts(funds@) && !pool_offers(asset_infos@, funds@[0].denom@) ==> (r matches Err(ContractError::Payment(PaymentError::MissingDenom(d))) && d@ == funds@[0].denom@),
        is_native(asset_infos@[0]) && is_native(asset_infos@[1]) && one_coin_accepts(funds@) && pool_offers(asset_infos@, funds@[0].denom@) ==> (r matches Ok(c) && c.denom@ == funds@[0].denom@ && c.amount == funds@[0].amount),
{
    if !asset_is_native(&asset_infos[0]) || !asset_is_native(&asset_infos[1]) {
        return Err(ContractError::Payment(PaymentError::MissingDenom(String::from_str("native token"))));
    }
    let coin = match one_coin(funds) {
        Ok(c) => c,
        Err(e) => {
            return Err(ContractError::Payment(e));
        },
    };
    let offer = AssetInfo::NativeToken { denom: coin.denom.clone() };
    if !asset_equal(&offer, &asset_infos[0]) && !asset_equal(&offer, &asset_infos[1]) {
        return Err(ContractError::Payment(PaymentError::MissingDenom(coin.denom)));
    }
    Ok(coin)
}

/// The asset asked for an offer of `denom`: the second asset if `denom` is
/// the first, else the first; written as its denom or address.
pub open spec fn asked_asset(assets: Seq<AssetInfo>, denom: Seq<char>) -> Seq<char> {
    if is_native_denom(assets[0], denom) {
        asset_text(assets[1])
    } else {
        asset_text(assets[0])
    }
}

/// Forwards the checked `offer` to the pool at `pool_address`, whose assets
/// are `asset_infos` and which holds `available` of the offered denom.
/// The pool must hold at least the whole offer; the fee is kept and the
/// rest is offered, the return going to `sender`.
pub fn swap(asset_infos: &Vec<AssetInfo>, offer: Coin, available: u128, fee_rate: u64, pool_address: String, sender: String) -> (r: Result<Response, ContractError>)
    requires
        asset_infos@.len() >= 2,
        fee_rate <= FEE_RATE_MAX,
    ensures
        available < offer.amount ==> (r matches Err(ContractError::InsufficientFunds { asked_amount, available_amount }) && asked_amount == offer.amount && available_amount == available),
        available >= offer.amount ==> r is Ok,
        available >= offer.amount ==> forwards_swap(r, pool_address@, offer.denom@, (offer.amount - fee_of(offer.amount, fee_rate)) as u128, sender@, asked_asset(asset_infos@, offer.denom@)),
{
    if available < offer.amount {
        return Err(ContractError::InsufficientFunds { asked_amount: offer.amount, available_amount: available });
    }
    let native = AssetInfo::NativeToken { denom: offer.denom.clone() };
    let asked = if asset_equal(&native, &asset_infos[0]) {
        asset_to_string(&asset_infos[1])
    } else {
        asset_to_string(&asset_infos[0])
    };
    let fee = swap_fee(offer.amount, fee_rate);
    forward_swap(pool_address, offer.denom, offer.amount - fee, sender, asked)
}

/// Some attribute has the key.
pub open spec fn has_key(attrs: Seq<Attribute>, key: Seq<char>) -> bool {
    exists|i: int| 0 <= i < attrs.len() && (#[trigger] attrs[i]).key@ == key
}

/// Some attribute has the key and the value.
pub open spec fn has_key_value(attrs: Seq<Attribute>, key: Seq<char>, value: Seq<char>) -> bool {
    exists|i: int| 0 <= i < attrs.len() && attribute_is(#[trigger] attrs[i], key, value)
}

/// The event records a swap: an `action = swap` attribute and a
/// `return_amount` attribute.
pub open spec fn is_swap_event(e: Event) -> bool {
    has_key_value(e.attributes@, "action"@, "swap"@) && has_key(e.attributes@, "return_amount"@)
}

/// Some event records a swap.
pub open spec fn has_swap_event(events: Seq<Event>) -> bool {
    exists|i: int| 0 <= i < events.len() && is_swap_event(#[trigger] events[i])
}

/// The error is a generic error with the message.
pub open spec fn is_generic_err(e: StdError, msg: Seq<char>) -> bool {
    e matches StdError::GenericErr { msg: m } && m@ == msg
}

fn find_key_value(attrs: &Vec<Attribute>, key: &String, value: &String) -> (r: bool)
    ensures
        r == has_key_value(attrs@, key@, value@),
{
    let mut i: usize = 0;
    while i < attrs.len()
        invariant
            i <= attrs@.len(),
            forall|k: int| 0 <= k < i ==> !attribute_is(#[trigger] attrs@[k], key@, value@),
        decreases attrs@.len() - i,
    {
        if attrs[i].key == *key && attrs[i].value == *value {
            return true;
        }
        i = i + 1;
    }
    false
}

fn find_key(attrs: &Vec<Attribute>, key: &String) -> (r: Option<usize>)
    ensures
        r is Some <==> has_key(attrs@, key@),
        r matches Some(i) ==> i < attrs@.len() && attrs@[i as int].key@ == key@,
{
    let mut i: usize = 0;
    while i < attrs.len()
        invariant
            i <= attrs@.len(),
            forall|k: int| 0 <= k < i ==> (#[trigger] attrs@[k]).key@ != key@,
        decreases attrs@.len() - i,
    {
        if attrs[i].key == *key {
            return Some(i);
        }
        i = i + 1;
    }
    None
}

/// Handles the reply of a swap: a failed swap fails with its error; a
/// successful one must have emitted an event with `action = swap` and a
/// `return_amount`, and is then answered with an empty response.
pub fn handle_swap_reply(result: Result<Vec<Event>, String>) -> (r: Result<Response, StdError>)
    ensures
        result matches Err(m) ==> (r matches Err(e) && is_generic_err(e, m@)),
        result matches Ok(events) ==> (r is Ok <==> has_swap_event(events@)),
        result matches Ok(events) && !has_swap_event(events@) ==> (r matches Err(e) && is_generic_err(e, "unable to find swap action"@)),
        r matches Ok(resp) ==> plain_response(resp, seq![]),
{
    let events = match result {
        Ok(events) => events,
        Err(m) => {
            return Err(generic_err(m));
        },
    };
    let action = String::from_str("action");
    let swap = String::from_str("swap");
    let return_amount = String::from_str("return_amount");
    let mut i: usize = 0;
    while i < events.len()
        invariant
            i <= events@.len(),
            action@ == "action"@,
            swap@ == "swap"@,
            return_amount@ == "return_amount"@,
            forall|k: int| 0 <= k < i ==> !is_swap_event(#[trigger] events@[k]),
        ensures
            i <= events@.len(),
            forall|k: int| 0 <= k < i ==> !is_swap_event(#[trigger] events@[k]),
            i < events@.len() ==> is_swap_event(events@[i as int]),
        decreases events@.len() - i,
    {
        let attrs = &events[i].attributes;
        if find_key_value(attrs, &action, &swap) && find_key(attrs, &return_amount).is_some() {
            break;
        }
        i = i + 1;
    }
    if i == events.len() {
        return Err(generic_err(String::from_str("unable to find swap action")));
    }
    assert(is_swap_event(events@[i as int]));
    match find_key(&events[i].attributes, &return_amount) {
        Some(_) => Ok(Response::new()),
        None => Err(generic_err(String::from_str("unable to find coin spent event"))),
    }
}

/// Handles the reply of a sub-message: a swap reply is handled as such, any
/// other id is refused with `Unknown reply id: ` and the id in decimal.
pub fn reply(id: u64, result: Result<Vec<Event>, String>) -> (r: Result<Response, StdError>)
    ensures
        id != SWAP_REPLY_ID ==> (r matches Err(e) && is_generic_err(e, "Unknown reply id: "@ + decimal(id as nat))),
        id == SWAP_REPLY_ID && result is Err ==> (r matches Err(e) && is_generic_err(e, result->Err_0@)),
        id == SWAP_REPLY_ID && result is Ok ==> (r is Ok <==> has_swap_event(result->Ok_0@)),
        id == SWAP_REPLY_ID && result is Ok && !has_swap_event(result->Ok_0@) ==> (r matches Err(e) && is_generic_err(e, "unable to find swap action"@)),
        r matches Ok(resp) ==> plain_response(resp, seq![]),
{
    if id == SWAP_REPLY_ID {
        handle_swap_reply(result)
    } else {
        let mut msg = String::from_str("Unknown reply id: ");
        push_decimal(&mut msg, id);
        Err(generic_err(msg))
    }
}

/// The answer to `GetPair` from the pools the address index holds for the
/// asked address, in key order: the tokens of the first, if any.
pub open spec fn get_pair_answer(pools: Seq<PoolInfo>) -> Option<(Seq<char>, Seq<char>)> {
    if pools.len() == 0 {
        None
    } else {
        Some((pools[0].token_1@, pools[0].token_2@))
    }
}

/// Answers `GetPair` from `pools`, what the address index holds for the
/// asked address, in key order.
pub fn query_pair(pools: &Vec<PoolInfo>) -> (r: Result<GetPairResponse, StdError>)
    ensures
        r is Ok <==> get_pair_answer(pools@) is Some,
        r matches Err(e) ==> is_generic_err(e, "pool address not found"@),
        r matches Ok(p) ==> get_pair_answer(pools@) == Some((p.token_1@, p.token_2@)),
{
    if pools.len() == 0 {
        return Err(StdError::GenericErr { msg: String::from_str("pool address not found") });
    }
    let first = &pools[0];
    Ok(GetPairResponse { token_1: first.token_1.clone(), token_2: first.token_2.clone() })
}

/// The pair under which `GetPoolAddr` looks pools up: both tokens in lower
/// case.
pub fn pool_pair_lookup(token_1: &str, token_2: &str) -> (r: (String, String))
    ensures
        r.0@ == lowercase(token_1@),
        r.1@ == lowercase(token_2@),
{
    (to_lowercase(token_1), to_lowercase(token_2))
}

/// The addresses of the pools, in order.
pub open spec fn addresses_of(pools: Seq<PoolInfo>) -> Seq<Seq<char>> {
    pools.map_values(|p: PoolInfo| p.address@)
}

/// Answers `GetPoolAddr` from `pools`, what the pair index holds for the
/// looked-up pair, in key order: their addresses, in that order.
pub fn query_pool_addr(pools: &Vec<PoolInfo>) -> (r: Result<GetPoolAddrResponse, StdError>)
    ensures
        r is Ok <==> pools@.len() > 0,
        r matches Err(e) ==> is_generic_err(e, "No pool exist for this pair yet"@),
        r matches Ok(a) ==> a.pool_addresses@.map_values(|s: String| s@) == addresses_of(pools@),
{
    if pools.len() == 0 {
        return Err(StdError::GenericErr { msg: String::from_str("No pool exist for this pair yet") });
    }
    let mut pool_addresses: Vec<String> = Vec::new();
    let mut i: usize = 0;
    while i < pools.len()
        invariant
            i <= pools@.len(),
            pool_addresses@.map_values(|s: String| s@) == addresses_of(pools@).take(i as int),
        decreases pools@.len() - i,
    {
        pool_addresses.push(pools[i].address.clone());
        assert(addresses_of(pools@).take(i + 1) =~= addresses_of(pools@).take(i as int).push(pools@[i as int].address@));
        assert(pool_addresses@.map_values(|s: String| s@) =~= addresses_of(pools@).take(i + 1));
        i = i + 1;
    }
    assert(addresses_of(pools@).take(pools@.len() as int) =~= addresses_of(pools@));
    Ok(GetPoolAddrResponse { pool_addresses })
}

} // verus!
