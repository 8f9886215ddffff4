use lq_express_sm::contract::{
    add_supported_pool, astro_exec, handle_swap_reply, instantiate, pool_pair_lookup, query_pair,
    query_pool_addr, reply, swap, swap_fee, swap_offer, swap_response, CONTRACT_NAME,
    MAX_SPREAD_PERCENT, SWAP_REPLY_ID,
};
use lq_express_sm::error::{ContractError, PaymentError, StdError};
use lq_express_sm::helpers::CwTemplateContract;
use lq_express_sm::msg::{ExecuteMsg, GetPairResponse, GetPoolAddrResponse, InstantiateMsg};
use lq_express_sm::state::{address_index, pair_index, pool_key, PoolInfo};
use lq_express_sm::types::{AssetInfo, Attribute, Coin, Event, Response};

fn swap_msg(denom: &str, amount: u128, to: &str) -> astroport::pair::ExecuteMsg {
    astroport::pair::ExecuteMsg::Swap {
        offer_asset: astroport::asset::Asset::native(denom, amount),
        ask_asset_info: None,
        belief_price: None,
        max_spread: Some(cosmwasm_std::Decimal::percent(50)),
        to: Some(to.to_string()),
    }
}

fn decoded(msg: &[u8]) -> astroport::pair::ExecuteMsg {
    cosmwasm_std::from_json(msg).unwrap()
}

fn s(x: &str) -> String {
    x.to_string()
}

fn attrs(r: &Response) -> Vec<(String, String)> {
    r.attributes.iter().map(|a| (a.key.clone(), a.value.clone())).collect()
}

fn pairs(v: &[(&str, &str)]) -> Vec<(String, String)> {
    v.iter().map(|(k, v)| (s(k), s(v))).collect()
}

fn coin(denom: &str, amount: u128) -> Coin {
    Coin { denom: s(denom), amount }
}

fn native(denom: &str) -> AssetInfo {
    AssetInfo::NativeToken { denom: s(denom) }
}

fn pool(address: &str, t1: &str, t2: &str) -> PoolInfo {
    PoolInfo { address: s(address), token_1: s(t1), token_2: s(t2) }
}

fn generic(msg: &str) -> StdError {
    StdError::GenericErr { msg: s(msg) }
}

#[test]
fn instantiate_records_owner_and_fee() {
    let i = instantiate(s("owner"), InstantiateMsg { fee_rate: 5 }).unwrap();
    assert_eq!(i.state.owner, "owner");
    assert_eq!(i.state.fee_rate, 5);
    assert!(i.response.submessages.is_empty());
    assert_eq!(attrs(&i.response), pairs(&[("method", "instantiate"), ("owner", "owner")]));
    assert_eq!(CONTRACT_NAME, "crates.io:lq-express-sm");
}

#[test]
fn instantiate_accepts_full_fee_and_refuses_more() {
    assert!(instantiate(s("a"), InstantiateMsg { fee_rate: 10000 }).is_ok());
    assert_eq!(
        instantiate(s("a"), InstantiateMsg { fee_rate: 10001 }),
        Err(ContractError::Std(generic("fee_rate must not exceed 10000")))
    );
}

#[test]
fn test_add_pool() {
    let _ = instantiate(s("owner"), InstantiateMsg { fee_rate: 0 }).unwrap();
    let (record, response) = add_supported_pool(s("pool1"), s("inj"), s("atom"));
    assert_eq!(record.key, "inj_atom");
    assert_eq!(address_index(&record.info), "pool1");
    let resp = query_pair(&vec![record.info.clone()]).unwrap();
    assert_eq!(resp, GetPairResponse { token_1: "inj".to_string(), token_2: "atom".to_string() });
    assert_eq!(
        attrs(&response),
        pairs(&[
            ("method", "add_supported_pool"),
            ("pool_address", "pool1"),
            ("token 1", "inj"),
            ("token2", "atom")
        ])
    );
}

#[test]
fn pool_key_joins_tokens() {
    assert_eq!(pool_key("a", "b"), "a_b");
    assert_eq!(pool_key("", ""), "_");
    assert_eq!(pair_index(&pool("p", "x", "y")), (s("x"), s("y")));
}

#[test]
fn query_pair_answers_first_or_refuses() {
    assert_eq!(query_pair(&vec![]), Err(generic("pool address not found")));
    let r = query_pair(&vec![pool("p", "a", "b"), pool("p", "c", "d")]).unwrap();
    assert_eq!(r, GetPairResponse { token_1: s("a"), token_2: s("b") });
}

#[test]
fn pool_lookup_is_lower_case() {
    assert_eq!(pool_pair_lookup("INJ", "AtOm"), (s("inj"), s("atom")));
    assert_eq!(pool_pair_lookup("ÄB", "x"), (s("äb"), s("x")));
}

#[test]
fn query_pool_addr_lists_addresses() {
    assert_eq!(query_pool_addr(&vec![]), Err(generic("No pool exist for this pair yet")));
    let r = query_pool_addr(&vec![pool("p1", "a", "b"), pool("p2", "a", "b")]).unwrap();
    assert_eq!(r, GetPoolAddrResponse { pool_addresses: vec![s("p1"), s("p2")] });
}

#[test]
fn astro_exec_refusals() {
    let pools = vec![pool("pair", "inj", "atom")];
    assert_eq!(
        astro_exec(&vec![], s("u"), &vec![coin("inj", 5)], s("pair"), 0),
        Err(ContractError::PoolNotExist {})
    );
    assert_eq!(
        astro_exec(&pools, s("u"), &vec![], s("pair"), 0),
        Err(ContractError::Payment(PaymentError::NoFunds {}))
    );
    assert_eq!(
        astro_exec(&pools, s("u"), &vec![coin("inj", 0)], s("pair"), 0),
        Err(ContractError::Payment(PaymentError::NoFunds {}))
    );
    assert_eq!(
        astro_exec(&pools, s("u"), &vec![coin("inj", 1), coin("atom", 1)], s("pair"), 0),
        Err(ContractError::Payment(PaymentError::MultipleDenoms {}))
    );
    assert_eq!(
        astro_exec(&pools, s("u"), &vec![coin("osmo", 3)], s("pair"), 0),
        Err(ContractError::Payment(PaymentError::MissingDenom(s("osmo"))))
    );
}

#[test]
fn astro_exec_forwards_whole_coin() {
    let pools = vec![pool("pair", "inj", "atom")];
    let r = astro_exec(&pools, s("user"), &vec![coin("atom", 42)], s("pair"), 0).unwrap();
    assert_eq!(r.submessages.len(), 1);
    let call = &r.submessages[0];
    assert_eq!(call.contract_addr, "pair");
    assert_eq!(call.reply_id, SWAP_REPLY_ID);
    assert_eq!(decoded(&call.msg), swap_msg("atom", 42, "user"));
    assert_eq!(call.funds, vec![coin("atom", 42)]);
    assert_eq!(
        attrs(&r),
        pairs(&[("action", "swap"), ("pair", "pair"), ("offer_asset", "atom"), ("ask_asset_info", "inj")])
    );
    let r = astro_exec(&pools, s("user"), &vec![coin("inj", 7)], s("pair"), 0).unwrap();
    assert_eq!(attrs(&r)[3], (s("ask_asset_info"), s("atom")));
}

#[test]
fn swap_offer_checks() {
    let assets = vec![native("inj"), native("ttt")];
    let token = vec![native("inj"), AssetInfo::Token { contract_addr: s("cw20") }];
    assert_eq!(
        swap_offer(&token, &vec![coin("inj", 1)]),
        Err(ContractError::Payment(PaymentError::MissingDenom(s("native token"))))
    );
    assert_eq!(
        swap_offer(&assets, &vec![]),
        Err(ContractError::Payment(PaymentError::NoFunds {}))
    );
    assert_eq!(
        swap_offer(&assets, &vec![coin("abc", 1)]),
        Err(ContractError::Payment(PaymentError::MissingDenom(s("abc"))))
    );
    assert_eq!(swap_offer(&assets, &vec![coin("ttt", 9)]), Ok(coin("ttt", 9)));
}

#[test]
fn test_pool_insufficient_balance_for_swap() {
    let inj_offer: u128 = 10_000_000;
    let assets = vec![native("inj"), native("ttt")];
    let offer = swap_offer(&assets, &vec![coin("inj", inj_offer)]).unwrap();
    let res = swap(&assets, offer, 1_000_000, 5, s("contract4"), s("admin"));
    assert_eq!(
        res,
        Err(ContractError::InsufficientFunds { asked_amount: inj_offer, available_amount: 1_000_000 })
    );
}

#[test]
fn instantiate_and_query_happy_path() {
    let inj_amount: u128 = 1_000_000_000000;
    let inj_offer: u128 = 1_000000;
    let state = instantiate(s("admin"), InstantiateMsg { fee_rate: 5 }).unwrap().state;
    let assets = vec![native("inj"), native("ttt")];
    let offer = swap_offer(&assets, &vec![coin("inj", inj_offer)]).unwrap();
    let r = swap(&assets, offer, inj_amount, state.fee_rate, s("contract4"), s("admin")).unwrap();
    assert_eq!(r.submessages.len(), 1);
    let call = &r.submessages[0];
    assert_eq!(call.contract_addr, "contract4");
    assert_eq!(call.reply_id, SWAP_REPLY_ID);
    // the pool receives the offer less the fee
    assert_eq!(decoded(&call.msg), swap_msg("inj", 999500, "admin"));
    assert_eq!(call.funds, vec![coin("inj", 999500)]);
    assert_eq!(inj_amount + call.funds[0].amount, 1000000999500);
    // the contract keeps the fee
    assert_eq!(swap_fee(inj_offer, state.fee_rate), 500);
    assert_eq!(
        attrs(&r),
        pairs(&[("action", "swap"), ("pair", "contract4"), ("offer_asset", "inj"), ("ask_asset_info", "ttt")])
    );
}

#[test]
fn astro_exec_keeps_the_fee() {
    let pools = vec![pool("pool1", "inj", "atom")];
    let r = astro_exec(&pools, s("user"), &vec![coin("atom", 1_000_000)], s("pool1"), 5).unwrap();
    assert_eq!(r.submessages[0].funds, vec![coin("atom", 999_500)]);
    assert_eq!(decoded(&r.submessages[0].msg), swap_msg("atom", 999_500, "user"));
}

#[test]
fn registering_again_is_the_same() {
    let first = add_supported_pool(s("pool1"), s("inj"), s("atom"));
    let again = add_supported_pool(s("pool1"), s("inj"), s("atom"));
    assert_eq!(first, again);
}

#[test]
fn swap_asks_the_other_asset() {
    let assets = vec![native("inj"), AssetInfo::Token { contract_addr: s("cw20addr") }];
    let r = swap(&assets, coin("inj", 10), 10, 0, s("p"), s("u")).unwrap();
    assert_eq!(attrs(&r)[3], (s("ask_asset_info"), s("cw20addr")));
    let assets = vec![native("inj"), native("ttt")];
    let r = swap(&assets, coin("ttt", 10), 100, 10000, s("p"), s("u")).unwrap();
    assert_eq!(attrs(&r)[3], (s("ask_asset_info"), s("inj")));
    assert_eq!(decoded(&r.submessages[0].msg), swap_msg("ttt", 0, "u"));
}

#[test]
fn swap_fee_values() {
    assert_eq!(swap_fee(1_000_000, 5), 500);
    assert_eq!(swap_fee(9_999, 1), 0);
    assert_eq!(swap_fee(10_000, 1), 1);
    assert_eq!(swap_fee(u128::MAX, 10000), u128::MAX);
    assert_eq!(swap_fee(u128::MAX, 0), 0);
    assert_eq!(swap_fee(u128::MAX, 5000), u128::MAX / 2);
}

fn event(attrs: &[(&str, &str)]) -> Event {
    Event {
        ty: s("wasm"),
        attributes: attrs.iter().map(|(k, v)| Attribute { key: s(k), value: s(v) }).collect(),
    }
}

#[test]
fn reply_checks_swap_event() {
    let ok = vec![event(&[("x", "y")]), event(&[("return_amount", "3"), ("action", "swap")])];
    let r = reply(SWAP_REPLY_ID, Ok(ok)).unwrap();
    assert!(r.submessages.is_empty() && r.attributes.is_empty());
    assert_eq!(
        reply(SWAP_REPLY_ID, Ok(vec![event(&[("action", "swap")])])),
        Err(generic("unable to find swap action"))
    );
    assert_eq!(
        handle_swap_reply(Ok(vec![event(&[("action", "send"), ("return_amount", "1")])])),
        Err(generic("unable to find swap action"))
    );
    assert_eq!(reply(SWAP_REPLY_ID, Err(s("failed"))), Err(generic("failed")));
}

#[test]
fn reply_refuses_unknown_id() {
    assert_eq!(reply(7, Ok(vec![])), Err(generic("Unknown reply id: 7")));
    assert_eq!(reply(0, Ok(vec![])), Err(generic("Unknown reply id: 0")));
    assert_eq!(reply(1234567890, Err(s("x"))), Err(generic("Unknown reply id: 1234567890")));
    assert_eq!(
        reply(u64::MAX, Ok(vec![])),
        Err(generic("Unknown reply id: 18446744073709551615"))
    );
}

#[test]
fn template_contract_helpers() {
    let c = CwTemplateContract(s("contract0"), 3);
    assert_eq!(c.addr(), "contract0");
    assert_eq!(c.code_id(), 3);
    let call = c.call(ExecuteMsg::Astro { pair_address: s("p") });
    assert_eq!(call.contract_addr, "contract0");
    assert_eq!(call.msg, ExecuteMsg::Astro { pair_address: s("p") });
    assert!(call.funds.is_empty());
}

#[test]
fn reply_without_events_is_refused() {
    assert_eq!(reply(SWAP_REPLY_ID, Ok(vec![])), Err(generic("unable to find swap action")));
}

#[test]
fn swap_response_passes_encoding_error() {
    assert_eq!(
        swap_response(s("p"), s("inj"), 5, s("ttt"), Err(generic("bad json"))),
        Err(ContractError::Std(generic("bad json")))
    );
    let r = swap_response(s("p"), s("inj"), 5, s("ttt"), Ok(vec![1, 2, 3])).unwrap();
    assert_eq!(r.submessages[0].msg, vec![1, 2, 3]);
    assert_eq!(r.submessages[0].funds, vec![coin("inj", 5)]);
    assert_eq!(MAX_SPREAD_PERCENT, 50);
}
