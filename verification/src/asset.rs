//! What the contract asks of Astroport (its assets and its pair's swap
//! message) and of cw-utils' payment check. The calls go to those crates;
//! their contracts below are what the crates' sources show.
use crate::error::{PaymentError, StdError};
use crate::types::{AssetInfo, AssetView, Coin};
use vstd::prelude::*;

verus! {

/// The asset is a native token.
pub open spec fn is_native(a: AssetInfo) -> bool {
    a is NativeToken
}

/// The asset is the native token `denom`.
pub open spec fn is_native_denom(a: AssetInfo, denom: Seq<char>) -> bool {
    a matches AssetInfo::NativeToken { denom: d } && d@ == denom
}

/// Two assets are the same: both native with one denom, or both tokens of
/// one contract.
pub open spec fn same_asset(a: AssetInfo, b: AssetInfo) -> bool {
    match (a, b) {
        (AssetInfo::NativeToken { denom: x }, AssetInfo::NativeToken { denom: y }) => x@ == y@,
        (AssetInfo::Token { contract_addr: x }, AssetInfo::Token { contract_addr: y }) => x@ == y@,
        _ => false,
    }
}

/// How an asset is written: its denom, or its contract's address.
pub open spec fn asset_text(a: AssetInfo) -> Seq<char> {
    match a {
        AssetInfo::NativeToken { denom } => denom@,
        AssetInfo::Token { contract_addr } => contract_addr@,
    }
}

/// Calls `astroport::asset::AssetInfo::is_native_token`, which is true
/// exactly of the `NativeToken` variant.
#[verifier::external_body]
pub(crate) fn asset_is_native(a: &AssetInfo) -> (r: bool)
    ensures
        r == is_native(*a),
{
    let outside = match a {
        AssetInfo::NativeToken { denom } => astroport::asset::AssetInfo::NativeToken { denom: denom.clone() },
        AssetInfo::Token { contract_addr } => astroport::asset::AssetInfo::Token { contract_addr: cosmwasm_std::Addr::unchecked(contract_addr.as_str()) },
    };
    outside.is_native_token()
}

/// Calls `astroport::asset::AssetInfo::equal`, which is true when both are
/// native with equal denoms or both are tokens with equal addresses.
#[verifier::external_body]
pub(crate) fn asset_equal(a: &AssetInfo, b: &AssetInfo) -> (r: bool)
    ensures
        r == same_asset(*a, *b),
{
    let x = match a {
        AssetInfo::NativeToken { denom } => astroport::asset::AssetInfo::NativeToken { denom: denom.clone() },
        AssetInfo::Token { contract_addr } => astroport::asset::AssetInfo::Token { contract_addr: cosmwasm_std::Addr::unchecked(contract_addr.as_str()) },
    };
    let y = match b {
        AssetInfo::NativeToken { denom } => astroport::asset::AssetInfo::NativeToken { denom: denom.clone() },
        AssetInfo::Token { contract_addr } => astroport::asset::AssetInfo::Token { contract_addr: cosmwasm_std::Addr::unchecked(contract_addr.as_str()) },
    };
    x.equal(&y)
}

/// Calls the `Display` of `astroport::asset::AssetInfo`, which writes the
/// denom of a native token and the address of a token contract.
#[verifier::external_body]
pub(crate) fn asset_to_string(a: &AssetInfo) -> (r: String)
    ensures
        r@ == asset_text(*a),
{
    let outside = match a {
        AssetInfo::NativeToken { denom } => astroport::asset::AssetInfo::NativeToken { denom: denom.clone() },
        AssetInfo::Token { contract_addr } => astroport::asset::AssetInfo::Token { contract_addr: cosmwasm_std::Addr::unchecked(contract_addr.as_str()) },
    };
    outside.to_string()
}

/// `one_coin` accepts the funds: exactly one coin, of a non-zero amount.
pub open spec fn one_coin_accepts(funds: Seq<Coin>) -> bool {
    funds.len() == 1 && funds[0].amount != 0
}

/// The error with which `one_coin` refuses funds it does not accept.
pub open spec fn one_coin_error(funds: Seq<Coin>) -> PaymentError {
    if funds.len() > 1 {
        PaymentError::MultipleDenoms {}
    } else {
        PaymentError::NoFunds {}
    }
}

/// Calls `cw_utils::one_coin` on a message that carries `funds`: with no
/// coin, or one coin of amount zero, it fails with `NoFunds`; with more than
/// one coin, with `MultipleDenoms`; otherwise it returns the one coin.
#[verifier::external_body]
pub(crate) fn one_coin(funds: &Vec<Coin>) -> (r: Result<Coin, PaymentError>)
    ensures
        r is Ok == one_coin_accepts(funds@),
        r matches Ok(c) ==> c.denom@ == funds@[0].denom@ && c.amount == funds@[0].amount,
        r matches Err(e) ==> e == one_coin_error(funds@),
{
    let sent = funds.iter().map(|c| cosmwasm_std::coin(c.amount, c.denom.as_str())).collect();
    let info = cosmwasm_std::MessageInfo { sender: cosmwasm_std::Addr::unchecked(""), funds: sent };
    match cw_utils::one_coin(&info) {
        Ok(c) => Ok(Coin { denom: c.denom, amount: c.amount.u128() }),
        Err(cw_utils::PaymentError::MissingDenom(d)) => Err(PaymentError::MissingDenom(d)),
        Err(cw_utils::PaymentError::ExtraDenom(d)) => Err(PaymentError::ExtraDenom(d)),
        Err(cw_utils::PaymentError::MultipleDenoms {}) => Err(PaymentError::MultipleDenoms {}),
        Err(cw_utils::PaymentError::NoFunds {}) => Err(PaymentError::NoFunds {}),
        Err(cw_utils::PaymentError::NonPayable {}) => Err(PaymentError::NonPayable {}),
    }
}

/// The name of the JSON that `cosmwasm_std::to_json_binary` makes of the
/// Astroport pair message `Swap` offering `offer_amount` of the native
/// `offer_denom`, asking `ask_asset_info`, with a belief price and a maximum
/// spread of the given percents, and the return sent to `to`.
pub uninterp spec fn swap_message_json(offer_denom: Seq<char>, offer_amount: u128, ask_asset_info: Option<AssetView>, belief_price_percent: Option<u64>, max_spread_percent: Option<u64>, to: Option<Seq<char>>) -> Seq<u8>;

/// Calls `cosmwasm_std::to_json_binary` on `astroport::pair::ExecuteMsg::Swap`
/// built with `Asset::native` and `Decimal::percent`. The bytes are named,
/// not described. The encoding succeeds: serde-json-wasm fails only on map
/// keys that are not strings, and this message holds no map.
#[verifier::external_body]
pub(crate) fn encode_swap(offer_denom: &str, offer_amount: u128, ask_asset_info: Option<AssetInfo>, belief_price_percent: Option<u64>, max_spread_percent: Option<u64>, to: Option<String>) -> (r: Result<Vec<u8>, StdError>)
    ensures
        r is Ok,
        r matches Ok(b) ==> b@ == swap_message_json(offer_denom@, offer_amount, ask_asset_info.deep_view(), belief_price_percent, max_spread_percent, to.deep_view()),
{
    let msg = astroport::pair::ExecuteMsg::Swap {
        offer_asset: astroport::asset::Asset::native(offer_denom, offer_amount),
        ask_asset_info: ask_asset_info.map(|a| match a {
            AssetInfo::NativeToken { denom } => astroport::asset::AssetInfo::NativeToken { denom },
            AssetInfo::Token { contract_addr } => astroport::asset::AssetInfo::Token { contract_addr: cosmwasm_std::Addr::unchecked(contract_addr) },
        }),
        belief_price: belief_price_percent.map(cosmwasm_std::Decimal::percent),
        max_spread: max_spread_percent.map(cosmwasm_std::Decimal::percent),
        to,
    };
    match cosmwasm_std::to_json_binary(&msg) {
        Ok(b) => Ok(b.to_vec()),
        Err(e) => Err(StdError::GenericErr { msg: e.to_string() }),
    }
}

} // verus!
