//! The encodings that the token contracts, the router and the chain's own
//! modules define. Nothing in this file is proved: each function makes one
//! call into the crate that owns the format, and its contract gives the
//! outcome of that call a name.

use crate::asset::{AssetInfo, SwapOperation, SwapOperationView};
use crate::model::text_opt;
use cosmos_sdk_proto::cosmos::authz::v1beta1::MsgExec;
use cosmos_sdk_proto::cosmos::bank::v1beta1::MsgSend;
use cosmos_sdk_proto::traits::{Message, MessageExt};
use vstd::prelude::*;

verus! {

/// The messages that the treasury sends as JSON, as mathematical values.
pub enum JsonMsg {
    /// The token contract's `transfer`.
    Transfer { recipient: Seq<char>, amount: u128 },
    /// The token contract's `send`, with the payload for the receiver.
    Send { contract: Seq<char>, amount: u128, msg: Seq<u8> },
    /// The token contract's `transfer_from`.
    TransferFrom { owner: Seq<char>, recipient: Seq<char>, amount: u128 },
    /// The token contract's `send_from`, with the payload for the receiver.
    SendFrom { owner: Seq<char>, contract: Seq<char>, amount: u128, msg: Seq<u8> },
    /// The swap request that the router reads from a token's `send`.
    RouterHook {
        operations: Seq<SwapOperationView>,
        minimum_receive: Option<u128>,
        to: Option<Seq<char>>,
    },
    /// The swap request that the router takes as a direct call.
    RouterExecute {
        operations: Seq<SwapOperationView>,
        minimum_receive: Option<u128>,
        to: Option<Seq<char>>,
    },
}

/// The bytes that `cosmwasm_std::to_json_binary` gives for a message, or
/// `None` where it reports an error.
pub uninterp spec fn json_of(msg: JsonMsg) -> Option<Seq<u8>>;

/// The type URL and the value of the `Any` that
/// `cosmos_sdk_proto::traits::MessageExt::to_any` gives for a bank `MsgSend`
/// of one coin, or `None` where it reports an error.
pub uninterp spec fn bank_send_any(
    from_address: Seq<char>,
    to_address: Seq<char>,
    denom: Seq<char>,
    amount: Seq<char>,
) -> Option<(Seq<char>, Seq<u8>)>;

/// The bytes that `prost::Message::encode_to_vec` gives for an authz
/// `MsgExec` of one wrapped message.
pub uninterp spec fn authz_exec_bytes(grantee: Seq<char>, type_url: Seq<char>, value: Seq<u8>) -> Seq<
    u8,
>;

/// Calls `cosmwasm_std::to_json_binary` on `cw20::Cw20ExecuteMsg::Transfer`.
/// The contract claims only that the outcome is the one named [`json_of`].
#[verifier::external_body]
pub(crate) fn transfer_json(recipient: &String, amount: u128) -> (res: Result<
    Vec<u8>,
    cosmwasm_std::StdError,
>)
    ensures
        res matches Ok(bytes) ==> json_of((JsonMsg::Transfer { recipient: recipient@, amount }))
            == Some(bytes@),
        res is Err ==> json_of((JsonMsg::Transfer { recipient: recipient@, amount })) is None,
{
    let amount = cosmwasm_std::Uint128::new(amount);
    let msg = cw20::Cw20ExecuteMsg::Transfer { recipient: recipient.clone(), amount };
    cosmwasm_std::to_json_binary(&msg).map(Vec::from)
}

/// Calls `cosmwasm_std::to_json_binary` on `cw20::Cw20ExecuteMsg::Send`.
/// The contract claims only that the outcome is the one named [`json_of`].
#[verifier::external_body]
pub(crate) fn send_json(contract: &String, amount: u128, msg: &Vec<u8>) -> (res: Result<
    Vec<u8>,
    cosmwasm_std::StdError,
>)
    ensures
        res matches Ok(bytes) ==> json_of(
            (JsonMsg::Send { contract: contract@, amount, msg: msg@ }),
        ) == Some(bytes@),
        res is Err ==> json_of((JsonMsg::Send { contract: contract@, amount, msg: msg@ }))
            is None,
{
    let amount = cosmwasm_std::Uint128::new(amount);
    let msg = cosmwasm_std::Binary::from(msg.clone());
    let msg = cw20::Cw20ExecuteMsg::Send { contract: contract.clone(), amount, msg };
    cosmwasm_std::to_json_binary(&msg).map(Vec::from)
}

/// Calls `cosmwasm_std::to_json_binary` on
/// `cw20::Cw20ExecuteMsg::TransferFrom`. The contract claims only that the
/// outcome is the one named [`json_of`].
#[verifier::external_body]
pub(crate) fn transfer_from_json(owner: &String, recipient: &String, amount: u128) -> (res: Result<
    Vec<u8>,
    cosmwasm_std::StdError,
>)
    ensures
        res matches Ok(bytes) ==> json_of(
            (JsonMsg::TransferFrom { owner: owner@, recipient: recipient@, amount }),
        ) == Some(bytes@),
        res is Err ==> json_of(
            (JsonMsg::TransferFrom { owner: owner@, recipient: recipient@, amount }),
        ) is None,
{
    let (owner, recipient) = (owner.clone(), recipient.clone());
    let amount = cosmwasm_std::Uint128::new(amount);
    let msg = cw20::Cw20ExecuteMsg::TransferFrom { owner, recipient, amount };
    cosmwasm_std::to_json_binary(&msg).map(Vec::from)
}

/// Calls `cosmwasm_std::to_json_binary` on `cw20::Cw20ExecuteMsg::SendFrom`.
/// The contract claims only that the outcome is the one named [`json_of`].
#[verifier::external_body]
pub(crate) fn send_from_json(owner: &String, contract: &String, amount: u128, msg: &Vec<u8>) -> (res:
    Result<Vec<u8>, cosmwasm_std::StdError>)
    ensures
        res matches Ok(bytes) ==> json_of(
            (JsonMsg::SendFrom { owner: owner@, contract: contract@, amount, msg: msg@ }),
        ) == Some(bytes@),
        res is Err ==> json_of(
            (JsonMsg::SendFrom { owner: owner@, contract: contract@, amount, msg: msg@ }),
        ) is None,
{
    let (owner, contract) = (owner.clone(), contract.clone());
    let amount = cosmwasm_std::Uint128::new(amount);
    let msg = cosmwasm_std::Binary::from(msg.clone());
    let msg = cw20::Cw20ExecuteMsg::SendFrom { owner, contract, amount, msg };
    cosmwasm_std::to_json_binary(&msg).map(Vec::from)
}

/// Calls `cosmwasm_std::to_json_binary` on
/// `oraiswap::router::Cw20HookMsg::ExecuteSwapOperations`, after writing
/// each hop in the router crate's own types, variant for variant. The
/// contract claims only that the outcome is the one named [`json_of`].
#[verifier::external_body]
pub(crate) fn router_hook_json(
    operations: &Vec<SwapOperation>,
    minimum_receive: Option<u128>,
    to: Option<String>,
) -> (res: Result<Vec<u8>, cosmwasm_std::StdError>)
    ensures
        res matches Ok(bytes) ==> json_of(
            (JsonMsg::RouterHook {
                operations: operations.deep_view(),
                minimum_receive,
                to: text_opt(to),
            }),
        ) == Some(bytes@),
        res is Err ==> json_of(
            (JsonMsg::RouterHook {
                operations: operations.deep_view(),
                minimum_receive,
                to: text_opt(to),
            }),
        ) is None,
{
    let asset = |info: &AssetInfo| match info {
        AssetInfo::Token { contract_addr } => oraiswap::asset::AssetInfo::Token { contract_addr: cosmwasm_std::Addr::unchecked(contract_addr) },
        AssetInfo::NativeToken { denom } => oraiswap::asset::AssetInfo::NativeToken { denom: denom.clone() },
    };
    let hop = |SwapOperation::OraiSwap { offer_asset_info, ask_asset_info }: &SwapOperation| {
        oraiswap::router::SwapOperation::OraiSwap { offer_asset_info: asset(offer_asset_info), ask_asset_info: asset(ask_asset_info) }
    };
    let operations = operations.iter().map(hop).collect();
    let minimum_receive = minimum_receive.map(cosmwasm_std::Uint128::new);
    let msg = oraiswap::router::Cw20HookMsg::ExecuteSwapOperations { operations, minimum_receive, to };
    cosmwasm_std::to_json_binary(&msg).map(Vec::from)
}

/// Calls `cosmwasm_std::to_json_binary` on
/// `oraiswap::router::ExecuteMsg::ExecuteSwapOperations`, after writing each
/// hop in the router crate's own types, variant for variant. The contract
/// claims only that the outcome is the one named [`json_of`].
#[verifier::external_body]
pub(crate) fn router_execute_json(
    operations: &Vec<SwapOperation>,
    minimum_receive: Option<u128>,
    to: Option<String>,
) -> (res: Result<Vec<u8>, cosmwasm_std::StdError>)
    ensures
        res matches Ok(bytes) ==> json_of(
            (JsonMsg::RouterExecute {
                operations: operations.deep_view(),
                minimum_receive,
                to: text_opt(to),
            }),
        ) == Some(bytes@),
        res is Err ==> json_of(
            (JsonMsg::RouterExecute {
                operations: operations.deep_view(),
                minimum_receive,
                to: text_opt(to),
            }),
        ) is None,
{
    let asset = |info: &AssetInfo| match info {
        AssetInfo::Token { contract_addr } => oraiswap::asset::AssetInfo::Token { contract_addr: cosmwasm_std::Addr::unchecked(contract_addr) },
        AssetInfo::NativeToken { denom } => oraiswap::asset::AssetInfo::NativeToken { denom: denom.clone() },
    };
    let hop = |SwapOperation::OraiSwap { offer_asset_info, ask_asset_info }: &SwapOperation| {
        oraiswap::router::SwapOperation::OraiSwap { offer_asset_info: asset(offer_asset_info), ask_asset_info: asset(ask_asset_info) }
    };
    let operations = operations.iter().map(hop).collect();
    let minimum_receive = minimum_receive.map(cosmwasm_std::Uint128::new);
    let to = to.map(cosmwasm_std::Addr::unchecked);
    let msg = oraiswap::router::ExecuteMsg::ExecuteSwapOperations { operations, minimum_receive, to };
    cosmwasm_std::to_json_binary(&msg).map(Vec::from)
}

/// Calls `cosmos_sdk_proto::traits::MessageExt::to_any` on a bank `MsgSend`
/// that moves one coin. The contract claims only that the outcome is the one
/// named [`bank_send_any`].
#[verifier::external_body]
pub(crate) fn encode_bank_send(
    from_address: &String,
    to_address: &String,
    denom: &String,
    amount: &String,
) -> (res: Option<(String, Vec<u8>)>)
    ensures
        res matches Some(any) ==> bank_send_any(from_address@, to_address@, denom@, amount@)
            == Some((any.0@, any.1@)),
        res is None ==> bank_send_any(from_address@, to_address@, denom@, amount@) is None,
{
    let coin = cosmos_sdk_proto::cosmos::base::v1beta1::Coin { denom: denom.clone(), amount: amount.clone() };
    let (from_address, to_address) = (from_address.clone(), to_address.clone());
    let send = MsgSend { from_address, to_address, amount: vec![coin] };
    send.to_any().ok().map(|any| (any.type_url, any.value))
}

/// Calls `prost::Message::encode_to_vec` on an authz `MsgExec` that wraps
/// one message. The contract claims only that the bytes are the ones named
/// [`authz_exec_bytes`].
#[verifier::external_body]
pub(crate) fn encode_authz_exec(grantee: &String, type_url: String, value: Vec<u8>) -> (res: Vec<u8>)
    ensures
        res@ == authz_exec_bytes(grantee@, type_url@, value@),
{
    let any = cosmos_sdk_proto::Any { type_url, value };
    MsgExec { grantee: grantee.clone(), msgs: vec![any] }.encode_to_vec()
}

} // verus!
