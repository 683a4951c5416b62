use crate::asset::{AssetInfo, AssetInfoView};
use crate::decimal::{decimal, to_decimal_string};
use crate::error::{ContractError, ErrorKind};
use crate::message::{Coin, CoinView, CosmosMsg, CosmosMsgView, WasmMsg, WasmMsgView};
use crate::msg::{CollectFeeRequirement, CollectFeeRequirementView};
use crate::wire::{
    authz_exec_bytes, bank_send_any, encode_authz_exec, encode_bank_send, json_of,
    router_execute_json, router_hook_json, send_from_json, transfer_from_json, JsonMsg,
};
use vstd::prelude::*;

verus! {

/// What a sweep of the chain's fee currency leaves with the approver, so
/// that the approver can still pay for transactions.
pub const NATIVE_FEE_RESERVE: u128 = 1000000;

/// The denomination of the chain's fee currency.
pub open spec fn fee_denom() -> Seq<char> {
    "orai"@
}

/// The type URL of the message that executes on behalf of a granter.
pub open spec fn authz_exec_type_url() -> Seq<char> {
    "/cosmos.authz.v1beta1.MsgExec"@
}

/// How much of a native balance a sweep moves: all of it, but for the
/// reserve where the denomination is the fee currency.
pub open spec fn sweepable(denom: Seq<char>, balance: u128) -> u128 {
    if denom == fee_denom() {
        if balance >= NATIVE_FEE_RESERVE {
            (balance - NATIVE_FEE_RESERVE) as u128
        } else {
            0
        }
    } else {
        balance
    }
}

/// What is to be done for one fee requirement.
#[derive(Debug, Clone, PartialEq)]
pub enum SweepPlan {
    /// Nothing: the requirement yields no instruction.
    Skip,
    /// The offer asset is the settlement token itself: it moves from the
    /// approver to the treasury without a swap.
    TransferFrom { token: String, amount: u128 },
    /// A token other than the settlement token goes from the approver to the
    /// router, with the swap request attached.
    SendFrom { token: String, amount: u128 },
    /// A native currency moves from the approver to the treasury, and from
    /// there into a swap at the router.
    NativeSwap { denom: String, amount: u128 },
}

/// The mathematical value of a [`SweepPlan`].
pub enum SweepPlanView {
    Skip,
    TransferFrom { token: Seq<char>, amount: u128 },
    SendFrom { token: Seq<char>, amount: u128 },
    NativeSwap { denom: Seq<char>, amount: u128 },
}

impl View for SweepPlan {
    type V = SweepPlanView;

    open spec fn view(&self) -> SweepPlanView {
        match *self {
            SweepPlan::Skip => SweepPlanView::Skip,
            SweepPlan::TransferFrom { token, amount } => SweepPlanView::TransferFrom {
                token: token@,
                amount,
            },
            SweepPlan::SendFrom { token, amount } => SweepPlanView::SendFrom {
                token: token@,
                amount,
            },
            SweepPlan::NativeSwap { denom, amount } => SweepPlanView::NativeSwap {
                denom: denom@,
                amount,
            },
        }
    }
}

/// The plan for one requirement, given the approver's balance of the offer
/// asset and the kind of the settlement token. A requirement without hops is
/// an error. A route that does not end at the settlement token, an empty
/// balance, and a native balance within the reserve are skipped.
pub open spec fn plan_for(
    requirement: CollectFeeRequirementView,
    balance: u128,
    distribute: AssetInfoView,
) -> Result<SweepPlanView, ErrorKind> {
    let operations = requirement.swap_operations;
    if operations.len() == 0 {
        Err(ErrorKind::EmptySwapOperations)
    } else if operations.last().ask() != distribute || balance == 0 {
        Ok(SweepPlanView::Skip)
    } else {
        match operations[0].offer() {
            AssetInfoView::Token { contract_addr } => if operations[0].offer() == distribute {
                Ok(SweepPlanView::TransferFrom { token: contract_addr, amount: balance })
            } else {
                Ok(SweepPlanView::SendFrom { token: contract_addr, amount: balance })
            },
            AssetInfoView::NativeToken { denom } => if sweepable(denom, balance) == 0 {
                Ok(SweepPlanView::Skip)
            } else {
                Ok(SweepPlanView::NativeSwap { denom, amount: sweepable(denom, balance) })
            },
        }
    }
}

/// The value of the outcome of [`plan_sweep`].
pub open spec fn plan_outcome(res: Result<SweepPlan, ContractError>) -> Result<
    SweepPlanView,
    ErrorKind,
> {
    match res {
        Ok(plan) => Ok(plan@),
        Err(e) => Err(e@),
    }
}

/// Computes how much of a native balance a sweep moves.
pub fn sweepable_amount(denom: &String, balance: u128) -> (res: u128)
    ensures
        res == sweepable(denom@, balance),
{
    let fee = String::from_str("orai");
    if *denom == fee {
        if balance >= NATIVE_FEE_RESERVE {
            balance - NATIVE_FEE_RESERVE
        } else {
            0
        }
    } else {
        balance
    }
}

/// Decides what to do for one fee requirement.
pub fn plan_sweep(
    requirement: &CollectFeeRequirement,
    balance: u128,
    distribute_asset: &AssetInfo,
) -> (res: Result<SweepPlan, ContractError>)
    ensures
        plan_outcome(res) == plan_for(requirement@, balance, distribute_asset@),
{
    let operations = &requirement.swap_operations;
    if operations.len() == 0 {
        return Err(ContractError::EmptySwapOperations {  });
    }
    let offer = operations[0].offer_asset();
    let final_ask = operations[operations.len() - 1].ask_asset();
    if !(*final_ask == *distribute_asset) || balance == 0 {
        return Ok(SweepPlan::Skip);
    }
    match offer {
        AssetInfo::Token { contract_addr } => {
            if *offer == *distribute_asset {
                Ok(SweepPlan::TransferFrom { token: contract_addr.clone(), amount: balance })
            } else {
                Ok(SweepPlan::SendFrom { token: contract_addr.clone(), amount: balance })
            }
        },
        AssetInfo::NativeToken { denom } => {
            let amount = sweepable_amount(denom, balance);
            if amount == 0 {
                Ok(SweepPlan::Skip)
            } else {
                Ok(SweepPlan::NativeSwap { denom: denom.clone(), amount })
            }
        },
    }
}

/// A call into a contract with a serialized message and attached funds.
pub open spec fn wasm_call(contract_addr: Seq<char>, msg: Seq<u8>, funds: Seq<CoinView>) -> CosmosMsgView {
    CosmosMsgView::Wasm(WasmMsgView::Execute { contract_addr, msg, funds })
}

/// The two instructions of a native sweep, in execution order: the send on
/// behalf of the approver, then the swap at the router with the swept funds
/// attached.
pub open spec fn native_sweep(
    router: Seq<char>,
    denom: Seq<char>,
    amount: u128,
    exec_value: Seq<u8>,
    swap_payload: Seq<u8>,
) -> Seq<CosmosMsgView> {
    seq![
        CosmosMsgView::Stargate { type_url: authz_exec_type_url(), value: exec_value },
        wasm_call(router, swap_payload, seq![CoinView { denom, amount }]),
    ]
}

/// The instructions that carry out a plan, in execution order. Where one of
/// the encodings fails, the plan yields none.
pub open spec fn plan_messages(
    plan: SweepPlanView,
    requirement: CollectFeeRequirementView,
    router: Seq<char>,
    receiver: Seq<char>,
) -> Seq<CosmosMsgView> {
    match plan {
        SweepPlanView::Skip => Seq::empty(),
        SweepPlanView::TransferFrom { token, amount } => match json_of(
            JsonMsg::TransferFrom { owner: requirement.approver, recipient: receiver, amount },
        ) {
            None => Seq::empty(),
            Some(payload) => seq![wasm_call(token, payload, Seq::empty())],
        },
        SweepPlanView::SendFrom { token, amount } => match json_of(
            JsonMsg::RouterHook {
                operations: requirement.swap_operations,
                minimum_receive: requirement.minimum_receive,
                to: Some(receiver),
            },
        ) {
            None => Seq::empty(),
            Some(hook) => match json_of(
                JsonMsg::SendFrom {
                    owner: requirement.approver,
                    contract: router,
                    amount,
                    msg: hook,
                },
            ) {
                None => Seq::empty(),
                Some(payload) => seq![wasm_call(token, payload, Seq::empty())],
            },
        },
        SweepPlanView::NativeSwap { denom, amount } => match bank_send_any(
            requirement.approver,
            receiver,
            denom,
            decimal(amount as nat),
        ) {
            None => Seq::empty(),
            Some(any) => match json_of(
                JsonMsg::RouterExecute {
                    operations: requirement.swap_operations,
                    minimum_receive: requirement.minimum_receive,
                    to: Some(receiver),
                },
            ) {
                None => Seq::empty(),
                Some(swap) => native_sweep(
                    router,
                    denom,
                    amount,
                    authz_exec_bytes(receiver, any.0, any.1),
                    swap,
                ),
            },
        },
    }
}

/// Builds a call into a contract.
pub fn wasm_execute(contract_addr: String, msg: Vec<u8>, funds: Vec<Coin>) -> (res: CosmosMsg)
    ensures
        res@ == wasm_call(contract_addr@, msg@, funds.deep_view()),
{
    CosmosMsg::Wasm(WasmMsg::Execute { contract_addr, msg, funds })
}

/// Builds the two instructions of a native sweep from the encoded
/// authorization and the serialized swap request.
pub fn native_sweep_messages(
    router: &String,
    denom: &String,
    amount: u128,
    exec_value: Vec<u8>,
    swap_payload: Vec<u8>,
) -> (res: Vec<CosmosMsg>)
    ensures
        res.deep_view() == native_sweep(router@, denom@, amount, exec_value@, swap_payload@),
{
    let stargate = CosmosMsg::Stargate {
        type_url: String::from_str("/cosmos.authz.v1beta1.MsgExec"),
        value: exec_value,
    };
    let mut funds: Vec<Coin> = Vec::new();
    funds.push(Coin { denom: denom.clone(), amount });
    assert(funds.deep_view() =~= seq![CoinView { denom: denom@, amount }]);
    let swap = wasm_execute(router.clone(), swap_payload, funds);
    let mut res: Vec<CosmosMsg> = Vec::new();
    res.push(stargate);
    res.push(swap);
    res
}

/// A batch of exactly one instruction.
fn single(message: CosmosMsg) -> (res: Vec<CosmosMsg>)
    ensures
        res.deep_view() == seq![message@],
{
    let mut res: Vec<CosmosMsg> = Vec::new();
    res.push(message);
    res
}

/// The empty batch.
fn nothing() -> (res: Vec<CosmosMsg>)
    ensures
        res.deep_view() == Seq::<CosmosMsgView>::empty(),
{
    Vec::new()
}

/// Carries out a plan: asks the token, router and chain libraries for the
/// encodings and assembles the instructions. `router` is the swap router and
/// `receiver` the treasury's own account.
pub fn sweep_messages(
    plan: &SweepPlan,
    requirement: &CollectFeeRequirement,
    router: &String,
    receiver: &String,
) -> (res: Vec<CosmosMsg>)
    ensures
        res.deep_view() == plan_messages(plan@, requirement@, router@, receiver@),
{
    match plan {
        SweepPlan::Skip => nothing(),
        SweepPlan::TransferFrom { token, amount } => {
            match transfer_from_json(&requirement.approver, receiver, *amount) {
                Err(_) => nothing(),
                Ok(payload) => {
                    let funds: Vec<Coin> = Vec::new();
                    assert(funds.deep_view() =~= Seq::<CoinView>::empty());
                    single(wasm_execute(token.clone(), payload, funds))
                },
            }
        },
        SweepPlan::SendFrom { token, amount } => {
            let hook = router_hook_json(
                &requirement.swap_operations,
                requirement.minimum_receive,
                Some(receiver.clone()),
            );
            match hook {
                Err(_) => nothing(),
                Ok(hook) => match send_from_json(&requirement.approver, router, *amount, &hook) {
                    Err(_) => nothing(),
                    Ok(payload) => {
                        let funds: Vec<Coin> = Vec::new();
                        assert(funds.deep_view() =~= Seq::<CoinView>::empty());
                        single(wasm_execute(token.clone(), payload, funds))
                    },
                },
            }
        },
        SweepPlan::NativeSwap { denom, amount } => {
            let written = to_decimal_string(*amount);
            match encode_bank_send(&requirement.approver, receiver, denom, &written) {
                None => nothing(),
                Some(any) => {
                    let swap = router_execute_json(
                        &requirement.swap_operations,
                        requirement.minimum_receive,
                        Some(receiver.clone()),
                    );
                    match swap {
                        Err(_) => nothing(),
                        Ok(swap) => {
                            let exec_value = encode_authz_exec(receiver, any.0, any.1);
                            native_sweep_messages(router, denom, *amount, exec_value, swap)
                        },
                    }
                },
            }
        },
    }
}

/// The approver balance that belongs to the requirement at a position. A
/// balance that the host did not supply counts as zero.
pub open spec fn balance_at(balances: Seq<u128>, i: int) -> u128 {
    if 0 <= i < balances.len() {
        balances[i]
    } else {
        0
    }
}

/// The instructions for one requirement, or the error it raises.
pub open spec fn requirement_messages(
    requirement: CollectFeeRequirementView,
    balance: u128,
    distribute: AssetInfoView,
    router: Seq<char>,
    receiver: Seq<char>,
) -> Result<Seq<CosmosMsgView>, ErrorKind> {
    match plan_for(requirement, balance, distribute) {
        Err(e) => Err(e),
        Ok(plan) => Ok(plan_messages(plan, requirement, router, receiver)),
    }
}

/// The instructions for a list of requirements: those of each requirement,
/// in the order of the list. One requirement in error fails the whole list.
pub open spec fn batch_messages(
    requirements: Seq<CollectFeeRequirementView>,
    balances: Seq<u128>,
    distribute: AssetInfoView,
    router: Seq<char>,
    receiver: Seq<char>,
) -> Result<Seq<CosmosMsgView>, ErrorKind>
    decreases requirements.len(),
{
    if requirements.len() == 0 {
        Ok(Seq::empty())
    } else {
        match batch_messages(requirements.drop_last(), balances, distribute, router, receiver) {
            Err(e) => Err(e),
            Ok(messages) => match requirement_messages(
                requirements.last(),
                balance_at(balances, requirements.len() - 1),
                distribute,
                router,
                receiver,
            ) {
                Err(e) => Err(e),
                Ok(more) => Ok(messages + more),
            },
        }
    }
}

/// The value of the outcome of [`collect_fee_messages`].
pub open spec fn batch_outcome(res: Result<Vec<CosmosMsg>, ContractError>) -> Result<
    Seq<CosmosMsgView>,
    ErrorKind,
> {
    match res {
        Ok(messages) => Ok(messages.deep_view()),
        Err(e) => Err(e@),
    }
}

/// An error among the first `n` requirements is the error of the whole list.
proof fn lemma_batch_error_stays(
    requirements: Seq<CollectFeeRequirementView>,
    balances: Seq<u128>,
    distribute: AssetInfoView,
    router: Seq<char>,
    receiver: Seq<char>,
    n: int,
)
    requires
        0 <= n <= requirements.len(),
    ensures
        batch_messages(requirements.take(n), balances, distribute, router, receiver) is Err
            ==> batch_messages(requirements, balances, distribute, router, receiver)
            == batch_messages(requirements.take(n), balances, distribute, router, receiver),
    decreases requirements.len() - n,
{
    if batch_messages(requirements.take(n), balances, distribute, router, receiver) is Ok {
    } else if n < requirements.len() {
        assert(requirements.take(n + 1).drop_last() =~= requirements.take(n));
        lemma_batch_error_stays(requirements, balances, distribute, router, receiver, n + 1);
    } else {
        assert(requirements.take(n) =~= requirements);
    }
}

/// Builds the instruction batch of a fee collection: for each requirement,
/// in order, the instructions of its plan.
pub fn collect_fee_messages(
    requirements: &Vec<CollectFeeRequirement>,
    balances: &Vec<u128>,
    distribute_asset: &AssetInfo,
    router: &String,
    receiver: &String,
) -> (res: Result<Vec<CosmosMsg>, ContractError>)
    ensures
        batch_outcome(res) == batch_messages(
            requirements.deep_view(),
            balances@,
            distribute_asset@,
            router@,
            receiver@,
        ),
{
    let ghost all = requirements.deep_view();
    let mut messages: Vec<CosmosMsg> = Vec::new();
    let mut i: usize = 0;
    assert(messages.deep_view() =~= Seq::<CosmosMsgView>::empty());
    while i < requirements.len()
        invariant
            i <= requirements.len(),
            all == requirements.deep_view(),
            batch_messages(all.take(i as int), balances@, distribute_asset@, router@, receiver@)
                == Ok::<Seq<CosmosMsgView>, ErrorKind>(messages.deep_view()),
        decreases requirements.len() - i,
    {
        let requirement = &requirements[i];
        let balance = if i < balances.len() {
            balances[i]
        } else {
            0
        };
        proof {
            assert(all.take(i + 1).drop_last() =~= all.take(i as int));
            lemma_batch_error_stays(
                all,
                balances@,
                distribute_asset@,
                router@,
                receiver@,
                i + 1,
            );
        }
        let plan = match plan_sweep(requirement, balance, distribute_asset) {
            Ok(plan) => plan,
            Err(e) => {
                return Err(e);
            },
        };
        let mut more = sweep_messages(&plan, requirement, router, receiver);
        let ghost before = messages.deep_view();
        let ghost added = more.deep_view();
        messages.append(&mut more);
        assert(messages.deep_view() =~= before + added);
        i += 1;
    }
    assert(all.take(i as int) =~= all);
    Ok(messages)
}

} // verus!
