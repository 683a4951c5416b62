//! What holds of every state, every caller and every command, proved from
//! the definitions that the contracts of the library are stated in.

use crate::asset::AssetInfoView;
use crate::contract::{
    authorized, distribute_spec, execute_spec, instantiate_spec, is_owner, query_spec,
    update_config_spec,
};
use crate::error::ErrorKind;
use crate::message::{CoinView, CosmosMsgView, ResponseView, WasmMsgView};
use crate::msg::{
    CollectFeeRequirementView, ExecuteMsgView, HostAnswersView, InstantiateMsgView, QueryMsgView,
    QueryResponseView,
};
use crate::payout::{share, target_message, target_messages};
use crate::state::{ConfigView, DistributeTargetView, StateView};
use crate::sweep::{
    balance_at, batch_messages, fee_denom, plan_for, plan_messages, requirement_messages,
    sweepable, SweepPlanView, NATIVE_FEE_RESERVE,
};
use vstd::prelude::*;

verus! {

/// A share never exceeds the amount, as long as the weight is a percentage.
pub proof fn lemma_share_within_amount(amount: nat, weight: nat)
    requires
        weight <= 100,
    ensures
        share(amount, weight) <= amount,
{
    assert(amount * weight <= amount * 100) by (nonlinear_arith)
        requires
            weight <= 100,
    ;
    assert(amount * weight / 100 <= amount) by (nonlinear_arith)
        requires
            amount * weight <= amount * 100,
    ;
}

/// The sum of the weights of a target list.
pub open spec fn total_weight(targets: Seq<DistributeTargetView>) -> nat
    decreases targets.len(),
{
    if targets.len() == 0 {
        0
    } else {
        total_weight(targets.drop_last()) + targets.last().weight as nat
    }
}

/// The sum of the shares that a target list is paid.
pub open spec fn total_paid(amount: nat, targets: Seq<DistributeTargetView>) -> nat
    decreases targets.len(),
{
    if targets.len() == 0 {
        0
    } else {
        total_paid(amount, targets.drop_last()) + share(amount, targets.last().weight as nat)
    }
}

/// Rounding down never pays out more than the weights allow: the shares
/// sum to at most `floor(amount * total weight / 100)`.
pub proof fn lemma_paid_within_weights(amount: nat, targets: Seq<DistributeTargetView>)
    ensures
        total_paid(amount, targets) <= share(amount, total_weight(targets)),
    decreases targets.len(),
{
    if targets.len() > 0 {
        lemma_paid_within_weights(amount, targets.drop_last());
        let before = total_weight(targets.drop_last());
        let weight = targets.last().weight as nat;
        assert((amount * before) / 100 + (amount * weight) / 100 <= (amount * (before + weight))
            / 100) by (nonlinear_arith);
    }
}

/// Where the weights sum to at most one hundred, the targets together get
/// at most the amount: what rounding leaves over stays in the treasury.
pub proof fn lemma_never_overpaid(amount: nat, targets: Seq<DistributeTargetView>)
    requires
        total_weight(targets) <= 100,
    ensures
        total_paid(amount, targets) <= amount,
{
    lemma_paid_within_weights(amount, targets);
    lemma_share_within_amount(amount, total_weight(targets));
}

/// A distribution succeeds where every target has an instruction, and then
/// yields one instruction per target, in the order of the targets, each the
/// instruction of its own target. It fails only on an overflow or on a
/// payout that cannot be serialized.
pub proof fn lemma_messages_follow_targets(
    token: Seq<char>,
    amount: u128,
    targets: Seq<DistributeTargetView>,
)
    ensures
        target_messages(token, amount, targets) is Ok <==> forall|i: int|
            0 <= i < targets.len() ==> (#[trigger] target_message(token, amount, targets[i]))
                is Ok,
        target_messages(token, amount, targets) matches Ok(messages) ==> messages.len()
            == targets.len() && forall|i: int|
            0 <= i < targets.len() ==> target_message(token, amount, targets[i]) == Ok::<
                WasmMsgView,
                ErrorKind,
            >(#[trigger] messages[i]),
        target_messages(token, amount, targets) matches Err(e) ==> e == ErrorKind::Overflow || e
            == ErrorKind::Std,
    decreases targets.len(),
{
    if targets.len() > 0 {
        let front = targets.drop_last();
        lemma_messages_follow_targets(token, amount, front);
        assert(forall|i: int| 0 <= i < front.len() ==> front[i] == targets[i]);
        if target_messages(token, amount, targets) is Ok {
            assert forall|i: int| 0 <= i < targets.len() implies (#[trigger] target_message(
                token,
                amount,
                targets[i],
            )) is Ok by {
                if i < front.len() {
                    assert(target_message(token, amount, front[i]) is Ok);
                }
            }
        }
        if forall|i: int|
            0 <= i < targets.len() ==> (#[trigger] target_message(token, amount, targets[i]))
                is Ok {
            assert forall|i: int| 0 <= i < front.len() implies (#[trigger] target_message(
                token,
                amount,
                front[i],
            )) is Ok by {
                assert(target_message(token, amount, targets[i]) is Ok);
            }
            assert(target_message(token, amount, targets[targets.len() - 1]) is Ok);
        }
    }
}

/// A command from someone who may not run it is rejected as unauthorized
/// and changes nothing, whatever the command and whatever the host reports;
/// and nobody who may run it is rejected as unauthorized.
pub proof fn lemma_unauthorized_rejected(
    state: StateView,
    contract_address: Seq<char>,
    sender: Seq<char>,
    msg: ExecuteMsgView,
    host: HostAnswersView,
)
    ensures
        !authorized(state, sender, msg) ==> execute_spec(
            state,
            contract_address,
            sender,
            msg,
            host,
        ) == (state, Err::<ResponseView, ErrorKind>(ErrorKind::Unauthorized)),
        authorized(state, sender, msg) ==> execute_spec(
            state,
            contract_address,
            sender,
            msg,
            host,
        ).1 != Err::<ResponseView, ErrorKind>(ErrorKind::Unauthorized),
{
    match msg {
        ExecuteMsgView::Distribute { amount_distribute } => {
            lemma_messages_follow_targets(
                state.config.distribute_token,
                amount_distribute,
                state.distribution_targets,
            );
        },
        ExecuteMsgView::CollectFees { collect_fee_requirements } => {
            if state.config.router is Some {
                lemma_batch_errors(
                    collect_fee_requirements,
                    host.approver_balances,
                    crate::asset::classify(
                        state.config.distribute_token,
                        host.distribute_token_address,
                    ),
                    state.config.router->Some_0,
                    contract_address,
                );
            }
        },
        _ => {},
    }
}

/// A batch fails only on a requirement without hops, and does so exactly
/// when there is one.
pub proof fn lemma_batch_errors(
    requirements: Seq<CollectFeeRequirementView>,
    balances: Seq<u128>,
    distribute: AssetInfoView,
    router: Seq<char>,
    receiver: Seq<char>,
)
    ensures
        batch_messages(requirements, balances, distribute, router, receiver) matches Err(e) ==> e
            == ErrorKind::EmptySwapOperations,
        batch_messages(requirements, balances, distribute, router, receiver) is Err <==> exists|
            i: int,
        |
            0 <= i < requirements.len() && (#[trigger] requirements[i]).swap_operations.len() == 0,
    decreases requirements.len(),
{
    if requirements.len() > 0 {
        let front = requirements.drop_last();
        lemma_batch_errors(front, balances, distribute, router, receiver);
        assert(forall|i: int| 0 <= i < front.len() ==> front[i] == requirements[i]);
        if exists|i: int|
            0 <= i < requirements.len() && (#[trigger] requirements[i]).swap_operations.len()
                == 0 {
            let i = choose|i: int|
                0 <= i < requirements.len() && (#[trigger] requirements[i]).swap_operations.len()
                    == 0;
            if i < front.len() {
                assert(front[i].swap_operations.len() == 0);
            }
        }
        if batch_messages(requirements, balances, distribute, router, receiver) is Err {
            if batch_messages(front, balances, distribute, router, receiver) is Err {
                let i = choose|i: int|
                    0 <= i < front.len() && (#[trigger] front[i]).swap_operations.len() == 0;
                assert(requirements[i].swap_operations.len() == 0);
            } else {
                assert(requirements[requirements.len() - 1].swap_operations.len() == 0);
            }
        }
    }
}

/// A command that fails, for whatever reason, changes nothing.
pub proof fn lemma_failure_keeps_state(
    state: StateView,
    contract_address: Seq<char>,
    sender: Seq<char>,
    msg: ExecuteMsgView,
    host: HostAnswersView,
)
    requires
        execute_spec(state, contract_address, sender, msg, host).1 is Err,
    ensures
        execute_spec(state, contract_address, sender, msg, host).0 == state,
{
}

/// The owner cannot distribute more than the treasury holds.
pub proof fn lemma_distribute_beyond_balance(
    state: StateView,
    sender: Seq<char>,
    amount_distribute: u128,
    contract_balance: u128,
)
    requires
        is_owner(state, sender),
        amount_distribute > contract_balance,
    ensures
        distribute_spec(state, sender, amount_distribute, contract_balance) == Err::<
            ResponseView,
            ErrorKind,
        >(ErrorKind::ExceedContractBalance),
{
}

/// Up to the balance, and at the balance exactly, the balance is no
/// obstacle: the owner's distribution succeeds wherever the payouts
/// themselves can be computed and serialized, and then carries one
/// instruction per target.
pub proof fn lemma_distribute_within_balance(
    state: StateView,
    sender: Seq<char>,
    amount_distribute: u128,
    contract_balance: u128,
)
    requires
        is_owner(state, sender),
        amount_distribute <= contract_balance,
    ensures
        distribute_spec(state, sender, amount_distribute, contract_balance)
            != Err::<ResponseView, ErrorKind>(ErrorKind::ExceedContractBalance),
        distribute_spec(state, sender, amount_distribute, contract_balance) is Ok
            <==> target_messages(
            state.config.distribute_token,
            amount_distribute,
            state.distribution_targets,
        ) is Ok,
        distribute_spec(state, sender, amount_distribute, contract_balance) matches Ok(response)
            ==> response.messages.len() == state.distribution_targets.len(),
{
    lemma_messages_follow_targets(
        state.config.distribute_token,
        amount_distribute,
        state.distribution_targets,
    );
}

/// A requirement with an empty balance, or with a route that does not end
/// at the settlement token, yields no instruction and no error.
pub proof fn lemma_skipped_requirement(
    requirement: CollectFeeRequirementView,
    balance: u128,
    distribute: AssetInfoView,
    router: Seq<char>,
    receiver: Seq<char>,
)
    requires
        requirement.swap_operations.len() > 0,
        balance == 0 || requirement.swap_operations.last().ask() != distribute,
    ensures
        plan_for(requirement, balance, distribute) == Ok::<SweepPlanView, ErrorKind>(
            SweepPlanView::Skip,
        ),
        requirement_messages(requirement, balance, distribute, router, receiver) == Ok::<
            Seq<CosmosMsgView>,
            ErrorKind,
        >(Seq::empty()),
{
}

/// A skipped requirement does not abort the batch: the batch is the one
/// that the requirements before it give.
pub proof fn lemma_skip_keeps_batch(
    requirements: Seq<CollectFeeRequirementView>,
    requirement: CollectFeeRequirementView,
    balances: Seq<u128>,
    distribute: AssetInfoView,
    router: Seq<char>,
    receiver: Seq<char>,
)
    requires
        requirement.swap_operations.len() > 0,
        balance_at(balances, requirements.len() as int) == 0
            || requirement.swap_operations.last().ask() != distribute,
    ensures
        batch_messages(requirements.push(requirement), balances, distribute, router, receiver)
            == batch_messages(requirements, balances, distribute, router, receiver),
{
    let all = requirements.push(requirement);
    assert(all.drop_last() =~= requirements);
    assert(all.last() == requirement);
    lemma_skipped_requirement(
        requirement,
        balance_at(balances, requirements.len() as int),
        distribute,
        router,
        receiver,
    );
    match batch_messages(requirements, balances, distribute, router, receiver) {
        Ok(messages) => {
            assert(messages + Seq::<CosmosMsgView>::empty() =~= messages);
        },
        Err(_) => {},
    }
}

/// A sweep never moves more than the approver holds.
pub proof fn lemma_sweepable_within_balance(denom: Seq<char>, balance: u128)
    ensures
        sweepable(denom, balance) <= balance,
        denom != fee_denom() ==> sweepable(denom, balance) == balance,
{
}

/// Of the fee currency a sweep leaves the reserve behind. A balance up to
/// the reserve is skipped; a larger one is swept but for the reserve, so
/// that one unit above the reserve moves exactly one unit.
pub proof fn lemma_native_reserve(
    requirement: CollectFeeRequirementView,
    balance: u128,
    distribute: AssetInfoView,
)
    requires
        requirement.swap_operations.len() > 0,
        requirement.swap_operations.last().ask() == distribute,
        requirement.swap_operations[0].offer() == (AssetInfoView::NativeToken {
            denom: fee_denom(),
        }),
    ensures
        balance <= NATIVE_FEE_RESERVE ==> plan_for(requirement, balance, distribute) == Ok::<
            SweepPlanView,
            ErrorKind,
        >(SweepPlanView::Skip),
        balance > NATIVE_FEE_RESERVE ==> plan_for(requirement, balance, distribute) == Ok::<
            SweepPlanView,
            ErrorKind,
        >(
            SweepPlanView::NativeSwap {
                denom: fee_denom(),
                amount: (balance - NATIVE_FEE_RESERVE) as u128,
            },
        ),
        balance == NATIVE_FEE_RESERVE + 1 ==> plan_for(requirement, balance, distribute) == Ok::<
            SweepPlanView,
            ErrorKind,
        >(SweepPlanView::NativeSwap { denom: fee_denom(), amount: 1 }),
{
}

/// A native sweep that is carried out attaches to the swap exactly the
/// amount of the plan, in the denomination of the plan, and sends the
/// authorized transfer first.
pub proof fn lemma_native_sweep_moves_amount(
    denom: Seq<char>,
    amount: u128,
    requirement: CollectFeeRequirementView,
    router: Seq<char>,
    receiver: Seq<char>,
)
    ensures
        ({
            let messages = plan_messages(
                SweepPlanView::NativeSwap { denom, amount },
                requirement,
                router,
                receiver,
            );
            messages.len() == 0 || ({
                &&& messages.len() == 2
                &&& messages[0] is Stargate
                &&& messages[1] matches CosmosMsgView::Wasm(
                    WasmMsgView::Execute { contract_addr, funds, .. },
                )
                &&& contract_addr == router
                &&& funds == seq![CoinView { denom, amount }]
            })
        }),
{
}

/// After the setup, the configuration that a query reads back is the one of
/// the setup message, field for field, and so are the targets.
pub proof fn lemma_setup_round_trip(msg: InstantiateMsgView)
    ensures
        query_spec(instantiate_spec(msg), QueryMsgView::Config {  }) == QueryResponseView::Config(
            ConfigView {
                owner: msg.owner,
                distribute_token: msg.distribute_token,
                router: msg.router,
            },
        ),
        query_spec(instantiate_spec(msg), QueryMsgView::DistributeTargets {  })
            == QueryResponseView::DistributeTargets(msg.init_distribution_targets),
        forall|addr: Seq<char>| #[trigger]
            query_spec(instantiate_spec(msg), QueryMsgView::IsExecutor { addr })
                == QueryResponseView::IsExecutor(msg.executors.contains(addr)),
{
}

/// An update of the configuration that names no field changes nothing,
/// whoever sends it.
pub proof fn lemma_empty_update_changes_nothing(state: StateView, sender: Seq<char>)
    ensures
        update_config_spec(state, sender, None, None).0 == state,
        query_spec(update_config_spec(state, sender, None, None).0, QueryMsgView::Config {  })
            == query_spec(state, QueryMsgView::Config {  }),
{
}

/// A batch reads of the balances only those that belong to its
/// requirements, each at the position of its requirement.
pub proof fn lemma_batch_reads_own_balances(
    requirements: Seq<CollectFeeRequirementView>,
    balances: Seq<u128>,
    other_balances: Seq<u128>,
    distribute: AssetInfoView,
    router: Seq<char>,
    receiver: Seq<char>,
)
    requires
        forall|i: int|
            0 <= i < requirements.len() ==> balance_at(balances, i) == balance_at(
                other_balances,
                i,
            ),
    ensures
        batch_messages(requirements, balances, distribute, router, receiver) == batch_messages(
            requirements,
            other_balances,
            distribute,
            router,
            receiver,
        ),
    decreases requirements.len(),
{
    if requirements.len() > 0 {
        lemma_batch_reads_own_balances(
            requirements.drop_last(),
            balances,
            other_balances,
            distribute,
            router,
            receiver,
        );
    }
}

/// What the host reports matters only where the command asks for it: a
/// distribution reads the treasury's balance, a fee collection reads the
/// kind of the settlement token and one balance per requirement, and the
/// other commands read nothing.
pub proof fn lemma_answers_matter_where_asked(
    state: StateView,
    contract_address: Seq<char>,
    sender: Seq<char>,
    msg: ExecuteMsgView,
    host: HostAnswersView,
    other: HostAnswersView,
)
    requires
        msg is Distribute ==> host.contract_balance == other.contract_balance,
        msg matches ExecuteMsgView::CollectFees { collect_fee_requirements }
            ==> host.distribute_token_address == other.distribute_token_address && forall|i: int|
            0 <= i < collect_fee_requirements.len() ==> balance_at(host.approver_balances, i)
                == balance_at(other.approver_balances, i),
    ensures
        execute_spec(state, contract_address, sender, msg, host) == execute_spec(
            state,
            contract_address,
            sender,
            msg,
            other,
        ),
{
    match msg {
        ExecuteMsgView::CollectFees { collect_fee_requirements } => {
            if state.config.router is Some {
                lemma_batch_reads_own_balances(
                    collect_fee_requirements,
                    host.approver_balances,
                    other.approver_balances,
                    crate::asset::classify(
                        state.config.distribute_token,
                        host.distribute_token_address,
                    ),
                    state.config.router->Some_0,
                    contract_address,
                );
            }
        },
        _ => {},
    }
}

} // verus!
