use crate::error::{ContractError, ErrorKind};
use crate::message::{CoinView, WasmMsg, WasmMsgView};
use crate::state::{DistributeTarget, DistributeTargetView};
use crate::wire::{json_of, send_json, transfer_json, JsonMsg};
use vstd::prelude::*;

verus! {

/// The share of `amount` owed to a target of the given percentage weight,
/// rounded down.
pub open spec fn share(amount: nat, weight: nat) -> nat {
    amount * weight / 100
}

/// Computes `floor(amount * weight / 100)`, or `None` when the product does
/// not fit in 128 bits.
pub fn compute_share(amount: u128, weight: u32) -> (res: Option<u128>)
    ensures
        res is Some <==> amount * weight <= u128::MAX,
        res matches Some(s) ==> s == share(amount as nat, weight as nat),
{
    match amount.checked_mul(weight as u128) {
        Some(product) => Some(product / 100),
        None => None,
    }
}

/// The token message that pays `amount` to a target: a plain transfer, or a
/// send that carries the target's hook.
pub open spec fn payout_json(target: DistributeTargetView, amount: u128) -> JsonMsg {
    match target.msg_hook {
        None => JsonMsg::Transfer { recipient: target.addr, amount },
        Some(hook) => JsonMsg::Send { contract: target.addr, amount, msg: hook },
    }
}

/// The call into the settlement token that carries a serialized payout.
pub open spec fn payout_call(token: Seq<char>, payload: Seq<u8>) -> WasmMsgView {
    WasmMsgView::Execute { contract_addr: token, msg: payload, funds: Seq::<CoinView>::empty() }
}

/// The instruction owed to one target, or the reason why there is none.
pub open spec fn target_message(
    token: Seq<char>,
    amount: u128,
    target: DistributeTargetView,
) -> Result<WasmMsgView, ErrorKind> {
    if amount * target.weight > u128::MAX {
        Err(ErrorKind::Overflow)
    } else {
        match json_of(payout_json(target, share(amount as nat, target.weight as nat) as u128)) {
            None => Err(ErrorKind::Std),
            Some(payload) => Ok(payout_call(token, payload)),
        }
    }
}

/// The instructions owed to a list of targets, in the order of the list; the
/// first target without an instruction decides the error.
pub open spec fn target_messages(
    token: Seq<char>,
    amount: u128,
    targets: Seq<DistributeTargetView>,
) -> Result<Seq<WasmMsgView>, ErrorKind>
    decreases targets.len(),
{
    if targets.len() == 0 {
        Ok(Seq::empty())
    } else {
        match target_messages(token, amount, targets.drop_last()) {
            Err(e) => Err(e),
            Ok(messages) => match target_message(token, amount, targets.last()) {
                Err(e) => Err(e),
                Ok(message) => Ok(messages.push(message)),
            },
        }
    }
}

/// The value of the outcome of [`load_target_messages`].
pub open spec fn messages_outcome(res: Result<Vec<WasmMsg>, ContractError>) -> Result<
    Seq<WasmMsgView>,
    ErrorKind,
> {
    match res {
        Ok(messages) => Ok(messages.deep_view()),
        Err(e) => Err(e@),
    }
}

/// Wraps a serialized payout into the call on the settlement token. No
/// native funds go with it.
pub fn payout_message(distribute_token: &String, payload: Vec<u8>) -> (res: WasmMsg)
    ensures
        res@ == payout_call(distribute_token@, payload@),
{
    let res = WasmMsg::Execute {
        contract_addr: distribute_token.clone(),
        msg: payload,
        funds: Vec::new(),
    };
    assert(res@->funds =~= Seq::<CoinView>::empty());
    res
}

/// Turns the amount to distribute into one instruction per target, in the
/// order of the targets. Each target gets `floor(amount * weight / 100)`:
/// what rounding leaves over is not paid out. The whole batch fails when a
/// product overflows or a payout cannot be serialized.
pub fn load_target_messages(
    targets: &Vec<DistributeTarget>,
    amount_distribute: u128,
    distribute_token: &String,
) -> (res: Result<Vec<WasmMsg>, ContractError>)
    ensures
        messages_outcome(res) == target_messages(
            distribute_token@,
            amount_distribute,
            targets.deep_view(),
        ),
{
    let ghost all = targets.deep_view();
    let mut messages: Vec<WasmMsg> = Vec::new();
    let mut i: usize = 0;
    assert(messages.deep_view() =~= Seq::<WasmMsgView>::empty());
    while i < targets.len()
        invariant
            i <= targets.len(),
            all == targets.deep_view(),
            target_messages(distribute_token@, amount_distribute, all.take(i as int)) == Ok::<
                Seq<WasmMsgView>,
                ErrorKind,
            >(messages.deep_view()),
        decreases targets.len() - i,
    {
        let target = &targets[i];
        proof {
            assert(all.take(i + 1).drop_last() =~= all.take(i as int));
            lemma_error_stays(distribute_token@, amount_distribute, all, i + 1);
        }
        let amount = match compute_share(amount_distribute, target.weight) {
            Some(amount) => amount,
            None => {
                return Err(ContractError::Overflow {  });
            },
        };
        let encoded = match &target.msg_hook {
            None => transfer_json(&target.addr, amount),
            Some(hook) => send_json(&target.addr, amount, hook),
        };
        let payload = match encoded {
            Ok(payload) => payload,
            Err(e) => {
                return Err(ContractError::Std(e));
            },
        };
        let ghost before = messages.deep_view();
        let message = payout_message(distribute_token, payload);
        messages.push(message);
        assert(messages.deep_view() =~= before.push(message@));
        i += 1;
    }
    assert(all.take(i as int) =~= all);
    Ok(messages)
}

/// An error among the first `n` targets is the error of the whole list.
proof fn lemma_error_stays(token: Seq<char>, amount: u128, targets: Seq<DistributeTargetView>, n: int)
    requires
        0 <= n <= targets.len(),
    ensures
        target_messages(token, amount, targets.take(n)) is Err ==> target_messages(
            token,
            amount,
            targets,
        ) == target_messages(token, amount, targets.take(n)),
    decreases targets.len() - n,
{
    if target_messages(token, amount, targets.take(n)) is Ok {
    } else if n < targets.len() {
        assert(targets.take(n + 1).drop_last() =~= targets.take(n));
        lemma_error_stays(token, amount, targets, n + 1);
    } else {
        assert(targets.take(n) =~= targets);
    }
}

} // verus!
