use crate::asset::{asset_info_from_string, classify};
use crate::decimal::{decimal, to_decimal_string};
use crate::error::{ContractError, ErrorKind};
use crate::message::{attr, CosmosMsg, CosmosMsgView, Response, ResponseView, WasmMsg, WasmMsgView};
use crate::model::{duplicate_text_opt, identity_set};
use crate::msg::{
    CollectFeeRequirement, CollectFeeRequirementView, ConfigResponse, DistributeTargetsResponse,
    Env, ExecuteMsg, ExecuteMsgView, HostAnswers, HostAnswersView, InstantiateMsg,
    InstantiateMsgView, MessageInfo, MigrateMsg, QueryMsg, QueryMsgView, QueryResponse,
    QueryResponseView,
};
use crate::payout::{load_target_messages, target_messages};
use crate::state::{
    contains_identity, duplicate_targets, grant_identities, revoke_identities, Config, ConfigView,
    DistributeTarget, DistributeTargetView, State, StateView,
};
use crate::sweep::{batch_messages, collect_fee_messages};
use vstd::prelude::*;

verus! {

/// The state that a setup message creates.
pub open spec fn instantiate_spec(msg: InstantiateMsgView) -> StateView {
    StateView {
        config: ConfigView {
            owner: msg.owner,
            distribute_token: msg.distribute_token,
            router: msg.router,
        },
        distribution_targets: msg.init_distribution_targets,
        executors: identity_set(msg.executors),
    }
}

/// Sets the treasury up: the configuration, the targets and the executors
/// are those of the message. The response carries nothing.
pub fn instantiate(msg: InstantiateMsg) -> (res: (State, Response))
    ensures
        res.0@ == instantiate_spec(msg@),
        res.1@ == ResponseView::empty(),
{
    let state = State {
        config: Config {
            owner: msg.owner,
            distribute_token: msg.distribute_token,
            router: msg.router,
        },
        distribution_targets: msg.init_distribution_targets,
        executors: msg.executors,
    };
    (state, Response::new())
}

/// The value of what an invocation returns.
pub open spec fn response_outcome(res: Result<Response, ContractError>) -> Result<
    ResponseView,
    ErrorKind,
> {
    match res {
        Ok(response) => Ok(response@),
        Err(e) => Err(e@),
    }
}

/// Whether the identity may run the commands reserved to the owner.
pub open spec fn is_owner(state: StateView, sender: Seq<char>) -> bool {
    state.config.owner == sender
}

/// Whether the identity may collect fees: the owner and the executors may.
pub open spec fn may_collect(state: StateView, sender: Seq<char>) -> bool {
    is_owner(state, sender) || state.executors.contains(sender)
}

/// Whether the identity may run the command: collecting fees is open to the
/// owner and the executors, everything else to the owner alone.
pub open spec fn authorized(state: StateView, sender: Seq<char>, msg: ExecuteMsgView) -> bool {
    if msg is CollectFees {
        may_collect(state, sender)
    } else {
        is_owner(state, sender)
    }
}

/// Decides whether the sender may run the command, before the host looks
/// anything up for it. [`execute`] refuses exactly the same callers.
pub fn authorize(state: &State, info: &MessageInfo, msg: &ExecuteMsg) -> (res: Result<
    (),
    ContractError,
>)
    ensures
        res is Ok <==> authorized(state@, info.sender@, msg@),
        res matches Err(e) ==> e@ == ErrorKind::Unauthorized,
{
    if state.config.owner == info.sender {
        return Ok(());
    }
    match msg {
        ExecuteMsg::CollectFees { .. } => {
            if contains_identity(&state.executors, &info.sender) {
                Ok(())
            } else {
                Err(ContractError::Unauthorized {  })
            }
        },
        _ => Err(ContractError::Unauthorized {  }),
    }
}

/// The configuration after an update: a field that the update leaves out
/// keeps its value.
pub open spec fn updated_config(
    config: ConfigView,
    owner: Option<Seq<char>>,
    distribute_token: Option<Seq<char>>,
) -> ConfigView {
    ConfigView {
        owner: match owner {
            Some(o) => o,
            None => config.owner,
        },
        distribute_token: match distribute_token {
            Some(t) => t,
            None => config.distribute_token,
        },
        router: config.router,
    }
}

/// State and result of a configuration update.
pub open spec fn update_config_spec(
    state: StateView,
    sender: Seq<char>,
    owner: Option<Seq<char>>,
    distribute_token: Option<Seq<char>>,
) -> (StateView, Result<ResponseView, ErrorKind>) {
    if !is_owner(state, sender) {
        (state, Err(ErrorKind::Unauthorized))
    } else {
        let config = updated_config(state.config, owner, distribute_token);
        (
            StateView { config, ..state },
            Ok(
                ResponseView {
                    messages: Seq::empty(),
                    attributes: seq![
                        attr("action"@, "update_config"@),
                        attr("owner"@, config.owner),
                        attr("distribute_token"@, config.distribute_token),
                    ],
                },
            ),
        )
    }
}

/// State and result of a replacement of the target list.
pub open spec fn update_distribute_target_spec(
    state: StateView,
    sender: Seq<char>,
    distribute_targets: Seq<DistributeTargetView>,
) -> (StateView, Result<ResponseView, ErrorKind>) {
    if !is_owner(state, sender) {
        (state, Err(ErrorKind::Unauthorized))
    } else {
        (
            StateView { distribution_targets: distribute_targets, ..state },
            Ok(
                ResponseView {
                    messages: Seq::empty(),
                    attributes: seq![attr("action"@, "update_distribute_target"@)],
                },
            ),
        )
    }
}

/// State and result of a change of the executors: a grant adds the listed
/// identities, a revocation removes them.
pub open spec fn update_executors_spec(
    state: StateView,
    sender: Seq<char>,
    executors: Seq<Seq<char>>,
    permission: bool,
) -> (StateView, Result<ResponseView, ErrorKind>) {
    if !is_owner(state, sender) {
        (state, Err(ErrorKind::Unauthorized))
    } else {
        let listed = identity_set(executors);
        (
            StateView {
                executors: if permission {
                    state.executors.union(listed)
                } else {
                    state.executors.difference(listed)
                },
                ..state
            },
            Ok(
                ResponseView {
                    messages: Seq::empty(),
                    attributes: seq![attr("action"@, "update_executors"@)],
                },
            ),
        )
    }
}

/// The payout instructions as instructions of the batch.
pub open spec fn as_instructions(messages: Seq<WasmMsgView>) -> Seq<CosmosMsgView> {
    Seq::new(messages.len(), |i: int| CosmosMsgView::Wasm(messages[i]))
}

/// Result of a distribution. The amount is held against the treasury's
/// balance as it was asked for, not against the sum of the rounded shares.
pub open spec fn distribute_spec(
    state: StateView,
    sender: Seq<char>,
    amount_distribute: u128,
    contract_balance: u128,
) -> Result<ResponseView, ErrorKind> {
    if !is_owner(state, sender) {
        Err(ErrorKind::Unauthorized)
    } else if amount_distribute > contract_balance {
        Err(ErrorKind::ExceedContractBalance)
    } else {
        match target_messages(
            state.config.distribute_token,
            amount_distribute,
            state.distribution_targets,
        ) {
            Err(e) => Err(e),
            Ok(messages) => Ok(
                ResponseView {
                    messages: as_instructions(messages),
                    attributes: seq![
                        attr("action"@, "distribute"@),
                        attr("amount_distribute"@, decimal(amount_distribute as nat)),
                    ],
                },
            ),
        }
    }
}

/// Result of a fee collection. The proceeds of every swap go to the
/// treasury's own account.
pub open spec fn collect_fees_spec(
    state: StateView,
    contract_address: Seq<char>,
    sender: Seq<char>,
    requirements: Seq<CollectFeeRequirementView>,
    host: HostAnswersView,
) -> Result<ResponseView, ErrorKind> {
    if !may_collect(state, sender) {
        Err(ErrorKind::Unauthorized)
    } else {
        match state.config.router {
            None => Err(ErrorKind::RouterAndApproverNotSet),
            Some(router) => match batch_messages(
                requirements,
                host.approver_balances,
                classify(state.config.distribute_token, host.distribute_token_address),
                router,
                contract_address,
            ) {
                Err(e) => Err(e),
                Ok(messages) => Ok(ResponseView { messages, attributes: Seq::empty() }),
            },
        }
    }
}

/// State and result of a command.
pub open spec fn execute_spec(
    state: StateView,
    contract_address: Seq<char>,
    sender: Seq<char>,
    msg: ExecuteMsgView,
    host: HostAnswersView,
) -> (StateView, Result<ResponseView, ErrorKind>) {
    match msg {
        ExecuteMsgView::UpdateConfig { owner, distribute_token } => update_config_spec(
            state,
            sender,
            owner,
            distribute_token,
        ),
        ExecuteMsgView::UpdateDistributeTarget {
            distribute_targets,
        } => update_distribute_target_spec(state, sender, distribute_targets),
        ExecuteMsgView::UpdateExecutors { executors, permission } => update_executors_spec(
            state,
            sender,
            executors,
            permission,
        ),
        ExecuteMsgView::Distribute { amount_distribute } => (
            state,
            distribute_spec(state, sender, amount_distribute, host.contract_balance),
        ),
        ExecuteMsgView::CollectFees { collect_fee_requirements } => (
            state,
            collect_fees_spec(state, contract_address, sender, collect_fee_requirements, host),
        ),
    }
}

/// Runs a command on the state. An invocation that fails leaves the state
/// as it was.
pub fn execute(
    state: &mut State,
    env: &Env,
    info: &MessageInfo,
    msg: ExecuteMsg,
    host: &HostAnswers,
) -> (res: Result<Response, ContractError>)
    ensures
        (final(state)@, response_outcome(res)) == execute_spec(
            old(state)@,
            env.contract_address@,
            info.sender@,
            msg@,
            host@,
        ),
        res is Err ==> final(state)@ == old(state)@,
{
    match msg {
        ExecuteMsg::UpdateConfig { owner, distribute_token } => execute_update_config(
            state,
            info,
            owner,
            distribute_token,
        ),
        ExecuteMsg::UpdateDistributeTarget {
            distribute_targets,
        } => execute_update_distribute_target(state, info, distribute_targets),
        ExecuteMsg::UpdateExecutors { executors, permission } => execute_update_executors(
            state,
            info,
            executors,
            permission,
        ),
        ExecuteMsg::Distribute { amount_distribute } => execute_distribute(
            state,
            info,
            amount_distribute,
            host.contract_balance,
        ),
        ExecuteMsg::CollectFees { collect_fee_requirements } => execute_collect_fees(
            state,
            env,
            info,
            collect_fee_requirements,
            host,
        ),
    }
}

/// Owner only: replaces the owner, the settlement token, or both, and
/// reports the configuration that results.
pub fn execute_update_config(
    state: &mut State,
    info: &MessageInfo,
    owner: Option<String>,
    distribute_token: Option<String>,
) -> (res: Result<Response, ContractError>)
    ensures
        (final(state)@, response_outcome(res)) == update_config_spec(
            old(state)@,
            info.sender@,
            crate::model::text_opt(owner),
            crate::model::text_opt(distribute_token),
        ),
{
    if !(state.config.owner == info.sender) {
        return Err(ContractError::Unauthorized {  });
    }
    if let Some(new_owner) = owner {
        state.config.owner = new_owner;
    }
    if let Some(new_token) = distribute_token {
        state.config.distribute_token = new_token;
    }
    let response = Response::new().add_attribute(
        "action",
        String::from_str("update_config"),
    ).add_attribute("owner", state.config.owner.clone()).add_attribute(
        "distribute_token",
        state.config.distribute_token.clone(),
    );
    proof {
        let expected = update_config_spec(
            old(state)@,
            info.sender@,
            crate::model::text_opt(owner),
            crate::model::text_opt(distribute_token),
        );
        assert(response@.attributes =~= expected.1->Ok_0.attributes);
    }
    Ok(response)
}

/// Owner only: replaces the whole target list.
pub fn execute_update_distribute_target(
    state: &mut State,
    info: &MessageInfo,
    distribute_targets: Vec<DistributeTarget>,
) -> (res: Result<Response, ContractError>)
    ensures
        (final(state)@, response_outcome(res)) == update_distribute_target_spec(
            old(state)@,
            info.sender@,
            distribute_targets.deep_view(),
        ),
{
    if !(state.config.owner == info.sender) {
        return Err(ContractError::Unauthorized {  });
    }
    state.distribution_targets = distribute_targets;
    let response = Response::new().add_attribute(
        "action",
        String::from_str("update_distribute_target"),
    );
    Ok(response)
}

/// Owner only: grants the right to collect fees to the listed identities,
/// or takes it from them.
pub fn execute_update_executors(
    state: &mut State,
    info: &MessageInfo,
    executors: Vec<String>,
    permission: bool,
) -> (res: Result<Response, ContractError>)
    ensures
        (final(state)@, response_outcome(res)) == update_executors_spec(
            old(state)@,
            info.sender@,
            executors.deep_view(),
            permission,
        ),
{
    if !(state.config.owner == info.sender) {
        return Err(ContractError::Unauthorized {  });
    }
    if permission {
        grant_identities(&mut state.executors, &executors);
    } else {
        revoke_identities(&mut state.executors, &executors);
    }
    let response = Response::new().add_attribute(
        "action",
        String::from_str("update_executors"),
    );
    Ok(response)
}

/// Wraps each payout into an instruction of the batch, in the same order.
pub fn into_instructions(messages: Vec<WasmMsg>) -> (res: Vec<CosmosMsg>)
    ensures
        res.deep_view() == as_instructions(messages.deep_view()),
{
    let ghost all = messages.deep_view();
    let mut res: Vec<CosmosMsg> = Vec::new();
    for message in iter: messages
        invariant
            all == messages.deep_view(),
            iter.seq() == messages@,
            res.len() == iter.index(),
            forall|j: int| 0 <= j < res.len() ==> res[j]@ == CosmosMsgView::Wasm(all[j]),
    {
        res.push(CosmosMsg::Wasm(message));
    }
    res
}

/// Owner only: pays `amount_distribute` of the settlement token out to the
/// targets. `contract_balance` is the treasury's balance of that token as
/// the host reports it.
pub fn execute_distribute(
    state: &State,
    info: &MessageInfo,
    amount_distribute: u128,
    contract_balance: u128,
) -> (res: Result<Response, ContractError>)
    ensures
        response_outcome(res) == distribute_spec(
            state@,
            info.sender@,
            amount_distribute,
            contract_balance,
        ),
{
    if !(state.config.owner == info.sender) {
        return Err(ContractError::Unauthorized {  });
    }
    if amount_distribute > contract_balance {
        return Err(ContractError::ExceedContractBalance {  });
    }
    let messages = match load_target_messages(
        &state.distribution_targets,
        amount_distribute,
        &state.config.distribute_token,
    ) {
        Ok(messages) => messages,
        Err(e) => {
            return Err(e);
        },
    };
    let response = Response::new().add_messages(into_instructions(messages)).add_attribute(
        "action",
        String::from_str("distribute"),
    ).add_attribute("amount_distribute", to_decimal_string(amount_distribute));
    proof {
        let expected = distribute_spec(state@, info.sender@, amount_distribute, contract_balance);
        assert(response@.attributes =~= expected->Ok_0.attributes);
    }
    Ok(response)
}

/// Owner or executor: sweeps the fees that the requirements describe and
/// routes them, swapped into the settlement token, to the treasury.
pub fn execute_collect_fees(
    state: &State,
    env: &Env,
    info: &MessageInfo,
    collect_fee_requirements: Vec<CollectFeeRequirement>,
    host: &HostAnswers,
) -> (res: Result<Response, ContractError>)
    ensures
        response_outcome(res) == collect_fees_spec(
            state@,
            env.contract_address@,
            info.sender@,
            collect_fee_requirements.deep_view(),
            host@,
        ),
{
    if !(state.config.owner == info.sender) && !contains_identity(&state.executors, &info.sender) {
        return Err(ContractError::Unauthorized {  });
    }
    let router = match &state.config.router {
        Some(router) => router,
        None => {
            return Err(ContractError::RouterAndApproverNotSet {  });
        },
    };
    let distribute_asset = asset_info_from_string(
        state.config.distribute_token.clone(),
        duplicate_text_opt(&host.distribute_token_address),
    );
    let messages = match collect_fee_messages(
        &collect_fee_requirements,
        &host.approver_balances,
        &distribute_asset,
        router,
        &env.contract_address,
    ) {
        Ok(messages) => messages,
        Err(e) => {
            return Err(e);
        },
    };
    let response = Response::new().add_messages(messages);
    Ok(response)
}

/// The answer to a question about the state.
pub open spec fn query_spec(state: StateView, msg: QueryMsgView) -> QueryResponseView {
    match msg {
        QueryMsgView::Config {  } => QueryResponseView::Config(state.config),
        QueryMsgView::DistributeTargets {  } => QueryResponseView::DistributeTargets(
            state.distribution_targets,
        ),
        QueryMsgView::IsExecutor { addr } => QueryResponseView::IsExecutor(
            state.executors.contains(addr),
        ),
    }
}

/// Answers a question about the state.
pub fn query(state: &State, msg: QueryMsg) -> (res: QueryResponse)
    ensures
        res@ == query_spec(state@, msg@),
{
    match msg {
        QueryMsg::Config {  } => QueryResponse::Config(ConfigResponse(state.config.duplicate())),
        QueryMsg::DistributeTargets {  } => QueryResponse::DistributeTargets(
            DistributeTargetsResponse(duplicate_targets(&state.distribution_targets)),
        ),
        QueryMsg::IsExecutor { addr } => QueryResponse::IsExecutor(
            contains_identity(&state.executors, &addr),
        ),
    }
}

/// Migrates to a new code version. Nothing is kept of the message, and the
/// state stays as it is: the response carries nothing.
pub fn migrate(_msg: MigrateMsg) -> (res: Response)
    ensures
        res@ == ResponseView::empty(),
{
    Response::new()
}

} // verus!
