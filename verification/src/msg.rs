use crate::asset::{AssetInfo, AssetInfoView, SwapOperation, SwapOperationView};
use crate::model::text_opt;
use crate::state::{Config, ConfigView, DistributeTarget, DistributeTargetView};
use vstd::prelude::*;

verus! {

/// One-shot setup. Every identity in it has passed the host's validation.
#[derive(Debug, Clone, PartialEq)]
pub struct InstantiateMsg {
    pub owner: String,
    pub distribute_token: String,
    pub router: Option<String>,
    pub init_distribution_targets: Vec<DistributeTarget>,
    pub executors: Vec<String>,
}

/// The mathematical value of an [`InstantiateMsg`].
pub struct InstantiateMsgView {
    pub owner: Seq<char>,
    pub distribute_token: Seq<char>,
    pub router: Option<Seq<char>>,
    pub init_distribution_targets: Seq<DistributeTargetView>,
    pub executors: Seq<Seq<char>>,
}

impl View for InstantiateMsg {
    type V = InstantiateMsgView;

    open spec fn view(&self) -> InstantiateMsgView {
        InstantiateMsgView {
            owner: self.owner@,
            distribute_token: self.distribute_token@,
            router: text_opt(self.router),
            init_distribution_targets: self.init_distribution_targets.deep_view(),
            executors: self.executors.deep_view(),
        }
    }
}

/// One fee sweep: whose balance is swept, along which route it is swapped,
/// and the least amount the swap must give.
#[derive(Debug, Clone, PartialEq)]
pub struct CollectFeeRequirement {
    pub approver: String,
    pub swap_operations: Vec<SwapOperation>,
    pub minimum_receive: Option<u128>,
}

/// The mathematical value of a [`CollectFeeRequirement`].
pub struct CollectFeeRequirementView {
    pub approver: Seq<char>,
    pub swap_operations: Seq<SwapOperationView>,
    pub minimum_receive: Option<u128>,
}

impl View for CollectFeeRequirement {
    type V = CollectFeeRequirementView;

    open spec fn view(&self) -> CollectFeeRequirementView {
        CollectFeeRequirementView {
            approver: self.approver@,
            swap_operations: self.swap_operations.deep_view(),
            minimum_receive: self.minimum_receive,
        }
    }
}

impl DeepView for CollectFeeRequirement {
    type V = CollectFeeRequirementView;

    open spec fn deep_view(&self) -> CollectFeeRequirementView {
        self@
    }
}

impl CollectFeeRequirementView {
    /// The asset swept from the approver: what the first hop takes in.
    pub open spec fn offer_asset(self) -> Option<AssetInfoView> {
        if self.swap_operations.len() == 0 {
            None
        } else {
            Some(self.swap_operations[0].offer())
        }
    }
}

impl CollectFeeRequirement {
    /// The asset whose balance the host has to look up for this sweep: what
    /// the first hop takes in. A requirement without hops has none.
    pub fn offer_asset(&self) -> (res: Option<&AssetInfo>)
        ensures
            res is Some <==> self@.offer_asset() is Some,
            res matches Some(asset) ==> Some(asset@) == self@.offer_asset(),
    {
        if self.swap_operations.len() == 0 {
            None
        } else {
            Some(self.swap_operations[0].offer_asset())
        }
    }
}

/// The commands of the treasury.
#[derive(Debug, Clone, PartialEq)]
pub enum ExecuteMsg {
    /// Owner only: replaces the owner, the settlement token, or both.
    UpdateConfig { owner: Option<String>, distribute_token: Option<String> },
    /// Owner only: replaces the whole target list.
    UpdateDistributeTarget { distribute_targets: Vec<DistributeTarget> },
    /// Owner only: grants or revokes the right to collect fees.
    UpdateExecutors { executors: Vec<String>, permission: bool },
    /// Owner only: pays the amount out to the targets by their weights.
    Distribute { amount_distribute: u128 },
    /// Owner or executor: sweeps fees and routes them to the treasury.
    CollectFees { collect_fee_requirements: Vec<CollectFeeRequirement> },
}

/// The mathematical value of an [`ExecuteMsg`].
pub enum ExecuteMsgView {
    UpdateConfig { owner: Option<Seq<char>>, distribute_token: Option<Seq<char>> },
    UpdateDistributeTarget { distribute_targets: Seq<DistributeTargetView> },
    UpdateExecutors { executors: Seq<Seq<char>>, permission: bool },
    Distribute { amount_distribute: u128 },
    CollectFees { collect_fee_requirements: Seq<CollectFeeRequirementView> },
}

impl View for ExecuteMsg {
    type V = ExecuteMsgView;

    open spec fn view(&self) -> ExecuteMsgView {
        match *self {
            ExecuteMsg::UpdateConfig { owner, distribute_token } => ExecuteMsgView::UpdateConfig {
                owner: text_opt(owner),
                distribute_token: text_opt(distribute_token),
            },
            ExecuteMsg::UpdateDistributeTarget {
                distribute_targets,
            } => ExecuteMsgView::UpdateDistributeTarget {
                distribute_targets: distribute_targets.deep_view(),
            },
            ExecuteMsg::UpdateExecutors { executors, permission } => {
                ExecuteMsgView::UpdateExecutors { executors: executors.deep_view(), permission }
            },
            ExecuteMsg::Distribute { amount_distribute } => ExecuteMsgView::Distribute {
                amount_distribute,
            },
            ExecuteMsg::CollectFees { collect_fee_requirements } => ExecuteMsgView::CollectFees {
                collect_fee_requirements: collect_fee_requirements.deep_view(),
            },
        }
    }
}

/// The questions the treasury answers.
#[derive(Debug, Clone, PartialEq)]
pub enum QueryMsg {
    Config {},
    DistributeTargets {},
    IsExecutor { addr: String },
}

/// The mathematical value of a [`QueryMsg`].
pub enum QueryMsgView {
    Config {},
    DistributeTargets {},
    IsExecutor { addr: Seq<char> },
}

impl View for QueryMsg {
    type V = QueryMsgView;

    open spec fn view(&self) -> QueryMsgView {
        match *self {
            QueryMsg::Config {} => QueryMsgView::Config {},
            QueryMsg::DistributeTargets {} => QueryMsgView::DistributeTargets {},
            QueryMsg::IsExecutor { addr } => QueryMsgView::IsExecutor { addr: addr@ },
        }
    }
}

/// The answer to [`QueryMsg::Config`].
#[derive(Debug, Clone, PartialEq)]
pub struct ConfigResponse(pub Config);

/// The answer to [`QueryMsg::DistributeTargets`].
#[derive(Debug, Clone, PartialEq)]
pub struct DistributeTargetsResponse(pub Vec<DistributeTarget>);

/// The answer to a query, by the kind of the question.
#[derive(Debug, Clone, PartialEq)]
pub enum QueryResponse {
    Config(ConfigResponse),
    DistributeTargets(DistributeTargetsResponse),
    IsExecutor(bool),
}

/// The mathematical value of a [`QueryResponse`].
pub enum QueryResponseView {
    Config(ConfigView),
    DistributeTargets(Seq<DistributeTargetView>),
    IsExecutor(bool),
}

impl View for QueryResponse {
    type V = QueryResponseView;

    open spec fn view(&self) -> QueryResponseView {
        match *self {
            QueryResponse::Config(response) => QueryResponseView::Config(response.0@),
            QueryResponse::DistributeTargets(response) => QueryResponseView::DistributeTargets(
                response.0.deep_view(),
            ),
            QueryResponse::IsExecutor(answer) => QueryResponseView::IsExecutor(answer),
        }
    }
}

/// The parameters of a migration.
#[derive(Debug, Clone, PartialEq)]
pub struct MigrateMsg {
    pub new_router: String,
}

/// Where an invocation runs: the treasury's own account.
#[derive(Debug, Clone, PartialEq)]
pub struct Env {
    pub contract_address: String,
}

/// Who invokes.
#[derive(Debug, Clone, PartialEq)]
pub struct MessageInfo {
    pub sender: String,
}

/// What the host looked up for one invocation, before the decision is made.
#[derive(Debug, Clone, PartialEq)]
pub struct HostAnswers {
    /// The settlement token as an address, where the host's strict
    /// validation accepts it.
    pub distribute_token_address: Option<String>,
    /// The treasury's own balance of the settlement token.
    pub contract_balance: u128,
    /// For each fee requirement, in order, the approver's balance of the
    /// offer asset. A balance that is missing counts as zero.
    pub approver_balances: Vec<u128>,
}

/// The mathematical value of [`HostAnswers`].
pub struct HostAnswersView {
    pub distribute_token_address: Option<Seq<char>>,
    pub contract_balance: u128,
    pub approver_balances: Seq<u128>,
}

impl View for HostAnswers {
    type V = HostAnswersView;

    open spec fn view(&self) -> HostAnswersView {
        HostAnswersView {
            distribute_token_address: text_opt(self.distribute_token_address),
            contract_balance: self.contract_balance,
            approver_balances: self.approver_balances@,
        }
    }
}

} // verus!
