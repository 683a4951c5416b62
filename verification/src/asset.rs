use crate::model::text_opt;
use vstd::prelude::*;

verus! {

/// The kind of a token: a fungible-token contract or a native currency.
#[derive(Debug, Clone)]
pub enum AssetInfo {
    Token { contract_addr: String },
    NativeToken { denom: String },
}

/// The mathematical value of an [`AssetInfo`].
pub enum AssetInfoView {
    Token { contract_addr: Seq<char> },
    NativeToken { denom: Seq<char> },
}

impl View for AssetInfo {
    type V = AssetInfoView;

    open spec fn view(&self) -> AssetInfoView {
        match *self {
            AssetInfo::Token { contract_addr } => AssetInfoView::Token {
                contract_addr: contract_addr@,
            },
            AssetInfo::NativeToken { denom } => AssetInfoView::NativeToken { denom: denom@ },
        }
    }
}

impl PartialEq for AssetInfo {
    fn eq(&self, other: &AssetInfo) -> (res: bool) {
        match self {
            AssetInfo::Token { contract_addr } => match other {
                AssetInfo::Token { contract_addr: other_addr } => *contract_addr == *other_addr,
                AssetInfo::NativeToken { .. } => false,
            },
            AssetInfo::NativeToken { denom } => match other {
                AssetInfo::Token { .. } => false,
                AssetInfo::NativeToken { denom: other_denom } => *denom == *other_denom,
            },
        }
    }
}

impl vstd::std_specs::cmp::PartialEqSpecImpl for AssetInfo {
    open spec fn obeys_eq_spec() -> bool {
        true
    }

    open spec fn eq_spec(&self, other: &AssetInfo) -> bool {
        self@ == other@
    }
}

/// Classifies a token identifier from the outcome of the host's strict
/// address validation: a validated address denotes a token contract, and
/// anything else is taken for a native denomination.
pub fn asset_info_from_string(asset: String, validated: Option<String>) -> (res: AssetInfo)
    ensures
        res@ == classify(asset@, text_opt(validated)),
{
    match validated {
        Some(contract_addr) => AssetInfo::Token { contract_addr },
        None => AssetInfo::NativeToken { denom: asset },
    }
}

/// The classification rule of [`asset_info_from_string`].
pub open spec fn classify(asset: Seq<char>, validated: Option<Seq<char>>) -> AssetInfoView {
    match validated {
        Some(contract_addr) => AssetInfoView::Token { contract_addr },
        None => AssetInfoView::NativeToken { denom: asset },
    }
}

/// One hop of a swap route, in the router's vocabulary.
#[derive(Debug, Clone, PartialEq)]
pub enum SwapOperation {
    /// Swaps the offer asset for the ask asset on their pair.
    OraiSwap { offer_asset_info: AssetInfo, ask_asset_info: AssetInfo },
}

/// The mathematical value of a [`SwapOperation`].
pub enum SwapOperationView {
    OraiSwap { offer_asset_info: AssetInfoView, ask_asset_info: AssetInfoView },
}

impl View for SwapOperation {
    type V = SwapOperationView;

    open spec fn view(&self) -> SwapOperationView {
        match *self {
            SwapOperation::OraiSwap { offer_asset_info, ask_asset_info } => {
                SwapOperationView::OraiSwap {
                    offer_asset_info: offer_asset_info@,
                    ask_asset_info: ask_asset_info@,
                }
            },
        }
    }
}

impl DeepView for SwapOperation {
    type V = SwapOperationView;

    open spec fn deep_view(&self) -> SwapOperationView {
        self@
    }
}

impl SwapOperationView {
    /// The asset that the hop takes in.
    pub open spec fn offer(self) -> AssetInfoView {
        match self {
            SwapOperationView::OraiSwap { offer_asset_info, .. } => offer_asset_info,
        }
    }

    /// The asset that the hop gives out.
    pub open spec fn ask(self) -> AssetInfoView {
        match self {
            SwapOperationView::OraiSwap { ask_asset_info, .. } => ask_asset_info,
        }
    }
}

impl SwapOperation {
    /// The asset that the hop takes in.
    pub fn offer_asset(&self) -> (res: &AssetInfo)
        ensures
            res@ == self@.offer(),
    {
        match self {
            SwapOperation::OraiSwap { offer_asset_info, .. } => offer_asset_info,
        }
    }

    /// The asset that the hop gives out.
    pub fn ask_asset(&self) -> (res: &AssetInfo)
        ensures
            res@ == self@.ask(),
    {
        match self {
            SwapOperation::OraiSwap { ask_asset_info, .. } => ask_asset_info,
        }
    }
}

} // verus!
