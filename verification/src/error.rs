use vstd::prelude::*;

verus! {

/// The host library's error value. It is carried through unread.
#[verifier::external_type_specification]
#[verifier::external_body]
pub struct ExStdError(cosmwasm_std::StdError);

/// Every way an invocation can end without an instruction batch.
#[derive(Debug, PartialEq)]
pub enum ContractError {
    /// A serialization failure reported by the host library.
    Std(cosmwasm_std::StdError),
    /// The caller is neither the owner nor, where that suffices, an executor.
    Unauthorized {},
    /// The requested distribution is larger than the treasury's holdings.
    ExceedContractBalance {},
    /// Fee collection was requested while no router is configured.
    RouterAndApproverNotSet {},
    /// `amount * weight` does not fit in 128 bits.
    Overflow {},
    /// A fee requirement names no swap hop at all.
    EmptySwapOperations {},
}

/// A [`ContractError`] without what the host library reported.
pub enum ErrorKind {
    Std,
    Unauthorized,
    ExceedContractBalance,
    RouterAndApproverNotSet,
    Overflow,
    EmptySwapOperations,
}

impl View for ContractError {
    type V = ErrorKind;

    open spec fn view(&self) -> ErrorKind {
        match *self {
            ContractError::Std(_) => ErrorKind::Std,
            ContractError::Unauthorized {  } => ErrorKind::Unauthorized,
            ContractError::ExceedContractBalance {  } => ErrorKind::ExceedContractBalance,
            ContractError::RouterAndApproverNotSet {  } => ErrorKind::RouterAndApproverNotSet,
            ContractError::Overflow {  } => ErrorKind::Overflow,
            ContractError::EmptySwapOperations {  } => ErrorKind::EmptySwapOperations,
        }
    }
}

impl ErrorKind {
    /// The message of an error that the treasury itself raises. What the
    /// host library reports is worded by the host library.
    pub open spec fn text(self) -> Option<Seq<char>> {
        match self {
            ErrorKind::Std => None,
            ErrorKind::Unauthorized => Some("Unauthorized"@),
            ErrorKind::ExceedContractBalance => Some("Exceeds the contract balance"@),
            ErrorKind::RouterAndApproverNotSet => Some("Router and approver are not set"@),
            ErrorKind::Overflow => Some("Amount times weight overflows"@),
            ErrorKind::EmptySwapOperations => Some("A fee requirement names no swap operation"@),
        }
    }
}

impl ContractError {
    /// The message of the error, for people to read.
    pub fn to_text(&self) -> (res: String)
        ensures
            self@.text() matches Some(text) ==> res@ == text,
    {
        match self {
            ContractError::Std(e) => e.to_string(),
            ContractError::Unauthorized {  } => String::from_str("Unauthorized"),
            ContractError::ExceedContractBalance {  } => String::from_str(
                "Exceeds the contract balance",
            ),
            ContractError::RouterAndApproverNotSet {  } => String::from_str(
                "Router and approver are not set",
            ),
            ContractError::Overflow {  } => String::from_str("Amount times weight overflows"),
            ContractError::EmptySwapOperations {  } => String::from_str(
                "A fee requirement names no swap operation",
            ),
        }
    }
}

} // verus!
