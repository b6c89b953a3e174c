use vstd::prelude::*;

use cosmwasm_std::StdError;

verus! {

#[verifier::external_type_specification]
#[verifier::external_body]
pub struct ExStdError(StdError);

/// Why a state-changing call was rejected.
#[derive(Debug)]
pub enum ContractError {
    Std(StdError),
    Unauthorized {},
    NotEnoughAmount {},
    IdNotExists { id: String },
    IdTaken { id: String },
    InvalidAmount {},
}

/// The mathematical content of a `ContractError`.
pub ghost enum ErrorView {
    Std,
    Unauthorized,
    NotEnoughAmount,
    IdNotExists(Seq<char>),
    IdTaken(Seq<char>),
    InvalidAmount,
}

impl View for ContractError {
    type V = ErrorView;

    open spec fn view(&self) -> ErrorView {
        match self {
            ContractError::Std(_) => ErrorView::Std,
            ContractError::Unauthorized {} => ErrorView::Unauthorized,
            ContractError::NotEnoughAmount {} => ErrorView::NotEnoughAmount,
            ContractError::IdNotExists { id } => ErrorView::IdNotExists(id@),
            ContractError::IdTaken { id } => ErrorView::IdTaken(id@),
            ContractError::InvalidAmount {} => ErrorView::InvalidAmount,
        }
    }
}

/// Relies on cosmwasm_std::StdError::generic_err: a generic error carrying `msg`.
#[verifier::external_body]
pub(crate) fn generic_err(msg: &str) -> (r: StdError) {
    StdError::generic_err(msg)
}

} // verus!
