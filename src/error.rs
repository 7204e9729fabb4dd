use vstd::prelude::*;
use crate::coin::{Coin, CoinView, coins_view};

verus! {

/// Why a call was refused. A refused call changes nothing.
#[derive(Debug, PartialEq, Eq)]
pub enum ContractError {
    /// No option is active: none was created, or it was settled.
    NotFound,
    /// The caller is not the principal that the call needs.
    Unauthorized,
    /// The expiry height given at creation is not above the current height.
    InvalidExpiry,
    /// Too late to exercise, or too early to reclaim.
    Expired,
    /// The funds sent to exercise differ from the counter-offer.
    FundsMismatch { expected: Vec<Coin> },
    /// Funds were sent with a reclaim.
    UnexpectedFunds,
}

/// The value of a [`ContractError`].
pub enum ErrorView {
    NotFound,
    Unauthorized,
    InvalidExpiry,
    Expired,
    FundsMismatch { expected: Seq<CoinView> },
    UnexpectedFunds,
}

impl View for ContractError {
    type V = ErrorView;

    open spec fn view(&self) -> ErrorView {
        match self {
            ContractError::NotFound => ErrorView::NotFound,
            ContractError::Unauthorized => ErrorView::Unauthorized,
            ContractError::InvalidExpiry => ErrorView::InvalidExpiry,
            ContractError::Expired => ErrorView::Expired,
            ContractError::FundsMismatch { expected } => ErrorView::FundsMismatch {
                expected: coins_view(expected@),
            },
            ContractError::UnexpectedFunds => ErrorView::UnexpectedFunds,
        }
    }
}

} // verus!
