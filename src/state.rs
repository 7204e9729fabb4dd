use vstd::prelude::*;
use crate::coin::{Coin, CoinView, coins_view, copy_coins};
use crate::error::ContractError;

verus! {

/// The one record of an active option.
#[derive(Debug, PartialEq, Eq)]
pub struct State {
    pub creator: String,
    pub owner: String,
    pub collateral: Vec<Coin>,
    pub counter_offer: Vec<Coin>,
    pub expires: u64,
}

/// The value of a [`State`].
pub struct StateView {
    pub creator: Seq<char>,
    pub owner: Seq<char>,
    pub collateral: Seq<CoinView>,
    pub counter_offer: Seq<CoinView>,
    pub expires: u64,
}

impl View for State {
    type V = StateView;

    open spec fn view(&self) -> StateView {
        StateView {
            creator: self.creator@,
            owner: self.owner@,
            collateral: coins_view(self.collateral@),
            counter_offer: coins_view(self.counter_offer@),
            expires: self.expires,
        }
    }
}

impl Clone for State {
    fn clone(&self) -> (r: Self)
        ensures
            r@ == self@,
    {
        State {
            creator: self.creator.clone(),
            owner: self.owner.clone(),
            collateral: copy_coins(&self.collateral),
            counter_offer: copy_coins(&self.counter_offer),
            expires: self.expires,
        }
    }
}

/// The value of an optional record.
pub open spec fn slot_view(slot: Option<State>) -> Option<StateView> {
    match slot {
        Some(s) => Some(s@),
        None => None,
    }
}

/// The storage slot that holds at most one [`State`].
pub struct Store {
    slot: Option<State>,
}

impl View for Store {
    type V = Option<StateView>;

    closed spec fn view(&self) -> Option<StateView> {
        slot_view(self.slot)
    }
}

impl Store {
    /// A slot that holds no record.
    pub fn new() -> (r: Store)
        ensures
            r@ is None,
    {
        Store { slot: None }
    }

    /// A slot that holds `slot`.
    pub fn from_slot(slot: Option<State>) -> (r: Store)
        ensures
            r@ == slot_view(slot),
    {
        Store { slot }
    }

    /// The record that the slot holds, if any.
    pub fn into_slot(self) -> (r: Option<State>)
        ensures
            slot_view(r) == self@,
    {
        self.slot
    }

    /// A copy of the record, or `NotFound` when there is none.
    pub fn load(&self) -> (r: Result<State, ContractError>)
        ensures
            match self@ {
                Some(v) => r matches Ok(s) && s@ == v,
                None => r == Err::<State, ContractError>(ContractError::NotFound),
            },
    {
        match &self.slot {
            Some(s) => Ok(s.clone()),
            None => Err(ContractError::NotFound),
        }
    }

    /// Writes `state` over whatever the slot held.
    pub fn save(&mut self, state: State)
        ensures
            final(self)@ == Some(state@),
    {
        self.slot = Some(state);
    }

    /// Deletes the record, if any.
    pub fn remove(&mut self)
        ensures
            final(self)@ is None,
    {
        self.slot = None;
    }
}

} // verus!
