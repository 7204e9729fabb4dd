use vstd::prelude::*;
use crate::coin::CoinView;
use crate::contract::{burn_step, exercise_step, query_step, transfer_step};
use crate::error::ErrorView;
use crate::msg::{send, ResponseView};
use crate::state::StateView;

verus! {

/// The record after each of `recipients`, in turn, is named owner by the
/// owner of the moment; `None` once the record is gone or a step is refused.
pub open spec fn after_owner_transfers(slot: Option<StateView>, recipients: Seq<Seq<char>>) -> Option<
    StateView,
>
    decreases recipients.len(),
{
    if recipients.len() == 0 {
        slot
    } else {
        let prev = after_owner_transfers(slot, recipients.drop_last());
        match prev {
            Some(s) => match transfer_step(prev, s.owner, recipients.last()) {
                Ok((next, _)) => next,
                Err(_) => None,
            },
            None => None,
        }
    }
}

/// Transfers made by the owner of the moment all succeed, and change only the
/// owner: creator, collateral, counter-offer and expiry stay as they were,
/// and the owner is the last recipient named.
pub proof fn lemma_owner_transfers_keep_terms(s: StateView, recipients: Seq<Seq<char>>)
    ensures
        after_owner_transfers(Some(s), recipients) matches Some(t) && t.creator == s.creator
            && t.collateral == s.collateral && t.counter_offer == s.counter_offer && t.expires
            == s.expires && t.owner == (if recipients.len() == 0 {
            s.owner
        } else {
            recipients.last()
        }),
    decreases recipients.len(),
{
    if recipients.len() > 0 {
        lemma_owner_transfers_keep_terms(s, recipients.drop_last());
    }
}

/// A transfer by anyone but the owner is refused as unauthorized, and so
/// leaves the record as it was.
pub proof fn lemma_stranger_cannot_transfer(s: StateView, sender: Seq<char>, recipient: Seq<char>)
    requires
        sender != s.owner,
    ensures
        transfer_step(Some(s), sender, recipient) == Err::<
            (Option<StateView>, ResponseView),
            ErrorView,
        >(ErrorView::Unauthorized),
{
}

/// Once no record is left, every further call fails with `NotFound`.
pub proof fn lemma_settled_option_is_inert(
    sender: Seq<char>,
    recipient: Seq<char>,
    funds: Seq<CoinView>,
    height: u64,
)
    ensures
        query_step(None) == Err::<StateView, ErrorView>(ErrorView::NotFound),
        transfer_step(None, sender, recipient) == Err::<
            (Option<StateView>, ResponseView),
            ErrorView,
        >(ErrorView::NotFound),
        exercise_step(None, sender, funds, height) == Err::<
            (Option<StateView>, ResponseView),
            ErrorView,
        >(ErrorView::NotFound),
        burn_step(None, funds, height) == Err::<
            (Option<StateView>, ResponseView),
            ErrorView,
        >(ErrorView::NotFound),
{
}

/// A successful exercise pays the counter-offer to the creator and the
/// collateral to the owner, in two directives and nothing else, and deletes
/// the record, after which every call fails with `NotFound`.
pub proof fn lemma_exercise_settles(
    s: StateView,
    sender: Seq<char>,
    funds: Seq<CoinView>,
    height: u64,
)
    requires
        exercise_step(Some(s), sender, funds, height) is Ok,
    ensures
        sender == s.owner,
        height < s.expires,
        funds.to_multiset() == s.counter_offer.to_multiset(),
        exercise_step(Some(s), sender, funds, height)->Ok_0.0 is None,
        exercise_step(Some(s), sender, funds, height)->Ok_0.1.messages == seq![
            send(s.creator, s.counter_offer),
            send(s.owner, s.collateral),
        ],
        forall|sender2: Seq<char>, recipient: Seq<char>| #[trigger]
            transfer_step(exercise_step(Some(s), sender, funds, height)->Ok_0.0, sender2, recipient)
                == Err::<(Option<StateView>, ResponseView), ErrorView>(ErrorView::NotFound),
        forall|sender2: Seq<char>, funds2: Seq<CoinView>, height2: u64| #[trigger]
            exercise_step(exercise_step(Some(s), sender, funds, height)->Ok_0.0, sender2, funds2, height2)
                == Err::<(Option<StateView>, ResponseView), ErrorView>(ErrorView::NotFound),
        forall|funds2: Seq<CoinView>, height2: u64| #[trigger]
            burn_step(exercise_step(Some(s), sender, funds, height)->Ok_0.0, funds2, height2)
                == Err::<(Option<StateView>, ResponseView), ErrorView>(ErrorView::NotFound),
        query_step(exercise_step(Some(s), sender, funds, height)->Ok_0.0) == Err::<
            StateView,
            ErrorView,
        >(ErrorView::NotFound),
{
}

/// A successful reclaim comes at or after expiry with no funds, pays the
/// collateral back to the creator in one directive, and deletes the record,
/// after which every call fails with `NotFound`.
pub proof fn lemma_burn_settles(s: StateView, funds: Seq<CoinView>, height: u64)
    requires
        burn_step(Some(s), funds, height) is Ok,
    ensures
        height >= s.expires,
        funds.len() == 0,
        burn_step(Some(s), funds, height)->Ok_0.0 is None,
        burn_step(Some(s), funds, height)->Ok_0.1.messages == seq![send(s.creator, s.collateral)],
        forall|sender2: Seq<char>, recipient: Seq<char>| #[trigger]
            transfer_step(burn_step(Some(s), funds, height)->Ok_0.0, sender2, recipient)
                == Err::<(Option<StateView>, ResponseView), ErrorView>(ErrorView::NotFound),
        forall|sender2: Seq<char>, funds2: Seq<CoinView>, height2: u64| #[trigger]
            exercise_step(burn_step(Some(s), funds, height)->Ok_0.0, sender2, funds2, height2)
                == Err::<(Option<StateView>, ResponseView), ErrorView>(ErrorView::NotFound),
        forall|funds2: Seq<CoinView>, height2: u64| #[trigger]
            burn_step(burn_step(Some(s), funds, height)->Ok_0.0, funds2, height2)
                == Err::<(Option<StateView>, ResponseView), ErrorView>(ErrorView::NotFound),
        query_step(burn_step(Some(s), funds, height)->Ok_0.0) == Err::<
            StateView,
            ErrorView,
        >(ErrorView::NotFound),
{
}

} // verus!
