use vstd::prelude::*;
use crate::coin::{CoinView, coins_view, same_funds};
use crate::error::{ContractError, ErrorView};
use crate::msg::{
    attr, send, Env, ExecuteMsg, InstantiateMsg, MessageInfo, QueryMsg, Response,
    ResponseView, SendView,
};
use crate::state::{State, StateView, Store};

verus! {

/// What a handler does to the slot and hands back, or why it refused.
pub open spec fn outcome(r: Result<Response, ContractError>, slot: Option<StateView>) -> Result<
    (Option<StateView>, ResponseView),
    ErrorView,
> {
    match r {
        Ok(res) => Ok((slot, res@)),
        Err(e) => Err(e@),
    }
}

/// Creation: refused unless `expires` lies above `height`; else a new record
/// owned by its creator.
pub open spec fn instantiate_step(
    sender: Seq<char>,
    funds: Seq<CoinView>,
    counter_offer: Seq<CoinView>,
    expires: u64,
    height: u64,
) -> Result<(Option<StateView>, ResponseView), ErrorView> {
    if expires <= height {
        Err(ErrorView::InvalidExpiry)
    } else {
        Ok(
            (
                Some(
                    StateView {
                        creator: sender,
                        owner: sender,
                        collateral: funds,
                        counter_offer,
                        expires,
                    },
                ),
                ResponseView { messages: seq![], attributes: seq![] },
            ),
        )
    }
}

/// Transfer: the owner, and only the owner, names a new owner.
pub open spec fn transfer_step(
    slot: Option<StateView>,
    sender: Seq<char>,
    recipient: Seq<char>,
) -> Result<(Option<StateView>, ResponseView), ErrorView> {
    match slot {
        None => Err(ErrorView::NotFound),
        Some(s) => if sender != s.owner {
            Err(ErrorView::Unauthorized)
        } else {
            Ok(
                (
                    Some(StateView { owner: recipient, ..s }),
                    ResponseView {
                        messages: seq![],
                        attributes: seq![attr("action"@, "transfer"@), attr("owner"@, recipient)],
                    },
                ),
            )
        },
    }
}

/// Exercise: before expiry the owner pays exactly the coins of the
/// counter-offer, in any order; the counter-offer goes to the creator, the
/// collateral to the owner, and the record is deleted.
pub open spec fn exercise_step(
    slot: Option<StateView>,
    sender: Seq<char>,
    funds: Seq<CoinView>,
    height: u64,
) -> Result<(Option<StateView>, ResponseView), ErrorView> {
    match slot {
        None => Err(ErrorView::NotFound),
        Some(s) => if sender != s.owner {
            Err(ErrorView::Unauthorized)
        } else if height >= s.expires {
            Err(ErrorView::Expired)
        } else if funds.to_multiset() != s.counter_offer.to_multiset() {
            Err(ErrorView::FundsMismatch { expected: s.counter_offer })
        } else {
            Ok(
                (
                    None,
                    ResponseView {
                        messages: seq![
                            send(s.creator, s.counter_offer),
                            send(s.owner, s.collateral),
                        ],
                        attributes: seq![attr("action"@, "execute"@)],
                    },
                ),
            )
        },
    }
}

/// Reclaim: from expiry on, anyone who sends no funds returns the collateral
/// to the creator, and the record is deleted.
pub open spec fn burn_step(slot: Option<StateView>, funds: Seq<CoinView>, height: u64) -> Result<
    (Option<StateView>, ResponseView),
    ErrorView,
> {
    match slot {
        None => Err(ErrorView::NotFound),
        Some(s) => if height < s.expires {
            Err(ErrorView::Expired)
        } else if funds.len() > 0 {
            Err(ErrorView::UnexpectedFunds)
        } else {
            Ok(
                (
                    None,
                    ResponseView {
                        messages: seq![send(s.creator, s.collateral)],
                        attributes: seq![attr("action"@, "burn"@)],
                    },
                ),
            )
        },
    }
}

/// Query: the whole record, or `NotFound`.
pub open spec fn query_step(slot: Option<StateView>) -> Result<StateView, ErrorView> {
    match slot {
        Some(s) => Ok(s),
        None => Err(ErrorView::NotFound),
    }
}

/// Settles the option for its owner: see [`exercise_step`].
pub fn try_execute(store: &mut Store, env: Env, info: MessageInfo) -> (r: Result<
    Response,
    ContractError,
>)
    ensures
        r is Err ==> final(store)@ == old(store)@,
        outcome(r, final(store)@) == exercise_step(
            old(store)@,
            info.sender@,
            coins_view(info.funds@),
            env.block.height,
        ),
        r is Ok <==> (old(store)@ matches Some(s) && info.sender@ == s.owner && env.block.height
            < s.expires && coins_view(info.funds@).to_multiset() == s.counter_offer.to_multiset()),
{
    let state = match store.load() {
        Ok(s) => s,
        Err(e) => return Err(e),
    };
    if info.sender != state.owner {
        return Err(ContractError::Unauthorized);
    }
    if env.block.height >= state.expires {
        return Err(ContractError::Expired);
    }
    if !same_funds(&info.funds, &state.counter_offer) {
        return Err(ContractError::FundsMismatch { expected: state.counter_offer });
    }
    let ghost s = state@;
    let mut res = Response::new();
    res.add_message(state.creator, state.counter_offer);
    res.add_message(state.owner, state.collateral);
    store.remove();
    res.add_attribute("action", "execute".to_owned());
    assert(res@.messages =~= seq![send(s.creator, s.counter_offer), send(s.owner, s.collateral)]);
    assert(res@.attributes =~= seq![attr("action"@, "execute"@)]);
    Ok(res)
}

/// Returns the collateral of an expired option to its creator: see
/// [`burn_step`]. Any caller may do so.
pub fn try_burn(store: &mut Store, env: Env, info: MessageInfo) -> (r: Result<
    Response,
    ContractError,
>)
    ensures
        r is Err ==> final(store)@ == old(store)@,
        outcome(r, final(store)@) == burn_step(
            old(store)@,
            coins_view(info.funds@),
            env.block.height,
        ),
        r is Ok <==> (old(store)@ matches Some(s) && env.block.height >= s.expires
            && info.funds@.len() == 0),
{
    let state = match store.load() {
        Ok(s) => s,
        Err(e) => return Err(e),
    };
    if env.block.height < state.expires {
        return Err(ContractError::Expired);
    }
    if info.funds.len() > 0 {
        return Err(ContractError::UnexpectedFunds);
    }
    let ghost s = state@;
    let mut res = Response::new();
    res.add_message(state.creator, state.collateral);
    store.remove();
    res.add_attribute("action", "burn".to_owned());
    assert(res@.messages =~= seq![send(s.creator, s.collateral)]);
    assert(res@.attributes =~= seq![attr("action"@, "burn"@)]);
    Ok(res)
}

/// Creates the option: see [`instantiate_step`]. The funds sent become the
/// collateral, and the caller both creator and owner.
pub fn instantiate(store: &mut Store, env: Env, info: MessageInfo, msg: InstantiateMsg) -> (r:
    Result<Response, ContractError>)
    ensures
        r is Err ==> final(store)@ == old(store)@,
        outcome(r, final(store)@) == instantiate_step(
            info.sender@,
            coins_view(info.funds@),
            coins_view(msg.counter_offer@),
            msg.expires,
            env.block.height,
        ),
        r is Ok <==> msg.expires > env.block.height,
        r is Err ==> r == Err::<Response, ContractError>(ContractError::InvalidExpiry),
        r is Ok ==> (final(store)@ matches Some(s) && s.creator == info.sender@ && s.owner
            == info.sender@),
{
    if msg.expires <= env.block.height {
        return Err(ContractError::InvalidExpiry);
    }
    let state = State {
        creator: info.sender.clone(),
        owner: info.sender,
        collateral: info.funds,
        counter_offer: msg.counter_offer,
        expires: msg.expires,
    };
    store.save(state);
    Ok(Response::new())
}

/// Hands the right to exercise to `recipient`: see [`transfer_step`].
pub fn try_transfer(store: &mut Store, env: Env, info: MessageInfo, recipient: String) -> (r:
    Result<Response, ContractError>)
    ensures
        r is Err ==> final(store)@ == old(store)@,
        outcome(r, final(store)@) == transfer_step(old(store)@, info.sender@, recipient@),
        r is Ok <==> (old(store)@ matches Some(s) && info.sender@ == s.owner),
        old(store)@ matches Some(s) && info.sender@ != s.owner ==> r == Err::<
            Response,
            ContractError,
        >(ContractError::Unauthorized),
{
    let mut state = match store.load() {
        Ok(s) => s,
        Err(e) => return Err(e),
    };
    if info.sender != state.owner {
        return Err(ContractError::Unauthorized);
    }
    let ghost before = state@;
    state.owner = recipient.clone();
    assert(state@ == StateView { owner: recipient@, ..before });
    store.save(state);
    let mut res = Response::new();
    res.add_attribute("action", "transfer".to_owned());
    let ghost who = recipient@;
    res.add_attribute("owner", recipient);
    assert(res@.messages =~= Seq::<SendView>::empty());
    assert(res@.attributes =~= seq![attr("action"@, "transfer"@), attr("owner"@, who)]);
    Ok(res)
}

/// Routes a call on an active option to its handler.
pub fn execute(store: &mut Store, env: Env, info: MessageInfo, msg: ExecuteMsg) -> (r: Result<
    Response,
    ContractError,
>)
    ensures
        r is Err ==> final(store)@ == old(store)@,
        outcome(r, final(store)@) == match msg {
            ExecuteMsg::Transfer { recipient } => transfer_step(
                old(store)@,
                info.sender@,
                recipient@,
            ),
            ExecuteMsg::Execute {  } => exercise_step(
                old(store)@,
                info.sender@,
                coins_view(info.funds@),
                env.block.height,
            ),
            ExecuteMsg::Burn {  } => burn_step(
                old(store)@,
                coins_view(info.funds@),
                env.block.height,
            ),
        },
{
    match msg {
        ExecuteMsg::Transfer { recipient } => try_transfer(store, env, info, recipient),
        ExecuteMsg::Execute {  } => try_execute(store, env, info),
        ExecuteMsg::Burn {  } => try_burn(store, env, info),
    }
}

/// Answers a read-only call: see [`query_step`].
pub fn query(store: &Store, _env: Env, msg: QueryMsg) -> (r: Result<State, ContractError>)
    ensures
        query_result(r) == query_step(store@),
{
    match msg {
        QueryMsg::Config {  } => query_config(store),
    }
}

/// The whole record of the active option, or `NotFound`.
pub fn query_config(store: &Store) -> (r: Result<State, ContractError>)
    ensures
        query_result(r) == query_step(store@),
{
    store.load()
}

/// The value of what a query hands back.
pub open spec fn query_result(r: Result<State, ContractError>) -> Result<StateView, ErrorView> {
    match r {
        Ok(s) => Ok(s@),
        Err(e) => Err(e@),
    }
}

} // verus!
