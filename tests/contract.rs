use cw_option::coin::Coin;
use cw_option::contract;
use cw_option::contract::{instantiate, query, query_config, try_burn, try_execute, try_transfer};
use cw_option::error::ContractError;
use cw_option::msg::{
    Attribute, BankMsg, BlockInfo, Env, ExecuteMsg, InstantiateMsg, MessageInfo, QueryMsg,
};
use cw_option::state::{State, Store};

fn coins(amount: u128, denom: &str) -> Vec<Coin> {
    vec![Coin::new(amount, denom)]
}

fn mock_env() -> Env {
    Env { block: BlockInfo { height: 12_345 } }
}

fn env_at(height: u64) -> Env {
    Env { block: BlockInfo { height } }
}

fn mock_info(sender: &str, funds: &[Coin]) -> MessageInfo {
    MessageInfo { sender: sender.to_string(), funds: funds.to_vec() }
}

/// The option of the scenarios: 1 BTC for 40 ETH, expiring at 100000,
/// created at height 0 by `creator`.
fn created_option() -> Store {
    let mut store = Store::new();
    let msg = InstantiateMsg { counter_offer: coins(40, "ETH"), expires: 100_000 };
    instantiate(&mut store, env_at(0), mock_info("creator", &coins(1, "BTC")), msg).unwrap();
    store
}

fn send(to: &str, amount: Vec<Coin>) -> BankMsg {
    BankMsg::Send { to_address: to.to_string(), amount }
}

#[test]
fn proper_initialization() {
    let mut store = Store::new();

    let msg = InstantiateMsg { counter_offer: coins(40, "ETH"), expires: 100_000 };
    let env = mock_env();
    let info = mock_info("creator", &coins(1, "BTC"));

    let res = instantiate(&mut store, env, info, msg).unwrap();
    assert_eq!(0, res.messages.len());

    let res: State = query_config(&store).unwrap();
    assert_eq!(100_000, res.expires);
    assert_eq!("creator", res.owner.as_str());
    assert_eq!("creator", res.creator.as_str());
    assert_eq!(coins(1, "BTC"), res.collateral);
    assert_eq!(coins(40, "ETH"), res.counter_offer);
}

#[test]
fn transfer() {
    let mut store = Store::new();
    let msg = InstantiateMsg { counter_offer: coins(40, "ETH"), expires: 100_000 };
    let env = mock_env();
    let info = mock_info("creator", &coins(1, "BTC"));

    let res = instantiate(&mut store, env, info, msg).unwrap();
    assert_eq!(0, res.messages.len());

    // random cannot transfer
    let env = mock_env();
    let info = mock_info("anyone", &[]);
    let err = try_transfer(&mut store, env, info, "anyone".to_string()).unwrap_err();
    match err {
        ContractError::Unauthorized => {}
        e => panic!("unexpected: {:?}", e),
    }

    let env = mock_env();
    // owner can transfer
    let info = mock_info("creator", &[]);
    let res = try_transfer(&mut store, env, info, "someone".to_string()).unwrap();
    assert_eq!(res.attributes.len(), 2);
    assert_eq!(
        res.attributes[0],
        Attribute { key: "action".to_string(), value: "transfer".to_string() }
    );
    let res: State = query_config(&store).unwrap();
    assert_eq!("someone", res.owner.as_str());
    assert_eq!("creator", res.creator.as_str());
}

#[test]
fn execute() {
    let mut store = Store::new();
    let counter_offer = coins(40, "ETH");
    let collateral = coins(1, "BTC");
    let msg = InstantiateMsg { counter_offer: counter_offer.clone(), expires: 100_000 };
    let env = mock_env();
    let info = mock_info("creator", &coins(1, "BTC"));

    let res = instantiate(&mut store, env, info, msg).unwrap();
    assert_eq!(0, res.messages.len());

    // set new owner
    let env = mock_env();
    let info = mock_info("creator", &[]);
    let _ = try_transfer(&mut store, env, info, "owner".to_string()).unwrap();

    // random cannot execute
    let info = mock_info("anyone", &[]);
    let err = try_execute(&mut store, mock_env(), info).unwrap_err();
    match err {
        ContractError::Unauthorized => {}
        e => panic!("unexpected: {:?}", e),
    }

    // expired cannot execute
    let mut env = mock_env();
    env.block.height = 200_000;
    let info = mock_info("owner", &counter_offer);
    let err = try_execute(&mut store, env, info).unwrap_err();
    match err {
        ContractError::Expired => {}
        e => panic!("unexpected: {:?}", e),
    }

    // bad counter_offer cannot execute
    let info = mock_info("owner", &coins(39, "ETH"));
    let err = try_execute(&mut store, mock_env(), info).unwrap_err();
    match err {
        ContractError::FundsMismatch { expected } => assert_eq!(coins(40, "ETH"), expected),
        e => panic!("unexpected: {:?}", e),
    }

    // proper execution
    let env = mock_env();
    let info = mock_info("owner", &counter_offer);
    let res = try_execute(&mut store, env, info).unwrap();
    assert_eq!(res.messages.len(), 2);
    assert_eq!(
        res.messages[0],
        BankMsg::Send { to_address: "creator".into(), amount: counter_offer }
    );
    assert_eq!(res.messages[1], BankMsg::Send { to_address: "owner".into(), amount: collateral });

    // check deleted
    let _ = query_config(&store).unwrap_err();
}

#[test]
fn exercise_by_new_owner_settles_and_deletes() {
    let mut store = created_option();
    try_transfer(&mut store, env_at(0), mock_info("creator", &[]), "owner".to_string()).unwrap();
    assert_eq!("owner", query_config(&store).unwrap().owner.as_str());

    let res = try_execute(&mut store, env_at(50_000), mock_info("owner", &coins(40, "ETH")))
        .unwrap();
    assert_eq!(
        res.messages,
        vec![send("creator", coins(40, "ETH")), send("owner", coins(1, "BTC"))]
    );
    assert_eq!(
        res.attributes,
        vec![Attribute { key: "action".to_string(), value: "execute".to_string() }]
    );
    assert_eq!(query_config(&store), Err(ContractError::NotFound));
}

#[test]
fn exercise_after_expiry_changes_nothing() {
    let mut store = created_option();
    try_transfer(&mut store, env_at(0), mock_info("creator", &[]), "owner".to_string()).unwrap();
    let before = query_config(&store).unwrap();
    let err = try_execute(&mut store, env_at(200_000), mock_info("owner", &coins(40, "ETH")))
        .unwrap_err();
    assert_eq!(err, ContractError::Expired);
    assert_eq!(query_config(&store).unwrap(), before);
}

#[test]
fn exercise_at_expiry_height_is_too_late() {
    let mut store = created_option();
    let err = try_execute(&mut store, env_at(100_000), mock_info("creator", &coins(40, "ETH")))
        .unwrap_err();
    assert_eq!(err, ContractError::Expired);
}

#[test]
fn reclaim_after_expiry_returns_collateral() {
    let mut store = created_option();
    let err = try_burn(&mut store, env_at(99_999), mock_info("anyone", &[])).unwrap_err();
    assert_eq!(err, ContractError::Expired);

    let res = try_burn(&mut store, env_at(200_000), mock_info("anyone", &[])).unwrap();
    assert_eq!(res.messages, vec![send("creator", coins(1, "BTC"))]);
    assert_eq!(
        res.attributes,
        vec![Attribute { key: "action".to_string(), value: "burn".to_string() }]
    );
    assert_eq!(query_config(&store), Err(ContractError::NotFound));
}

#[test]
fn reclaim_at_expiry_height_is_allowed() {
    let mut store = created_option();
    let res = try_burn(&mut store, env_at(100_000), mock_info("creator", &[])).unwrap();
    assert_eq!(res.messages.len(), 1);
}

#[test]
fn reclaim_with_funds_is_refused() {
    let mut store = created_option();
    let before = query_config(&store).unwrap();
    let err = try_burn(&mut store, env_at(200_000), mock_info("creator", &coins(1, "ETH")))
        .unwrap_err();
    assert_eq!(err, ContractError::UnexpectedFunds);
    assert_eq!(query_config(&store).unwrap(), before);
}

#[test]
fn instantiate_rejects_expiry_not_in_future() {
    let mut store = Store::new();
    let msg = InstantiateMsg { counter_offer: coins(40, "ETH"), expires: 12_345 };
    let err = instantiate(&mut store, mock_env(), mock_info("creator", &coins(1, "BTC")), msg)
        .unwrap_err();
    assert_eq!(err, ContractError::InvalidExpiry);
    assert_eq!(query_config(&store), Err(ContractError::NotFound));

    let msg = InstantiateMsg { counter_offer: coins(40, "ETH"), expires: 12_000 };
    let err = instantiate(&mut store, mock_env(), mock_info("creator", &coins(1, "BTC")), msg)
        .unwrap_err();
    assert_eq!(err, ContractError::InvalidExpiry);
}

#[test]
fn instantiate_one_above_height_succeeds() {
    let mut store = Store::new();
    let msg = InstantiateMsg { counter_offer: vec![], expires: 12_346 };
    instantiate(&mut store, mock_env(), mock_info("alice", &[]), msg).unwrap();
    let s = query_config(&store).unwrap();
    assert_eq!(s.creator, "alice");
    assert_eq!(s.owner, "alice");
    assert_eq!(s.expires, 12_346);
    assert!(s.collateral.is_empty());
}

#[test]
fn calls_without_option_are_not_found() {
    let mut store = Store::new();
    let e1 = try_transfer(&mut store, mock_env(), mock_info("a", &[]), "b".to_string());
    let e2 = try_execute(&mut store, mock_env(), mock_info("a", &[]));
    let e3 = try_burn(&mut store, mock_env(), mock_info("a", &[]));
    assert_eq!(e1, Err(ContractError::NotFound));
    assert_eq!(e2, Err(ContractError::NotFound));
    assert_eq!(e3, Err(ContractError::NotFound));
    assert_eq!(query(&store, mock_env(), QueryMsg::Config {}), Err(ContractError::NotFound));
}

#[test]
fn settled_option_refuses_every_call() {
    let mut store = created_option();
    try_execute(&mut store, env_at(10), mock_info("creator", &coins(40, "ETH"))).unwrap();
    let again = try_execute(&mut store, env_at(11), mock_info("creator", &coins(40, "ETH")));
    assert_eq!(again, Err(ContractError::NotFound));
    let t = try_transfer(&mut store, env_at(11), mock_info("creator", &[]), "x".to_string());
    assert_eq!(t, Err(ContractError::NotFound));
    let b = try_burn(&mut store, env_at(200_000), mock_info("creator", &[]));
    assert_eq!(b, Err(ContractError::NotFound));
}

#[test]
fn chain_of_owner_transfers_changes_only_owner() {
    let mut store = created_option();
    let mut owner = "creator".to_string();
    for next in ["bob", "carol", "dave"] {
        try_transfer(&mut store, env_at(5), mock_info(&owner, &[]), next.to_string()).unwrap();
        owner = next.to_string();
    }
    let s = query_config(&store).unwrap();
    assert_eq!(s.owner, "dave");
    assert_eq!(s.creator, "creator");
    assert_eq!(s.collateral, coins(1, "BTC"));
    assert_eq!(s.counter_offer, coins(40, "ETH"));
    assert_eq!(s.expires, 100_000);
}

#[test]
fn former_owner_cannot_transfer_or_exercise() {
    let mut store = created_option();
    try_transfer(&mut store, env_at(5), mock_info("creator", &[]), "bob".to_string()).unwrap();
    let before = query_config(&store).unwrap();
    let err = try_transfer(&mut store, env_at(6), mock_info("creator", &[]), "eve".to_string());
    assert_eq!(err, Err(ContractError::Unauthorized));
    assert_eq!(query_config(&store).unwrap(), before);
    let err = try_execute(&mut store, env_at(6), mock_info("creator", &coins(40, "ETH")));
    assert_eq!(err, Err(ContractError::Unauthorized));
}

#[test]
fn exercise_funds_must_match_exactly() {
    let mut store = created_option();
    let extra = vec![Coin::new(40, "ETH"), Coin::new(1, "ATOM")];
    let err = try_execute(&mut store, env_at(5), mock_info("creator", &extra)).unwrap_err();
    assert_eq!(err, ContractError::FundsMismatch { expected: coins(40, "ETH") });
    let other_denom = coins(40, "ETC");
    let err = try_execute(&mut store, env_at(5), mock_info("creator", &other_denom)).unwrap_err();
    assert_eq!(err, ContractError::FundsMismatch { expected: coins(40, "ETH") });
    let none: Vec<Coin> = vec![];
    let err = try_execute(&mut store, env_at(5), mock_info("creator", &none)).unwrap_err();
    assert_eq!(err, ContractError::FundsMismatch { expected: coins(40, "ETH") });
    assert!(query_config(&store).is_ok());
}

#[test]
fn dispatch_routes_each_message() {
    let mut store = created_option();
    let msg = ExecuteMsg::Transfer { recipient: "bob".to_string() };
    let res = contract::execute(&mut store, env_at(5), mock_info("creator", &[]), msg).unwrap();
    assert_eq!(
        res.attributes[1],
        Attribute { key: "owner".to_string(), value: "bob".to_string() }
    );
    let err = contract::execute(&mut store, env_at(5), mock_info("bob", &[]), ExecuteMsg::Burn {});
    assert_eq!(err, Err(ContractError::Expired));
    let res = contract::execute(&mut store, env_at(5), mock_info("bob", &coins(40, "ETH")), ExecuteMsg::Execute {})
        .unwrap();
    assert_eq!(res.messages[1], send("bob", coins(1, "BTC")));
    let q = query(&store, env_at(6), QueryMsg::Config {});
    assert_eq!(q, Err(ContractError::NotFound));
}

#[test]
fn store_slot_round_trip() {
    let store = created_option();
    let slot = store.into_slot();
    let back = Store::from_slot(slot.clone());
    assert_eq!(back.load().unwrap(), slot.unwrap());
    let mut store = Store::new();
    assert_eq!(store.load(), Err(ContractError::NotFound));
    store.save(State {
        creator: "c".to_string(),
        owner: "o".to_string(),
        collateral: vec![],
        counter_offer: vec![],
        expires: 1,
    });
    assert_eq!(store.load().unwrap().owner, "o");
    store.remove();
    assert!(store.into_slot().is_none());
}

#[test]
fn exercise_accepts_counter_offer_in_any_order() {
    let mut store = Store::new();
    let offer = vec![Coin::new(40, "ETH"), Coin::new(1, "ATOM")];
    let msg = InstantiateMsg { counter_offer: offer.clone(), expires: 100_000 };
    instantiate(&mut store, env_at(0), mock_info("creator", &coins(1, "BTC")), msg).unwrap();
    try_transfer(&mut store, env_at(1), mock_info("creator", &[]), "owner".to_string()).unwrap();

    let paid = vec![Coin::new(1, "ATOM"), Coin::new(40, "ETH")];
    let res = try_execute(&mut store, env_at(50_000), mock_info("owner", &paid)).unwrap();
    assert_eq!(res.messages, vec![send("creator", offer), send("owner", coins(1, "BTC"))]);
    assert_eq!(query_config(&store), Err(ContractError::NotFound));
}

#[test]
fn exercise_counts_each_coin() {
    let mut store = Store::new();
    let offer = vec![Coin::new(40, "ETH"), Coin::new(1, "ATOM")];
    let msg = InstantiateMsg { counter_offer: offer.clone(), expires: 100_000 };
    instantiate(&mut store, env_at(0), mock_info("creator", &coins(1, "BTC")), msg).unwrap();

    let twice = vec![Coin::new(40, "ETH"), Coin::new(40, "ETH")];
    let err = try_execute(&mut store, env_at(5), mock_info("creator", &twice)).unwrap_err();
    assert_eq!(err, ContractError::FundsMismatch { expected: offer });
    assert!(query_config(&store).is_ok());
}
