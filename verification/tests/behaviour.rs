use cw_escrow::bundle::same_bundle;
use cw_escrow::contract::{
    execute_deposit, execute_exchange, execute_withdraw, only_authorized_party, query_config,
};
use cw_escrow::{
    execute, instantiate, query, Attribute, BankMsg, Coin, Config, ContractError, ExecuteMsg,
    InstantiateMsg, MessageInfo, Party, QueryMsg, Response,
};

fn info(sender: &str, funds: Vec<Coin>) -> MessageInfo {
    MessageInfo { sender: sender.to_string(), funds }
}

fn record(a: &str, a_funds: Vec<Coin>, b: &str, b_funds: Vec<Coin>) -> Config {
    let msg = InstantiateMsg {
        party_a: a.to_string(),
        party_b: b.to_string(),
        party_a_funds: a_funds,
        party_b_funds: b_funds,
    };
    instantiate(msg, Some(a.to_string()), Some(b.to_string())).unwrap().0
}

fn two_kinds() -> Vec<Coin> {
    vec![Coin::new(1000000, "unois"), Coin::new(2, "btc")]
}

fn one_kind() -> Vec<Coin> {
    vec![Coin::new(5000000, "ujuno")]
}

fn plain() -> Config {
    record("alice", two_kinds(), "bob", one_kind())
}

#[test]
fn coin_new_keeps_amount_and_denom() {
    let coin = Coin::new(7, "btc");
    assert_eq!(coin.amount, 7);
    assert_eq!(coin.denom, "btc");
    assert_eq!(coin.duplicate(), coin);
    assert!(coin.same_as(&Coin { denom: "btc".to_string(), amount: 7 }));
    assert!(!coin.same_as(&Coin::new(8, "btc")));
    assert!(!coin.same_as(&Coin::new(7, "eth")));
    let max = Coin::new(u128::MAX, "");
    assert_eq!(max.amount, u128::MAX);
    assert_eq!(max.denom, "");
}

#[test]
fn same_bundle_ignores_order() {
    let a = vec![Coin::new(1, "x"), Coin::new(2, "y"), Coin::new(3, "z")];
    let b = vec![Coin::new(3, "z"), Coin::new(1, "x"), Coin::new(2, "y")];
    assert!(same_bundle(&a, &b));
    assert!(same_bundle(&b, &a));
    assert!(same_bundle(&a, &a));
    assert!(same_bundle(&[].to_vec(), &[].to_vec()));
}

#[test]
fn same_bundle_counts_repeats() {
    let twice_x = vec![Coin::new(1, "x"), Coin::new(1, "x"), Coin::new(1, "y")];
    let twice_y = vec![Coin::new(1, "x"), Coin::new(1, "y"), Coin::new(1, "y")];
    assert!(!same_bundle(&twice_x, &twice_y));
    assert!(!same_bundle(&twice_y, &twice_x));
    let once = vec![Coin::new(1, "x"), Coin::new(1, "y")];
    assert!(!same_bundle(&twice_x, &once));
    assert!(!same_bundle(&once, &twice_x));
    let shuffled = vec![Coin::new(1, "y"), Coin::new(1, "x"), Coin::new(1, "x")];
    assert!(same_bundle(&twice_x, &shuffled));
}

#[test]
fn same_bundle_sees_amount_and_denom() {
    let a = vec![Coin::new(1, "x")];
    assert!(!same_bundle(&a, &vec![Coin::new(2, "x")]));
    assert!(!same_bundle(&a, &vec![Coin::new(1, "y")]));
    assert!(!same_bundle(&a, &vec![]));
    assert!(!same_bundle(&vec![], &a));
    // Two coins of one kind are not one coin of their sum.
    let split = vec![Coin::new(1, "x"), Coin::new(1, "x")];
    assert!(!same_bundle(&split, &vec![Coin::new(2, "x")]));
}

#[test]
fn instantiate_refuses_invalid_address() {
    let msg = InstantiateMsg {
        party_a: "alice".to_string(),
        party_b: "bob".to_string(),
        party_a_funds: two_kinds(),
        party_b_funds: one_kind(),
    };
    let err = instantiate(msg.clone(), None, Some("bob".to_string())).unwrap_err();
    assert_eq!(err, ContractError::InvalidAddress);
    let err = instantiate(msg.clone(), Some("alice".to_string()), None).unwrap_err();
    assert_eq!(err, ContractError::InvalidAddress);
    let err = instantiate(msg, None, None).unwrap_err();
    assert_eq!(err, ContractError::InvalidAddress);
}

#[test]
fn instantiate_stores_validated_identities() {
    let msg = InstantiateMsg {
        party_a: "ALICE".to_string(),
        party_b: "BOB".to_string(),
        party_a_funds: two_kinds(),
        party_b_funds: one_kind(),
    };
    let (config, res) =
        instantiate(msg, Some("alice".to_string()), Some("bob".to_string())).unwrap();
    assert_eq!(config.party_a.address, "alice");
    assert_eq!(config.party_b.address, "bob");
    assert_eq!(config.party_a.funds, two_kinds());
    assert_eq!(config.party_b.funds, one_kind());
    assert!(!config.party_a.deposited);
    assert!(!config.party_b.deposited);
    assert!(res.messages.is_empty());
    assert_eq!(
        res.attributes,
        vec![
            Attribute { key: "action".to_string(), value: "instantiate".to_string() },
            Attribute { key: "party_a".to_string(), value: "ALICE".to_string() },
            Attribute { key: "party_b".to_string(), value: "BOB".to_string() },
        ]
    );
}

#[test]
fn query_returns_record_verbatim() {
    let mut config = plain();
    assert_eq!(query(&config, QueryMsg::Config {}), config);
    execute(&mut config, info("bob", one_kind()), ExecuteMsg::Deposit {}).unwrap();
    let answer = query_config(&config);
    assert_eq!(answer, config);
    assert!(answer.party_b.deposited);
    assert!(!answer.party_a.deposited);
    assert_eq!(answer.party_a.duplicate(), config.party_a);
    assert_eq!(config.duplicate(), config);
}

#[test]
fn stranger_is_unauthorized_whatever_is_attached() {
    let mut config = plain();
    let before = config.clone();
    for funds in [vec![], two_kinds(), one_kind()] {
        let err = execute(&mut config, info("carol", funds.clone()), ExecuteMsg::Deposit {})
            .unwrap_err();
        assert_eq!(err, ContractError::Unauthorized);
        let err = execute_deposit(&mut config, info("carol", funds.clone())).unwrap_err();
        assert_eq!(err, ContractError::Unauthorized);
        let err = execute_withdraw(&mut config, info("carol", funds)).unwrap_err();
        assert_eq!(err, ContractError::Unauthorized);
    }
    // An identity is compared as it is written.
    let err = execute(&mut config, info("Alice", two_kinds()), ExecuteMsg::Deposit {}).unwrap_err();
    assert_eq!(err, ContractError::Unauthorized);
    let err = execute(&mut config, info("", two_kinds()), ExecuteMsg::Deposit {}).unwrap_err();
    assert_eq!(err, ContractError::Unauthorized);
    assert_eq!(config, before);
}

#[test]
fn only_authorized_party_lets_parties_pass() {
    let config = plain();
    assert_eq!(only_authorized_party(&config, &info("alice", vec![])), Ok(Response::new()));
    assert_eq!(only_authorized_party(&config, &info("bob", two_kinds())), Ok(Response::new()));
    assert_eq!(
        only_authorized_party(&config, &info("carol", vec![])),
        Err(ContractError::Unauthorized)
    );
}

#[test]
fn deposit_accepts_any_order_of_coins() {
    let mut config = plain();
    let reversed = vec![Coin::new(2, "btc"), Coin::new(1000000, "unois")];
    let res = execute(&mut config, info("alice", reversed), ExecuteMsg::Deposit {}).unwrap();
    assert!(res.messages.is_empty());
    assert!(config.party_a.deposited);
    // The record keeps the bundle in the agreed order.
    assert_eq!(config.party_a.funds, two_kinds());
}

#[test]
fn deposit_refuses_missing_extra_or_changed_coins() {
    let mut config = plain();
    let before = config.clone();
    let attempts = [
        vec![],
        vec![Coin::new(1000000, "unois")],
        vec![Coin::new(1000000, "unois"), Coin::new(2, "btc"), Coin::new(1, "ujuno")],
        vec![Coin::new(1000000, "unois"), Coin::new(2, "btc"), Coin::new(2, "btc")],
        vec![Coin::new(2, "unois"), Coin::new(1000000, "btc")],
        vec![Coin::new(1000001, "unois"), Coin::new(1, "btc")],
        one_kind(),
    ];
    for funds in attempts {
        let err = execute(&mut config, info("alice", funds), ExecuteMsg::Deposit {}).unwrap_err();
        assert_eq!(err, ContractError::FundsNotEqualToConfig);
    }
    assert_eq!(config, before);
}

#[test]
fn wrong_coins_are_refused_even_after_commit() {
    let mut config = plain();
    execute(&mut config, info("alice", two_kinds()), ExecuteMsg::Deposit {}).unwrap();
    let before = config.clone();
    let err = execute(&mut config, info("alice", one_kind()), ExecuteMsg::Deposit {}).unwrap_err();
    assert_eq!(err, ContractError::FundsNotEqualToConfig);
    let err = execute(&mut config, info("alice", two_kinds()), ExecuteMsg::Deposit {}).unwrap_err();
    assert_eq!(err, ContractError::FundsAlreadyDeposited);
    assert_eq!(config, before);
}

#[test]
fn empty_bundle_can_be_committed() {
    let mut config = record("alice", vec![], "bob", one_kind());
    execute(&mut config, info("alice", vec![]), ExecuteMsg::Deposit {}).unwrap();
    execute(&mut config, info("bob", one_kind()), ExecuteMsg::Deposit {}).unwrap();
    let res = execute(&mut config, info("alice", vec![]), ExecuteMsg::Exchange {}).unwrap();
    assert_eq!(
        res.messages,
        vec![
            BankMsg::Send { to_address: "alice".to_string(), amount: one_kind() },
            BankMsg::Send { to_address: "bob".to_string(), amount: vec![] },
        ]
    );
}

#[test]
fn exchange_needs_both_flags() {
    for (a, b) in [(false, false), (true, false), (false, true)] {
        let mut config = plain();
        config.party_a.deposited = a;
        config.party_b.deposited = b;
        let before = config.clone();
        assert_eq!(execute_exchange(&mut config), Err(ContractError::FundsHaventBeenDeposited));
        assert_eq!(config, before);
    }
    let mut config = plain();
    config.party_a.deposited = true;
    config.party_b.deposited = true;
    let res = execute_exchange(&mut config).unwrap();
    assert_eq!(res.messages.len(), 2);
    assert_eq!(config, plain());
}

#[test]
fn withdraw_touches_only_the_caller() {
    for other in [false, true] {
        let mut config = plain();
        config.party_a.deposited = other;
        config.party_b.deposited = true;
        let res = execute_withdraw(&mut config, info("bob", vec![])).unwrap();
        assert_eq!(
            res.messages,
            vec![BankMsg::Send { to_address: "bob".to_string(), amount: one_kind() }]
        );
        assert_eq!(config.party_a.deposited, other);
        assert!(!config.party_b.deposited);
        assert_eq!(config.party_a, Party {
            address: "alice".to_string(),
            funds: two_kinds(),
            deposited: other,
        });
    }
}

#[test]
fn one_identity_in_both_places_acts_as_party_a() {
    let mut config = record("alice", two_kinds(), "alice", one_kind());
    let err = execute(&mut config, info("alice", one_kind()), ExecuteMsg::Deposit {}).unwrap_err();
    assert_eq!(err, ContractError::FundsNotEqualToConfig);
    execute(&mut config, info("alice", two_kinds()), ExecuteMsg::Deposit {}).unwrap();
    assert!(config.party_a.deposited);
    assert!(!config.party_b.deposited);
    let res = execute(&mut config, info("alice", vec![]), ExecuteMsg::Withdraw {}).unwrap();
    assert_eq!(
        res.messages,
        vec![BankMsg::Send { to_address: "alice".to_string(), amount: two_kinds() }]
    );
}

#[test]
fn response_builders_append() {
    let res = Response::new();
    assert!(res.messages.is_empty());
    assert!(res.attributes.is_empty());
    let send = BankMsg::Send { to_address: "bob".to_string(), amount: one_kind() };
    let res = res.add_attribute("k1", "v1").add_message(send.clone()).add_attribute("k2", "v2");
    assert_eq!(
        res.attributes,
        vec![
            Attribute { key: "k1".to_string(), value: "v1".to_string() },
            Attribute { key: "k2".to_string(), value: "v2".to_string() },
        ]
    );
    assert_eq!(res.messages, vec![send]);
}

#[test]
fn error_messages() {
    assert_eq!(ContractError::Std("storage is gone".to_string()).message(), "storage is gone");
    assert_eq!(
        ContractError::FundsNotEqualToConfig.message(),
        "The deposited funds are not equal to the agreed funds"
    );
    assert_eq!(ContractError::FundsHaventBeenDeposited.message(), "Funds haven't been deposited");
    assert_eq!(ContractError::FundsAlreadyDeposited.message(), "Funds already deposited");
    assert_eq!(ContractError::InvalidAddress.message(), "Invalid Address");
    assert_eq!(
        ContractError::AtLeastOnePartyFundsAreMissing.message(),
        "At least one party's funds are missing. Both parties funds should be in the contract for the exchange to be processed"
    );
    assert_eq!(
        ContractError::Unauthorized.message(),
        "Unothorised! Make sure you call this contract from party A or party B "
    );
}
