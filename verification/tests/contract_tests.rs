use nft_reroll::contract::{
    create_roll, execute, execute_receive_nft, instantiate, query, query_rerolls,
    query_user_rerolls, update_config, withdraw,
};
use nft_reroll::error::ContractError;
use nft_reroll::msg::{
    Coin, ExecuteMsg, InstantiateMsg, MessageEnv, NftReceiveMsg, NftReceiveWrapper, QueryAnswer,
    QueryMsg,
};
use nft_reroll::num::{pow10, u128_to_dec};
use nft_reroll::response::TransferMsg;
use nft_reroll::state::{Registry, Reroll, State};
use nft_reroll::utils::transfer_token_message;

fn base_config() -> nft_reroll::state::Config {
    let (config, _resp) = instantiate(
        "admin".to_string(),
        InstantiateMsg {
            collection_address: "collection".to_string(),
            roll_fees: 1_000_000,
            denom: "uusd".to_string(),
            decimals: 6,
        },
    );
    config
}

fn fee_funds() -> Vec<Coin> {
    vec![Coin { denom: "uusd".to_string(), amount: 1_000_000 }]
}

fn owner_is(name: &str) -> Result<String, String> {
    Ok(name.to_string())
}

fn request(registry: &mut Registry, nft_id: &str) -> Result<nft_reroll::response::Response, ContractError> {
    let config = base_config();
    create_roll(
        &config,
        registry,
        &"alice".to_string(),
        &fee_funds(),
        1_700_000_000,
        &owner_is("alice"),
        nft_id.to_string(),
    )
}

fn confirm(registry: &mut Registry, nft_id: &str) -> Result<nft_reroll::response::Response, ContractError> {
    let config = base_config();
    execute_receive_nft(
        &config,
        registry,
        &"collection".to_string(),
        NftReceiveWrapper {
            sender: "alice".to_string(),
            token_id: nft_id.to_string(),
            msg: Ok(NftReceiveMsg::Reroll {}),
        },
    )
}

#[test]
fn instantiate_sets_config_and_attributes() {
    let (config, resp) = instantiate(
        "admin".to_string(),
        InstantiateMsg {
            collection_address: "collection".to_string(),
            roll_fees: 1_000_000,
            denom: "uusd".to_string(),
            decimals: 6,
        },
    );
    assert_eq!(config.admin, "admin");
    assert!(config.enabled);
    assert_eq!(config.collection_address, "collection");
    assert_eq!(config.roll_fees, 1_000_000);
    assert_eq!(config.denom, "uusd");
    assert_eq!(config.decimals, 6);
    assert!(resp.messages.is_empty());
    let kv: Vec<(&str, &str)> =
        resp.attributes.iter().map(|a| (a.key.as_str(), a.value.as_str())).collect();
    assert_eq!(
        kv,
        vec![
            ("action", "init contract"),
            ("collection_address", "collection"),
            ("roll_fees", "1000000"),
            ("denom", "uusd"),
        ]
    );
}

#[test]
fn decimal_rendering_is_exact() {
    assert_eq!(u128_to_dec(0), "0");
    assert_eq!(u128_to_dec(7), "7");
    assert_eq!(u128_to_dec(10), "10");
    assert_eq!(u128_to_dec(1_000_000), "1000000");
    assert_eq!(u128_to_dec(340_282_366_920_938_463_463_374_607_431_768_211_455), "340282366920938463463374607431768211455");
}

#[test]
fn pow10_is_exact() {
    assert_eq!(pow10(0), 1);
    assert_eq!(pow10(1), 10);
    assert_eq!(pow10(6), 1_000_000);
    assert_eq!(pow10(19), 10_000_000_000_000_000_000);
    assert_eq!(pow10(38), 100_000_000_000_000_000_000_000_000_000_000_000_000);
}

#[test]
fn create_reroll_succeeds_with_exact_fee() {
    let mut registry = Registry::new();
    let resp = request(&mut registry, "nft-1").unwrap();
    assert!(resp.messages.is_empty());
    let kv: Vec<(&str, &str)> =
        resp.attributes.iter().map(|a| (a.key.as_str(), a.value.as_str())).collect();
    assert_eq!(
        kv,
        vec![
            ("action", "create reroll"),
            ("collection_address", "collection"),
            ("nft_id", "nft-1"),
        ]
    );
    let rec = registry.get("nft-1").unwrap();
    assert_eq!(rec.sender, "alice");
    assert_eq!(rec.nft_id, "nft-1");
    assert!(!rec.rerolled);
    assert_eq!(rec.timestamp, 1_700_000_000);
}

#[test]
fn create_reroll_fails_twice_for_same_token() {
    let mut registry = Registry::new();
    request(&mut registry, "nft-1").unwrap();
    let err = request(&mut registry, "nft-1").unwrap_err();
    assert!(matches!(err, ContractError::AlreadyRequested));
    assert_eq!(registry.len(), 1);
}

#[test]
fn create_reroll_rejects_mismatched_payment() {
    let config = base_config();
    let sender = "alice".to_string();
    let owner = owner_is("alice");
    let cases: Vec<Vec<Coin>> = vec![
        vec![],
        vec![Coin { denom: "uluna".to_string(), amount: 1_000_000 }],
        vec![Coin { denom: "uusd".to_string(), amount: 999_999 }],
        vec![Coin { denom: "uusd".to_string(), amount: 1_000_001 }],
        vec![Coin { denom: "uluna".to_string(), amount: 5 }],
    ];
    for funds in cases {
        let mut registry = Registry::new();
        let err = create_roll(
            &config,
            &mut registry,
            &sender,
            &funds,
            0,
            &owner,
            "nft-1".to_string(),
        )
        .unwrap_err();
        assert!(matches!(err, ContractError::PaymentFailed));
        assert_eq!(registry.len(), 0);
    }
}

#[test]
fn create_reroll_requires_enabled() {
    let mut config = base_config();
    config.enabled = false;
    let mut registry = Registry::new();
    let err = create_roll(
        &config,
        &mut registry,
        &"alice".to_string(),
        &fee_funds(),
        0,
        &owner_is("alice"),
        "nft-1".to_string(),
    )
    .unwrap_err();
    assert!(matches!(err, ContractError::NotEnabled));
}

#[test]
fn create_reroll_requires_ownership() {
    let config = base_config();
    let mut registry = Registry::new();
    let err = create_roll(
        &config,
        &mut registry,
        &"alice".to_string(),
        &fee_funds(),
        0,
        &owner_is("bob"),
        "nft-1".to_string(),
    )
    .unwrap_err();
    assert!(matches!(err, ContractError::NotOwner));
}

#[test]
fn create_reroll_passes_query_failure_on() {
    let config = base_config();
    let mut registry = Registry::new();
    let err = create_roll(
        &config,
        &mut registry,
        &"alice".to_string(),
        &fee_funds(),
        0,
        &Err("collection unreachable".to_string()),
        "nft-1".to_string(),
    )
    .unwrap_err();
    match err {
        ContractError::External { detail } => assert_eq!(detail, "collection unreachable"),
        other => panic!("unexpected error {:?}", other),
    }
}

#[test]
fn update_config_rejects_non_admin() {
    let mut config = base_config();
    let err = update_config(
        &mut config,
        &"mallory".to_string(),
        Some("mallory".to_string()),
        Some(false),
        Some(5),
        Some("uluna".to_string()),
    )
    .unwrap_err();
    assert!(matches!(err, ContractError::Unauthorized));
    assert_eq!(config.admin, "admin");
    assert!(config.enabled);
    assert_eq!(config.roll_fees, 1_000_000);
    assert_eq!(config.denom, "uusd");
}

#[test]
fn update_config_with_all_fields_absent_is_a_no_op() {
    let mut config = base_config();
    let resp = update_config(&mut config, &"admin".to_string(), None, None, None, None).unwrap();
    assert!(resp.attributes.is_empty());
    assert!(resp.messages.is_empty());
    assert_eq!(config.admin, "admin");
    assert!(config.enabled);
    assert_eq!(config.collection_address, "collection");
    assert_eq!(config.roll_fees, 1_000_000);
    assert_eq!(config.denom, "uusd");
    assert_eq!(config.decimals, 6);
}

#[test]
fn update_config_overwrites_present_fields() {
    let mut config = base_config();
    update_config(
        &mut config,
        &"admin".to_string(),
        Some("admin2".to_string()),
        Some(false),
        None,
        Some("uluna".to_string()),
    )
    .unwrap();
    assert_eq!(config.admin, "admin2");
    assert!(!config.enabled);
    assert_eq!(config.roll_fees, 1_000_000);
    assert_eq!(config.denom, "uluna");
    assert_eq!(config.collection_address, "collection");
}

#[test]
fn confirmation_rejects_wrong_collection() {
    let mut registry = Registry::new();
    request(&mut registry, "nft-1").unwrap();
    let config = base_config();
    let err = execute_receive_nft(
        &config,
        &mut registry,
        &"impostor".to_string(),
        NftReceiveWrapper {
            sender: "alice".to_string(),
            token_id: "nft-1".to_string(),
            msg: Ok(NftReceiveMsg::Reroll {}),
        },
    )
    .unwrap_err();
    match err {
        ContractError::WrongCollection { expected, received } => {
            assert_eq!(expected, "collection");
            assert_eq!(received, "impostor");
        }
        other => panic!("unexpected error {:?}", other),
    }
    assert!(!registry.get("nft-1").unwrap().rerolled);
}

#[test]
fn confirmation_rejects_unknown_token() {
    let mut registry = Registry::new();
    let err = confirm(&mut registry, "nft-1").unwrap_err();
    assert!(matches!(err, ContractError::NftNotFound));
}

#[test]
fn confirmation_rejects_undecoded_submessage() {
    let mut registry = Registry::new();
    request(&mut registry, "nft-1").unwrap();
    let config = base_config();
    let err = execute_receive_nft(
        &config,
        &mut registry,
        &"collection".to_string(),
        NftReceiveWrapper {
            sender: "alice".to_string(),
            token_id: "nft-1".to_string(),
            msg: Err("unknown variant".to_string()),
        },
    )
    .unwrap_err();
    match err {
        ContractError::InvalidReceiveMsg { detail } => assert_eq!(detail, "unknown variant"),
        other => panic!("unexpected error {:?}", other),
    }
}

#[test]
fn confirmation_requires_enabled() {
    let mut registry = Registry::new();
    request(&mut registry, "nft-1").unwrap();
    let mut config = base_config();
    config.enabled = false;
    let err = execute_receive_nft(
        &config,
        &mut registry,
        &"collection".to_string(),
        NftReceiveWrapper {
            sender: "alice".to_string(),
            token_id: "nft-1".to_string(),
            msg: Ok(NftReceiveMsg::Reroll {}),
        },
    )
    .unwrap_err();
    assert!(matches!(err, ContractError::NotEnabled));
}

#[test]
fn confirmation_pays_ten_to_the_decimals_and_marks_record() {
    let mut registry = Registry::new();
    request(&mut registry, "nft-1").unwrap();
    let resp = confirm(&mut registry, "nft-1").unwrap();
    assert_eq!(resp.messages.len(), 1);
    match &resp.messages[0] {
        TransferMsg::TokenContractTransfer { contract_addr, recipient, amount } => {
            assert_eq!(contract_addr, "collection");
            assert_eq!(recipient, "alice");
            assert_eq!(*amount, 1_000_000);
        }
        other => panic!("unexpected message {:?}", other),
    }
    let kv: Vec<(&str, &str)> =
        resp.attributes.iter().map(|a| (a.key.as_str(), a.value.as_str())).collect();
    assert_eq!(
        kv,
        vec![
            ("action", "execute_reroll"),
            ("collection_address", "collection"),
            ("nft_id", "nft-1"),
        ]
    );
    assert!(registry.get("nft-1").unwrap().rerolled);
}

#[test]
fn confirmation_refuses_a_second_payout() {
    let mut registry = Registry::new();
    request(&mut registry, "nft-1").unwrap();
    confirm(&mut registry, "nft-1").unwrap();
    let err = confirm(&mut registry, "nft-1").unwrap_err();
    assert!(matches!(err, ContractError::AlreadyConfirmed));
}

#[test]
fn withdraw_rejects_non_admin() {
    let config = base_config();
    let err = withdraw(
        &config,
        &"mallory".to_string(),
        "uusd".to_string(),
        false,
        42,
        "mallory".to_string(),
    )
    .unwrap_err();
    assert!(matches!(err, ContractError::Unauthorized));
}

#[test]
fn withdraw_builds_native_send() {
    let config = base_config();
    let resp = withdraw(
        &config,
        &"admin".to_string(),
        "uusd".to_string(),
        false,
        42,
        "treasury".to_string(),
    )
    .unwrap();
    assert_eq!(resp.messages.len(), 1);
    match &resp.messages[0] {
        TransferMsg::NativeSend { to_address, denom, amount } => {
            assert_eq!(to_address, "treasury");
            assert_eq!(denom, "uusd");
            assert_eq!(*amount, 42);
        }
        other => panic!("unexpected message {:?}", other),
    }
    let kv: Vec<(&str, &str)> =
        resp.attributes.iter().map(|a| (a.key.as_str(), a.value.as_str())).collect();
    assert_eq!(
        kv,
        vec![("action", "execute_withdraw"), ("denom", "uusd"), ("amount", "42")]
    );
}

#[test]
fn withdraw_builds_token_contract_transfer() {
    let config = base_config();
    let resp = withdraw(
        &config,
        &"admin".to_string(),
        "tokencontract".to_string(),
        true,
        7,
        "treasury".to_string(),
    )
    .unwrap();
    match &resp.messages[0] {
        TransferMsg::TokenContractTransfer { contract_addr, recipient, amount } => {
            assert_eq!(contract_addr, "tokencontract");
            assert_eq!(recipient, "treasury");
            assert_eq!(*amount, 7);
        }
        other => panic!("unexpected message {:?}", other),
    }
}

#[test]
fn transfer_token_message_builds_both_shapes() {
    match transfer_token_message("uusd".to_string(), false, 5, "bob".to_string()) {
        TransferMsg::NativeSend { to_address, denom, amount } => {
            assert_eq!(to_address, "bob");
            assert_eq!(denom, "uusd");
            assert_eq!(amount, 5);
        }
        other => panic!("unexpected message {:?}", other),
    }
    match transfer_token_message("token".to_string(), true, 5, "bob".to_string()) {
        TransferMsg::TokenContractTransfer { contract_addr, recipient, amount } => {
            assert_eq!(contract_addr, "token");
            assert_eq!(recipient, "bob");
            assert_eq!(amount, 5);
        }
        other => panic!("unexpected message {:?}", other),
    }
}

#[test]
fn registry_scan_is_in_key_order() {
    let config = base_config();
    let mut registry = Registry::new();
    for id in ["nft-9", "nft-1", "nft-10", "zebra", "apple"] {
        create_roll(
            &config,
            &mut registry,
            &"alice".to_string(),
            &fee_funds(),
            0,
            &owner_is("alice"),
            id.to_string(),
        )
        .unwrap();
    }
    let all = query_rerolls(&registry);
    let keys: Vec<&str> = all.iter().map(|e| e.id.as_str()).collect();
    assert_eq!(keys, vec!["apple", "nft-1", "nft-10", "nft-9", "zebra"]);
    for e in &all {
        assert_eq!(e.id, e.reroll.nft_id);
    }
}

#[test]
fn user_rerolls_filters_by_sender_in_key_order() {
    let config = base_config();
    let mut registry = Registry::new();
    for (id, who) in [("c", "alice"), ("a", "bob"), ("b", "alice"), ("d", "bob")] {
        create_roll(
            &config,
            &mut registry,
            &who.to_string(),
            &fee_funds(),
            0,
            &owner_is(who),
            id.to_string(),
        )
        .unwrap();
    }
    let alice: Vec<String> = query_user_rerolls(&registry, &"alice".to_string())
        .into_iter()
        .map(|r| r.nft_id)
        .collect();
    assert_eq!(alice, vec!["b".to_string(), "c".to_string()]);
    let bob: Vec<String> = query_user_rerolls(&registry, &"bob".to_string())
        .into_iter()
        .map(|r| r.nft_id)
        .collect();
    assert_eq!(bob, vec!["a".to_string(), "d".to_string()]);
    let nobody = query_user_rerolls(&registry, &"carol".to_string());
    assert!(nobody.is_empty());
}

#[test]
fn query_dispatch_answers_both_queries() {
    let mut registry = Registry::new();
    request(&mut registry, "nft-1").unwrap();
    match query(&registry, QueryMsg::GetRerolls {}) {
        QueryAnswer::Rerolls(v) => {
            assert_eq!(v.len(), 1);
            assert_eq!(v[0].id, "nft-1");
        }
        other => panic!("unexpected answer {:?}", other),
    }
    match query(&registry, QueryMsg::GetUserRerolls { address: "alice".to_string() }) {
        QueryAnswer::UserRerolls(v) => {
            assert_eq!(v.len(), 1);
            assert_eq!(v[0].nft_id, "nft-1");
        }
        other => panic!("unexpected answer {:?}", other),
    }
}

#[test]
fn execute_dispatches_all_commands() {
    let (config, _resp) = instantiate(
        "admin".to_string(),
        InstantiateMsg {
            collection_address: "collection".to_string(),
            roll_fees: 1_000_000,
            denom: "uusd".to_string(),
            decimals: 6,
        },
    );
    let mut state = State { config, rerolls: Registry::new() };
    let env = |sender: &str, funds: Vec<Coin>| MessageEnv {
        sender: sender.to_string(),
        funds,
        timestamp: 123,
    };
    execute(
        &mut state,
        env("alice", fee_funds()),
        ExecuteMsg::CreateReroll { nft_id: "nft-1".to_string(), owner: owner_is("alice") },
    )
    .unwrap();
    let resp = execute(
        &mut state,
        env("collection", vec![]),
        ExecuteMsg::ReceiveNft(NftReceiveWrapper {
            sender: "alice".to_string(),
            token_id: "nft-1".to_string(),
            msg: Ok(NftReceiveMsg::Reroll {}),
        }),
    )
    .unwrap();
    assert_eq!(resp.messages.len(), 1);
    execute(
        &mut state,
        env("admin", vec![]),
        ExecuteMsg::UpdateConfig {
            admin: None,
            enabled: Some(false),
            roll_fees: None,
            denom: None,
        },
    )
    .unwrap();
    assert!(!state.config.enabled);
    let err = execute(
        &mut state,
        env("mallory", vec![]),
        ExecuteMsg::Withdraw {
            denom: "uusd".to_string(),
            is_cw20: false,
            amount: 1,
            address: "mallory".to_string(),
        },
    )
    .unwrap_err();
    assert!(matches!(err, ContractError::Unauthorized));
}

#[test]
fn full_lifecycle_scenario() {
    let (config, _resp) = instantiate(
        "admin".to_string(),
        InstantiateMsg {
            collection_address: "collection".to_string(),
            roll_fees: 1_000_000,
            denom: "uusd".to_string(),
            decimals: 6,
        },
    );
    let mut registry = Registry::new();
    let funds = vec![Coin { denom: "uusd".to_string(), amount: 1_000_000 }];
    create_roll(
        &config,
        &mut registry,
        &"alice".to_string(),
        &funds,
        1_700_000_000,
        &owner_is("alice"),
        "nft-1".to_string(),
    )
    .unwrap();
    {
        let rec: &Reroll = registry.get("nft-1").unwrap();
        assert_eq!(rec.sender, "alice");
        assert!(!rec.rerolled);
    }
    let resp = execute_receive_nft(
        &config,
        &mut registry,
        &"collection".to_string(),
        NftReceiveWrapper {
            sender: "alice".to_string(),
            token_id: "nft-1".to_string(),
            msg: Ok(NftReceiveMsg::Reroll {}),
        },
    )
    .unwrap();
    match &resp.messages[0] {
        TransferMsg::TokenContractTransfer { recipient, amount, .. } => {
            assert_eq!(recipient, "alice");
            assert_eq!(*amount, 1_000_000);
        }
        other => panic!("unexpected message {:?}", other),
    }
    assert!(registry.get("nft-1").unwrap().rerolled);
    let err = create_roll(
        &config,
        &mut registry,
        &"alice".to_string(),
        &funds,
        1_700_000_100,
        &owner_is("alice"),
        "nft-1".to_string(),
    )
    .unwrap_err();
    assert!(matches!(err, ContractError::AlreadyRequested));
}
