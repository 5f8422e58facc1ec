use custodian::contract::{
    address_to_validate, approve_nft_transfer, bulk_transfer_cw20, bulk_transfer_native, execute,
    transfer_cw20, transfer_native, transfer_nft, transfer_nfts,
};
use custodian::error::ContractError;
use custodian::helpers::AddressCheck;
use custodian::msg::{Coin, ExecuteMsg};
use custodian::state::RoleState;

fn roles() -> RoleState {
    RoleState { admin: "alice".to_string(), operator: Some("oscar".to_string()) }
}

fn valid(addr: &str) -> AddressCheck {
    AddressCheck::Valid { addr: addr.to_string() }
}

fn usei(amount: u128) -> Coin {
    Coin { denom: "usei".to_string(), amount }
}

fn every_command() -> Vec<ExecuteMsg> {
    vec![
        ExecuteMsg::TransferNative { to_address: "bob".to_string(), amount: usei(1) },
        ExecuteMsg::TransferCw20 {
            contract_addr: "token".to_string(),
            to_address: "bob".to_string(),
            amount: 2,
        },
        ExecuteMsg::ApproveNftTransfer {
            nft_contract_addr: "nfts".to_string(),
            token_id: "a".to_string(),
        },
        ExecuteMsg::TransferNft {
            nft_contract_addr: "nfts".to_string(),
            to_address: "bob".to_string(),
            token_id: "a".to_string(),
        },
        ExecuteMsg::TransferNfts {
            nft_contract_addr: "nfts".to_string(),
            to_address: "bob".to_string(),
            token_ids: vec!["a".to_string(), "b".to_string()],
        },
        ExecuteMsg::BulkTransferNative {
            to_addresses: vec!["bob".to_string()],
            amounts: vec![usei(3)],
        },
        ExecuteMsg::BulkTransferCw20 {
            cw20_contract_addr: "token".to_string(),
            to_addresses: vec!["bob".to_string()],
            amounts: vec![4],
        },
        ExecuteMsg::SetOperator { operator: Some("olga".to_string()) },
        ExecuteMsg::SetOperator { operator: None },
    ]
}

#[test]
fn commands_name_the_address_to_validate() {
    let named: Vec<Option<String>> = every_command().iter().map(address_to_validate).collect();
    assert_eq!(
        named,
        vec![
            None,
            Some("token".to_string()),
            Some("nfts".to_string()),
            Some("nfts".to_string()),
            Some("nfts".to_string()),
            None,
            Some("token".to_string()),
            Some("olga".to_string()),
            None,
        ]
    );
}

#[test]
fn stranger_is_refused_by_every_command() {
    for command in every_command() {
        let mut state = roles();
        let verdict = address_to_validate(&command).map(|addr| valid(&addr));
        assert_eq!(
            execute(&mut state, "custodian", "mallory", command, verdict),
            Err(ContractError::Unauthorized {})
        );
        assert_eq!(state, roles());
    }
}

#[test]
fn stranger_is_refused_whatever_the_verdict() {
    for command in every_command() {
        let mut state = roles();
        let verdict = Some(AddressCheck::Invalid { reason: "nope".to_string() });
        assert_eq!(
            execute(&mut state, "custodian", "mallory", command, verdict),
            Err(ContractError::Unauthorized {})
        );
        let mut state = roles();
        for command in every_command() {
            assert_eq!(
                execute(&mut state, "custodian", "", command, None),
                Err(ContractError::Unauthorized {})
            );
        }
    }
}

#[test]
fn operator_passes_every_command_but_set_operator() {
    for command in every_command() {
        let mut state = roles();
        let appoints = matches!(command, ExecuteMsg::SetOperator { .. });
        let verdict = address_to_validate(&command).map(|addr| valid(&addr));
        let outcome = execute(&mut state, "custodian", "oscar", command, verdict);
        if appoints {
            assert_eq!(outcome, Err(ContractError::Unauthorized {}));
        } else {
            assert!(outcome.is_ok());
        }
        assert_eq!(state, roles());
    }
}

#[test]
fn admin_passes_every_command() {
    for command in every_command() {
        let mut state = roles();
        let verdict = address_to_validate(&command).map(|addr| valid(&addr));
        assert!(execute(&mut state, "custodian", "alice", command, verdict).is_ok());
        assert_eq!(state.admin, "alice");
    }
}

#[test]
fn execute_returns_what_the_handler_returns() {
    let mut state = roles();
    let commands = every_command();
    let mut dispatched = Vec::new();
    for command in every_command() {
        let verdict = address_to_validate(&command).map(|addr| valid(&addr));
        dispatched.push(execute(&mut state, "custodian", "oscar", command, verdict));
    }
    assert_eq!(commands.len(), 9);
    let state = roles();
    assert_eq!(dispatched[0], transfer_native(&state, "oscar", "bob".to_string(), usei(1)));
    assert_eq!(dispatched[1], transfer_cw20(&state, "oscar", valid("token"), "bob".to_string(), 2));
    assert_eq!(
        dispatched[2],
        approve_nft_transfer(&state, "custodian", "oscar", valid("nfts"), "a".to_string())
    );
    assert_eq!(
        dispatched[3],
        transfer_nft(&state, "oscar", valid("nfts"), "bob".to_string(), "a".to_string())
    );
    assert_eq!(
        dispatched[4],
        transfer_nfts(
            &state,
            "custodian",
            "oscar",
            valid("nfts"),
            "bob".to_string(),
            vec!["a".to_string(), "b".to_string()]
        )
    );
    assert_eq!(
        dispatched[5],
        bulk_transfer_native(&state, "oscar", vec!["bob".to_string()], vec![usei(3)])
    );
    assert_eq!(
        dispatched[6],
        bulk_transfer_cw20(&state, "oscar", valid("token"), vec!["bob".to_string()], vec![4])
    );
    assert_eq!(dispatched[7], Err(ContractError::Unauthorized {}));
    assert_eq!(dispatched[8], Err(ContractError::Unauthorized {}));
}

#[test]
fn execute_sets_and_clears_the_operator() {
    let mut state = RoleState { admin: "alice".to_string(), operator: None };
    let appoint = ExecuteMsg::SetOperator { operator: Some("oscar".to_string()) };
    assert!(execute(&mut state, "custodian", "alice", appoint, Some(valid("oscar"))).is_ok());
    assert_eq!(state.operator, Some("oscar".to_string()));
    let clear = ExecuteMsg::SetOperator { operator: None };
    assert!(execute(&mut state, "custodian", "alice", clear, None).is_ok());
    assert_eq!(state.operator, None);
}

#[test]
fn execute_uses_the_identity_the_host_gave_back() {
    let mut state = roles();
    let appoint = ExecuteMsg::SetOperator { operator: Some("oscar".to_string()) };
    assert!(execute(&mut state, "custodian", "alice", appoint, Some(valid("olga"))).is_ok());
    assert_eq!(state.operator, Some("olga".to_string()));
}

#[test]
fn command_without_its_verdict_is_invalid_input() {
    let unvalidated =
        ContractError::InvalidInput { msg: "Address was not validated".to_string() };
    for command in every_command() {
        let mut state = roles();
        let needs_verdict = address_to_validate(&command).is_some();
        let outcome = execute(&mut state, "custodian", "alice", command, None);
        if needs_verdict {
            assert_eq!(outcome, Err(unvalidated_copy(&unvalidated)));
            assert_eq!(state, roles());
        } else {
            assert!(outcome.is_ok());
        }
    }
}

fn unvalidated_copy(error: &ContractError) -> ContractError {
    match error {
        ContractError::InvalidInput { msg } => ContractError::InvalidInput { msg: msg.clone() },
        _ => unreachable!(),
    }
}

#[test]
fn rejected_address_is_invalid_input() {
    for command in every_command() {
        let mut state = roles();
        let needs_verdict = address_to_validate(&command).is_some();
        let verdict = Some(AddressCheck::Invalid { reason: "bad checksum".to_string() });
        let outcome = execute(&mut state, "custodian", "alice", command, verdict);
        if needs_verdict {
            assert_eq!(
                outcome,
                Err(ContractError::InvalidInput { msg: "bad checksum".to_string() })
            );
            assert_eq!(state, roles());
        } else {
            assert!(outcome.is_ok());
        }
    }
}
