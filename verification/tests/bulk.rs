use custodian::contract::{bulk_transfer_cw20, bulk_transfer_native};
use custodian::error::ContractError;
use custodian::helpers::AddressCheck;
use custodian::msg::Coin;
use custodian::response::{Attribute, Instruction, Response};
use custodian::state::RoleState;

fn roles() -> RoleState {
    RoleState { admin: "alice".to_string(), operator: Some("oscar".to_string()) }
}

fn valid(addr: &str) -> AddressCheck {
    AddressCheck::Valid { addr: addr.to_string() }
}

fn mismatch() -> ContractError {
    ContractError::InvalidInput { msg: "Mismatched addresses and amounts".to_string() }
}

fn coin(amount: u128, denom: &str) -> Coin {
    Coin { denom: denom.to_string(), amount }
}

fn names(list: &[&str]) -> Vec<String> {
    list.iter().map(|s| s.to_string()).collect()
}

fn transfer(registry: &str, recipient: &str, amount: u128) -> Instruction {
    Instruction::Execute {
        contract_addr: registry.to_string(),
        msg: format!(r#"{{"transfer":{{"recipient":"{}","amount":"{}"}}}}"#, recipient, amount)
            .into_bytes(),
        funds: vec![],
    }
}

#[test]
fn bulk_native_sends_pairwise_in_order() {
    let response = bulk_transfer_native(
        &roles(),
        "alice",
        names(&["bob", "carol", "dave"]),
        vec![coin(1, "usei"), coin(2, "uatom"), coin(3, "usei")],
    );
    assert_eq!(
        response,
        Ok(Response {
            messages: vec![
                Instruction::Send { to_address: "bob".to_string(), amount: vec![coin(1, "usei")] },
                Instruction::Send {
                    to_address: "carol".to_string(),
                    amount: vec![coin(2, "uatom")],
                },
                Instruction::Send { to_address: "dave".to_string(), amount: vec![coin(3, "usei")] },
            ],
            attributes: vec![Attribute {
                key: "action".to_string(),
                value: "bulk_transfer_native".to_string(),
            }],
        })
    );
}

#[test]
fn bulk_native_with_empty_lists_emits_nothing() {
    let response = bulk_transfer_native(&roles(), "oscar", vec![], vec![]).unwrap();
    assert!(response.messages.is_empty());
    assert_eq!(response.attributes.len(), 1);
}

#[test]
fn bulk_native_refuses_mismatched_lengths() {
    assert_eq!(
        bulk_transfer_native(&roles(), "alice", names(&["bob", "carol"]), vec![coin(1, "usei")]),
        Err(mismatch())
    );
    assert_eq!(
        bulk_transfer_native(&roles(), "alice", names(&["bob"]), vec![coin(1, "u"), coin(2, "u")]),
        Err(mismatch())
    );
    assert_eq!(
        bulk_transfer_native(&roles(), "oscar", vec![], vec![coin(1, "usei")]),
        Err(mismatch())
    );
    assert_eq!(bulk_transfer_native(&roles(), "oscar", names(&["bob"]), vec![]), Err(mismatch()));
}

#[test]
fn bulk_native_checks_the_caller_first() {
    assert_eq!(
        bulk_transfer_native(&roles(), "mallory", names(&["bob"]), vec![]),
        Err(ContractError::Unauthorized {})
    );
    assert_eq!(
        bulk_transfer_native(&roles(), "mallory", names(&["bob"]), vec![coin(1, "usei")]),
        Err(ContractError::Unauthorized {})
    );
}

#[test]
fn bulk_cw20_transfers_pairwise_in_order() {
    let response = bulk_transfer_cw20(
        &roles(),
        "alice",
        valid("token"),
        names(&["bob", "carol"]),
        vec![10, 20],
    );
    assert_eq!(
        response,
        Ok(Response {
            messages: vec![transfer("token", "bob", 10), transfer("token", "carol", 20)],
            attributes: vec![Attribute {
                key: "action".to_string(),
                value: "bulk_transfer_cw20".to_string(),
            }],
        })
    );
}

#[test]
fn bulk_cw20_refuses_mismatched_lengths() {
    assert_eq!(
        bulk_transfer_cw20(&roles(), "alice", valid("token"), names(&["bob"]), vec![]),
        Err(mismatch())
    );
    assert_eq!(
        bulk_transfer_cw20(&roles(), "alice", valid("token"), vec![], vec![5]),
        Err(mismatch())
    );
    assert_eq!(
        bulk_transfer_cw20(&roles(), "oscar", valid("token"), names(&["a", "b", "c"]), vec![1, 2]),
        Err(mismatch())
    );
}

#[test]
fn bulk_cw20_reports_lengths_before_the_registry() {
    let rejected = AddressCheck::Invalid { reason: "nope".to_string() };
    assert_eq!(
        bulk_transfer_cw20(&roles(), "alice", rejected.clone(), names(&["bob"]), vec![]),
        Err(mismatch())
    );
    assert_eq!(
        bulk_transfer_cw20(&roles(), "alice", rejected.clone(), names(&["bob"]), vec![1]),
        Err(ContractError::InvalidInput { msg: "nope".to_string() })
    );
    assert_eq!(
        bulk_transfer_cw20(&roles(), "alice", rejected, vec![], vec![]),
        Err(ContractError::InvalidInput { msg: "nope".to_string() })
    );
}

#[test]
fn bulk_cw20_checks_the_caller_first() {
    assert_eq!(
        bulk_transfer_cw20(&roles(), "mallory", valid("token"), names(&["bob"]), vec![]),
        Err(ContractError::Unauthorized {})
    );
}

#[test]
fn bulk_cw20_with_empty_lists_emits_nothing() {
    let response = bulk_transfer_cw20(&roles(), "alice", valid("token"), vec![], vec![]).unwrap();
    assert!(response.messages.is_empty());
}
