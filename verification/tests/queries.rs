use custodian::error::ContractError;
use custodian::msg::{Coin, GetTotalEscrowNftsResponse, QueryMsg};
use custodian::query::{
    collect_tokens, get_admin, get_cw20_tokens, get_escrow_nfts, get_native_tokens, get_total_escrow_nfts,
    query, reply_bytes, tokens_query, HostQuery, TokensQuery,
};
use custodian::state::RoleState;

fn names(list: &[&str]) -> Vec<String> {
    list.iter().map(|s| s.to_string()).collect()
}

fn down() -> ContractError {
    ContractError::Std(cosmwasm_std::StdError::generic_err("registry is down"))
}

#[test]
fn tokens_query_starts_at_the_first_token() {
    assert_eq!(
        tokens_query("custodian", Some(30)),
        TokensQuery { owner: "custodian".to_string(), start_after: None, limit: Some(30) }
    );
    assert_eq!(
        tokens_query("custodian", None),
        TokensQuery { owner: "custodian".to_string(), start_after: None, limit: None }
    );
}

#[test]
fn get_admin_asks_for_the_roles() {
    assert_eq!(query("custodian", QueryMsg::GetAdmin {}), HostQuery::Roles);
    let state = RoleState { admin: "alice".to_string(), operator: Some("oscar".to_string()) };
    assert_eq!(get_admin(&state).admin, "alice");
}

#[test]
fn total_escrow_asks_each_registry_about_the_custodian() {
    let msg = QueryMsg::GetTotalEscrowNfts {
        nft_contract_addrs: names(&["r1", "r2", "r1"]),
        limit: Some(10),
    };
    assert_eq!(
        query("custodian", msg),
        HostQuery::TokensOfEach {
            registries: names(&["r1", "r2", "r1"]),
            query: TokensQuery {
                owner: "custodian".to_string(),
                start_after: None,
                limit: Some(10),
            },
        }
    );
    let unbounded = QueryMsg::GetTotalEscrowNfts { nft_contract_addrs: vec![], limit: None };
    assert_eq!(
        query("custodian", unbounded),
        HostQuery::TokensOfEach {
            registries: vec![],
            query: TokensQuery { owner: "custodian".to_string(), start_after: None, limit: None },
        }
    );
}

#[test]
fn escrow_query_always_carries_its_limit() {
    let msg = QueryMsg::GetEscrowNfts { nft_contract_addr: "r1".to_string(), limit: 0 };
    assert_eq!(
        query("custodian", msg),
        HostQuery::Tokens {
            registry: "r1".to_string(),
            query: TokensQuery {
                owner: "custodian".to_string(),
                start_after: None,
                limit: Some(0),
            },
        }
    );
}

#[test]
fn balance_queries_are_about_the_custodian() {
    assert_eq!(
        query("custodian", QueryMsg::GetCw20Tokens { cw20_contract_addr: "token".to_string() }),
        HostQuery::Cw20Balance { registry: "token".to_string(), address: "custodian".to_string() }
    );
    assert_eq!(
        query("custodian", QueryMsg::GetNativeTokens {}),
        HostQuery::NativeBalance { address: "custodian".to_string(), denom: "usei".to_string() }
    );
}

#[test]
fn total_escrow_concatenates_in_registry_order() {
    let answers = vec![Ok(names(&["x", "y"])), Ok(names(&["z"]))];
    assert_eq!(
        get_total_escrow_nfts(answers),
        Ok(GetTotalEscrowNftsResponse { token_ids: names(&["x", "y", "z"]) })
    );
}

#[test]
fn total_escrow_fails_as_a_whole() {
    let answers = vec![Ok(names(&["x", "y"])), Err(down())];
    assert_eq!(get_total_escrow_nfts(answers), Err(down()));
}

#[test]
fn total_escrow_reports_the_first_failure() {
    let invalid = ContractError::InvalidInput { msg: "bad address".to_string() };
    let answers = vec![
        Ok(names(&["x"])),
        Err(ContractError::InvalidInput { msg: "bad address".to_string() }),
        Ok(names(&["z"])),
        Err(down()),
    ];
    assert_eq!(get_total_escrow_nfts(answers), Err(invalid));
    assert_eq!(get_total_escrow_nfts(vec![Err(down()), Ok(names(&["x"]))]), Err(down()));
}

#[test]
fn total_escrow_does_not_deduplicate() {
    let answers = vec![Ok(names(&["x", "y"])), Ok(names(&["x", "y"])), Ok(vec![])];
    assert_eq!(
        get_total_escrow_nfts(answers),
        Ok(GetTotalEscrowNftsResponse { token_ids: names(&["x", "y", "x", "y"]) })
    );
}

#[test]
fn total_escrow_of_no_registry_is_empty() {
    assert_eq!(get_total_escrow_nfts(vec![]), Ok(GetTotalEscrowNftsResponse { token_ids: vec![] }));
}

#[test]
fn collect_tokens_appends_or_leaves_alone() {
    let mut total = GetTotalEscrowNftsResponse { token_ids: names(&["x"]) };
    assert_eq!(collect_tokens(&mut total, Ok(names(&["y", "z"]))), Ok(()));
    assert_eq!(total.token_ids, names(&["x", "y", "z"]));
    assert_eq!(collect_tokens(&mut total, Err(down())), Err(down()));
    assert_eq!(total.token_ids, names(&["x", "y", "z"]));
    assert_eq!(collect_tokens(&mut total, Ok(vec![])), Ok(()));
    assert_eq!(total.token_ids, names(&["x", "y", "z"]));
}

#[test]
fn reply_bytes_keeps_bytes_and_errors() {
    assert_eq!(reply_bytes(Ok(vec![1, 2])), Ok(vec![1, 2]));
    assert_eq!(reply_bytes(Err(cosmwasm_std::StdError::generic_err("registry is down"))), Err(down()));
}

#[test]
fn escrow_nfts_are_encoded_as_the_registry_lists_them() {
    let bytes = get_escrow_nfts(Ok(names(&["x", "y"]))).unwrap();
    assert_eq!(bytes, br#"{"tokens":["x","y"]}"#.to_vec());
    let decoded: cw721::TokensResponse = cosmwasm_std::from_json(&bytes).unwrap();
    assert_eq!(decoded.tokens, names(&["x", "y"]));
    assert_eq!(get_escrow_nfts(Ok(vec![])).unwrap(), br#"{"tokens":[]}"#.to_vec());
}

#[test]
fn escrow_nfts_failure_is_passed_on() {
    assert_eq!(get_escrow_nfts(Err(down())), Err(down()));
    assert_eq!(
        get_escrow_nfts(Err(ContractError::InvalidInput { msg: "bad address".to_string() })),
        Err(ContractError::InvalidInput { msg: "bad address".to_string() })
    );
}

#[test]
fn cw20_balance_is_encoded() {
    let bytes = get_cw20_tokens(Ok(5)).unwrap();
    assert_eq!(bytes, br#"{"balance":"5"}"#.to_vec());
    let decoded: cw20::BalanceResponse = cosmwasm_std::from_json(&bytes).unwrap();
    assert_eq!(decoded.balance, cosmwasm_std::Uint128::new(5));
    assert_eq!(get_cw20_tokens(Err(down())), Err(down()));
}

#[test]
fn native_balance_is_encoded() {
    let bytes = get_native_tokens(Ok(Coin { denom: "usei".to_string(), amount: 7 })).unwrap();
    assert_eq!(bytes, br#"{"denom":"usei","amount":"7"}"#.to_vec());
    let decoded: cosmwasm_std::Coin = cosmwasm_std::from_json(&bytes).unwrap();
    assert_eq!(decoded, cosmwasm_std::Coin::new(7, "usei"));
    assert_eq!(get_native_tokens(Err(down())), Err(down()));
}
