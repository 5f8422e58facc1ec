use custodian::error::ContractError;
use custodian::msg::Coin;
use custodian::text::{amount_text, coin_to_text, join};

#[test]
fn amounts_are_written_in_decimal() {
    assert_eq!(amount_text(0), "0");
    assert_eq!(amount_text(7), "7");
    assert_eq!(amount_text(10), "10");
    assert_eq!(amount_text(1_000_000), "1000000");
    assert_eq!(amount_text(u128::MAX), "340282366920938463463374607431768211455");
}

#[test]
fn amount_text_agrees_with_the_ledger_type() {
    for amount in [0u128, 9, 10, 99, 100, 12345678901234567890, u128::MAX] {
        assert_eq!(amount_text(amount), cosmwasm_std::Uint128::new(amount).to_string());
    }
}

#[test]
fn coins_are_written_without_a_gap() {
    let coin = Coin { denom: "usei".to_string(), amount: 1500 };
    assert_eq!(coin_to_text(&coin), "1500usei");
    assert_eq!(coin_to_text(&coin), cosmwasm_std::Coin::new(1500, "usei").to_string());
    assert_eq!(coin_to_text(&Coin { denom: String::new(), amount: 0 }), "0");
}

#[test]
fn join_puts_the_separator_between_neighbours() {
    assert_eq!(join(&vec![], ", "), "");
    assert_eq!(join(&vec!["a".to_string()], ", "), "a");
    assert_eq!(join(&vec!["a".to_string(), "b".to_string(), "c".to_string()], ", "), "a, b, c");
    assert_eq!(join(&vec!["".to_string(), "".to_string()], "-"), "-");
}

#[test]
fn errors_say_what_went_wrong() {
    assert_eq!(
        ContractError::Unauthorized {}.message(),
        "Unauthorized: Only the admin can perform this action"
    );
    assert_eq!(
        ContractError::InvalidInput { msg: "Mismatched addresses and amounts".to_string() }.message(),
        "Invalid input: Mismatched addresses and amounts"
    );
    assert_eq!(ContractError::NftTransferFailed {}.message(), "NFT transfer failed");
    assert_eq!(ContractError::InsufficientFunds {}.message(), "Insufficient funds");
}

#[test]
fn collaborator_errors_keep_their_own_text() {
    let error = cosmwasm_std::StdError::generic_err("registry is down");
    let text = error.to_string();
    assert_eq!(ContractError::Std(error).message(), text);
    assert_eq!(text, "Generic error: registry is down");
}
