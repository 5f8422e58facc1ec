//! The messages registries understand, as the bytes they are sent in.
//!
//! Encoding is the codec's work, not this crate's. Each encoder here hands
//! plain values to `cosmwasm_std::to_json_binary` and passes on what comes
//! back; Verus takes the stated relation on trust. What the bytes are is not
//! spelled out: each encoding has a name, a function of the values encoded,
//! and `None` where the codec refuses them.

use vstd::prelude::*;
use crate::msg::Expiration;

verus! {

/// The encoding of a fungible-token registry's `transfer` message.
pub uninterp spec fn cw20_transfer_json(recipient: Seq<char>, amount: u128) -> Option<Seq<u8>>;

/// The encoding of a token registry's `approve` message.
pub uninterp spec fn cw721_approve_json(
    spender: Seq<char>,
    token_id: Seq<char>,
    expires: Option<Expiration>,
) -> Option<Seq<u8>>;

/// The encoding of a token registry's `transfer_nft` message.
pub uninterp spec fn cw721_transfer_json(recipient: Seq<char>, token_id: Seq<char>) -> Option<
    Seq<u8>,
>;

/// The encoding of a token registry's list of token identifiers.
pub uninterp spec fn tokens_json(tokens: Seq<Seq<char>>) -> Option<Seq<u8>>;

/// The encoding of a fungible-token registry's balance answer.
pub uninterp spec fn cw20_balance_json(balance: u128) -> Option<Seq<u8>>;

/// The encoding of an amount of one native denomination.
pub uninterp spec fn coin_json(denom: Seq<char>, amount: u128) -> Option<Seq<u8>>;

/// `r` is what an encoder returns where the encoding is `json`: the bytes
/// where there are any, an error where the codec refused.
pub open spec fn encoded(r: Result<Vec<u8>, cosmwasm_std::StdError>, json: Option<Seq<u8>>) -> bool {
    match r {
        Ok(bytes) => json == Some(bytes@),
        Err(_) => json is None,
    }
}

/// Calls `cosmwasm_std::to_json_binary` on `cw20::Cw20ExecuteMsg::Transfer`
/// with this recipient and amount. Trusted: the outcome is a function of the
/// two values, named [`cw20_transfer_json`].
#[verifier::external_body]
pub(crate) fn encode_cw20_transfer(recipient: &str, amount: u128) -> (r: Result<
    Vec<u8>,
    cosmwasm_std::StdError,
>)
    ensures
        encoded(r, cw20_transfer_json(recipient@, amount)),
{
    let msg = cw20::Cw20ExecuteMsg::Transfer {
        recipient: recipient.to_string(),
        amount: cosmwasm_std::Uint128::new(amount),
    };
    match cosmwasm_std::to_json_binary(&msg) {
        Ok(binary) => Ok(binary.0),
        Err(e) => Err(e),
    }
}

/// Calls `cosmwasm_std::to_json_binary` on `cw721::Cw721ExecuteMsg::Approve`
/// with this spender, token and expiry. Trusted: the outcome is a function
/// of the three values, named [`cw721_approve_json`].
#[verifier::external_body]
pub(crate) fn encode_cw721_approve(spender: &str, token_id: &str, expires: Option<Expiration>) -> (r:
    Result<Vec<u8>, cosmwasm_std::StdError>)
    ensures
        encoded(r, cw721_approve_json(spender@, token_id@, expires)),
{
    let expires = match expires {
        Some(Expiration::AtHeight(height)) => Some(cw721::Expiration::AtHeight(height)),
        Some(Expiration::AtTime(nanos)) => Some(
            cw721::Expiration::AtTime(cosmwasm_std::Timestamp::from_nanos(nanos)),
        ),
        Some(Expiration::Never {  }) => Some(cw721::Expiration::Never {  }),
        None => None,
    };
    let spender = spender.to_string();
    let msg = cw721::Cw721ExecuteMsg::Approve { spender, token_id: token_id.to_string(), expires };
    match cosmwasm_std::to_json_binary(&msg) {
        Ok(binary) => Ok(binary.0),
        Err(e) => Err(e),
    }
}

/// Calls `cosmwasm_std::to_json_binary` on
/// `cw721::Cw721ExecuteMsg::TransferNft` with this recipient and token.
/// Trusted: the outcome is a function of the two values, named
/// [`cw721_transfer_json`].
#[verifier::external_body]
pub(crate) fn encode_cw721_transfer(recipient: &str, token_id: &str) -> (r: Result<
    Vec<u8>,
    cosmwasm_std::StdError,
>)
    ensures
        encoded(r, cw721_transfer_json(recipient@, token_id@)),
{
    let msg = cw721::Cw721ExecuteMsg::TransferNft {
        recipient: recipient.to_string(),
        token_id: token_id.to_string(),
    };
    match cosmwasm_std::to_json_binary(&msg) {
        Ok(binary) => Ok(binary.0),
        Err(e) => Err(e),
    }
}

/// Calls `cosmwasm_std::to_json_binary` on a `cw721::TokensResponse` that
/// holds these token identifiers. Trusted: the outcome is a function of the
/// identifiers, named [`tokens_json`].
#[verifier::external_body]
pub(crate) fn encode_tokens(tokens: &Vec<String>) -> (r: Result<Vec<u8>, cosmwasm_std::StdError>)
    ensures
        encoded(r, tokens_json(tokens.deep_view())),
{
    let msg = cw721::TokensResponse { tokens: tokens.clone() };
    match cosmwasm_std::to_json_binary(&msg) {
        Ok(binary) => Ok(binary.0),
        Err(e) => Err(e),
    }
}

/// Calls `cosmwasm_std::to_json_binary` on a `cw20::BalanceResponse` that
/// holds this balance. Trusted: the outcome is a function of the balance,
/// named [`cw20_balance_json`].
#[verifier::external_body]
pub(crate) fn encode_cw20_balance(balance: u128) -> (r: Result<Vec<u8>, cosmwasm_std::StdError>)
    ensures
        encoded(r, cw20_balance_json(balance)),
{
    let msg = cw20::BalanceResponse { balance: cosmwasm_std::Uint128::new(balance) };
    match cosmwasm_std::to_json_binary(&msg) {
        Ok(binary) => Ok(binary.0),
        Err(e) => Err(e),
    }
}

/// Calls `cosmwasm_std::to_json_binary` on a `cosmwasm_std::Coin` of this
/// denomination and amount. Trusted: the outcome is a function of the two
/// values, named [`coin_json`].
#[verifier::external_body]
pub(crate) fn encode_coin(denom: &str, amount: u128) -> (r: Result<Vec<u8>, cosmwasm_std::StdError>)
    ensures
        encoded(r, coin_json(denom@, amount)),
{
    let msg = cosmwasm_std::Coin::new(amount, denom);
    match cosmwasm_std::to_json_binary(&msg) {
        Ok(binary) => Ok(binary.0),
        Err(e) => Err(e),
    }
}

} // verus!
