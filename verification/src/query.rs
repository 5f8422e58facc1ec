//! The read-only side: what to ask the host for each query, and what to make
//! of its answers.
//!
//! Nothing here reaches a registry. [`query`] names the question; the caller
//! puts it to the host and hands the answer, or the reason there is none, to
//! the function that folds it into the reply.

use vstd::prelude::*;
use crate::error::{ContractError, ErrorKind};
use crate::msg::{Coin, GetTotalEscrowNftsResponse, QueryMsg, QueryMsgView, QueryResponse};
use crate::state::RoleState;
use crate::wire::{
    coin_json,
    cw20_balance_json,
    encode_coin,
    encode_cw20_balance,
    encode_tokens,
    tokens_json,
};

verus! {

/// The question put to a token registry: the tokens that `owner` holds, from
/// the first on, at most `limit` of them where a limit is set.
#[derive(Clone, Debug, PartialEq, Eq)]
pub struct TokensQuery {
    pub owner: String,
    pub start_after: Option<String>,
    pub limit: Option<u32>,
}

/// A [`TokensQuery`] over character sequences.
pub struct TokensQueryView {
    pub owner: Seq<char>,
    pub start_after: Option<Seq<char>>,
    pub limit: Option<u32>,
}

impl View for TokensQuery {
    type V = TokensQueryView;

    open spec fn view(&self) -> TokensQueryView {
        TokensQueryView {
            owner: self.owner@,
            start_after: self.start_after.deep_view(),
            limit: self.limit,
        }
    }
}

/// What the host is to find out to answer a query.
#[derive(Clone, Debug, PartialEq, Eq)]
pub enum HostQuery {
    /// The stored roles.
    Roles,
    /// The tokens held at each of these registries, asked in this order.
    TokensOfEach { registries: Vec<String>, query: TokensQuery },
    /// The tokens held at one registry.
    Tokens { registry: String, query: TokensQuery },
    /// The balance of `address` at a fungible-token registry.
    Cw20Balance { registry: String, address: String },
    /// The balance of `address` in one native denomination.
    NativeBalance { address: String, denom: String },
}

/// A [`HostQuery`] over character sequences.
pub enum HostQueryView {
    Roles,
    TokensOfEach { registries: Seq<Seq<char>>, query: TokensQueryView },
    Tokens { registry: Seq<char>, query: TokensQueryView },
    Cw20Balance { registry: Seq<char>, address: Seq<char> },
    NativeBalance { address: Seq<char>, denom: Seq<char> },
}

impl View for HostQuery {
    type V = HostQueryView;

    open spec fn view(&self) -> HostQueryView {
        match self {
            HostQuery::Roles => HostQueryView::Roles,
            HostQuery::TokensOfEach { registries, query } => HostQueryView::TokensOfEach {
                registries: registries.deep_view(),
                query: query@,
            },
            HostQuery::Tokens { registry, query } => HostQueryView::Tokens {
                registry: registry@,
                query: query@,
            },
            HostQuery::Cw20Balance { registry, address } => HostQueryView::Cw20Balance {
                registry: registry@,
                address: address@,
            },
            HostQuery::NativeBalance { address, denom } => HostQueryView::NativeBalance {
                address: address@,
                denom: denom@,
            },
        }
    }
}

/// The question for the tokens of `owner`, from the first token on.
pub open spec fn tokens_of(owner: Seq<char>, limit: Option<u32>) -> TokensQueryView {
    TokensQueryView { owner, start_after: None, limit }
}

/// Builds the question for the tokens of `owner`, from the first token on.
pub fn tokens_query(owner: &str, limit: Option<u32>) -> (r: TokensQuery)
    ensures
        r@ == tokens_of(owner@, limit),
{
    TokensQuery { owner: owner.to_owned(), start_after: None, limit }
}

/// What [`query`] returns. Every question about holdings is about the
/// custodian itself, at `contract_address`.
pub open spec fn host_query(contract_address: Seq<char>, msg: QueryMsgView) -> HostQueryView {
    match msg {
        QueryMsgView::GetAdmin => HostQueryView::Roles,
        QueryMsgView::GetTotalEscrowNfts { nft_contract_addrs, limit } => {
            HostQueryView::TokensOfEach {
                registries: nft_contract_addrs,
                query: tokens_of(contract_address, limit),
            }
        },
        QueryMsgView::GetEscrowNfts { nft_contract_addr, limit } => HostQueryView::Tokens {
            registry: nft_contract_addr,
            query: tokens_of(contract_address, Some(limit)),
        },
        QueryMsgView::GetCw20Tokens { cw20_contract_addr } => HostQueryView::Cw20Balance {
            registry: cw20_contract_addr,
            address: contract_address,
        },
        QueryMsgView::GetNativeTokens => HostQueryView::NativeBalance {
            address: contract_address,
            denom: "usei"@,
        },
    }
}

/// Dispatches a query: says what the host has to find out for it. The
/// answer goes to [`get_admin`], [`get_total_escrow_nfts`],
/// [`get_escrow_nfts`], [`get_cw20_tokens`] or [`get_native_tokens`].
pub fn query(contract_address: &str, msg: QueryMsg) -> (r: HostQuery)
    ensures
        r@ == host_query(contract_address@, msg@),
{
    match msg {
        QueryMsg::GetAdmin {  } => HostQuery::Roles,
        QueryMsg::GetTotalEscrowNfts { nft_contract_addrs, limit } => HostQuery::TokensOfEach {
            registries: nft_contract_addrs,
            query: tokens_query(contract_address, limit),
        },
        QueryMsg::GetEscrowNfts { nft_contract_addr, limit } => HostQuery::Tokens {
            registry: nft_contract_addr,
            query: tokens_query(contract_address, Some(limit)),
        },
        QueryMsg::GetCw20Tokens { cw20_contract_addr } => HostQuery::Cw20Balance {
            registry: cw20_contract_addr,
            address: contract_address.to_owned(),
        },
        QueryMsg::GetNativeTokens {  } => HostQuery::NativeBalance {
            address: contract_address.to_owned(),
            denom: "usei".to_owned(),
        },
    }
}

/// Answers `GetAdmin`: the admin as the roles have it.
pub fn get_admin(roles: &RoleState) -> (r: QueryResponse)
    ensures
        r.admin@ == roles@.admin,
{
    QueryResponse { admin: roles.admin.clone() }
}

/// `r` is the encoded answer, or the codec's refusal.
pub open spec fn encoded_answer(r: Result<Vec<u8>, ContractError>, json: Option<Seq<u8>>) -> bool {
    match json {
        Some(bytes) => r matches Ok(b) && b@ == bytes,
        None => r matches Err(e) && e@ == ErrorKind::Std,
    }
}

/// Wraps what an encoder returned: the bytes, or the codec's error as it is.
pub fn reply_bytes(payload: Result<Vec<u8>, cosmwasm_std::StdError>) -> (r: Result<
    Vec<u8>,
    ContractError,
>)
    ensures
        match payload {
            Ok(bytes) => r == Ok::<Vec<u8>, ContractError>(bytes),
            Err(e) => r == Err::<Vec<u8>, ContractError>(ContractError::Std(e)),
        },
{
    match payload {
        Ok(bytes) => Ok(bytes),
        Err(e) => Err(ContractError::Std(e)),
    }
}

/// Answers `GetEscrowNfts`: the tokens the registry listed, encoded. Where
/// the registry gave no list, the reason is passed on as it is.
pub fn get_escrow_nfts(answer: Result<Vec<String>, ContractError>) -> (r: Result<
    Vec<u8>,
    ContractError,
>)
    ensures
        match answer {
            Ok(tokens) => encoded_answer(r, tokens_json(tokens.deep_view())),
            Err(e) => r == Err::<Vec<u8>, ContractError>(e),
        },
{
    match answer {
        Ok(tokens) => reply_bytes(encode_tokens(&tokens)),
        Err(e) => Err(e),
    }
}

/// Answers `GetCw20Tokens`: the balance the registry reported, encoded.
/// Where the registry reported none, the reason is passed on as it is.
pub fn get_cw20_tokens(answer: Result<u128, ContractError>) -> (r: Result<Vec<u8>, ContractError>)
    ensures
        match answer {
            Ok(balance) => encoded_answer(r, cw20_balance_json(balance)),
            Err(e) => r == Err::<Vec<u8>, ContractError>(e),
        },
{
    match answer {
        Ok(balance) => reply_bytes(encode_cw20_balance(balance)),
        Err(e) => Err(e),
    }
}

/// Answers `GetNativeTokens`: the balance the ledger reported, encoded.
/// Where the ledger reported none, the reason is passed on as it is.
pub fn get_native_tokens(answer: Result<Coin, ContractError>) -> (r: Result<Vec<u8>, ContractError>)
    ensures
        match answer {
            Ok(coin) => encoded_answer(r, coin_json(coin.denom@, coin.amount)),
            Err(e) => r == Err::<Vec<u8>, ContractError>(e),
        },
{
    match answer {
        Ok(coin) => reply_bytes(encode_coin(coin.denom.as_str(), coin.amount)),
        Err(e) => Err(e),
    }
}

/// The tokens one registry contributed: those it listed, none where it
/// gave no list.
pub open spec fn listed(answer: Result<Vec<String>, ContractError>) -> Seq<Seq<char>> {
    match answer {
        Ok(tokens) => tokens.deep_view(),
        Err(_) => Seq::empty(),
    }
}

/// The tokens of all answers, answer after answer, each registry's tokens in
/// the order it listed them. Nothing is dropped: a token listed twice is
/// there twice.
pub open spec fn all_tokens(answers: Seq<Result<Vec<String>, ContractError>>) -> Seq<Seq<char>>
    decreases answers.len(),
{
    if answers.len() == 0 {
        Seq::empty()
    } else {
        all_tokens(answers.drop_last()) + listed(answers.last())
    }
}

/// The answer at `k` is the first that is a failure.
pub open spec fn fails_first_at(answers: Seq<Result<Vec<String>, ContractError>>, k: int) -> bool {
    &&& 0 <= k < answers.len()
    &&& answers[k] is Err
    &&& forall|j: int| 0 <= j < k ==> (#[trigger] answers[j]) is Ok
}

/// Folds one registry's answer into the tokens gathered so far: its tokens
/// are added at the end, in its order. Where the registry gave no list, the
/// reason comes back as it is and nothing gathered changes.
pub fn collect_tokens(
    total: &mut GetTotalEscrowNftsResponse,
    answer: Result<Vec<String>, ContractError>,
) -> (r: Result<(), ContractError>)
    ensures
        match answer {
            Ok(tokens) => r is Ok && final(total)@ == old(total)@ + tokens.deep_view(),
            Err(e) => r == Err::<(), ContractError>(e) && final(total)@ == old(total)@,
        },
{
    match answer {
        Ok(tokens) => {
            let mut tokens = tokens;
            total.token_ids.append(&mut tokens);
            Ok(())
        },
        Err(e) => Err(e),
    }
}

/// Answers `GetTotalEscrowNfts` from the registries' answers, given in the
/// order the registries were named: all their tokens, registry after
/// registry. One failure fails the whole query: the first failing answer's
/// reason comes back as it is, and no partial list.
#[verifier::loop_isolation(false)]
pub fn get_total_escrow_nfts(answers: Vec<Result<Vec<String>, ContractError>>) -> (r: Result<
    GetTotalEscrowNftsResponse,
    ContractError,
>)
    ensures
        r is Ok <==> forall|i: int| 0 <= i < answers.len() ==> (#[trigger] answers[i]) is Ok,
        r matches Ok(total) ==> total@ == all_tokens(answers@),
        forall|k: int|
            fails_first_at(answers@, k) ==> r == Err::<GetTotalEscrowNftsResponse, ContractError>(
                answers[k]->Err_0,
            ),
{
    let ghost all = answers@;
    let mut rest = answers;
    let mut total = GetTotalEscrowNftsResponse { token_ids: Vec::new() };
    let ghost mut i: int = 0;
    while rest.len() > 0
        invariant
            0 <= i,
            i + rest.len() == all.len(),
            rest@ == all.skip(i),
            total@ == all_tokens(all.take(i)),
            forall|j: int| 0 <= j < i ==> (#[trigger] all[j]) is Ok,
        decreases rest.len(),
    {
        let answer = rest.remove(0);
        assert(all.take(i + 1).drop_last() =~= all.take(i));
        match collect_tokens(&mut total, answer) {
            Ok(()) => {},
            Err(e) => {
                assert(forall|k: int| fails_first_at(all, k) ==> k == i);
                return Err(e);
            },
        }
        proof {
            i = i + 1;
        }
    }
    assert(all.take(i) =~= all);
    assert(forall|k: int| !fails_first_at(all, k));
    Ok(total)
}

} // verus!
