//! The commands and queries the custodian accepts, and the payloads it
//! answers with.

use vstd::prelude::*;

verus! {

/// An amount of one native denomination.
#[derive(Debug, PartialEq, Eq)]
pub struct Coin {
    pub denom: String,
    pub amount: u128,
}

/// A [`Coin`] with its denomination as a character sequence.
pub struct CoinView {
    pub denom: Seq<char>,
    pub amount: u128,
}

impl View for Coin {
    type V = CoinView;

    open spec fn view(&self) -> CoinView {
        CoinView { denom: self.denom@, amount: self.amount }
    }
}

impl DeepView for Coin {
    type V = CoinView;

    open spec fn deep_view(&self) -> CoinView {
        self@
    }
}

impl Clone for Coin {
    fn clone(&self) -> (r: Self)
        ensures
            r == *self,
    {
        Coin { denom: self.denom.clone(), amount: self.amount }
    }
}

/// When an approval lapses.
#[derive(Clone, Copy, Debug, PartialEq, Eq)]
pub enum Expiration {
    /// Once the chain has reached this block height.
    AtHeight(u64),
    /// Once the chain's clock has reached this time, in nanoseconds since
    /// the epoch.
    AtTime(u64),
    /// At no time.
    Never {},
}

/// Sent once, when the custodian is set up. The admin it names is not read:
/// the caller who initializes becomes the admin.
#[derive(Clone, Debug, PartialEq, Eq)]
pub struct InstantiateMsg {
    pub admin: String,
}

/// A mutating command.
#[derive(Clone, Debug, PartialEq, Eq)]
pub enum ExecuteMsg {
    TransferNative { to_address: String, amount: Coin },
    TransferCw20 { contract_addr: String, to_address: String, amount: u128 },
    ApproveNftTransfer { nft_contract_addr: String, token_id: String },
    TransferNft { nft_contract_addr: String, to_address: String, token_id: String },
    TransferNfts { nft_contract_addr: String, to_address: String, token_ids: Vec<String> },
    BulkTransferNative { to_addresses: Vec<String>, amounts: Vec<Coin> },
    BulkTransferCw20 { cw20_contract_addr: String, to_addresses: Vec<String>, amounts: Vec<u128> },
    SetOperator { operator: Option<String> },
}

/// An [`ExecuteMsg`] with its text as character sequences.
pub enum ExecuteMsgView {
    TransferNative { to_address: Seq<char>, amount: CoinView },
    TransferCw20 { contract_addr: Seq<char>, to_address: Seq<char>, amount: u128 },
    ApproveNftTransfer { nft_contract_addr: Seq<char>, token_id: Seq<char> },
    TransferNft { nft_contract_addr: Seq<char>, to_address: Seq<char>, token_id: Seq<char> },
    TransferNfts { nft_contract_addr: Seq<char>, to_address: Seq<char>, token_ids: Seq<Seq<char>> },
    BulkTransferNative { to_addresses: Seq<Seq<char>>, amounts: Seq<CoinView> },
    BulkTransferCw20 {
        cw20_contract_addr: Seq<char>,
        to_addresses: Seq<Seq<char>>,
        amounts: Seq<u128>,
    },
    SetOperator { operator: Option<Seq<char>> },
}

impl View for ExecuteMsg {
    type V = ExecuteMsgView;

    open spec fn view(&self) -> ExecuteMsgView {
        match self {
            ExecuteMsg::TransferNative { to_address, amount } => ExecuteMsgView::TransferNative {
                to_address: to_address@,
                amount: amount@,
            },
            ExecuteMsg::TransferCw20 { contract_addr, to_address, amount } => {
                ExecuteMsgView::TransferCw20 {
                    contract_addr: contract_addr@,
                    to_address: to_address@,
                    amount: *amount,
                }
            },
            ExecuteMsg::ApproveNftTransfer { nft_contract_addr, token_id } => {
                ExecuteMsgView::ApproveNftTransfer {
                    nft_contract_addr: nft_contract_addr@,
                    token_id: token_id@,
                }
            },
            ExecuteMsg::TransferNft { nft_contract_addr, to_address, token_id } => {
                ExecuteMsgView::TransferNft {
                    nft_contract_addr: nft_contract_addr@,
                    to_address: to_address@,
                    token_id: token_id@,
                }
            },
            ExecuteMsg::TransferNfts { nft_contract_addr, to_address, token_ids } => {
                ExecuteMsgView::TransferNfts {
                    nft_contract_addr: nft_contract_addr@,
                    to_address: to_address@,
                    token_ids: token_ids.deep_view(),
                }
            },
            ExecuteMsg::BulkTransferNative { to_addresses, amounts } => {
                ExecuteMsgView::BulkTransferNative {
                    to_addresses: to_addresses.deep_view(),
                    amounts: amounts.deep_view(),
                }
            },
            ExecuteMsg::BulkTransferCw20 { cw20_contract_addr, to_addresses, amounts } => {
                ExecuteMsgView::BulkTransferCw20 {
                    cw20_contract_addr: cw20_contract_addr@,
                    to_addresses: to_addresses.deep_view(),
                    amounts: amounts@,
                }
            },
            ExecuteMsg::SetOperator { operator } => ExecuteMsgView::SetOperator {
                operator: operator.deep_view(),
            },
        }
    }
}

/// A read-only query.
#[derive(Clone, Debug, PartialEq, Eq)]
pub enum QueryMsg {
    GetAdmin {},
    GetTotalEscrowNfts { nft_contract_addrs: Vec<String>, limit: Option<u32> },
    GetEscrowNfts { nft_contract_addr: String, limit: u32 },
    GetCw20Tokens { cw20_contract_addr: String },
    GetNativeTokens {},
}

/// A [`QueryMsg`] with its text as character sequences.
pub enum QueryMsgView {
    GetAdmin,
    GetTotalEscrowNfts { nft_contract_addrs: Seq<Seq<char>>, limit: Option<u32> },
    GetEscrowNfts { nft_contract_addr: Seq<char>, limit: u32 },
    GetCw20Tokens { cw20_contract_addr: Seq<char> },
    GetNativeTokens,
}

impl View for QueryMsg {
    type V = QueryMsgView;

    open spec fn view(&self) -> QueryMsgView {
        match self {
            QueryMsg::GetAdmin {  } => QueryMsgView::GetAdmin,
            QueryMsg::GetTotalEscrowNfts { nft_contract_addrs, limit } => {
                QueryMsgView::GetTotalEscrowNfts {
                    nft_contract_addrs: nft_contract_addrs.deep_view(),
                    limit: *limit,
                }
            },
            QueryMsg::GetEscrowNfts { nft_contract_addr, limit } => QueryMsgView::GetEscrowNfts {
                nft_contract_addr: nft_contract_addr@,
                limit: *limit,
            },
            QueryMsg::GetCw20Tokens { cw20_contract_addr } => QueryMsgView::GetCw20Tokens {
                cw20_contract_addr: cw20_contract_addr@,
            },
            QueryMsg::GetNativeTokens {  } => QueryMsgView::GetNativeTokens,
        }
    }
}

/// The answer to [`QueryMsg::GetAdmin`].
#[derive(Clone, Debug, PartialEq, Eq)]
pub struct QueryResponse {
    pub admin: String,
}

/// The answer to [`QueryMsg::GetTotalEscrowNfts`]: the token identifiers of
/// every registry asked, registry after registry.
#[derive(Clone, Debug, PartialEq, Eq)]
pub struct GetTotalEscrowNftsResponse {
    pub token_ids: Vec<String>,
}

impl View for GetTotalEscrowNftsResponse {
    type V = Seq<Seq<char>>;

    open spec fn view(&self) -> Seq<Seq<char>> {
        self.token_ids.deep_view()
    }
}

/// The tokens the custodian holds at one registry.
#[derive(Clone, Debug, PartialEq, Eq)]
pub struct GetEscrowNftsResponse {
    pub nft_contract_addr: String,
    pub nfts: Vec<String>,
}

/// The custodian's balance at one fungible-token registry.
#[derive(Clone, Debug, PartialEq, Eq)]
pub struct GetCw20TokensResponse {
    pub cw20_contract_addr: String,
    pub balance: u128,
}

/// The custodian's native balances.
#[derive(Clone, Debug, PartialEq, Eq)]
pub struct GetTokensResponse {
    pub tokens: Vec<Coin>,
}

} // verus!
