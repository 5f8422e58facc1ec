//! The handlers: one per command, each behind its gate.
//!
//! A handler checks the caller first, then its arguments, and only then
//! builds instructions. It returns them for the host to carry out; where it
//! refuses, it returns no instruction at all.

use vstd::prelude::*;
use crate::error::{agrees, ContractError, ErrorKind};
use crate::helpers::{validate_address, AddressCheck, AddressCheckView};
use crate::msg::{Coin, CoinView, ExecuteMsg, ExecuteMsgView, InstantiateMsg};
use crate::response::{attr, Instruction, InstructionView, Response, ResponseView};
pub use crate::query::{
    get_admin,
    get_cw20_tokens,
    get_escrow_nfts,
    get_native_tokens,
    get_total_escrow_nfts,
    query,
};
pub use crate::state::only_admin_or_operator;
use crate::state::{authorized, is_admin, only_admin, RoleState, Roles};
use crate::text::{amount_text, coin_text, coin_to_text, decimal, join, joined};
use crate::wire::{
    cw20_transfer_json,
    cw721_approve_json,
    cw721_transfer_json,
    encode_cw20_transfer,
    encode_cw721_approve,
    encode_cw721_transfer,
};

verus! {

/// The roles of a custodian that `sender` has just set up.
pub open spec fn initial_roles(sender: Seq<char>) -> Roles {
    Roles { admin: sender, operator: None }
}

/// Sets the custodian up: the caller becomes the admin and there is no
/// operator. The message is not read.
pub fn instantiate(sender: &str, _msg: InstantiateMsg) -> (r: (RoleState, Response))
    ensures
        r.0@ == initial_roles(sender@),
        r.1@ == (ResponseView {
            messages: Seq::empty(),
            attributes: seq![attr("action"@, "instantiate"@), attr("admin"@, sender@)],
        }),
{
    let roles = RoleState { admin: sender.to_owned(), operator: None };
    let response = Response::new().add_attribute("action", "instantiate".to_owned()).add_attribute(
        "admin",
        sender.to_owned(),
    );
    assert(response@.attributes =~= seq![
        attr("action"@, "instantiate"@),
        attr("admin"@, sender@),
    ]);
    (roles, response)
}

/// The roles after [`set_operator`]: the operator replaced where the admin
/// asked for it with nothing or with a well-formed identity, and nothing
/// changed otherwise.
pub open spec fn roles_after_set_operator(
    roles: Roles,
    sender: Seq<char>,
    operator: Option<AddressCheckView>,
) -> Roles {
    if !is_admin(roles, sender) {
        roles
    } else {
        match operator {
            None => Roles { admin: roles.admin, operator: None },
            Some(AddressCheckView::Valid { addr }) => Roles {
                admin: roles.admin,
                operator: Some(addr),
            },
            Some(AddressCheckView::Invalid { .. }) => roles,
        }
    }
}

/// What [`set_operator`] returns.
pub open spec fn set_operator_outcome(
    roles: Roles,
    sender: Seq<char>,
    operator: Option<AddressCheckView>,
) -> Result<ResponseView, ErrorKind> {
    if !is_admin(roles, sender) {
        Err(ErrorKind::Unauthorized)
    } else {
        match operator {
            None => Ok(
                ResponseView {
                    messages: Seq::empty(),
                    attributes: seq![
                        attr("action"@, "set_operator"@),
                        attr("operator"@, "none"@),
                    ],
                },
            ),
            Some(AddressCheckView::Valid { addr }) => Ok(
                ResponseView {
                    messages: Seq::empty(),
                    attributes: seq![attr("action"@, "set_operator"@), attr("operator"@, addr)],
                },
            ),
            Some(AddressCheckView::Invalid { reason }) => Err(
                ErrorKind::InvalidInput { msg: reason },
            ),
        }
    }
}

/// Appoints an operator, or with `None` removes the one there is. Only the
/// admin may do either; the operator may not. `operator` carries the host's
/// verdict on the identity to appoint.
pub fn set_operator(roles: &mut RoleState, sender: &str, operator: Option<AddressCheck>) -> (r:
    Result<Response, ContractError>)
    ensures
        agrees(r, set_operator_outcome(old(roles)@, sender@, operator.deep_view())),
        final(roles)@ == roles_after_set_operator(old(roles)@, sender@, operator.deep_view()),
{
    only_admin(roles, sender)?;
    let new_operator = match operator {
        Some(check) => Some(validate_address(check)?),
        None => None,
    };
    let shown = match &new_operator {
        Some(addr) => addr.clone(),
        None => "none".to_owned(),
    };
    roles.operator = new_operator;
    let response = Response::new().add_attribute("action", "set_operator".to_owned()).add_attribute(
        "operator",
        shown,
    );
    assert(response@.attributes =~= seq![
        attr("action"@, "set_operator"@),
        attr("operator"@, shown@),
    ]);
    Ok(response)
}

/// The instruction that sends one amount of native coins to `to_address`.
pub fn bank_send(to_address: String, amount: Coin) -> (r: Instruction)
    ensures
        r@ == (InstructionView::Send { to_address: to_address@, amount: seq![amount@] }),
{
    let mut coins: Vec<Coin> = Vec::new();
    coins.push(amount);
    assert(coins.deep_view() =~= seq![amount@]);
    Instruction::Send { to_address, amount: coins }
}

/// The instruction that calls the contract at `contract_addr` with the
/// encoded message `msg` and sends no funds along.
pub open spec fn call(contract_addr: Seq<char>, msg: Seq<u8>) -> InstructionView {
    InstructionView::Execute { contract_addr, msg, funds: Seq::empty() }
}

/// Wraps an encoded message into the instruction that sends it to
/// `contract_addr`. Where the codec refused, its error is passed on as it is.
pub fn wasm_execute(contract_addr: &str, payload: Result<Vec<u8>, cosmwasm_std::StdError>) -> (r:
    Result<Instruction, ContractError>)
    ensures
        match payload {
            Ok(bytes) => r matches Ok(i) && i@ == call(contract_addr@, bytes@),
            Err(e) => r == Err::<Instruction, ContractError>(ContractError::Std(e)),
        },
{
    match payload {
        Ok(msg) => {
            let funds: Vec<Coin> = Vec::new();
            assert(funds.deep_view() =~= Seq::<CoinView>::empty());
            Ok(Instruction::Execute { contract_addr: contract_addr.to_owned(), msg, funds })
        },
        Err(e) => Err(ContractError::Std(e)),
    }
}

/// What [`transfer_native`] returns.
pub open spec fn transfer_native_outcome(
    roles: Roles,
    sender: Seq<char>,
    to_address: Seq<char>,
    amount: CoinView,
) -> Result<ResponseView, ErrorKind> {
    if !authorized(roles, sender) {
        Err(ErrorKind::Unauthorized)
    } else {
        Ok(
            ResponseView {
                messages: seq![InstructionView::Send { to_address, amount: seq![amount] }],
                attributes: seq![
                    attr("action"@, "transfer_native"@),
                    attr("to_address"@, to_address),
                    attr("amount"@, coin_text(amount)),
                ],
            },
        )
    }
}

/// Sends an amount of native coins to `to_address`.
pub fn transfer_native(roles: &RoleState, sender: &str, to_address: String, amount: Coin) -> (r:
    Result<Response, ContractError>)
    ensures
        agrees(r, transfer_native_outcome(roles@, sender@, to_address@, amount@)),
{
    only_admin_or_operator(roles, sender)?;
    let amount_shown = coin_to_text(&amount);
    let send = bank_send(to_address.clone(), amount);
    let response = Response::new().add_message(send).add_attribute(
        "action",
        "transfer_native".to_owned(),
    ).add_attribute("to_address", to_address).add_attribute("amount", amount_shown);
    assert(response@.attributes =~= seq![
        attr("action"@, "transfer_native"@),
        attr("to_address"@, to_address@),
        attr("amount"@, coin_text(amount@)),
    ]);
    Ok(response)
}

/// What [`transfer_cw20`] returns.
pub open spec fn transfer_cw20_outcome(
    roles: Roles,
    sender: Seq<char>,
    registry: AddressCheckView,
    to_address: Seq<char>,
    amount: u128,
) -> Result<ResponseView, ErrorKind> {
    if !authorized(roles, sender) {
        Err(ErrorKind::Unauthorized)
    } else {
        match registry {
            AddressCheckView::Invalid { reason } => Err(ErrorKind::InvalidInput { msg: reason }),
            AddressCheckView::Valid { addr } => match cw20_transfer_json(to_address, amount) {
                None => Err(ErrorKind::Std),
                Some(msg) => Ok(
                    ResponseView {
                        messages: seq![call(addr, msg)],
                        attributes: seq![
                            attr("action"@, "transfer_cw20"@),
                            attr("to_address"@, to_address),
                            attr("amount"@, decimal(amount as nat)),
                        ],
                    },
                ),
            },
        }
    }
}

/// Transfers an amount of fungible tokens of one registry to `to_address`.
pub fn transfer_cw20(
    roles: &RoleState,
    sender: &str,
    registry: AddressCheck,
    to_address: String,
    amount: u128,
) -> (r: Result<Response, ContractError>)
    ensures
        agrees(r, transfer_cw20_outcome(roles@, sender@, registry@, to_address@, amount)),
{
    only_admin_or_operator(roles, sender)?;
    let cw20_contract = validate_address(registry)?;
    let transfer = wasm_execute(
        cw20_contract.as_str(),
        encode_cw20_transfer(to_address.as_str(), amount),
    )?;
    let response = Response::new().add_message(transfer).add_attribute(
        "action",
        "transfer_cw20".to_owned(),
    ).add_attribute("to_address", to_address).add_attribute("amount", amount_text(amount));
    assert(response@.attributes =~= seq![
        attr("action"@, "transfer_cw20"@),
        attr("to_address"@, to_address@),
        attr("amount"@, decimal(amount as nat)),
    ]);
    Ok(response)
}

/// What [`approve_nft_transfer`] returns.
pub open spec fn approve_nft_transfer_outcome(
    roles: Roles,
    contract_address: Seq<char>,
    sender: Seq<char>,
    registry: AddressCheckView,
    token_id: Seq<char>,
) -> Result<ResponseView, ErrorKind> {
    if !authorized(roles, sender) {
        Err(ErrorKind::Unauthorized)
    } else {
        match registry {
            AddressCheckView::Invalid { reason } => Err(ErrorKind::InvalidInput { msg: reason }),
            AddressCheckView::Valid { addr } => match cw721_approve_json(
                contract_address,
                token_id,
                None,
            ) {
                None => Err(ErrorKind::Std),
                Some(msg) => Ok(
                    ResponseView {
                        messages: seq![call(addr, msg)],
                        attributes: seq![
                            attr("action"@, "approve_nft_transfer"@),
                            attr("token_id"@, token_id),
                        ],
                    },
                ),
            },
        }
    }
}

/// Approves the custodian at `contract_address` as transfer agent for one
/// token of a registry, without an expiry.
pub fn approve_nft_transfer(
    roles: &RoleState,
    contract_address: &str,
    sender: &str,
    registry: AddressCheck,
    token_id: String,
) -> (r: Result<Response, ContractError>)
    ensures
        agrees(
            r,
            approve_nft_transfer_outcome(roles@, contract_address@, sender@, registry@, token_id@),
        ),
{
    only_admin_or_operator(roles, sender)?;
    let nft_contract = validate_address(registry)?;
    let approve = wasm_execute(
        nft_contract.as_str(),
        encode_cw721_approve(contract_address, token_id.as_str(), None),
    )?;
    let response = Response::new().add_message(approve).add_attribute(
        "action",
        "approve_nft_transfer".to_owned(),
    ).add_attribute("token_id", token_id);
    assert(response@.attributes =~= seq![
        attr("action"@, "approve_nft_transfer"@),
        attr("token_id"@, token_id@),
    ]);
    Ok(response)
}

/// What [`transfer_nft`] returns.
pub open spec fn transfer_nft_outcome(
    roles: Roles,
    sender: Seq<char>,
    registry: AddressCheckView,
    to_address: Seq<char>,
    token_id: Seq<char>,
) -> Result<ResponseView, ErrorKind> {
    if !authorized(roles, sender) {
        Err(ErrorKind::Unauthorized)
    } else {
        match registry {
            AddressCheckView::Invalid { reason } => Err(ErrorKind::InvalidInput { msg: reason }),
            AddressCheckView::Valid { addr } => match cw721_transfer_json(to_address, token_id) {
                None => Err(ErrorKind::Std),
                Some(msg) => Ok(
                    ResponseView {
                        messages: seq![call(addr, msg)],
                        attributes: seq![
                            attr("action"@, "transfer_nft"@),
                            attr("to_address"@, to_address),
                            attr("token_id"@, token_id),
                        ],
                    },
                ),
            },
        }
    }
}

/// Transfers one token of a registry to `to_address`.
pub fn transfer_nft(
    roles: &RoleState,
    sender: &str,
    registry: AddressCheck,
    to_address: String,
    token_id: String,
) -> (r: Result<Response, ContractError>)
    ensures
        agrees(r, transfer_nft_outcome(roles@, sender@, registry@, to_address@, token_id@)),
{
    only_admin_or_operator(roles, sender)?;
    let nft_contract = validate_address(registry)?;
    let transfer = wasm_execute(
        nft_contract.as_str(),
        encode_cw721_transfer(to_address.as_str(), token_id.as_str()),
    )?;
    let response = Response::new().add_message(transfer).add_attribute(
        "action",
        "transfer_nft".to_owned(),
    ).add_attribute("to_address", to_address).add_attribute("token_id", token_id);
    assert(response@.attributes =~= seq![
        attr("action"@, "transfer_nft"@),
        attr("to_address"@, to_address@),
        attr("token_id"@, token_id@),
    ]);
    Ok(response)
}

/// Both messages needed to hand over one token can be encoded: the approval
/// of `spender` without an expiry, and the transfer to `recipient`.
pub open spec fn can_hand_over(spender: Seq<char>, recipient: Seq<char>, token_id: Seq<char>) -> bool {
    &&& cw721_approve_json(spender, token_id, None) is Some
    &&& cw721_transfer_json(recipient, token_id) is Some
}

/// The instructions that hand the tokens over, one token after the other:
/// for each, an approval of `spender` and then the transfer to `recipient`.
/// `None` where a message cannot be encoded.
pub open spec fn nft_handover(
    registry: Seq<char>,
    spender: Seq<char>,
    recipient: Seq<char>,
    token_ids: Seq<Seq<char>>,
) -> Option<Seq<InstructionView>> {
    if forall|i: int|
        0 <= i < token_ids.len() ==> can_hand_over(spender, recipient, #[trigger] token_ids[i]) {
        Some(
            Seq::new(
                2 * token_ids.len(),
                |k: int|
                    if k % 2 == 0 {
                        call(
                            registry,
                            cw721_approve_json(spender, token_ids[k / 2], None).unwrap(),
                        )
                    } else {
                        call(registry, cw721_transfer_json(recipient, token_ids[k / 2]).unwrap())
                    },
            ),
        )
    } else {
        None
    }
}

/// What [`transfer_nfts`] returns.
pub open spec fn transfer_nfts_outcome(
    roles: Roles,
    contract_address: Seq<char>,
    sender: Seq<char>,
    registry: AddressCheckView,
    to_address: Seq<char>,
    token_ids: Seq<Seq<char>>,
) -> Result<ResponseView, ErrorKind> {
    if !authorized(roles, sender) {
        Err(ErrorKind::Unauthorized)
    } else {
        match registry {
            AddressCheckView::Invalid { reason } => Err(ErrorKind::InvalidInput { msg: reason }),
            AddressCheckView::Valid { addr } => match nft_handover(
                addr,
                contract_address,
                to_address,
                token_ids,
            ) {
                None => Err(ErrorKind::Std),
                Some(messages) => Ok(
                    ResponseView {
                        messages,
                        attributes: seq![
                            attr("action"@, "transfer_nfts"@),
                            attr("to_address"@, to_address),
                            attr("token_ids"@, joined(token_ids, ", "@)),
                        ],
                    },
                ),
            },
        }
    }
}

/// Hands a batch of tokens of one registry over to `to_address`. For each
/// token, in the order given, the custodian at `contract_address` is first
/// approved as transfer agent and the token is then transferred; all of it
/// is one batch.
#[verifier::loop_isolation(false)]
pub fn transfer_nfts(
    roles: &RoleState,
    contract_address: &str,
    sender: &str,
    registry: AddressCheck,
    to_address: String,
    token_ids: Vec<String>,
) -> (r: Result<Response, ContractError>)
    ensures
        agrees(
            r,
            transfer_nfts_outcome(
                roles@,
                contract_address@,
                sender@,
                registry@,
                to_address@,
                token_ids.deep_view(),
            ),
        ),
{
    only_admin_or_operator(roles, sender)?;
    let nft_contract = validate_address(registry)?;
    let ghost ids = token_ids.deep_view();
    let mut messages: Vec<Instruction> = Vec::new();
    let mut i: usize = 0;
    while i < token_ids.len()
        invariant
            i <= token_ids.len(),
            ids == token_ids.deep_view(),
            messages.len() == 2 * i,
            forall|j: int| 0 <= j < i ==> can_hand_over(contract_address@, to_address@, #[trigger] ids[j]),
            forall|k: int|
                0 <= k < 2 * i ==> (#[trigger] messages[k])@ == if k % 2 == 0 {
                    call(
                        nft_contract@,
                        cw721_approve_json(contract_address@, ids[k / 2], None).unwrap(),
                    )
                } else {
                    call(nft_contract@, cw721_transfer_json(to_address@, ids[k / 2]).unwrap())
                },
        decreases token_ids.len() - i,
    {
        let token_id = token_ids[i].as_str();
        assert(token_id@ == ids[i as int]);
        let approve = match wasm_execute(
            nft_contract.as_str(),
            encode_cw721_approve(contract_address, token_id, None),
        ) {
            Ok(instruction) => instruction,
            Err(e) => {
                return Err(e);
            },
        };
        let transfer = match wasm_execute(
            nft_contract.as_str(),
            encode_cw721_transfer(to_address.as_str(), token_id),
        ) {
            Ok(instruction) => instruction,
            Err(e) => {
                return Err(e);
            },
        };
        messages.push(approve);
        messages.push(transfer);
        i = i + 1;
    }
    let ids_text = join(&token_ids, ", ");
    let response = Response::new().add_messages(messages).add_attribute(
        "action",
        "transfer_nfts".to_owned(),
    ).add_attribute("to_address", to_address).add_attribute("token_ids", ids_text);
    assert(response@.messages =~= nft_handover(
        nft_contract@,
        contract_address@,
        to_address@,
        ids,
    ).unwrap());
    assert(response@.attributes =~= seq![
        attr("action"@, "transfer_nfts"@),
        attr("to_address"@, to_address@),
        attr("token_ids"@, joined(ids, ", "@)),
    ]);
    Ok(response)
}

/// What lists of different lengths are refused with.
pub open spec fn mismatched() -> ErrorKind {
    ErrorKind::InvalidInput { msg: "Mismatched addresses and amounts"@ }
}

/// The instructions of a bulk transfer of native coins: one send for each
/// recipient and its amount, in input order.
pub open spec fn native_sends(to_addresses: Seq<Seq<char>>, amounts: Seq<CoinView>) -> Seq<
    InstructionView,
> {
    Seq::new(
        to_addresses.len(),
        |i: int| InstructionView::Send { to_address: to_addresses[i], amount: seq![amounts[i]] },
    )
}

/// What [`bulk_transfer_native`] returns.
pub open spec fn bulk_transfer_native_outcome(
    roles: Roles,
    sender: Seq<char>,
    to_addresses: Seq<Seq<char>>,
    amounts: Seq<CoinView>,
) -> Result<ResponseView, ErrorKind> {
    if !authorized(roles, sender) {
        Err(ErrorKind::Unauthorized)
    } else if to_addresses.len() != amounts.len() {
        Err(mismatched())
    } else {
        Ok(
            ResponseView {
                messages: native_sends(to_addresses, amounts),
                attributes: seq![attr("action"@, "bulk_transfer_native"@)],
            },
        )
    }
}

/// Sends native coins to several recipients, the i-th amount to the i-th
/// address.
#[verifier::loop_isolation(false)]
pub fn bulk_transfer_native(
    roles: &RoleState,
    sender: &str,
    to_addresses: Vec<String>,
    amounts: Vec<Coin>,
) -> (r: Result<Response, ContractError>)
    ensures
        agrees(
            r,
            bulk_transfer_native_outcome(
                roles@,
                sender@,
                to_addresses.deep_view(),
                amounts.deep_view(),
            ),
        ),
{
    only_admin_or_operator(roles, sender)?;
    if to_addresses.len() != amounts.len() {
        return Err(
            ContractError::InvalidInput { msg: "Mismatched addresses and amounts".to_owned() },
        );
    }
    let ghost to = to_addresses.deep_view();
    let ghost coins = amounts.deep_view();
    let mut messages: Vec<Instruction> = Vec::new();
    let mut i: usize = 0;
    while i < to_addresses.len()
        invariant
            i <= to_addresses.len(),
            to == to_addresses.deep_view(),
            coins == amounts.deep_view(),
            messages.len() == i,
            forall|j: int|
                0 <= j < i ==> (#[trigger] messages[j])@ == (InstructionView::Send {
                    to_address: to[j],
                    amount: seq![coins[j]],
                }),
        decreases to_addresses.len() - i,
    {
        let send = bank_send(to_addresses[i].clone(), amounts[i].clone());
        messages.push(send);
        i = i + 1;
    }
    let response = Response::new().add_messages(messages).add_attribute(
        "action",
        "bulk_transfer_native".to_owned(),
    );
    assert(response@.messages =~= native_sends(to, coins));
    Ok(response)
}

/// The instructions of a bulk transfer of fungible tokens: one `transfer`
/// call to the registry for each recipient and its amount, in input order.
/// `None` where a message cannot be encoded.
pub open spec fn cw20_transfers(registry: Seq<char>, to_addresses: Seq<Seq<char>>, amounts: Seq<u128>) -> Option<
    Seq<InstructionView>,
> {
    if forall|i: int|
        0 <= i < to_addresses.len() ==> (#[trigger] cw20_transfer_json(to_addresses[i], amounts[i]))
            is Some {
        Some(
            Seq::new(
                to_addresses.len(),
                |i: int| call(registry, cw20_transfer_json(to_addresses[i], amounts[i]).unwrap()),
            ),
        )
    } else {
        None
    }
}

/// What [`bulk_transfer_cw20`] returns.
pub open spec fn bulk_transfer_cw20_outcome(
    roles: Roles,
    sender: Seq<char>,
    registry: AddressCheckView,
    to_addresses: Seq<Seq<char>>,
    amounts: Seq<u128>,
) -> Result<ResponseView, ErrorKind> {
    if !authorized(roles, sender) {
        Err(ErrorKind::Unauthorized)
    } else if to_addresses.len() != amounts.len() {
        Err(mismatched())
    } else {
        match registry {
            AddressCheckView::Invalid { reason } => Err(ErrorKind::InvalidInput { msg: reason }),
            AddressCheckView::Valid { addr } => match cw20_transfers(addr, to_addresses, amounts) {
                None => Err(ErrorKind::Std),
                Some(messages) => Ok(
                    ResponseView {
                        messages,
                        attributes: seq![attr("action"@, "bulk_transfer_cw20"@)],
                    },
                ),
            },
        }
    }
}

/// Transfers fungible tokens of one registry to several recipients, the
/// i-th amount to the i-th address.
#[verifier::loop_isolation(false)]
pub fn bulk_transfer_cw20(
    roles: &RoleState,
    sender: &str,
    registry: AddressCheck,
    to_addresses: Vec<String>,
    amounts: Vec<u128>,
) -> (r: Result<Response, ContractError>)
    ensures
        agrees(
            r,
            bulk_transfer_cw20_outcome(
                roles@,
                sender@,
                registry@,
                to_addresses.deep_view(),
                amounts@,
            ),
        ),
{
    only_admin_or_operator(roles, sender)?;
    if to_addresses.len() != amounts.len() {
        return Err(
            ContractError::InvalidInput { msg: "Mismatched addresses and amounts".to_owned() },
        );
    }
    let cw20_contract = validate_address(registry)?;
    let ghost to = to_addresses.deep_view();
    let mut messages: Vec<Instruction> = Vec::new();
    let mut i: usize = 0;
    while i < to_addresses.len()
        invariant
            i <= to_addresses.len(),
            to == to_addresses.deep_view(),
            messages.len() == i,
            forall|j: int|
                0 <= j < i ==> (#[trigger] cw20_transfer_json(to[j], amounts@[j])) is Some,
            forall|j: int|
                0 <= j < i ==> (#[trigger] messages[j])@ == call(
                    cw20_contract@,
                    cw20_transfer_json(to[j], amounts@[j]).unwrap(),
                ),
        decreases to_addresses.len() - i,
    {
        let recipient = to_addresses[i].as_str();
        assert(recipient@ == to[i as int]);
        let transfer = match wasm_execute(
            cw20_contract.as_str(),
            encode_cw20_transfer(recipient, amounts[i]),
        ) {
            Ok(instruction) => instruction,
            Err(e) => {
                return Err(e);
            },
        };
        messages.push(transfer);
        i = i + 1;
    }
    let response = Response::new().add_messages(messages).add_attribute(
        "action",
        "bulk_transfer_cw20".to_owned(),
    );
    assert(response@.messages =~= cw20_transfers(cw20_contract@, to, amounts@).unwrap());
    Ok(response)
}

/// The address a command names, which the host has to validate before the
/// command is dispatched. Commands that name none need no verdict.
pub open spec fn named_address(msg: ExecuteMsgView) -> Option<Seq<char>> {
    match msg {
        ExecuteMsgView::TransferNative { .. } => None,
        ExecuteMsgView::TransferCw20 { contract_addr, .. } => Some(contract_addr),
        ExecuteMsgView::ApproveNftTransfer { nft_contract_addr, .. } => Some(nft_contract_addr),
        ExecuteMsgView::TransferNft { nft_contract_addr, .. } => Some(nft_contract_addr),
        ExecuteMsgView::TransferNfts { nft_contract_addr, .. } => Some(nft_contract_addr),
        ExecuteMsgView::BulkTransferNative { .. } => None,
        ExecuteMsgView::BulkTransferCw20 { cw20_contract_addr, .. } => Some(cw20_contract_addr),
        ExecuteMsgView::SetOperator { operator } => operator,
    }
}

/// Says which address of a command the host has to validate, if any.
pub fn address_to_validate(msg: &ExecuteMsg) -> (r: Option<String>)
    ensures
        r.deep_view() == named_address(msg@),
{
    match msg {
        ExecuteMsg::TransferNative { .. } => None,
        ExecuteMsg::TransferCw20 { contract_addr, .. } => Some(contract_addr.clone()),
        ExecuteMsg::ApproveNftTransfer { nft_contract_addr, .. } => Some(nft_contract_addr.clone()),
        ExecuteMsg::TransferNft { nft_contract_addr, .. } => Some(nft_contract_addr.clone()),
        ExecuteMsg::TransferNfts { nft_contract_addr, .. } => Some(nft_contract_addr.clone()),
        ExecuteMsg::BulkTransferNative { .. } => None,
        ExecuteMsg::BulkTransferCw20 { cw20_contract_addr, .. } => Some(cw20_contract_addr.clone()),
        ExecuteMsg::SetOperator { operator } => match operator {
            Some(addr) => Some(addr.clone()),
            None => None,
        },
    }
}

/// The verdict a command goes by: the one that came with it, and a
/// rejection where none came.
pub open spec fn verdict_or_missing(verdict: Option<AddressCheckView>) -> AddressCheckView {
    match verdict {
        Some(check) => check,
        None => AddressCheckView::Invalid { reason: "Address was not validated"@ },
    }
}

/// The verdict on the operator that a `SetOperator` command names: none
/// where it names none.
pub open spec fn operator_verdict(
    operator: Option<Seq<char>>,
    verdict: Option<AddressCheckView>,
) -> Option<AddressCheckView> {
    match operator {
        Some(_) => Some(verdict_or_missing(verdict)),
        None => None,
    }
}

/// What [`execute`] returns: what the handler of the command returns.
pub open spec fn execute_outcome(
    roles: Roles,
    contract_address: Seq<char>,
    sender: Seq<char>,
    msg: ExecuteMsgView,
    verdict: Option<AddressCheckView>,
) -> Result<ResponseView, ErrorKind> {
    match msg {
        ExecuteMsgView::TransferNative { to_address, amount } => transfer_native_outcome(
            roles,
            sender,
            to_address,
            amount,
        ),
        ExecuteMsgView::TransferCw20 { contract_addr, to_address, amount } => {
            transfer_cw20_outcome(roles, sender, verdict_or_missing(verdict), to_address, amount)
        },
        ExecuteMsgView::ApproveNftTransfer { nft_contract_addr, token_id } => {
            approve_nft_transfer_outcome(
                roles,
                contract_address,
                sender,
                verdict_or_missing(verdict),
                token_id,
            )
        },
        ExecuteMsgView::TransferNft { nft_contract_addr, to_address, token_id } => {
            transfer_nft_outcome(roles, sender, verdict_or_missing(verdict), to_address, token_id)
        },
        ExecuteMsgView::TransferNfts { nft_contract_addr, to_address, token_ids } => {
            transfer_nfts_outcome(
                roles,
                contract_address,
                sender,
                verdict_or_missing(verdict),
                to_address,
                token_ids,
            )
        },
        ExecuteMsgView::BulkTransferNative { to_addresses, amounts } => {
            bulk_transfer_native_outcome(roles, sender, to_addresses, amounts)
        },
        ExecuteMsgView::BulkTransferCw20 { cw20_contract_addr, to_addresses, amounts } => {
            bulk_transfer_cw20_outcome(
                roles,
                sender,
                verdict_or_missing(verdict),
                to_addresses,
                amounts,
            )
        },
        ExecuteMsgView::SetOperator { operator } => set_operator_outcome(
            roles,
            sender,
            operator_verdict(operator, verdict),
        ),
    }
}

/// The roles after [`execute`]: only `SetOperator` touches them.
pub open spec fn roles_after_execute(
    roles: Roles,
    sender: Seq<char>,
    msg: ExecuteMsgView,
    verdict: Option<AddressCheckView>,
) -> Roles {
    match msg {
        ExecuteMsgView::SetOperator { operator } => roles_after_set_operator(
            roles,
            sender,
            operator_verdict(operator, verdict),
        ),
        _ => roles,
    }
}

fn supplied(verdict: Option<AddressCheck>) -> (r: AddressCheck)
    ensures
        r@ == verdict_or_missing(verdict.deep_view()),
{
    match verdict {
        Some(check) => check,
        None => AddressCheck::Invalid { reason: "Address was not validated".to_owned() },
    }
}

/// Dispatches a command to its handler. `verdict` is what the host said of
/// the address the command names (see [`address_to_validate`]); a command
/// that names an address and comes without a verdict is refused like one
/// whose address the host rejected, once the caller is let through.
pub fn execute(
    roles: &mut RoleState,
    contract_address: &str,
    sender: &str,
    msg: ExecuteMsg,
    verdict: Option<AddressCheck>,
) -> (r: Result<Response, ContractError>)
    ensures
        agrees(
            r,
            execute_outcome(old(roles)@, contract_address@, sender@, msg@, verdict.deep_view()),
        ),
        final(roles)@ == roles_after_execute(old(roles)@, sender@, msg@, verdict.deep_view()),
{
    match msg {
        ExecuteMsg::TransferNative { to_address, amount } => {
            transfer_native(roles, sender, to_address, amount)
        },
        ExecuteMsg::TransferCw20 { contract_addr, to_address, amount } => {
            transfer_cw20(roles, sender, supplied(verdict), to_address, amount)
        },
        ExecuteMsg::ApproveNftTransfer { nft_contract_addr, token_id } => {
            approve_nft_transfer(roles, contract_address, sender, supplied(verdict), token_id)
        },
        ExecuteMsg::TransferNft { nft_contract_addr, to_address, token_id } => {
            transfer_nft(roles, sender, supplied(verdict), to_address, token_id)
        },
        ExecuteMsg::TransferNfts { nft_contract_addr, to_address, token_ids } => {
            transfer_nfts(
                roles,
                contract_address,
                sender,
                supplied(verdict),
                to_address,
                token_ids,
            )
        },
        ExecuteMsg::BulkTransferNative { to_addresses, amounts } => {
            bulk_transfer_native(roles, sender, to_addresses, amounts)
        },
        ExecuteMsg::BulkTransferCw20 { cw20_contract_addr, to_addresses, amounts } => {
            bulk_transfer_cw20(roles, sender, supplied(verdict), to_addresses, amounts)
        },
        ExecuteMsg::SetOperator { operator } => {
            let check = match operator {
                Some(_) => Some(supplied(verdict)),
                None => None,
            };
            set_operator(roles, sender, check)
        },
    }
}

} // verus!
