//! What holds of the handlers taken together.

use vstd::prelude::*;
use crate::contract::{
    bulk_transfer_cw20_outcome,
    bulk_transfer_native_outcome,
    call,
    execute_outcome,
    initial_roles,
    mismatched,
    nft_handover,
    roles_after_execute,
    roles_after_set_operator,
    set_operator_outcome,
};
use crate::error::{ContractError, ErrorKind};
use crate::helpers::AddressCheckView;
use crate::msg::{CoinView, ExecuteMsgView};
use crate::query::{all_tokens, listed};
use crate::response::ResponseView;
use crate::state::{authorized, is_admin, Roles};
use crate::wire::{cw721_approve_json, cw721_transfer_json};

verus! {

/// One command as it reaches the dispatcher: who sent it, what it asks for,
/// and the host's verdict on the address it names.
pub struct Step {
    pub sender: Seq<char>,
    pub msg: ExecuteMsgView,
    pub verdict: Option<AddressCheckView>,
}

/// The roles after the dispatcher has handled these commands one after the
/// other, whether it accepted or refused each.
pub open spec fn roles_after_all(roles: Roles, steps: Seq<Step>) -> Roles
    decreases steps.len(),
{
    if steps.len() == 0 {
        roles
    } else {
        let step = steps.last();
        roles_after_execute(
            roles_after_all(roles, steps.drop_last()),
            step.sender,
            step.msg,
            step.verdict,
        )
    }
}

/// A caller who is neither the admin nor the operator is refused by every
/// command as unauthorized, whatever the command holds and whatever the host
/// said of its address; no instruction is emitted and the roles stay as
/// they are.
pub proof fn stranger_is_refused(
    roles: Roles,
    contract_address: Seq<char>,
    sender: Seq<char>,
    msg: ExecuteMsgView,
    verdict: Option<AddressCheckView>,
)
    requires
        !authorized(roles, sender),
    ensures
        execute_outcome(roles, contract_address, sender, msg, verdict) == Err::<
            ResponseView,
            ErrorKind,
        >(ErrorKind::Unauthorized),
        roles_after_execute(roles, sender, msg, verdict) == roles,
{
}

/// The operator, where it is not the admin as well, is let through by every
/// command but `SetOperator`: that one refuses it as unauthorized and
/// leaves the roles as they are, and no other command does. A transfer of
/// native coins, which depends on nothing else, goes through for it.
pub proof fn operator_cannot_appoint(
    roles: Roles,
    contract_address: Seq<char>,
    sender: Seq<char>,
    msg: ExecuteMsgView,
    verdict: Option<AddressCheckView>,
)
    requires
        roles.operator == Some(sender),
        sender != roles.admin,
    ensures
        authorized(roles, sender),
        msg is SetOperator ==> execute_outcome(roles, contract_address, sender, msg, verdict)
            == Err::<ResponseView, ErrorKind>(ErrorKind::Unauthorized) && roles_after_execute(
            roles,
            sender,
            msg,
            verdict,
        ) == roles,
        !(msg is SetOperator) ==> execute_outcome(roles, contract_address, sender, msg, verdict)
            != Err::<ResponseView, ErrorKind>(ErrorKind::Unauthorized),
        msg is TransferNative ==> execute_outcome(roles, contract_address, sender, msg, verdict)
            is Ok,
{
}

/// When the admin appoints a well-formed identity, the operator is exactly
/// that identity and passes the standard gate. When the admin then removes
/// the operator, there is none, and nobody but the admin passes that gate
/// any more.
pub proof fn appoint_then_revoke(roles: Roles, sender: Seq<char>, operator: Seq<char>)
    requires
        is_admin(roles, sender),
    ensures
        ({
            let appoint = Some(AddressCheckView::Valid { addr: operator });
            let appointed = roles_after_set_operator(roles, sender, appoint);
            let revoked = roles_after_set_operator(appointed, sender, None);
            &&& set_operator_outcome(roles, sender, appoint) is Ok
            &&& appointed == (Roles { admin: roles.admin, operator: Some(operator) })
            &&& authorized(appointed, operator)
            &&& set_operator_outcome(appointed, sender, None) is Ok
            &&& revoked == (Roles { admin: roles.admin, operator: None })
            &&& forall|caller: Seq<char>| #[trigger]
                authorized(revoked, caller) ==> caller == roles.admin
        }),
{
}

/// For an authorized caller, both bulk transfers refuse lists of
/// different lengths as invalid input, whatever the lists hold and, for
/// fungible tokens, whatever the host said of the registry.
pub proof fn mismatched_lists_are_refused(
    roles: Roles,
    sender: Seq<char>,
    registry: AddressCheckView,
    to_addresses: Seq<Seq<char>>,
    coins: Seq<CoinView>,
    amounts: Seq<u128>,
)
    requires
        authorized(roles, sender),
    ensures
        to_addresses.len() != coins.len() ==> bulk_transfer_native_outcome(
            roles,
            sender,
            to_addresses,
            coins,
        ) == Err::<ResponseView, ErrorKind>(mismatched()),
        to_addresses.len() != amounts.len() ==> bulk_transfer_cw20_outcome(
            roles,
            sender,
            registry,
            to_addresses,
            amounts,
        ) == Err::<ResponseView, ErrorKind>(mismatched()),
{
}

/// A batch that hands tokens over holds two instructions for each token, in
/// the order of the tokens: the approval of the token, and right after it
/// the transfer of the token.
pub proof fn handover_alternates(
    registry: Seq<char>,
    spender: Seq<char>,
    recipient: Seq<char>,
    token_ids: Seq<Seq<char>>,
)
    requires
        nft_handover(registry, spender, recipient, token_ids) is Some,
    ensures
        ({
            let batch = nft_handover(registry, spender, recipient, token_ids).unwrap();
            &&& batch.len() == 2 * token_ids.len()
            &&& forall|i: int|
                0 <= i < token_ids.len() ==> #[trigger] batch[2 * i] == call(
                    registry,
                    cw721_approve_json(spender, token_ids[i], None).unwrap(),
                )
            &&& forall|i: int|
                0 <= i < token_ids.len() ==> #[trigger] batch[2 * i + 1] == call(
                    registry,
                    cw721_transfer_json(recipient, token_ids[i]).unwrap(),
                )
        }),
{
}

/// The tokens gathered from a list of answers are those of any first part of
/// the list followed by those of the rest: registries contribute in the
/// order they were asked, and none is merged with another.
pub proof fn tokens_follow_registry_order(
    first: Seq<Result<Vec<String>, ContractError>>,
    rest: Seq<Result<Vec<String>, ContractError>>,
)
    ensures
        all_tokens(first + rest) == all_tokens(first) + all_tokens(rest),
    decreases rest.len(),
{
    if rest.len() > 0 {
        assert((first + rest).drop_last() =~= first + rest.drop_last());
        tokens_follow_registry_order(first, rest.drop_last());
    }
}

/// Two registries that both answer give the first one's tokens, in its
/// order, followed by the second one's, in its order.
pub proof fn two_registries_concatenate(first: Vec<String>, second: Vec<String>)
    ensures
        all_tokens(
            seq![
                Ok::<Vec<String>, ContractError>(first),
                Ok::<Vec<String>, ContractError>(second),
            ],
        ) == first.deep_view() + second.deep_view(),
{
    let answers = seq![
        Ok::<Vec<String>, ContractError>(first),
        Ok::<Vec<String>, ContractError>(second),
    ];
    let head = seq![Ok::<Vec<String>, ContractError>(first)];
    assert(answers.drop_last() =~= head);
    assert(all_tokens(head.drop_last()) =~= Seq::<Seq<char>>::empty());
    assert(all_tokens(head) =~= listed(head.last()));
}

/// No command changes the admin, whoever sends it and whether it is
/// accepted or refused.
pub proof fn admin_survives_command(
    roles: Roles,
    sender: Seq<char>,
    msg: ExecuteMsgView,
    verdict: Option<AddressCheckView>,
)
    ensures
        roles_after_execute(roles, sender, msg, verdict).admin == roles.admin,
{
}

/// No sequence of commands changes the admin: after any number of them,
/// from any senders, the admin is who it was.
pub proof fn admin_is_fixed(roles: Roles, steps: Seq<Step>)
    ensures
        roles_after_all(roles, steps).admin == roles.admin,
    decreases steps.len(),
{
    if steps.len() > 0 {
        let step = steps.last();
        admin_is_fixed(roles, steps.drop_last());
        admin_survives_command(
            roles_after_all(roles, steps.drop_last()),
            step.sender,
            step.msg,
            step.verdict,
        );
    }
}

/// Whoever sets the custodian up is its admin, and stays its admin through
/// any sequence of commands.
pub proof fn initial_admin_is_kept(sender: Seq<char>, steps: Seq<Step>)
    ensures
        initial_roles(sender).admin == sender,
        roles_after_all(initial_roles(sender), steps).admin == sender,
{
    admin_is_fixed(initial_roles(sender), steps);
}

} // verus!
