//! The two roles and the gates that read them.

use vstd::prelude::*;
use crate::error::{ContractError, ErrorKind};

verus! {

/// Who administers the custodian and who, if anyone, acts as its delegate.
/// There is always exactly one admin, and at most one operator.
#[derive(Clone, Debug, PartialEq, Eq)]
pub struct RoleState {
    /// Set when the custodian is initialized; no handler changes it.
    pub admin: String,
    /// The delegate appointed by the admin, if there is one.
    pub operator: Option<String>,
}

/// A [`RoleState`] with its identities as character sequences.
pub struct Roles {
    pub admin: Seq<char>,
    pub operator: Option<Seq<char>>,
}

impl View for RoleState {
    type V = Roles;

    open spec fn view(&self) -> Roles {
        Roles { admin: self.admin@, operator: self.operator.deep_view() }
    }
}

/// The strict gate: only the admin passes.
pub open spec fn is_admin(roles: Roles, caller: Seq<char>) -> bool {
    caller == roles.admin
}

/// The standard gate: the admin passes, and so does the operator while one
/// is appointed.
pub open spec fn authorized(roles: Roles, caller: Seq<char>) -> bool {
    caller == roles.admin || roles.operator == Some(caller)
}

/// Lets the admin through and nobody else.
pub fn only_admin(roles: &RoleState, sender: &str) -> (r: Result<(), ContractError>)
    ensures
        is_admin(roles@, sender@) ==> r is Ok,
        !is_admin(roles@, sender@) ==> (r matches Err(e) && e@ == ErrorKind::Unauthorized),
{
    let caller = sender.to_owned();
    if caller == roles.admin {
        Ok(())
    } else {
        Err(ContractError::Unauthorized {  })
    }
}

/// Lets the admin and the appointed operator through and nobody else.
pub fn only_admin_or_operator(roles: &RoleState, sender: &str) -> (r: Result<(), ContractError>)
    ensures
        authorized(roles@, sender@) ==> r is Ok,
        !authorized(roles@, sender@) ==> (r matches Err(e) && e@ == ErrorKind::Unauthorized),
{
    let caller = sender.to_owned();
    if caller == roles.admin {
        return Ok(());
    }
    match &roles.operator {
        Some(operator) => {
            if caller == *operator {
                Ok(())
            } else {
                Err(ContractError::Unauthorized {  })
            }
        },
        None => Err(ContractError::Unauthorized {  }),
    }
}

} // verus!
