//! Verdicts of the host's identity validation.

use vstd::prelude::*;
use crate::error::{ContractError, ErrorKind};

verus! {

/// What the host's identity validation said of one address string.
#[derive(Clone, Debug, PartialEq, Eq)]
pub enum AddressCheck {
    /// The address is well formed; `addr` is the identity the host gave back.
    Valid { addr: String },
    /// The host rejected the address, for this reason.
    Invalid { reason: String },
}

/// An [`AddressCheck`] over character sequences.
pub enum AddressCheckView {
    Valid { addr: Seq<char> },
    Invalid { reason: Seq<char> },
}

impl View for AddressCheck {
    type V = AddressCheckView;

    open spec fn view(&self) -> AddressCheckView {
        match self {
            AddressCheck::Valid { addr } => AddressCheckView::Valid { addr: addr@ },
            AddressCheck::Invalid { reason } => AddressCheckView::Invalid { reason: reason@ },
        }
    }
}

impl DeepView for AddressCheck {
    type V = AddressCheckView;

    open spec fn deep_view(&self) -> AddressCheckView {
        self@
    }
}

/// Turns a verdict into the validated identity, or into the rejection of the
/// input that named the address.
pub fn validate_address(check: AddressCheck) -> (r: Result<String, ContractError>)
    ensures
        match check@ {
            AddressCheckView::Valid { addr } => r matches Ok(a) && a@ == addr,
            AddressCheckView::Invalid { reason } => r matches Err(e) && e@
                == (ErrorKind::InvalidInput { msg: reason }),
        },
{
    match check {
        AddressCheck::Valid { addr } => Ok(addr),
        AddressCheck::Invalid { reason } => Err(ContractError::InvalidInput { msg: reason }),
    }
}

} // verus!
