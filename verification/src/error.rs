//! Errors a handler can end with.

use vstd::prelude::*;
use vstd::string::*;

verus! {

/// Declares `cosmwasm_std::StdError`, the error type of the host and of its
/// codec. Nothing is known of what a value of it holds: it is only passed on.
#[verifier::external_type_specification]
#[verifier::external_body]
pub struct ExStdError(cosmwasm_std::StdError);

/// Why a command or query was refused.
#[derive(Debug, PartialEq)]
pub enum ContractError {
    /// A collaborator failed; this is its own error, unchanged.
    Std(cosmwasm_std::StdError),
    /// The caller is not among those the operation is open to.
    Unauthorized {},
    /// An argument is malformed: an address the host rejected, or two
    /// parallel lists of different lengths.
    InvalidInput { msg: String },
    /// A token transfer failed. No handler returns this: transfers are
    /// declared here and carried out by the host.
    NftTransferFailed {},
    /// The custodian holds too little. No handler returns this: balances
    /// are the registries' to keep.
    InsufficientFunds {},
}

/// The kind of a [`ContractError`], with text as character sequences and the
/// collaborator's error left out.
pub enum ErrorKind {
    Std,
    Unauthorized,
    InvalidInput { msg: Seq<char> },
    NftTransferFailed,
    InsufficientFunds,
}

impl View for ContractError {
    type V = ErrorKind;

    open spec fn view(&self) -> ErrorKind {
        match self {
            ContractError::Std(_) => ErrorKind::Std,
            ContractError::Unauthorized {  } => ErrorKind::Unauthorized,
            ContractError::InvalidInput { msg } => ErrorKind::InvalidInput { msg: msg@ },
            ContractError::NftTransferFailed {  } => ErrorKind::NftTransferFailed,
            ContractError::InsufficientFunds {  } => ErrorKind::InsufficientFunds,
        }
    }
}

/// Calls `to_string` on a `cosmwasm_std::StdError`, which writes the error as
/// its `Display` shows it. Trusted, and nothing is claimed of the text.
#[verifier::external_body]
fn std_error_text(e: &cosmwasm_std::StdError) -> String {
    e.to_string()
}

/// The text of an error of this kind, for every kind but `Std`, whose text
/// is the collaborator's own.
pub open spec fn kind_text(kind: ErrorKind) -> Seq<char> {
    match kind {
        ErrorKind::Std => Seq::empty(),
        ErrorKind::Unauthorized => "Unauthorized: Only the admin can perform this action"@,
        ErrorKind::InvalidInput { msg } => "Invalid input: "@ + msg,
        ErrorKind::NftTransferFailed => "NFT transfer failed"@,
        ErrorKind::InsufficientFunds => "Insufficient funds"@,
    }
}

impl ContractError {
    /// The error as text. For `Std` it is what the collaborator's error
    /// says of itself.
    pub fn message(&self) -> (r: String)
        ensures
            !(self is Std) ==> r@ == kind_text(self@),
    {
        match self {
            ContractError::Std(e) => std_error_text(e),
            ContractError::Unauthorized {  } => {
                "Unauthorized: Only the admin can perform this action".to_owned()
            },
            ContractError::InvalidInput { msg } => {
                let mut r = "Invalid input: ".to_owned();
                r.append(msg.as_str());
                r
            },
            ContractError::NftTransferFailed {  } => "NFT transfer failed".to_owned(),
            ContractError::InsufficientFunds {  } => "Insufficient funds".to_owned(),
        }
    }
}

/// `r` is the result `expected` describes: the same value up to views, or an
/// error of the same kind.
pub open spec fn agrees<T: View>(r: Result<T, ContractError>, expected: Result<T::V, ErrorKind>) -> bool {
    match expected {
        Ok(v) => r matches Ok(x) && x@ == v,
        Err(kind) => r matches Err(e) && e@ == kind,
    }
}

} // verus!
