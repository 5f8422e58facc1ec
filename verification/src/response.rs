//! What a handler hands back to the host: instructions to carry out, in
//! order and all or none, and attributes for the log.

use vstd::prelude::*;
use crate::msg::{Coin, CoinView};

verus! {

/// One effect the host is asked to carry out. It is declared here, never
/// executed.
#[derive(Debug, PartialEq, Eq)]
pub enum Instruction {
    /// Send native coins from the custodian to `to_address`.
    Send { to_address: String, amount: Vec<Coin> },
    /// Call the contract at `contract_addr` with the encoded message `msg`.
    Execute { contract_addr: String, msg: Vec<u8>, funds: Vec<Coin> },
}

/// An [`Instruction`] over sequences.
pub enum InstructionView {
    Send { to_address: Seq<char>, amount: Seq<CoinView> },
    Execute { contract_addr: Seq<char>, msg: Seq<u8>, funds: Seq<CoinView> },
}

impl View for Instruction {
    type V = InstructionView;

    open spec fn view(&self) -> InstructionView {
        match self {
            Instruction::Send { to_address, amount } => InstructionView::Send {
                to_address: to_address@,
                amount: amount.deep_view(),
            },
            Instruction::Execute { contract_addr, msg, funds } => InstructionView::Execute {
                contract_addr: contract_addr@,
                msg: msg@,
                funds: funds.deep_view(),
            },
        }
    }
}

impl DeepView for Instruction {
    type V = InstructionView;

    open spec fn deep_view(&self) -> InstructionView {
        self@
    }
}

/// A key and a value for the host's log.
#[derive(Debug, PartialEq, Eq)]
pub struct Attribute {
    pub key: String,
    pub value: String,
}

/// An [`Attribute`] over character sequences.
pub struct AttributeView {
    pub key: Seq<char>,
    pub value: Seq<char>,
}

impl View for Attribute {
    type V = AttributeView;

    open spec fn view(&self) -> AttributeView {
        AttributeView { key: self.key@, value: self.value@ }
    }
}

impl DeepView for Attribute {
    type V = AttributeView;

    open spec fn deep_view(&self) -> AttributeView {
        self@
    }
}

/// The attribute with this key and this value.
pub open spec fn attr(key: Seq<char>, value: Seq<char>) -> AttributeView {
    AttributeView { key, value }
}

/// The result of a command that went through.
#[derive(Debug, PartialEq, Eq)]
pub struct Response {
    pub messages: Vec<Instruction>,
    pub attributes: Vec<Attribute>,
}

/// A [`Response`] over sequences.
pub struct ResponseView {
    pub messages: Seq<InstructionView>,
    pub attributes: Seq<AttributeView>,
}

impl View for Response {
    type V = ResponseView;

    open spec fn view(&self) -> ResponseView {
        ResponseView {
            messages: self.messages.deep_view(),
            attributes: self.attributes.deep_view(),
        }
    }
}

impl Response {
    /// A response with no instruction and no attribute.
    pub fn new() -> (r: Response)
        ensures
            r@.messages == Seq::<InstructionView>::empty(),
            r@.attributes == Seq::<AttributeView>::empty(),
    {
        Response { messages: Vec::new(), attributes: Vec::new() }
    }

    /// Appends one instruction.
    pub fn add_message(self, msg: Instruction) -> (r: Response)
        ensures
            r@.messages == self@.messages.push(msg@),
            r@.attributes == self@.attributes,
    {
        let mut r = self;
        r.messages.push(msg);
        r
    }

    /// Appends instructions, keeping their order.
    pub fn add_messages(self, msgs: Vec<Instruction>) -> (r: Response)
        ensures
            r@.messages == self@.messages + msgs.deep_view(),
            r@.attributes == self@.attributes,
    {
        let mut r = self;
        let mut msgs = msgs;
        r.messages.append(&mut msgs);
        r
    }

    /// Appends one attribute.
    pub fn add_attribute(self, key: &str, value: String) -> (r: Response)
        ensures
            r@.messages == self@.messages,
            r@.attributes == self@.attributes.push(attr(key@, value@)),
    {
        let mut r = self;
        r.attributes.push(Attribute { key: key.to_owned(), value });
        r
    }
}

} // verus!
