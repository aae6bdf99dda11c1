use crate::addr::Addr;
use crate::types::{coins_view, Coin, CoinView};
use vstd::prelude::*;

verus! {

/// A key and a value that the host records with the outcome of a call.
#[derive(Debug, PartialEq, Eq)]
pub struct Attribute {
    pub key: String,
    pub value: String,
}

/// What an `Attribute` holds.
pub struct AttributeView {
    pub key: Seq<char>,
    pub value: Seq<char>,
}

impl View for Attribute {
    type V = AttributeView;

    open spec fn view(&self) -> AttributeView {
        AttributeView { key: self.key@, value: self.value@ }
    }
}

/// The attribute with the given key and value.
pub open spec fn attr(key: Seq<char>, value: Seq<char>) -> AttributeView {
    AttributeView { key, value }
}

/// A transfer that the ledger asks the host to carry out.
#[derive(Debug, PartialEq, Eq)]
pub enum Instruction {
    /// Move `amount` units of the token kept by the contract `token` to
    /// `recipient`.
    TokenTransfer { token: Addr, recipient: Addr, amount: u128 },
    /// Move `funds` of native currency to `to_address`.
    NativeTransfer { to_address: String, funds: Vec<Coin> },
}

/// What an `Instruction` holds.
pub enum InstructionView {
    TokenTransfer { token: Seq<char>, recipient: Seq<char>, amount: u128 },
    NativeTransfer { to_address: Seq<char>, funds: Seq<CoinView> },
}

impl View for Instruction {
    type V = InstructionView;

    open spec fn view(&self) -> InstructionView {
        match self {
            Instruction::TokenTransfer { token, recipient, amount } => {
                InstructionView::TokenTransfer {
                    token: token@,
                    recipient: recipient@,
                    amount: *amount,
                }
            },
            Instruction::NativeTransfer { to_address, funds } => {
                InstructionView::NativeTransfer {
                    to_address: to_address@,
                    funds: coins_view(funds@),
                }
            },
        }
    }
}

/// What a successful call hands back: the instructions for the host, in the
/// order in which they are to be carried out, and the attributes to record.
#[derive(Debug, PartialEq, Eq)]
pub struct Response {
    pub messages: Vec<Instruction>,
    pub attributes: Vec<Attribute>,
}

/// What a `Response` holds.
pub struct ResponseView {
    pub messages: Seq<InstructionView>,
    pub attributes: Seq<AttributeView>,
}

impl View for Response {
    type V = ResponseView;

    open spec fn view(&self) -> ResponseView {
        ResponseView {
            messages: self.messages@.map_values(|m: Instruction| m@),
            attributes: self.attributes@.map_values(|a: Attribute| a@),
        }
    }
}

impl Response {
    /// A response with no instruction and no attribute.
    pub fn new() -> (response: Response)
        ensures
            response@ == (ResponseView { messages: seq![], attributes: seq![] }),
    {
        let response = Response { messages: Vec::new(), attributes: Vec::new() };
        assert(response@.messages =~= seq![]);
        assert(response@.attributes =~= seq![]);
        response
    }

    /// Appends the attribute `key`, `value`.
    pub fn add_attribute(self, key: &str, value: &str) -> (response: Response)
        ensures
            response@ == (ResponseView {
                attributes: self@.attributes.push(attr(key@, value@)),
                ..self@
            }),
    {
        let mut response = self;
        response.attributes.push(Attribute { key: key.to_owned(), value: value.to_owned() });
        assert(response@.attributes =~= self@.attributes.push(attr(key@, value@)));
        response
    }

    /// Appends the instruction `msg`.
    pub fn add_message(self, msg: Instruction) -> (response: Response)
        ensures
            response@ == (ResponseView { messages: self@.messages.push(msg@), ..self@ }),
    {
        let mut response = self;
        response.messages.push(msg);
        assert(response@.messages =~= self@.messages.push(msg@));
        response
    }
}

} // verus!
