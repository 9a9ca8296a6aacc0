//! What a successful call hands back: the transfers to carry out and the
//! attributes to log.

use vstd::prelude::*;
use vstd::string::*;

verus! {

/// A key with its value, for the host's event log.
#[derive(Debug, PartialEq, Eq)]
pub struct Attribute {
    pub key: String,
    pub value: String,
}

/// What an [`Attribute`] holds, as sequences of characters.
pub struct AttributeView {
    pub key: Seq<char>,
    pub value: Seq<char>,
}

impl View for Attribute {
    type V = AttributeView;

    open spec fn view(&self) -> AttributeView {
        AttributeView { key: self.key@, value: self.value@ }
    }
}

/// An instruction to the bank: send `amount` of `denom` to `to_address`.
#[derive(Debug, PartialEq, Eq)]
pub struct Transfer {
    pub to_address: String,
    pub amount: u128,
    pub denom: String,
}

/// What a [`Transfer`] holds, with its strings as sequences of characters.
pub struct TransferView {
    pub to_address: Seq<char>,
    pub amount: u128,
    pub denom: Seq<char>,
}

impl View for Transfer {
    type V = TransferView;

    open spec fn view(&self) -> TransferView {
        TransferView { to_address: self.to_address@, amount: self.amount, denom: self.denom@ }
    }
}

/// The outcome of a successful call.
#[derive(Debug, PartialEq, Eq)]
pub struct Response {
    pub messages: Vec<Transfer>,
    pub attributes: Vec<Attribute>,
}

/// What a [`Response`] holds, as mathematical values.
pub struct ResponseView {
    pub messages: Seq<TransferView>,
    pub attributes: Seq<AttributeView>,
}

impl View for Response {
    type V = ResponseView;

    open spec fn view(&self) -> ResponseView {
        ResponseView {
            messages: self.messages@.map_values(|transfer: Transfer| transfer@),
            attributes: self.attributes@.map_values(|attribute: Attribute| attribute@),
        }
    }
}

impl Response {
    /// A response without transfers or attributes.
    pub fn new() -> (response: Response)
        ensures
            response@.messages == Seq::<TransferView>::empty(),
            response@.attributes == Seq::<AttributeView>::empty(),
    {
        let response = Response { messages: Vec::new(), attributes: Vec::new() };
        assert(response@.messages =~= Seq::<TransferView>::empty());
        assert(response@.attributes =~= Seq::<AttributeView>::empty());
        response
    }

    /// Appends the attribute `key` = `value`.
    pub fn add_attribute(self, key: &str, value: String) -> (response: Response)
        ensures
            response@.messages == self@.messages,
            response@.attributes == self@.attributes.push(
                AttributeView { key: key@, value: value@ },
            ),
    {
        let mut response = self;
        response.attributes.push(Attribute { key: String::from_str(key), value });
        assert(response@.attributes =~= self@.attributes.push(
            AttributeView { key: key@, value: value@ },
        ));
        response
    }

    /// Appends a transfer of `amount` of `denom` to `to_address`.
    pub fn add_message(self, transfer: Transfer) -> (response: Response)
        ensures
            response@.attributes == self@.attributes,
            response@.messages == self@.messages.push(transfer@),
    {
        let mut response = self;
        response.messages.push(transfer);
        assert(response@.messages =~= self@.messages.push(transfer@));
        response
    }
}

} // verus!
