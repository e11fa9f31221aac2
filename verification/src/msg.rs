//! What the host hands to the escrow and what it receives back.

use vstd::prelude::*;
use crate::state::{coins_view, Coin, Config};

verus! {

/// The terms of a new escrow.
#[derive(Clone, Debug, PartialEq, Eq)]
pub struct InstantiateMsg {
    /// The address of party A.
    pub party_a: String,
    /// The address of party B.
    pub party_b: String,
    /// The bundle party A is to commit.
    pub party_a_funds: Vec<Coin>,
    /// The bundle party B is to commit.
    pub party_b_funds: Vec<Coin>,
}

/// The terms as plain values.
pub struct InstantiateMsgView {
    pub party_a: Seq<char>,
    pub party_b: Seq<char>,
    pub party_a_funds: Seq<(Seq<char>, nat)>,
    pub party_b_funds: Seq<(Seq<char>, nat)>,
}

impl View for InstantiateMsg {
    type V = InstantiateMsgView;

    open spec fn view(&self) -> InstantiateMsgView {
        InstantiateMsgView {
            party_a: self.party_a@,
            party_b: self.party_b@,
            party_a_funds: coins_view(self.party_a_funds@),
            party_b_funds: coins_view(self.party_b_funds@),
        }
    }
}

/// The operations that change the record.
#[derive(Clone, Debug, PartialEq, Eq)]
pub enum ExecuteMsg {
    /// The caller commits its bundle, which it has attached.
    Deposit {},
    /// Both bundles are committed: swap them.
    Exchange {},
    /// The caller takes its committed bundle back.
    Withdraw {},
}

/// The queries.
#[derive(Clone, Debug, PartialEq, Eq)]
pub enum QueryMsg {
    /// The whole record.
    Config {},
}

/// The answer to [`QueryMsg::Config`].
pub type ConfigResponse = Config;

/// Who calls, and the coins attached to the call.
#[derive(Clone, Debug, PartialEq, Eq)]
pub struct MessageInfo {
    pub sender: String,
    pub funds: Vec<Coin>,
}

/// A key and a value that describe what an operation did.
#[derive(Clone, Debug, PartialEq, Eq)]
pub struct Attribute {
    pub key: String,
    pub value: String,
}

impl View for Attribute {
    type V = (Seq<char>, Seq<char>);

    open spec fn view(&self) -> (Seq<char>, Seq<char>) {
        (self.key@, self.value@)
    }
}

/// An instruction to the host to move coins out of the escrow's custody.
#[derive(Clone, Debug, PartialEq, Eq)]
pub enum BankMsg {
    Send { to_address: String, amount: Vec<Coin> },
}

impl View for BankMsg {
    type V = (Seq<char>, Seq<(Seq<char>, nat)>);

    /// The receiver and the coins, in order.
    open spec fn view(&self) -> (Seq<char>, Seq<(Seq<char>, nat)>) {
        match self {
            BankMsg::Send { to_address, amount } => (to_address@, coins_view(amount@)),
        }
    }
}

/// What a response holds: the transfers, each a receiver and its coins, and
/// the attributes, each a key and a value.
pub struct ResponseView {
    pub messages: Seq<(Seq<char>, Seq<(Seq<char>, nat)>)>,
    pub attributes: Seq<(Seq<char>, Seq<char>)>,
}

/// What an operation hands back to the host: the transfers to perform, in
/// order, and attributes for its log.
#[derive(Clone, Debug, PartialEq, Eq)]
pub struct Response {
    pub messages: Vec<BankMsg>,
    pub attributes: Vec<Attribute>,
}

impl View for Response {
    type V = ResponseView;

    open spec fn view(&self) -> ResponseView {
        ResponseView {
            messages: self.messages@.map_values(|m: BankMsg| m@),
            attributes: self.attributes@.map_values(|a: Attribute| a@),
        }
    }
}

impl Response {
    /// A response with no transfer and no attribute.
    pub fn new() -> (response: Response)
        ensures
            response@ == (ResponseView { messages: Seq::empty(), attributes: Seq::empty() }),
    {
        let response = Response { messages: Vec::new(), attributes: Vec::new() };
        assert(response@.messages =~= Seq::empty());
        assert(response@.attributes =~= Seq::empty());
        response
    }

    /// The response with one more attribute at the end.
    pub fn add_attribute(self, key: &str, value: &str) -> (response: Response)
        ensures
            response@ == (ResponseView {
                attributes: self@.attributes.push((key@, value@)),
                ..self@
            }),
    {
        let mut response = self;
        response.attributes.push(Attribute { key: key.to_owned(), value: value.to_owned() });
        assert(response@.attributes =~= self@.attributes.push((key@, value@)));
        response
    }

    /// The response with one more transfer at the end.
    pub fn add_message(self, msg: BankMsg) -> (response: Response)
        ensures
            response@ == (ResponseView { messages: self@.messages.push(msg@), ..self@ }),
    {
        let mut response = self;
        response.messages.push(msg);
        assert(response@.messages =~= self@.messages.push(msg@));
        response
    }
}

} // verus!
