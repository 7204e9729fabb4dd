use vstd::prelude::*;
use crate::coin::{Coin, CoinView, coins_view};

verus! {

/// The block that a call runs in.
#[derive(Debug, Clone, Copy, PartialEq, Eq)]
pub struct BlockInfo {
    pub height: u64,
}

/// What the host tells a call about its surroundings.
#[derive(Debug, Clone, Copy, PartialEq, Eq)]
pub struct Env {
    pub block: BlockInfo,
}

/// Who calls, and the funds that come with the call.
#[derive(Debug, PartialEq, Eq)]
pub struct MessageInfo {
    pub sender: String,
    pub funds: Vec<Coin>,
}

/// Parameters of the option, given at creation.
#[derive(Debug, PartialEq, Eq)]
pub struct InstantiateMsg {
    pub counter_offer: Vec<Coin>,
    pub expires: u64,
}

/// The calls that act on an active option.
#[derive(Debug, PartialEq, Eq)]
pub enum ExecuteMsg {
    /// Hand the right to exercise to `recipient`.
    Transfer { recipient: String },
    /// Pay the counter-offer and take the collateral.
    Execute {},
    /// Return the collateral of an expired option to its creator.
    Burn {},
}

/// The read-only calls.
#[derive(Debug, PartialEq, Eq)]
pub enum QueryMsg {
    /// The whole state of the active option.
    Config {},
}

/// A directive for the host to send funds out of the contract.
#[derive(Debug, PartialEq, Eq)]
pub enum BankMsg {
    Send { to_address: String, amount: Vec<Coin> },
}

/// A key/value pair that describes what a call did.
#[derive(Debug, PartialEq, Eq)]
pub struct Attribute {
    pub key: String,
    pub value: String,
}

/// What a successful call hands back to the host.
#[derive(Debug, PartialEq, Eq)]
pub struct Response {
    pub messages: Vec<BankMsg>,
    pub attributes: Vec<Attribute>,
}

/// The value of a [`BankMsg`]: funds and where they go.
pub struct SendView {
    pub to: Seq<char>,
    pub amount: Seq<CoinView>,
}

/// The value of an [`Attribute`].
pub struct AttributeView {
    pub key: Seq<char>,
    pub value: Seq<char>,
}

/// The value of a [`Response`].
pub struct ResponseView {
    pub messages: Seq<SendView>,
    pub attributes: Seq<AttributeView>,
}

impl View for BankMsg {
    type V = SendView;

    open spec fn view(&self) -> SendView {
        match self {
            BankMsg::Send { to_address, amount } => SendView {
                to: to_address@,
                amount: coins_view(amount@),
            },
        }
    }
}

impl View for Attribute {
    type V = AttributeView;

    open spec fn view(&self) -> AttributeView {
        AttributeView { key: self.key@, value: self.value@ }
    }
}

impl View for Response {
    type V = ResponseView;

    open spec fn view(&self) -> ResponseView {
        ResponseView {
            messages: self.messages@.map_values(|m: BankMsg| m@),
            attributes: self.attributes@.map_values(|a: Attribute| a@),
        }
    }
}

/// The attribute `key=value`.
pub open spec fn attr(key: Seq<char>, value: Seq<char>) -> AttributeView {
    AttributeView { key, value }
}

/// A directive that sends `amount` to `to`.
pub open spec fn send(to: Seq<char>, amount: Seq<CoinView>) -> SendView {
    SendView { to, amount }
}

impl Response {
    /// A response with no directives and no attributes.
    pub fn new() -> (r: Response)
        ensures
            r@.messages == Seq::<SendView>::empty(),
            r@.attributes == Seq::<AttributeView>::empty(),
    {
        let r = Response { messages: Vec::new(), attributes: Vec::new() };
        assert(r@.messages =~= Seq::<SendView>::empty());
        assert(r@.attributes =~= Seq::<AttributeView>::empty());
        r
    }

    /// Appends the attribute `key=value`.
    pub fn add_attribute(&mut self, key: &str, value: String)
        ensures
            final(self)@.messages == old(self)@.messages,
            final(self)@.attributes == old(self)@.attributes.push(attr(key@, value@)),
    {
        let ghost before = self@;
        self.attributes.push(Attribute { key: key.to_owned(), value });
        assert(self@.messages =~= before.messages);
        assert(self@.attributes =~= before.attributes.push(attr(key@, value@)));
    }

    /// Appends a directive to send `amount` to `to_address`.
    pub fn add_message(&mut self, to_address: String, amount: Vec<Coin>)
        ensures
            final(self)@.attributes == old(self)@.attributes,
            final(self)@.messages == old(self)@.messages.push(
                send(to_address@, coins_view(amount@)),
            ),
    {
        let ghost before = self@;
        let ghost m = send(to_address@, coins_view(amount@));
        self.messages.push(BankMsg::Send { to_address, amount });
        assert(self@.attributes =~= before.attributes);
        assert(self@.messages =~= before.messages.push(m));
    }
}

} // verus!
