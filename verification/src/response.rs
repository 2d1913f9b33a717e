//! What the contract answers: transfers to make and attributes to report.

use crate::ask_order::AskOrderClass;
use crate::common::Coin;
use crate::contract_info::{ContractInfoV3, InfoModel};
use vstd::prelude::*;

verus! {

/// A message the contract sends to the chain: a transfer of coins out of
/// its hands, or the binding of a name to an address.
#[derive(Clone, Debug, PartialEq, Eq)]
pub enum ContractMessage {
    /// A bank send of `amount` of `denom` to `to`.
    Bank { to: String, amount: u128, denom: String },
    /// A transfer of restricted marker coins from `from` to `to`.
    Marker { amount: u128, denom: String, to: String, from: String },
    /// Binds the name `name` under the parent name `parent` (empty for a
    /// name without a parent) to `address`; a restricted name takes
    /// sub-names only from its owner.
    BindName { name: String, parent: String, address: String, restricted: bool },
}

/// A message, with its texts as character sequences.
pub ghost enum ContractMessageView {
    Bank { to: Seq<char>, amount: u128, denom: Seq<char> },
    Marker { amount: u128, denom: Seq<char>, to: Seq<char>, from: Seq<char> },
    BindName { name: Seq<char>, parent: Seq<char>, address: Seq<char>, restricted: bool },
}

impl View for ContractMessage {
    type V = ContractMessageView;

    open spec fn view(&self) -> ContractMessageView {
        match *self {
            ContractMessage::Bank { to, amount, denom } => ContractMessageView::Bank { to: to@, amount, denom: denom@ },
            ContractMessage::Marker { amount, denom, to, from } => ContractMessageView::Marker { amount, denom: denom@, to: to@, from: from@ },
            ContractMessage::BindName { name, parent, address, restricted } => ContractMessageView::BindName {
                name: name@,
                parent: parent@,
                address: address@,
                restricted,
            },
        }
    }
}

/// The value of a reported attribute.
#[derive(Clone, Debug, PartialEq, Eq)]
pub enum AttrValue {
    Text(String),
    Amount(u128),
    Class(AskOrderClass),
    Info(ContractInfoV3),
    Fee(Option<Coin>),
}

/// An attribute value, with its texts as character sequences.
pub ghost enum AttrView {
    Text(Seq<char>),
    Amount(u128),
    Class(AskOrderClass),
    Info(InfoModel),
    Fee(Option<Coin>),
}

impl View for AttrValue {
    type V = AttrView;

    open spec fn view(&self) -> AttrView {
        match *self {
            AttrValue::Text(t) => AttrView::Text(t@),
            AttrValue::Amount(a) => AttrView::Amount(a),
            AttrValue::Class(c) => AttrView::Class(c),
            AttrValue::Info(i) => AttrView::Info(i@),
            AttrValue::Fee(f) => AttrView::Fee(f),
        }
    }
}

/// A reported attribute.
#[derive(Clone, Debug, PartialEq, Eq)]
pub struct Attribute {
    pub key: String,
    pub value: AttrValue,
}

/// The answer to an operation: the transfers, in order, and the attributes
/// reported, in order.
#[derive(Clone, Debug, PartialEq, Eq)]
pub struct Response {
    pub messages: Vec<ContractMessage>,
    pub attributes: Vec<Attribute>,
}

/// An answer, with its texts as character sequences.
pub ghost struct ResponseView {
    pub messages: Seq<ContractMessageView>,
    pub attributes: Seq<(Seq<char>, AttrView)>,
}

impl View for Response {
    type V = ResponseView;

    open spec fn view(&self) -> ResponseView {
        ResponseView {
            messages: self.messages@.map_values(|t: ContractMessage| t@),
            attributes: self.attributes@.map_values(|a: Attribute| (a.key@, a.value@)),
        }
    }
}

/// An empty answer.
pub open spec fn empty_response() -> ResponseView {
    ResponseView { messages: Seq::empty(), attributes: Seq::empty() }
}

/// The answer with one more transfer.
pub open spec fn with_message(r: ResponseView, t: ContractMessageView) -> ResponseView {
    ResponseView { messages: r.messages.push(t), ..r }
}

/// The answer with one more attribute.
pub open spec fn with_attr(r: ResponseView, key: Seq<char>, value: AttrView) -> ResponseView {
    ResponseView { attributes: r.attributes.push((key, value)), ..r }
}

/// The transfer that gives `amount` of `denom` to `to`: a marker transfer
/// from the contract for a restricted marker, else a bank send.
pub open spec fn transfer_view(restricted: bool, amount: u128, denom: Seq<char>, to: Seq<char>, contract: Seq<char>) -> ContractMessageView {
    if restricted {
        ContractMessageView::Marker { amount, denom, to, from: contract }
    } else {
        ContractMessageView::Bank { to, amount, denom }
    }
}

/// `i` is the position of the first dot in `name`.
pub open spec fn is_first_dot(name: Seq<char>, i: int) -> bool {
    &&& 0 <= i < name.len()
    &&& name[i] == '.'
    &&& forall|j: int| 0 <= j < i ==> name[j] != '.'
}

/// A dotted name split at its first dot: the leading label and the parent
/// name after the dot; a name without a dot is a label with no parent.
pub open spec fn name_parts(name: Seq<char>) -> (Seq<char>, Seq<char>) {
    if exists|i: int| is_first_dot(name, i) {
        let i = choose|i: int| is_first_dot(name, i);
        (name.take(i), name.skip(i + 1))
    } else {
        (name, Seq::empty())
    }
}

/// The restricted binding of the dotted name `name` to `address`.
pub open spec fn bind_name_view(name: Seq<char>, address: Seq<char>) -> ContractMessageView {
    ContractMessageView::BindName { name: name_parts(name).0, parent: name_parts(name).1, address, restricted: true }
}

/// Splits a dotted name at its first dot into its leading label and its
/// parent name.
pub fn split_name(name: &String) -> (r: (String, String))
    ensures
        (r.0@, r.1@) == name_parts(name@),
{
    let s = name.as_str();
    let len = s.unicode_len();
    let mut i: usize = 0;
    while i < len
        invariant
            len == s@.len(),
            s@ == name@,
            i <= len,
            forall|j: int| 0 <= j < i ==> s@[j] != '.',
        decreases len - i,
    {
        if s.get_char(i) == '.' {
            let label = s.substring_char(0, i).to_string();
            let parent = s.substring_char(i + 1, len).to_string();
            proof {
                assert(is_first_dot(name@, i as int));
                let k = choose|k: int| is_first_dot(name@, k);
                assert(k == i as int) by {
                    if k < i as int {
                        assert(name@[k] != '.');
                    } else if k > i as int {
                        assert(name@[i as int] != '.');
                    }
                }
                assert(label@ =~= name@.take(i as int));
                assert(parent@ =~= name@.skip(i + 1));
            }
            return (label, parent);
        }
        i = i + 1;
    }
    proof {
        assert(!exists|k: int| is_first_dot(name@, k));
    }
    (name.clone(), String::new())
}

impl Response {
    /// An empty answer.
    pub fn new() -> (r: Response)
        ensures
            r@ == empty_response(),
    {
        let r = Response { messages: Vec::new(), attributes: Vec::new() };
        assert(r@.messages =~= Seq::<ContractMessageView>::empty());
        assert(r@.attributes =~= Seq::<(Seq<char>, AttrView)>::empty());
        r
    }

    /// Adds a transfer.
    pub fn add_message(&mut self, t: ContractMessage)
        ensures
            final(self)@ == with_message(old(self)@, t@),
    {
        self.messages.push(t);
        assert(self@.messages =~= old(self)@.messages.push(t@));
        assert(self@.attributes =~= old(self)@.attributes);
    }

    /// Adds an attribute.
    pub fn add_attr(&mut self, key: &str, value: AttrValue)
        ensures
            final(self)@ == with_attr(old(self)@, key@, value@),
    {
        let ghost v = value;
        self.attributes.push(Attribute { key: key.to_owned(), value });
        assert(self@.attributes =~= old(self)@.attributes.push((key@, v@)));
        assert(self@.messages =~= old(self)@.messages);
    }

    /// Adds a text attribute.
    pub fn add_text(&mut self, key: &str, value: &String)
        ensures
            final(self)@ == with_attr(old(self)@, key@, AttrView::Text(value@)),
    {
        self.add_attr(key, AttrValue::Text(value.clone()));
    }

    /// Adds the restricted binding of the dotted name `name` to `address`.
    pub fn add_bind_name(&mut self, name: &String, address: &String)
        ensures
            final(self)@ == with_message(old(self)@, bind_name_view(name@, address@)),
    {
        let (label, parent) = split_name(name);
        self.add_message(ContractMessage::BindName { name: label, parent, address: address.clone(), restricted: true });
    }

    /// Adds the transfer that gives `amount` of `denom` to `to`: a marker
    /// transfer from the contract for a restricted marker, else a bank
    /// send.
    pub fn add_transfer(&mut self, restricted: bool, amount: u128, denom: &String, to: &String, contract: &String)
        ensures
            final(self)@ == with_message(old(self)@, transfer_view(restricted, amount, denom@, to@, contract@)),
    {
        if restricted {
            self.add_message(ContractMessage::Marker { amount, denom: denom.clone(), to: to.clone(), from: contract.clone() });
        } else {
            self.add_message(ContractMessage::Bank { to: to.clone(), amount, denom: denom.clone() });
        }
    }
}

} // verus!
