//! What an action hands back: readable attributes, and the instructions the
//! host carries out once the ledger has committed.

use vstd::prelude::*;

use crate::state::Coin;

verus! {

/// A key and a value for people to read.
#[derive(Debug, PartialEq)]
pub struct Attribute {
    pub key: String,
    pub value: String,
}

/// An outbound effect, carried out by the host after the action commits.
#[derive(Debug, PartialEq)]
pub enum Instruction {
    /// Transfer `amount` to `to_address`.
    BankSend { to_address: String, amount: Vec<Coin> },
    /// Time-lock `amount` of `denom` for `duration`.
    LockTokens { denom: String, amount: u128, duration: String },
}

/// The result of a successful action.
#[derive(Debug, PartialEq)]
pub struct Response {
    pub attributes: Vec<Attribute>,
    pub messages: Vec<Instruction>,
}

/// The characters of the digit `d`.
pub open spec fn digit_char(d: int) -> char {
    seq!['0', '1', '2', '3', '4', '5', '6', '7', '8', '9'][d]
}

/// `n` written in decimal: most significant digit first, no leading zeros.
pub open spec fn decimal_text(n: nat) -> Seq<char>
    decreases n,
{
    if n < 10 {
        seq![digit_char(n as int)]
    } else {
        decimal_text(n / 10).push(digit_char((n % 10) as int))
    }
}

/// Relies on `u128`'s `Display`, through `to_string`: the decimal digits of
/// `n`, most significant first, without sign or leading zeros.
#[verifier::external_body]
pub(crate) fn amount_text(n: u128) -> (r: String)
    ensures
        r@ == decimal_text(n as nat),
{
    n.to_string()
}

impl Attribute {
    pub open spec fn view(&self) -> (Seq<char>, Seq<char>) {
        (self.key@, self.value@)
    }
}

/// A single transfer of `amount` of `denom` to `to`.
pub open spec fn is_send(m: Instruction, to: Seq<char>, denom: Seq<char>, amount: u128) -> bool {
    match m {
        Instruction::BankSend { to_address, amount: coins } => {
            &&& to_address@ == to
            &&& coins@.len() == 1
            &&& coins@[0].denom@ == denom
            &&& coins@[0].amount == amount
        },
        _ => false,
    }
}

/// A lock of `amount` of `denom` for `duration`.
pub open spec fn is_lock(m: Instruction, denom: Seq<char>, amount: u128, duration: Seq<char>) -> bool {
    match m {
        Instruction::LockTokens { denom: d, amount: a, duration: t } => {
            &&& d@ == denom
            &&& a == amount
            &&& t@ == duration
        },
        _ => false,
    }
}

impl Response {
    /// The attributes as key/value pairs of characters.
    pub open spec fn attrs(&self) -> Seq<(Seq<char>, Seq<char>)> {
        self.attributes@.map_values(|a: Attribute| a.view())
    }

    pub fn new() -> (r: Response)
        ensures
            r.attrs() == Seq::<(Seq<char>, Seq<char>)>::empty(),
            r.messages@.len() == 0,
    {
        let r = Response { attributes: Vec::new(), messages: Vec::new() };
        assert(r.attrs() =~= Seq::<(Seq<char>, Seq<char>)>::empty());
        r
    }

    pub fn add_attribute(&mut self, key: &str, value: String)
        ensures
            final(self).attrs() == old(self).attrs().push((key@, value@)),
            final(self).messages == old(self).messages,
    {
        let a = Attribute { key: key.to_owned(), value };
        self.attributes.push(a);
        assert(self.attrs() =~= old(self).attrs().push((key@, value@)));
    }

    pub fn add_message(&mut self, m: Instruction)
        ensures
            final(self).attributes == old(self).attributes,
            final(self).messages@ == old(self).messages@.push(m),
    {
        self.messages.push(m);
    }
}

} // verus!
