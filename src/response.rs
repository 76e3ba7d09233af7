use vstd::prelude::*;

use crate::msg::Coin;

verus! {

/// A key/value pair of a response's audit trail.
#[derive(Clone, Debug)]
pub struct Attribute {
    pub key: String,
    pub value: String,
}

/// A native-currency transfer for the host to carry out.
#[derive(Clone, Debug)]
pub enum BankMsg {
    Send { to_address: String, amount: Vec<Coin> },
}

/// What a successful action hands back: the effects to carry out and the
/// audit trail.
#[derive(Clone, Debug)]
pub struct Response {
    pub messages: Vec<BankMsg>,
    pub attributes: Vec<Attribute>,
}

/// The audit trail as key/value text pairs.
pub open spec fn attrs(r: Response) -> Seq<(Seq<char>, Seq<char>)> {
    r.attributes@.map_values(|a: Attribute| (a.key@, a.value@))
}

/// The response carries exactly one effect: a transfer of `amount` native
/// units to `to`.
pub open spec fn sends_native(r: Response, to: Seq<char>, amount: u128) -> bool {
    &&& r.messages@.len() == 1
    &&& match r.messages@[0] {
        BankMsg::Send { to_address, amount: coins } => {
            &&& to_address@ == to
            &&& coins@.len() == 1
            &&& coins@[0].denom@ == crate::msg::NATIVE_DENOM@
            &&& coins@[0].amount == amount
        },
    }
}

impl Response {
    pub fn new() -> (r: Response)
        ensures
            r.messages@.len() == 0,
            attrs(r) == Seq::<(Seq<char>, Seq<char>)>::empty(),
    {
        let r = Response { messages: Vec::new(), attributes: Vec::new() };
        proof {
            assert(attrs(r) =~= Seq::<(Seq<char>, Seq<char>)>::empty());
        }
        r
    }

    /// Appends one attribute to the audit trail.
    pub fn add_attribute(self, key: &str, value: String) -> (r: Response)
        ensures
            r.messages@ == self.messages@,
            attrs(r) == attrs(self).push((key@, value@)),
    {
        let mut r = self;
        let attribute = Attribute { key: key.to_owned(), value };
        r.attributes.push(attribute);
        proof {
            assert(attrs(r) =~= attrs(self).push((key@, value@)));
        }
        r
    }

    /// Appends one effect.
    pub fn add_message(self, msg: BankMsg) -> (r: Response)
        ensures
            r.messages@ == self.messages@.push(msg),
            r.attributes@ == self.attributes@,
    {
        let mut r = self;
        r.messages.push(msg);
        r
    }
}

/// The character of a decimal digit.
pub open spec fn digit_char(d: nat) -> char {
    seq!['0', '1', '2', '3', '4', '5', '6', '7', '8', '9'][d as int]
}

/// The decimal text of `n`: most significant digit first, no leading zeros.
pub open spec fn decimal(n: nat) -> Seq<char>
    decreases n,
{
    if n < 10 {
        seq![digit_char(n)]
    } else {
        decimal(n / 10).push(digit_char(n % 10))
    }
}

/// The decimal text of a signed number, with a leading '-' when negative.
pub open spec fn signed_decimal(n: int) -> Seq<char> {
    if n < 0 {
        seq!['-'] + decimal((-n) as nat)
    } else {
        decimal(n as nat)
    }
}

/// Relies on `<u128 as ToString>::to_string` (through `Display`): the decimal
/// digits of the number, without sign or leading zeros.
#[verifier::external_body]
pub(crate) fn u128_text(n: u128) -> (r: String)
    ensures
        r@ == decimal(n as nat),
{
    n.to_string()
}

/// Relies on `<i32 as ToString>::to_string` (through `Display`): a '-' for a
/// negative number, then the decimal digits of its magnitude.
#[verifier::external_body]
pub(crate) fn i32_text(n: i32) -> (r: String)
    ensures
        r@ == signed_decimal(n as int),
{
    n.to_string()
}

} // verus!
