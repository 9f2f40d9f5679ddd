use vstd::prelude::*;

use crate::decimal::U256;

verus! {

/// An amount of one denomination.
#[derive(Debug)]
pub struct Coin {
    pub denom: String,
    pub amount: U256,
}

/// A coin as a mathematical value.
pub struct CoinView {
    pub denom: Seq<char>,
    pub amount: nat,
}

impl View for Coin {
    type V = CoinView;

    open spec fn view(&self) -> CoinView {
        CoinView { denom: self.denom@, amount: self.amount.value() }
    }
}

/// A message to the bank module.
#[derive(Debug)]
pub enum BankMsg {
    /// Send the coins from the contract to `to_address`.
    Send { to_address: String, amount: Vec<Coin> },
}

/// A bank message as a mathematical value.
pub enum BankMsgView {
    Send { to_address: Seq<char>, amount: Seq<CoinView> },
}

impl View for BankMsg {
    type V = BankMsgView;

    open spec fn view(&self) -> BankMsgView {
        match self {
            BankMsg::Send { to_address, amount } => BankMsgView::Send {
                to_address: to_address@,
                amount: amount@.map_values(|c: Coin| c@),
            },
        }
    }
}

/// A key-value pair that a response reports.
#[derive(Debug)]
pub struct Attribute {
    pub key: String,
    pub value: String,
}

impl View for Attribute {
    type V = (Seq<char>, Seq<char>);

    open spec fn view(&self) -> (Seq<char>, Seq<char>) {
        (self.key@, self.value@)
    }
}

/// What a successful call hands back to the chain: messages to dispatch and attributes to log.
#[derive(Debug)]
pub struct Response {
    pub messages: Vec<BankMsg>,
    pub attributes: Vec<Attribute>,
}

/// A response as a mathematical value.
pub struct ResponseView {
    pub messages: Seq<BankMsgView>,
    pub attributes: Seq<(Seq<char>, Seq<char>)>,
}

impl View for Response {
    type V = ResponseView;

    open spec fn view(&self) -> ResponseView {
        ResponseView {
            messages: self.messages@.map_values(|m: BankMsg| m@),
            attributes: self.attributes@.map_values(|a: Attribute| a@),
        }
    }
}

impl ResponseView {
    /// The response with nothing in it.
    pub open spec fn empty() -> ResponseView {
        ResponseView { messages: Seq::empty(), attributes: Seq::empty() }
    }

    /// This response with one more attribute at the end.
    pub open spec fn attr(self, key: Seq<char>, value: Seq<char>) -> ResponseView {
        ResponseView { messages: self.messages, attributes: self.attributes.push((key, value)) }
    }

    /// This response with one more message at the end.
    pub open spec fn message(self, m: BankMsgView) -> ResponseView {
        ResponseView { messages: self.messages.push(m), attributes: self.attributes }
    }
}

/// The bank message that sends one coin of `amount` in `denom` to `to_address`.
pub open spec fn send_one(to_address: Seq<char>, denom: Seq<char>, amount: nat) -> BankMsgView {
    BankMsgView::Send { to_address, amount: seq![CoinView { denom, amount }] }
}

impl Response {
    /// The response with nothing in it.
    pub fn new() -> (r: Response)
        ensures
            r@ == ResponseView::empty(),
    {
        let r = Response { messages: Vec::new(), attributes: Vec::new() };
        assert(r@.messages =~= Seq::<BankMsgView>::empty());
        assert(r@.attributes =~= Seq::<(Seq<char>, Seq<char>)>::empty());
        r
    }

    /// This response with one more attribute at the end.
    pub fn add_attribute(self, key: &str, value: String) -> (r: Response)
        ensures
            r@ == self@.attr(key@, value@),
    {
        let mut r = self;
        let a = Attribute { key: String::from_str(key), value };
        r.attributes.push(a);
        assert(r@.attributes =~= self@.attributes.push((key@, value@)));
        r
    }

    /// This response with one more message at the end.
    pub fn add_message(self, m: BankMsg) -> (r: Response)
        ensures
            r@ == self@.message(m@),
    {
        let mut r = self;
        let ghost mv = m@;
        r.messages.push(m);
        assert(r@.messages =~= self@.messages.push(mv));
        r
    }
}

/// The bank message that sends `coin` to `to_address`.
pub fn send_coin(to_address: String, coin: Coin) -> (m: BankMsg)
    ensures
        m@ == send_one(to_address@, coin@.denom, coin@.amount),
{
    let ghost cv = coin@;
    let mut amount: Vec<Coin> = Vec::new();
    amount.push(coin);
    assert(amount@.map_values(|c: Coin| c@) =~= seq![cv]);
    BankMsg::Send { to_address, amount }
}

} // verus!
