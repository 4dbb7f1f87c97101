use vstd::prelude::*;

verus! {

/// What an amount is denominated in: a native denomination, or the token
/// kept by the contract at an address.
#[derive(Debug, PartialEq, Eq)]
pub enum Token {
    Denom(String),
    Address(String),
}

pub enum TokenView {
    Denom(Seq<char>),
    Address(Seq<char>),
}

impl View for Token {
    type V = TokenView;

    open spec fn view(&self) -> TokenView {
        match *self {
            Token::Denom(d) => TokenView::Denom(d@),
            Token::Address(a) => TokenView::Address(a@),
        }
    }
}

impl Clone for Token {
    fn clone(&self) -> (r: Token)
        ensures
            r@ == self@,
    {
        match self {
            Token::Denom(d) => Token::Denom(d.clone()),
            Token::Address(a) => Token::Address(a.clone()),
        }
    }
}

/// An amount of a token.
#[derive(Debug, PartialEq, Eq)]
pub struct TokenAmount {
    pub token: Token,
    pub amount: u128,
}

/// An amount of a native denomination, as attached to a message.
#[derive(Debug, PartialEq, Eq)]
pub struct Coin {
    pub denom: String,
    pub amount: u128,
}

/// An order to the host ledger, carried out once the current message has
/// been processed: move `amount` of `token` from the contract to `recipient`.
#[derive(Debug, PartialEq, Eq)]
pub struct Transfer {
    pub recipient: String,
    pub token: Token,
    pub amount: u128,
}

pub struct TransferView {
    pub recipient: Seq<char>,
    pub token: TokenView,
    pub amount: u128,
}

impl View for Transfer {
    type V = TransferView;

    open spec fn view(&self) -> TransferView {
        TransferView { recipient: self.recipient@, token: self.token@, amount: self.amount }
    }
}

/// The view of a transfer that may be absent.
pub open spec fn transfer_view(t: Option<Transfer>) -> Option<TransferView> {
    match t {
        Some(t) => Some(t@),
        None => None,
    }
}

impl Token {
    /// What the token is named by: its denomination or its address.
    pub open spec fn name(&self) -> Seq<char> {
        match *self {
            Token::Denom(d) => d@,
            Token::Address(a) => a@,
        }
    }

    /// The order that moves `amount` of this token to `recipient`.
    pub fn transfer(&self, recipient: &String, amount: u128) -> (r: Transfer)
        ensures
            r@ == (TransferView { recipient: recipient@, token: self@, amount }),
    {
        Transfer { recipient: recipient.clone(), token: self.clone(), amount }
    }
}

} // verus!
