use crate::text::{debug_string, debug_text, decimal_digits, decimal_string};
use vstd::prelude::*;
use vstd::string::StringExecFns;

verus! {

/// Everything a message can be rejected with.
#[derive(Debug, Clone, PartialEq)]
pub enum ContractError {
    NotAuthorized { reason: String },
    ValidationError { reason: String },
    DisabledError {},
    RandomConfigNotSet {},
    InsufficientFunds { denom_requested: String, requested: u128, available: u128 },
    InvalidDiceResults { reason: String },
    InvalidGameStatus { reason: String },
    TooManyRecords { limit: u8 },
    NotFound { reason: String },
    InvalidDiceNumber { reason: String },
    Overflow {},
    Underflow {},
    DivideByZero {},
}

/// The mathematical content of a [`ContractError`]: texts are character sequences.
pub enum ContractErrorView {
    NotAuthorized { reason: Seq<char> },
    ValidationError { reason: Seq<char> },
    DisabledError,
    RandomConfigNotSet,
    InsufficientFunds { denom_requested: Seq<char>, requested: u128, available: u128 },
    InvalidDiceResults { reason: Seq<char> },
    InvalidGameStatus { reason: Seq<char> },
    TooManyRecords { limit: u8 },
    NotFound { reason: Seq<char> },
    InvalidDiceNumber { reason: Seq<char> },
    Overflow,
    Underflow,
    DivideByZero,
}

impl View for ContractError {
    type V = ContractErrorView;

    open spec fn view(&self) -> ContractErrorView {
        match *self {
            ContractError::NotAuthorized { reason } => ContractErrorView::NotAuthorized {
                reason: reason@,
            },
            ContractError::ValidationError { reason } => ContractErrorView::ValidationError {
                reason: reason@,
            },
            ContractError::DisabledError {  } => ContractErrorView::DisabledError,
            ContractError::RandomConfigNotSet {  } => ContractErrorView::RandomConfigNotSet,
            ContractError::InsufficientFunds {
                denom_requested,
                requested,
                available,
            } => ContractErrorView::InsufficientFunds {
                denom_requested: denom_requested@,
                requested,
                available,
            },
            ContractError::InvalidDiceResults { reason } => ContractErrorView::InvalidDiceResults {
                reason: reason@,
            },
            ContractError::InvalidGameStatus { reason } => ContractErrorView::InvalidGameStatus {
                reason: reason@,
            },
            ContractError::TooManyRecords { limit } => ContractErrorView::TooManyRecords { limit },
            ContractError::NotFound { reason } => ContractErrorView::NotFound { reason: reason@ },
            ContractError::InvalidDiceNumber { reason } => ContractErrorView::InvalidDiceNumber {
                reason: reason@,
            },
            ContractError::Overflow {  } => ContractErrorView::Overflow,
            ContractError::Underflow {  } => ContractErrorView::Underflow,
            ContractError::DivideByZero {  } => ContractErrorView::DivideByZero,
        }
    }
}

/// A label followed by a reason as `Debug` writes it.
pub open spec fn labelled(label: Seq<char>, reason: Seq<char>) -> Seq<char> {
    label + debug_text(reason)
}

/// The message of insufficient funds, around the denomination as `Debug`
/// writes it.
pub open spec fn insufficient_funds_text(
    quoted_denom: Seq<char>,
    requested: u128,
    available: u128,
) -> Seq<char> {
    "InsufficientFunds: "@ + quoted_denom + " "@ + amount_text(requested) + " > "@ + amount_text(
        available,
    )
}

/// An amount as the ledger's 128-bit integer type prints it.
pub open spec fn amount_text(amount: u128) -> Seq<char> {
    "Uint128("@ + decimal_digits(amount as nat) + ")"@
}

impl ContractErrorView {
    /// The message a person reads.
    pub open spec fn text(self) -> Seq<char> {
        match self {
            ContractErrorView::NotAuthorized { reason } => labelled("NotAuthorized: "@, reason),
            ContractErrorView::ValidationError { reason } => labelled("ValidationError: "@, reason),
            ContractErrorView::DisabledError => "DisabledError: Contract is not enabled"@,
            ContractErrorView::RandomConfigNotSet => "RandomConfigNotSet: Random config is not set"@,
            ContractErrorView::InsufficientFunds { denom_requested, requested, available } => {
                insufficient_funds_text(debug_text(denom_requested), requested, available)
            },
            ContractErrorView::InvalidDiceResults { reason } => labelled(
                "InvalidDiceResults: "@,
                reason,
            ),
            ContractErrorView::InvalidGameStatus { reason } => labelled(
                "InvalidGameStatus: "@,
                reason,
            ),
            ContractErrorView::TooManyRecords { limit } => "TooManyRecords: Limit "@
                + decimal_digits(limit as nat) + " exceeded"@,
            ContractErrorView::NotFound { reason } => labelled("NotFound: "@, reason),
            ContractErrorView::InvalidDiceNumber { reason } => labelled(
                "InvalidDiceNumber: "@,
                reason,
            ),
            ContractErrorView::Overflow => "Overflow: the amount exceeds 128 bits"@,
            ContractErrorView::Underflow => "Underflow: the amount would be negative"@,
            ContractErrorView::DivideByZero => "DivideByZero: the denominator is zero"@,
        }
    }
}

/// Puts a label before a reason that is already quoted.
pub fn label_quoted(label: &str, quoted_reason: &str) -> (r: String)
    ensures
        r@ == label@ + quoted_reason@,
{
    String::from_str(label).concat(quoted_reason)
}

fn labelled_string(label: &str, reason: &String) -> (r: String)
    ensures
        r@ == labelled(label@, reason@),
{
    let quoted: String = debug_string(reason.as_str());
    label_quoted(label, quoted.as_str())
}

/// Writes an amount as the ledger's 128-bit integer type prints it.
pub fn amount_string(amount: u128) -> (r: String)
    ensures
        r@ == amount_text(amount),
{
    let digits: String = decimal_string(amount);
    String::from_str("Uint128(").concat(digits.as_str()).concat(")")
}

/// Writes the message of insufficient funds around a denomination that is
/// already quoted.
pub fn insufficient_funds_message(quoted_denom: &str, requested: u128, available: u128) -> (r:
    String)
    ensures
        r@ == insufficient_funds_text(quoted_denom@, requested, available),
{
    let wanted: String = amount_string(requested);
    let had: String = amount_string(available);
    String::from_str("InsufficientFunds: ").concat(quoted_denom).concat(" ").concat(
        wanted.as_str(),
    ).concat(" > ").concat(had.as_str())
}

impl ContractError {
    /// The message a person reads.
    pub fn to_string(&self) -> (r: String)
        ensures
            r@ == self@.text(),
    {
        match self {
            ContractError::NotAuthorized { reason } => labelled_string("NotAuthorized: ", reason),
            ContractError::ValidationError { reason } => labelled_string(
                "ValidationError: ",
                reason,
            ),
            ContractError::DisabledError {  } => String::from_str(
                "DisabledError: Contract is not enabled",
            ),
            ContractError::RandomConfigNotSet {  } => String::from_str(
                "RandomConfigNotSet: Random config is not set",
            ),
            ContractError::InsufficientFunds { denom_requested, requested, available } => {
                let denom: String = debug_string(denom_requested.as_str());
                insufficient_funds_message(denom.as_str(), *requested, *available)
            },
            ContractError::InvalidDiceResults { reason } => labelled_string(
                "InvalidDiceResults: ",
                reason,
            ),
            ContractError::InvalidGameStatus { reason } => labelled_string(
                "InvalidGameStatus: ",
                reason,
            ),
            ContractError::TooManyRecords { limit } => {
                let digits: String = decimal_string(*limit as u128);
                String::from_str("TooManyRecords: Limit ").concat(digits.as_str()).concat(
                    " exceeded",
                )
            },
            ContractError::NotFound { reason } => labelled_string("NotFound: ", reason),
            ContractError::InvalidDiceNumber { reason } => labelled_string(
                "InvalidDiceNumber: ",
                reason,
            ),
            ContractError::Overflow {  } => String::from_str(
                "Overflow: the amount exceeds 128 bits",
            ),
            ContractError::Underflow {  } => String::from_str(
                "Underflow: the amount would be negative",
            ),
            ContractError::DivideByZero {  } => String::from_str(
                "DivideByZero: the denominator is zero",
            ),
        }
    }
}

/// Reason carried by every rejected game parameter.
pub open spec fn invalid_dice_number_text() -> Seq<char> {
    "Invalid dice number"@
}

/// Reason carried when a sample lies outside a die's faces, or when an
/// exact-number game receives the wrong number of samples.
pub open spec fn invalid_dice_result_text() -> Seq<char> {
    "Invalid dice result"@
}

/// Reason carried when a high-low game receives the wrong number of samples.
pub open spec fn dice_count_mismatch_text() -> Seq<char> {
    "The number of the dice requested is different from the ones received"@
}

} // verus!
