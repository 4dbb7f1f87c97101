use crate::config::Config;
use crate::state::GameType;
use crate::token::Token;
use vstd::prelude::*;

verus! {

#[derive(Debug, Clone, PartialEq, Eq)]
pub struct InstantiateMsg {
    pub config: Config,
}

/// Places a wager on a game with the funds attached to the message.
#[derive(Debug, Clone, Copy, PartialEq, Eq, Structural)]
pub struct PlayRequestMsg {
    pub game_type: GameType,
}

/// Asks for up to `amount` of `token` to be paid out to the operator.
#[derive(Debug, Clone, PartialEq, Eq)]
pub struct WithdrawMsg {
    pub token: Token,
    pub amount: u128,
}

/// Asks the contract to fetch the randomness provider's prices anew.
#[derive(Debug, Clone, Copy, PartialEq, Eq, Structural)]
pub struct FetchRandomCWConfigMsg {}

#[derive(Debug, Clone, Copy, PartialEq, Eq, Structural)]
pub struct MigrateMsg {}

/// Asks for one page of a bettor's wagers, starting at `cursor`.
#[derive(Debug, Clone, PartialEq, Eq)]
pub struct UserGamesQueryMsg {
    pub user_address: String,
    pub cursor: Option<usize>,
    pub limit: u8,
}

/// One list of samples, of the type that was asked for.
#[derive(Debug, Clone, PartialEq, Eq)]
pub enum JobResult {
    U8(Vec<u8>),
    U16(Vec<u16>),
    U32(Vec<u32>),
    U64(Vec<u64>),
    U128(Vec<u128>),
    I8(Vec<i8>),
    I16(Vec<i16>),
    I32(Vec<i32>),
    I64(Vec<i64>),
    I128(Vec<i128>),
}

/// The randomness provider's answer to the request with the given id.
#[derive(Debug, Clone, PartialEq, Eq)]
pub struct ReceiveRandomnessMsg {
    pub id: u64,
    pub results: Vec<JobResult>,
}

/// What the messaging layer reports of the request with the given id: that
/// it went through, or why it did not.
#[derive(Debug, PartialEq, Eq)]
pub struct Reply {
    pub id: u64,
    pub result: Result<(), String>,
}

/// The messages that change the contract.
#[derive(Debug, PartialEq, Eq)]
pub enum ExecuteMsg {
    SetConfig(Config),
    PlayRequest(PlayRequestMsg),
    ReceiveRandomness(ReceiveRandomnessMsg),
    FetchRandomCWConfig(FetchRandomCWConfigMsg),
    Withdraw(WithdrawMsg),
}

/// The questions the contract answers.
#[derive(Debug, PartialEq, Eq)]
pub enum QueryMsg {
    Config {},
    QueryGame { id: u64 },
    UserGamesQuery(UserGamesQueryMsg),
}

} // verus!
