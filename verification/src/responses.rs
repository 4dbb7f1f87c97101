use crate::config::Config;
use crate::state::{GameRequest, GameStatus};
use crate::token::{Coin, Transfer, TransferView};
use vstd::prelude::*;

verus! {

#[derive(Debug, Clone, PartialEq, Eq)]
pub struct ConfigResponse(pub Config);

#[derive(Debug, Clone, PartialEq, Eq)]
pub struct QueryPlayResponse(pub GameRequest);

/// One page of a bettor's wagers, and where the next page starts if
/// there is one.
#[derive(Debug, Clone, PartialEq, Eq)]
pub struct QueryUserGamesResponse {
    pub games: Vec<GameRequest>,
    pub next_cursor: Option<u64>,
}

/// A request to the randomness provider for `n` samples between `min` and
/// `max`, to be answered under `response_id` and paid for with `payment`.
#[derive(Debug, PartialEq, Eq)]
pub struct RandomnessRequest {
    pub provider: String,
    pub response_id: u64,
    pub n: u16,
    pub min: u8,
    pub max: u8,
    pub gas_limit: u64,
    pub payment: Coin,
}

pub struct RandomnessRequestView {
    pub provider: Seq<char>,
    pub response_id: u64,
    pub n: u16,
    pub min: u8,
    pub max: u8,
    pub gas_limit: u64,
    pub payment_denom: Seq<char>,
    pub payment_amount: u128,
}

impl View for RandomnessRequest {
    type V = RandomnessRequestView;

    open spec fn view(&self) -> RandomnessRequestView {
        RandomnessRequestView {
            provider: self.provider@,
            response_id: self.response_id,
            n: self.n,
            min: self.min,
            max: self.max,
            gas_limit: self.gas_limit,
            payment_denom: self.payment.denom@,
            payment_amount: self.payment.amount,
        }
    }
}

/// What placing a wager answers: the wager's id, what it pays if it wins,
/// and the request to send to the randomness provider.
#[derive(Debug, PartialEq, Eq)]
pub struct PlayResponse {
    pub game_id: u64,
    pub potential_winning_amount: u128,
    pub request: RandomnessRequest,
}

pub struct PlayResponseView {
    pub game_id: u64,
    pub potential_winning_amount: u128,
    pub request: RandomnessRequestView,
}

impl View for PlayResponse {
    type V = PlayResponseView;

    open spec fn view(&self) -> PlayResponseView {
        PlayResponseView {
            game_id: self.game_id,
            potential_winning_amount: self.potential_winning_amount,
            request: self.request@,
        }
    }
}

/// What settling a wager answers: how it ended, and the transfer that
/// the ending calls for.
#[derive(Debug, PartialEq, Eq)]
pub struct SettleResponse {
    pub status: GameStatus,
    pub game_id: u64,
    pub user_address: String,
    pub transfer: Option<Transfer>,
}

pub struct SettleResponseView {
    pub status: GameStatus,
    pub game_id: u64,
    pub user_address: Seq<char>,
    pub transfer: Option<TransferView>,
}

impl View for SettleResponse {
    type V = SettleResponseView;

    open spec fn view(&self) -> SettleResponseView {
        SettleResponseView {
            status: self.status,
            game_id: self.game_id,
            user_address: self.user_address@,
            transfer: crate::token::transfer_view(self.transfer),
        }
    }
}

/// What a withdrawal answers: the transfer to the operator.
#[derive(Debug, PartialEq, Eq)]
pub struct WithdrawResponse {
    pub token: String,
    pub amount: u128,
    pub transfer: Transfer,
}

/// What the contract answers to a message that changed it.
#[derive(Debug, PartialEq, Eq)]
pub enum Response {
    ConfigSet,
    Played(PlayResponse),
    Settled(SettleResponse),
    RandomConfigCached,
    Withdrawn(WithdrawResponse),
}

/// What the contract answers to a question.
#[derive(Debug, PartialEq, Eq)]
pub enum QueryResponse {
    Config(ConfigResponse),
    Game(Option<QueryPlayResponse>),
    UserGames(Option<QueryUserGamesResponse>),
}

} // verus!
