use crate::error::{
    dice_count_mismatch_text, invalid_dice_number_text, invalid_dice_result_text, ContractError,
    ContractErrorView,
};
use crate::msg::InstantiateMsg;
use crate::storage::{ContractState, ContractStateView, RandomConfig};
use crate::token::{Coin, Token, Transfer, TransferView};
use vstd::prelude::*;

verus! {

/// Payout multipliers, in percent, of the two-dice sums 2 to 12.
pub open spec fn double_dice_winning_multiplier_percentage() -> Seq<u64> {
    seq![300u64, 270u64, 240u64, 200u64, 180u64, 150u64, 180u64, 200u64, 240u64, 270u64, 300u64]
}

/// Payout multiplier, in percent, of every high-low game.
pub const HIGH_LOW_WINNING_PERCENTAGE: u64 = 180;

/// A sample is a face of a die.
pub open spec fn valid_die(v: u8) -> bool {
    1 <= v <= 6
}

pub open spec fn all_valid_dice(results: Seq<u8>) -> bool {
    forall|i: int| 0 <= i < results.len() ==> valid_die(#[trigger] results[i])
}

/// Number of samples above three among the first `n`.
pub open spec fn count_high(results: Seq<u8>, n: int) -> int
    decreases n,
{
    if n <= 0 {
        0
    } else {
        count_high(results, n - 1) + if results[n - 1] > 3 {
            1int
        } else {
            0int
        }
    }
}

/// Two dice are rolled; the bettor wins when they sum to the chosen number.
#[derive(Debug, Clone, Copy, PartialEq, Eq, Structural)]
pub struct ExactNumberGame {
    pub chosen_number: u8,
}

impl ExactNumberGame {
    pub open spec fn is_valid(&self) -> bool {
        2 <= self.chosen_number <= 12
    }

    pub open spec fn winning_percentage(&self) -> u64 {
        if self.is_valid() {
            double_dice_winning_multiplier_percentage()[self.chosen_number - 2]
        } else {
            0
        }
    }

    /// The verdict on a delivered sample list, `None` where the list is rejected.
    pub open spec fn verdict(&self, results: Seq<u8>) -> Option<bool> {
        if results.len() == 2 && all_valid_dice(results) {
            Some(results[0] + results[1] == self.chosen_number)
        } else {
            None
        }
    }

    pub fn validate(&self) -> (r: Result<(), ContractError>)
        ensures
            self.is_valid() ==> r is Ok,
            !self.is_valid() ==> r is Err && r.unwrap_err()@ == (ContractErrorView::InvalidDiceNumber {
                reason: invalid_dice_number_text(),
            }),
    {
        if self.chosen_number < 2 || self.chosen_number > 12 {
            return Err(
                ContractError::InvalidDiceNumber { reason: "Invalid dice number".to_string() },
            );
        }
        Ok(())
    }

    pub fn get_winning_percentage(&self) -> (r: u64)
        ensures
            r == self.winning_percentage(),
            self.chosen_number == 2 || self.chosen_number == 12 ==> r == 300,
            self.chosen_number == 3 || self.chosen_number == 11 ==> r == 270,
            self.chosen_number == 4 || self.chosen_number == 10 ==> r == 240,
            self.chosen_number == 5 || self.chosen_number == 9 ==> r == 200,
            self.chosen_number == 6 || self.chosen_number == 8 ==> r == 180,
            self.chosen_number == 7 ==> r == 150,
            !self.is_valid() ==> r == 0,
    {
        if self.chosen_number < 2 || self.chosen_number > 12 {
            return 0u64;
        }
        let table: [u64; 11] = [300, 270, 240, 200, 180, 150, 180, 200, 240, 270, 300];
        table[(self.chosen_number - 2) as usize]
    }

    pub fn get_number_of_requests(&self) -> (r: u64)
        ensures
            r == 2,
    {
        2u64
    }

    pub fn check_win(&self, results: &Vec<u8>) -> (r: Result<bool, ContractError>)
        ensures
            match self.verdict(results@) {
                Some(win) => r == Ok::<bool, ContractError>(win),
                None => r is Err && r.unwrap_err()@ == (ContractErrorView::InvalidDiceResults {
                    reason: invalid_dice_result_text(),
                }),
            },
    {
        if results.len() != 2 {
            return Err(
                ContractError::InvalidDiceResults { reason: "Invalid dice result".to_string() },
            );
        }
        let mut i: usize = 0;
        while i < results.len()
            invariant
                i <= results.len(),
                forall|j: int| 0 <= j < i ==> valid_die(#[trigger] results@[j]),
            decreases results.len() - i,
        {
            if results[i] < 1 || results[i] > 6 {
                return Err(
                    ContractError::InvalidDiceResults { reason: "Invalid dice result".to_string() },
                );
            }
            i += 1;
        }
        Ok(results[0] + results[1] == self.chosen_number)
    }
}

/// An odd number of dice is rolled; the bettor wins when more of them show
/// above three than show three or below.
#[derive(Debug, Clone, Copy, PartialEq, Eq, Structural)]
pub struct HighLowGame {
    pub dice_number: u8,
}

impl HighLowGame {
    pub open spec fn is_valid(&self) -> bool {
        self.dice_number >= 1 && self.dice_number % 2 == 1
    }

    /// What a rejected sample list is rejected with, `None` where it is judged.
    pub open spec fn rejection(&self, results: Seq<u8>) -> Option<Seq<char>> {
        if results.len() != self.dice_number {
            Some(dice_count_mismatch_text())
        } else if !all_valid_dice(results) {
            Some(invalid_dice_result_text())
        } else {
            None
        }
    }

    /// The verdict on a delivered sample list, `None` where the list is rejected.
    pub open spec fn verdict(&self, results: Seq<u8>) -> Option<bool> {
        if self.rejection(results) is None {
            Some(
                count_high(results, results.len() as int) > results.len() - count_high(
                    results,
                    results.len() as int,
                ),
            )
        } else {
            None
        }
    }

    pub fn validate(&self) -> (r: Result<(), ContractError>)
        ensures
            self.is_valid() ==> r is Ok,
            !self.is_valid() ==> r is Err && r.unwrap_err()@ == (ContractErrorView::InvalidDiceNumber {
                reason: invalid_dice_number_text(),
            }),
    {
        if self.dice_number < 1 || self.dice_number % 2 == 0 {
            return Err(
                ContractError::InvalidDiceNumber { reason: "Invalid dice number".to_string() },
            );
        }
        Ok(())
    }

    pub fn get_winning_percentage(&self) -> (r: u64)
        ensures
            r == HIGH_LOW_WINNING_PERCENTAGE,
    {
        HIGH_LOW_WINNING_PERCENTAGE
    }

    pub fn get_number_of_requests(&self) -> (r: u64)
        ensures
            r == self.dice_number,
    {
        self.dice_number as u64
    }

    pub fn check_win(&self, results: &Vec<u8>) -> (r: Result<bool, ContractError>)
        ensures
            match self.verdict(results@) {
                Some(win) => r == Ok::<bool, ContractError>(win),
                None => r is Err && r.unwrap_err()@ == (ContractErrorView::InvalidDiceResults {
                    reason: self.rejection(results@).unwrap(),
                }),
            },
    {
        let mut higher_than_3: u64 = 0;
        let mut lower_than_3: u64 = 0;
        if results.len() != self.dice_number as usize {
            return Err(
                ContractError::InvalidDiceResults {
                    reason: "The number of the dice requested is different from the ones received".to_string(),
                },
            );
        }
        let mut i: usize = 0;
        while i < results.len()
            invariant
                i <= results.len(),
                results.len() == self.dice_number,
                forall|j: int| 0 <= j < i ==> valid_die(#[trigger] results@[j]),
                higher_than_3 == count_high(results@, i as int),
                higher_than_3 + lower_than_3 == i,
            decreases results.len() - i,
        {
            if results[i] < 1 || results[i] > 6 {
                return Err(
                    ContractError::InvalidDiceResults { reason: "Invalid dice result".to_string() },
                );
            }
            if results[i] > 3 {
                higher_than_3 += 1;
            } else {
                lower_than_3 += 1;
            }
            i += 1;
        }
        Ok(higher_than_3 > lower_than_3)
    }
}

/// The game a wager is placed on.
#[derive(Debug, Clone, Copy, PartialEq, Eq, Structural)]
pub enum GameType {
    ExactNumber(ExactNumberGame),
    HighLow(HighLowGame),
}

/// Where a wager stands. `Requested` is the only state a wager can leave.
#[derive(Debug, Clone, Copy, PartialEq, Eq, Structural)]
pub enum GameStatus {
    Requested,
    Won,
    Lost,
    Error,
    Refunded,
}

impl GameType {
    /// The parameters are ones a wager may be placed with.
    pub open spec fn is_valid(&self) -> bool {
        match *self {
            GameType::ExactNumber(g) => g.is_valid(),
            GameType::HighLow(g) => g.is_valid(),
        }
    }

    /// Payout multiplier in percent: 300 pays three times the stake.
    pub open spec fn winning_percentage(&self) -> u64 {
        match *self {
            GameType::ExactNumber(g) => g.winning_percentage(),
            GameType::HighLow(_) => HIGH_LOW_WINNING_PERCENTAGE,
        }
    }

    /// How many samples the game is judged on.
    pub open spec fn number_of_requests(&self) -> u64 {
        match *self {
            GameType::ExactNumber(_) => 2,
            GameType::HighLow(g) => g.dice_number as u64,
        }
    }

    /// The verdict on a delivered sample list: whether the bettor won, or
    /// the reason for which the list is rejected.
    pub open spec fn judgement(&self, results: Seq<u8>) -> Result<bool, Seq<char>> {
        match *self {
            GameType::ExactNumber(g) => match g.verdict(results) {
                Some(win) => Ok(win),
                None => Err(invalid_dice_result_text()),
            },
            GameType::HighLow(g) => match g.verdict(results) {
                Some(win) => Ok(win),
                None => Err(g.rejection(results).unwrap()),
            },
        }
    }

    pub fn validate(&self) -> (r: Result<(), ContractError>)
        ensures
            self.is_valid() ==> r is Ok,
            !self.is_valid() ==> r is Err && r.unwrap_err()@ == (ContractErrorView::InvalidDiceNumber {
                reason: invalid_dice_number_text(),
            }),
    {
        match self {
            GameType::ExactNumber(g) => g.validate(),
            GameType::HighLow(g) => g.validate(),
        }
    }

    pub fn get_winning_percentage(&self) -> (r: u64)
        ensures
            r == self.winning_percentage(),
    {
        match self {
            GameType::ExactNumber(g) => g.get_winning_percentage(),
            GameType::HighLow(g) => g.get_winning_percentage(),
        }
    }

    pub fn get_number_of_requests(&self) -> (r: u64)
        ensures
            r == self.number_of_requests(),
    {
        match self {
            GameType::ExactNumber(g) => g.get_number_of_requests(),
            GameType::HighLow(g) => g.get_number_of_requests(),
        }
    }

    pub fn check_win(&self, results: &Vec<u8>) -> (r: Result<bool, ContractError>)
        ensures
            match self.judgement(results@) {
                Ok(win) => r == Ok::<bool, ContractError>(win),
                Err(reason) => r is Err && r.unwrap_err()@ == (
                ContractErrorView::InvalidDiceResults { reason }),
            },
    {
        match self {
            GameType::ExactNumber(g) => g.check_win(results),
            GameType::HighLow(g) => g.check_win(results),
        }
    }
}

/// One placed wager.
#[derive(Debug, PartialEq, Eq)]
pub struct GameRequest {
    pub id: u64,
    pub user_address: String,
    pub status: GameStatus,
    pub game_type: GameType,
    pub created_at: u64,
    pub updated_at: u64,
    pub bet_amount: u128,
    pub bet_currency: String,
    pub potential_winning_amount: u128,
    pub dice_results: Option<Vec<u8>>,
    pub error_message: Option<String>,
}

pub struct GameRequestView {
    pub id: u64,
    pub user_address: Seq<char>,
    pub status: GameStatus,
    pub game_type: GameType,
    pub created_at: u64,
    pub updated_at: u64,
    pub bet_amount: u128,
    pub bet_currency: Seq<char>,
    pub potential_winning_amount: u128,
    pub dice_results: Option<Seq<u8>>,
    pub error_message: Option<Seq<char>>,
}

/// The characters of a text that may be absent.
pub open spec fn text_view(t: Option<String>) -> Option<Seq<char>> {
    match t {
        Some(t) => Some(t@),
        None => None,
    }
}

/// The samples of a list that may be absent.
pub open spec fn dice_view(d: Option<Vec<u8>>) -> Option<Seq<u8>> {
    match d {
        Some(d) => Some(d@),
        None => None,
    }
}

impl View for GameRequest {
    type V = GameRequestView;

    open spec fn view(&self) -> GameRequestView {
        GameRequestView {
            id: self.id,
            user_address: self.user_address@,
            status: self.status,
            game_type: self.game_type,
            created_at: self.created_at,
            updated_at: self.updated_at,
            bet_amount: self.bet_amount,
            bet_currency: self.bet_currency@,
            potential_winning_amount: self.potential_winning_amount,
            dice_results: dice_view(self.dice_results),
            error_message: text_view(self.error_message),
        }
    }
}

impl GameRequestView {
    /// A wager awaits its samples exactly as long as it holds neither
    /// samples nor a failure reason.
    pub open spec fn wf(self) -> bool {
        self.status == GameStatus::Requested <==> (self.dice_results is None
            && self.error_message is None)
    }

    /// What the wager keeps in escrow: its stake while it is unresolved.
    pub open spec fn escrowed(self) -> nat {
        if self.status == GameStatus::Requested {
            self.bet_amount as nat
        } else {
            0
        }
    }

    /// The wager after a refund at `actual_time` for `reason`.
    pub open spec fn refunded(self, actual_time: u64, reason: Option<Seq<char>>) -> GameRequestView {
        GameRequestView {
            status: GameStatus::Refunded,
            updated_at: actual_time,
            error_message: reason,
            dice_results: None,
            ..self
        }
    }

    /// The wager after it was judged on `samples` at `actual_time`.
    pub open spec fn judged(self, actual_time: u64, won: bool, samples: Seq<u8>) -> GameRequestView {
        GameRequestView {
            status: if won {
                GameStatus::Won
            } else {
                GameStatus::Lost
            },
            updated_at: actual_time,
            error_message: None,
            dice_results: Some(samples),
            ..self
        }
    }

    /// The order that returns the stake to the bettor.
    pub open spec fn refund_transfer(self) -> TransferView {
        TransferView {
            recipient: self.user_address,
            token: crate::token::TokenView::Denom(self.bet_currency),
            amount: self.bet_amount,
        }
    }

    /// The order that pays the winnings to the bettor.
    pub open spec fn payout_transfer(self) -> TransferView {
        TransferView {
            recipient: self.user_address,
            token: crate::token::TokenView::Denom(self.bet_currency),
            amount: self.potential_winning_amount,
        }
    }
}

/// A copy of a text that may be absent.
pub fn clone_text(t: &Option<String>) -> (r: Option<String>)
    ensures
        text_view(r) == text_view(*t),
{
    match t {
        Some(t) => Some(t.clone()),
        None => None,
    }
}

/// A copy of a list of samples.
pub fn clone_dice(d: &Vec<u8>) -> (r: Vec<u8>)
    ensures
        r@ == d@,
{
    let mut r: Vec<u8> = Vec::new();
    let mut i: usize = 0;
    while i < d.len()
        invariant
            i <= d.len(),
            r@ == d@.subrange(0, i as int),
        decreases d.len() - i,
    {
        r.push(d[i]);
        assert(r@ =~= d@.subrange(0, i + 1));
        i += 1;
    }
    assert(d@.subrange(0, d.len() as int) =~= d@);
    r
}

impl Clone for GameRequest {
    fn clone(&self) -> (r: GameRequest)
        ensures
            r@ == self@,
    {
        let dice_results: Option<Vec<u8>> = match &self.dice_results {
            Some(d) => Some(clone_dice(d)),
            None => None,
        };
        GameRequest {
            id: self.id,
            user_address: self.user_address.clone(),
            status: self.status,
            game_type: self.game_type,
            created_at: self.created_at,
            updated_at: self.updated_at,
            bet_amount: self.bet_amount,
            bet_currency: self.bet_currency.clone(),
            potential_winning_amount: self.potential_winning_amount,
            dice_results,
            error_message: clone_text(&self.error_message),
        }
    }
}

impl GameRequest {
    /// Ends the wager by returning the stake: the status becomes `Refunded`,
    /// the samples are cleared, the reason is recorded, and the order that
    /// moves the stake back to the bettor is handed out.
    pub fn refund(&mut self, actual_time: u64, error_msg: Option<String>) -> (transfer: Transfer)
        ensures
            final(self)@ == old(self)@.refunded(actual_time, text_view(error_msg)),
            transfer@ == old(self)@.refund_transfer(),
    {
        self.status = GameStatus::Refunded;
        self.updated_at = actual_time;
        self.error_message = error_msg;
        self.dice_results = None;
        let token = Token::Denom(self.bet_currency.clone());
        token.transfer(&self.user_address, self.bet_amount)
    }
}

/// What the host tells a handler about the message in hand.
#[derive(Debug, PartialEq, Eq)]
pub struct ExecuteContext {
    /// Who sent the message.
    pub sender: String,
    /// The funds attached to it.
    pub funds: Vec<Coin>,
    /// The time of the current block, in seconds.
    pub block_time: u64,
}

/// What the host's collaborators answered when they were asked on behalf
/// of the message in hand.
#[derive(Debug, Clone, Copy, PartialEq, Eq, Structural)]
pub struct Querier {
    /// The contract's balance in the currency the message concerns: that
    /// of the wager for an answer of the provider, the token asked for
    /// in a withdrawal.
    pub contract_balance: u128,
    /// The price the randomness provider quotes for the dice a wager needs.
    pub randomness_price: u128,
    /// The provider's current prices.
    pub random_cw_config: RandomConfig,
}

/// The state of a contract that was just set up by `sender` with `msg`.
pub open spec fn instantiated(msg: InstantiateMsg, sender: Seq<char>) -> ContractStateView {
    ContractStateView {
        fee_percentage: msg.config.fee_percentage,
        random_cw_address: msg.config.random_cw_address@,
        accepted_denom: msg.config.accepted_denom@,
        operator: msg.config@.operator_or(sender),
        disabled: msg.config.disabled,
        min_bet: msg.config.min_bet,
        gas_limit: msg.config.gas_limit,
        random_config: None,
        current_id: 0,
        not_resolved_bet_amount: 0,
        games: Seq::empty(),
        user_games: Seq::empty(),
    }
}

impl ExecuteContext {
    /// Sets the contract up: the configuration is put in force, with the
    /// sender as operator where it names none; no wager is placed and
    /// nothing is in escrow.
    pub fn instantiate(&self, msg: InstantiateMsg) -> (state: ContractState)
        ensures
            state@ == instantiated(msg, self.sender@),
            state@.wf(),
    {
        let operator: String = match &msg.config.operator {
            Some(o) => o.clone(),
            None => self.sender.clone(),
        };
        let state = ContractState {
            fee_percentage: msg.config.fee_percentage,
            random_cw_address: msg.config.random_cw_address.clone(),
            accepted_denom: msg.config.accepted_denom.clone(),
            operator,
            disabled: msg.config.disabled,
            min_bet: msg.config.min_bet,
            gas_limit: msg.config.gas_limit,
            random_config: None,
            current_id: 0,
            not_resolved_bet_amount: 0,
            games: Vec::new(),
            user_games: Vec::new(),
        };
        assert(state@.games =~= Seq::empty());
        assert(state@.user_games =~= Seq::empty());
        state
    }
}

} // verus!
