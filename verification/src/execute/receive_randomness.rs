use crate::error::{ContractError, ContractErrorView};
use crate::lifecycle::{handled, Message};
use crate::math::sub_u128;
use crate::msg::{JobResult, ReceiveRandomnessMsg};
use crate::responses::{SettleResponse, SettleResponseView};
use crate::state::{ExecuteContext, GameRequest, GameRequestView, GameStatus, GameType};
use crate::storage::{lemma_escrow_update, ContractState, ContractStateView};
use crate::text::{decimal_digits, decimal_string};
use crate::token::{Token, Transfer, TransferView};
use vstd::prelude::*;
use vstd::string::StringExecFns;

verus! {

/// Reason recorded when the provider's answer is not one list of dice.
pub open spec fn invalid_randomness_text() -> Seq<char> {
    "Invalid Randomness Results"@
}

/// Reason recorded when a win cannot be paid from the usable balance.
pub open spec fn not_enough_balance_text() -> Seq<char> {
    "Not enough balance -> refunding"@
}

/// Reason given to a sender other than the randomness provider.
pub open spec fn only_random_cw_text() -> Seq<char> {
    "Only random cw address can call this"@
}

/// Reason given for a wager that is already resolved.
pub open spec fn not_requested_text() -> Seq<char> {
    "Game status is not in Requested State"@
}

/// Reason given for an id under which no wager was placed.
pub open spec fn game_not_found_text(id: nat) -> Seq<char> {
    "Game "@ + decimal_digits(id) + " for  not found"@
}

/// The dice of an answer: it must hold exactly one list, and that a list
/// of dice.
pub open spec fn delivered_dice(results: Seq<JobResult>) -> Option<Seq<u8>> {
    if results.len() == 1 {
        match results[0] {
            JobResult::U8(dice) => Some(dice@),
            _ => None,
        }
    } else {
        None
    }
}

/// How a wager ends.
pub enum Outcome {
    Won { dice: Seq<u8> },
    Lost { dice: Seq<u8> },
    Refunded { reason: Seq<char> },
}

/// How a wager on `game_type` that would pay `potential_winning_amount`
/// ends on the answer `results`, with `usable_balance` free to pay it from.
/// A win that the usable balance does not cover is refunded, and so is every
/// answer the game cannot be judged on.
pub open spec fn outcome_of(
    game_type: GameType,
    potential_winning_amount: u128,
    results: Seq<JobResult>,
    usable_balance: u128,
) -> Outcome {
    match delivered_dice(results) {
        None => Outcome::Refunded { reason: invalid_randomness_text() },
        Some(dice) => match game_type.judgement(dice) {
            Err(reason) => Outcome::Refunded {
                reason: (ContractErrorView::InvalidDiceResults { reason }).text(),
            },
            Ok(true) => if usable_balance < potential_winning_amount {
                Outcome::Refunded { reason: not_enough_balance_text() }
            } else {
                Outcome::Won { dice }
            },
            Ok(false) => Outcome::Lost { dice },
        },
    }
}

impl Outcome {
    pub open spec fn status(self) -> GameStatus {
        match self {
            Outcome::Won { .. } => GameStatus::Won,
            Outcome::Lost { .. } => GameStatus::Lost,
            Outcome::Refunded { .. } => GameStatus::Refunded,
        }
    }

    /// The wager once it has ended this way at `actual_time`.
    pub open spec fn apply(self, game: GameRequestView, actual_time: u64) -> GameRequestView {
        match self {
            Outcome::Won { dice } => game.judged(actual_time, true, dice),
            Outcome::Lost { dice } => game.judged(actual_time, false, dice),
            Outcome::Refunded { reason } => game.refunded(actual_time, Some(reason)),
        }
    }

    /// The transfer this ending calls for: the winnings, nothing, or the stake.
    pub open spec fn transfer(self, game: GameRequestView) -> Option<TransferView> {
        match self {
            Outcome::Won { .. } => Some(game.payout_transfer()),
            Outcome::Lost { .. } => None,
            Outcome::Refunded { .. } => Some(game.refund_transfer()),
        }
    }
}

/// Settles one wager on the provider's answer: judges it, records how it
/// ended, and hands out the transfer that the ending calls for.
pub fn settle_game(
    game: &mut GameRequest,
    results: &Vec<JobResult>,
    usable_balance: u128,
    actual_time: u64,
) -> (transfer: Option<Transfer>)
    ensures
        ({
            let outcome = outcome_of(
                old(game).game_type,
                old(game).potential_winning_amount,
                results@,
                usable_balance,
            );
            &&& final(game)@ == outcome.apply(old(game)@, actual_time)
            &&& crate::token::transfer_view(transfer) == outcome.transfer(old(game)@)
        }),
{
    if results.len() != 1 {
        let t = game.refund(actual_time, Some(String::from_str("Invalid Randomness Results")));
        return Some(t);
    }
    match &results[0] {
        JobResult::U8(dice_results) => {
            match game.game_type.check_win(dice_results) {
                Err(err) => {
                    let t = game.refund(actual_time, Some(err.to_string()));
                    Some(t)
                },
                Ok(true) => {
                    if usable_balance < game.potential_winning_amount {
                        let t = game.refund(
                            actual_time,
                            Some(String::from_str("Not enough balance -> refunding")),
                        );
                        Some(t)
                    } else {
                        game.status = GameStatus::Won;
                        game.updated_at = actual_time;
                        game.dice_results = Some(crate::state::clone_dice(dice_results));
                        game.error_message = None;
                        let token = Token::Denom(game.bet_currency.clone());
                        Some(token.transfer(&game.user_address, game.potential_winning_amount))
                    }
                },
                Ok(false) => {
                    game.status = GameStatus::Lost;
                    game.updated_at = actual_time;
                    game.dice_results = Some(crate::state::clone_dice(dice_results));
                    game.error_message = None;
                    None
                },
            }
        },
        _ => {
            let t = game.refund(actual_time, Some(String::from_str("Invalid Randomness Results")));
            Some(t)
        },
    }
}

/// Why an answer of the provider is turned away, if it is: the sender is
/// not the provider, no wager has the id, the wager is already resolved, or
/// the ledger's figures do not admit the settlement (the balance is below
/// the escrow total, or the escrow total below the wager's stake).
pub open spec fn receive_rejection(
    state: ContractStateView,
    sender: Seq<char>,
    id: u64,
    contract_balance: u128,
) -> Option<ContractErrorView> {
    if sender != state.random_cw_address {
        Some(ContractErrorView::NotAuthorized { reason: only_random_cw_text() })
    } else if state.game(id) is None {
        Some(ContractErrorView::NotFound { reason: game_not_found_text(id as nat) })
    } else if state.game(id).unwrap().status != GameStatus::Requested {
        Some(ContractErrorView::InvalidGameStatus { reason: not_requested_text() })
    } else if contract_balance < state.not_resolved_bet_amount {
        Some(ContractErrorView::Underflow)
    } else if state.not_resolved_bet_amount < state.game(id).unwrap().bet_amount {
        Some(ContractErrorView::Underflow)
    } else {
        None
    }
}

impl ContractStateView {
    /// The state once the wager `id` has become `game` and left escrow.
    pub open spec fn resolved(self, id: u64, game: GameRequestView) -> ContractStateView {
        ContractStateView {
            games: self.games.update(id as int, game),
            not_resolved_bet_amount: (self.not_resolved_bet_amount
                - self.games[id as int].bet_amount) as u128,
            ..self
        }
    }
}

/// Resolving an unresolved wager keeps the state well formed.
pub proof fn lemma_resolved_wf(state: ContractStateView, id: u64, game: GameRequestView)
    requires
        state.wagers_wf(),
        id < state.games.len(),
        state.games[id as int].status == GameStatus::Requested,
        game.id == id,
        game.wf(),
        game.status != GameStatus::Requested,
    ensures
        state.not_resolved_bet_amount >= state.games[id as int].bet_amount,
        state.resolved(id, game).wagers_wf(),
        state.wf() ==> state.resolved(id, game).wf(),
{
    lemma_escrow_update(state.games, id as int, game);
    crate::storage::lemma_escrow_covers(state.games, id as int);
}

/// The failure text for an id under which no wager was placed.
pub fn game_not_found(id: u64) -> (r: ContractError)
    ensures
        r@ == (ContractErrorView::NotFound { reason: game_not_found_text(id as nat) }),
{
    let digits: String = decimal_string(id as u128);
    ContractError::NotFound {
        reason: String::from_str("Game ").concat(digits.as_str()).concat(" for  not found"),
    }
}

/// What handling the provider's answer `msg` in the state `pre` comes to:
/// the result `r` and the state `post`. The answer is turned away, and
/// nothing changes, in the cases of [`receive_rejection`]. Otherwise the
/// wager ends as [`outcome_of`] says, judged against the balance that is not
/// in escrow; its stake leaves the escrow total; and the response carries
/// the transfer to make.
pub open spec fn randomness_received(
    pre: ContractStateView,
    ctx: ExecuteContext,
    msg: ReceiveRandomnessMsg,
    contract_balance: u128,
    r: Result<SettleResponse, ContractError>,
    post: ContractStateView,
) -> bool {
    match receive_rejection(pre, ctx.sender@, msg.id, contract_balance) {
        Some(e) => r is Err && r.unwrap_err()@ == e && post == pre,
        None => {
            let game = pre.games[msg.id as int];
            let outcome = outcome_of(
                game.game_type,
                game.potential_winning_amount,
                msg.results@,
                (contract_balance - pre.not_resolved_bet_amount) as u128,
            );
            &&& r is Ok
            &&& r.unwrap()@ == (SettleResponseView {
                status: outcome.status(),
                game_id: msg.id,
                user_address: game.user_address,
                transfer: outcome.transfer(game),
            })
            &&& post == pre.resolved(msg.id, outcome.apply(game, ctx.block_time))
        },
    }
}

/// Handles the randomness provider's answer to a wager's request.
///
/// `contract_balance` is what the host ledger holds for the contract in the
/// wager's currency. What the call comes to is stated by
/// [`randomness_received`].
pub fn exec_handle_received_randomness(
    state: &mut ContractState,
    ctx: &ExecuteContext,
    received_randomness_msg: &ReceiveRandomnessMsg,
    contract_balance: u128,
) -> (r: Result<SettleResponse, ContractError>)
    ensures
        randomness_received(
            old(state)@,
            *ctx,
            *received_randomness_msg,
            contract_balance,
            r,
            final(state)@,
        ),
        handled(
            old(state)@,
            Message::Receive {
                sender: ctx.sender@,
                id: received_randomness_msg.id,
                results: received_randomness_msg.results@,
                contract_balance,
                block_time: ctx.block_time,
            },
            final(state)@,
        ),
        old(state)@.wf() ==> final(state)@.wf(),
{
    if ctx.sender != state.random_cw_address {
        return Err(
            ContractError::NotAuthorized {
                reason: String::from_str("Only random cw address can call this"),
            },
        );
    }
    let game_id: u64 = received_randomness_msg.id;
    if game_id >= state.games.len() as u64 {
        return Err(game_not_found(game_id));
    }
    let index: usize = game_id as usize;
    if state.games[index].status != GameStatus::Requested {
        return Err(
            ContractError::InvalidGameStatus {
                reason: String::from_str("Game status is not in Requested State"),
            },
        );
    }
    let not_resolved_bet_amount: u128 = state.not_resolved_bet_amount;
    let usable_balance: u128 = sub_u128(contract_balance, not_resolved_bet_amount)?;
    let remaining: u128 = sub_u128(not_resolved_bet_amount, state.games[index].bet_amount)?;
    let mut game_request: GameRequest = state.games[index].clone();
    let transfer: Option<Transfer> = settle_game(
        &mut game_request,
        &received_randomness_msg.results,
        usable_balance,
        ctx.block_time,
    );
    let response = SettleResponse {
        status: game_request.status,
        game_id,
        user_address: game_request.user_address.clone(),
        transfer,
    };
    proof {
        let game = old(state)@.games[game_id as int];
        if old(state)@.wf() {
            lemma_resolved_wf(old(state)@, game_id, game_request@);
        }
    }
    state.not_resolved_bet_amount = remaining;
    state.games.set(index, game_request);
    assert(state@.games =~= old(state)@.games.update(game_id as int, game_request@));
    Ok(response)
}

} // verus!
