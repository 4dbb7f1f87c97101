use crate::error::{invalid_dice_number_text, ContractError, ContractErrorView};
use crate::lifecycle::{handled, Message};
use crate::math::{add_u128, mul_ratio, mul_ratio_u128, sub_u128};
use crate::msg::PlayRequestMsg;
use crate::responses::{PlayResponse, PlayResponseView, RandomnessRequest, RandomnessRequestView};
use crate::state::{ExecuteContext, GameRequest, GameRequestView, GameStatus, GameType};
use crate::storage::{
    ids_below, index_below, lemma_escrow_push, ContractState, ContractStateView, UserGamesView,
};
use crate::token::Coin;
use vstd::prelude::*;

verus! {

/// The lowest face of a die.
pub const DICE_MIN: u8 = 1;

/// The highest face of a die.
pub const DICE_MAX: u8 = 6;

/// What a stake pays if the wager wins: the stake times the game's
/// multiplier, less the fee on that product; each step is floored. An error
/// where a step leaves 128 bits, or where the fee exceeds what it is taken from.
pub open spec fn potential_winning(
    bet_amount: u128,
    winning_percentage: u64,
    fee_percentage: u64,
) -> Result<u128, ContractError> {
    match mul_ratio(bet_amount, winning_percentage as u128, 100) {
        Err(e) => Err(e),
        Ok(gross) => match mul_ratio(gross, fee_percentage as u128, 100) {
            Err(e) => Err(e),
            Ok(fee) => if fee > gross {
                Err(ContractError::Underflow {  })
            } else {
                Ok((gross - fee) as u128)
            },
        },
    }
}

/// Computes [`potential_winning`].
pub fn compute_potential_winning_amount(
    bet_amount: u128,
    winning_percentage: u64,
    fee_percentage: u64,
) -> (r: Result<u128, ContractError>)
    ensures
        r == potential_winning(bet_amount, winning_percentage, fee_percentage),
{
    let gross: u128 = mul_ratio_u128(bet_amount, winning_percentage as u128, 100u128)?;
    let fee_retained: u128 = mul_ratio_u128(gross, fee_percentage as u128, 100u128)?;
    sub_u128(gross, fee_retained)
}

/// The least amount a wager must bring: the configured minimum, or the
/// price of the randomness if that is more.
pub open spec fn minimum_required(min_bet: u128, randomness_price: u128) -> u128 {
    if min_bet >= randomness_price {
        min_bet
    } else {
        randomness_price
    }
}

/// The first coin attached is of the accepted denomination and at least
/// the minimum.
pub open spec fn funds_cover(funds: Seq<Coin>, accepted_denom: Seq<char>, minimum: u128) -> bool {
    funds.len() > 0 && funds[0].denom@ == accepted_denom && funds[0].amount >= minimum
}

/// The amount of the first coin attached, zero where none is.
pub open spec fn funds_available(funds: Seq<Coin>) -> u128 {
    if funds.len() > 0 {
        funds[0].amount
    } else {
        0
    }
}

/// Why a wager is turned away, if it is. The conditions are tried in
/// this order: the contract is disabled; no price configuration of the
/// randomness provider is cached; the game's parameters are invalid; the
/// attached funds do not cover the minimum; the payout cannot be computed;
/// the id counter or the escrow total is exhausted.
pub open spec fn play_rejection(
    state: ContractStateView,
    funds: Seq<Coin>,
    game_type: GameType,
    randomness_price: u128,
) -> Option<ContractErrorView> {
    let minimum = minimum_required(state.min_bet, randomness_price);
    if state.disabled {
        Some(ContractErrorView::DisabledError)
    } else if state.random_config is None {
        Some(ContractErrorView::RandomConfigNotSet)
    } else if !game_type.is_valid() {
        Some(ContractErrorView::InvalidDiceNumber { reason: invalid_dice_number_text() })
    } else if !funds_cover(funds, state.accepted_denom, minimum) {
        Some(
            ContractErrorView::InsufficientFunds {
                denom_requested: state.accepted_denom,
                requested: minimum,
                available: funds_available(funds),
            },
        )
    } else {
        let bet_amount = (funds[0].amount - randomness_price) as u128;
        match potential_winning(bet_amount, game_type.winning_percentage(), state.fee_percentage) {
            Err(e) => Some(e@),
            Ok(_) => if state.current_id == u64::MAX || state.not_resolved_bet_amount + bet_amount
                > u128::MAX {
                Some(ContractErrorView::Overflow)
            } else {
                None
            },
        }
    }
}

/// The wager that is recorded when a placement is accepted: the stake is
/// what was attached less the price of the randomness.
pub open spec fn placed_wager(
    state: ContractStateView,
    sender: Seq<char>,
    funds: Seq<Coin>,
    game_type: GameType,
    randomness_price: u128,
    block_time: u64,
) -> GameRequestView {
    let bet_amount = (funds[0].amount - randomness_price) as u128;
    GameRequestView {
        id: state.current_id,
        user_address: sender,
        status: GameStatus::Requested,
        game_type,
        created_at: block_time,
        updated_at: block_time,
        bet_amount,
        bet_currency: state.accepted_denom,
        potential_winning_amount: potential_winning(
            bet_amount,
            game_type.winning_percentage(),
            state.fee_percentage,
        ).unwrap(),
        dice_results: None,
        error_message: None,
    }
}

/// The request for dice that goes out with an accepted wager.
pub open spec fn dice_request(
    state: ContractStateView,
    game_type: GameType,
    randomness_price: u128,
) -> RandomnessRequestView {
    RandomnessRequestView {
        provider: state.random_cw_address,
        response_id: state.current_id,
        n: game_type.number_of_requests() as u16,
        min: DICE_MIN,
        max: DICE_MAX,
        gas_limit: state.gas_limit,
        payment_denom: state.accepted_denom,
        payment_amount: randomness_price,
    }
}

/// A bettor's list after a wager id was appended to it.
pub open spec fn appended(ids: Option<Seq<u64>>, id: u64) -> Seq<u64> {
    match ids {
        Some(ids) => ids.push(id),
        None => seq![id],
    }
}

/// Lists that name wagers among the first `n` do so among the first `m >= n`.
pub proof fn lemma_index_below_grows(index: Seq<UserGamesView>, n: nat, m: nat)
    requires
        index_below(index, n),
        n <= m,
    ensures
        index_below(index, m),
{
    assert forall|e: int| 0 <= e < index.len() implies ids_below(
        (#[trigger] index[e]).game_ids,
        m,
    ) by {
        assert(ids_below(index[e].game_ids, n));
    }
}

/// What placing the wager `msg` in the state `pre` comes to: the result
/// `r` and the state `post`. The wager is turned away, and nothing changes,
/// in the cases of [`play_rejection`]. Otherwise [`placed_wager`] is recorded
/// under the next id, the id is appended to the bettor's list, the stake
/// enters the escrow total, and the response carries the request to send
/// to the provider.
pub open spec fn wager_placed(
    pre: ContractStateView,
    ctx: ExecuteContext,
    msg: PlayRequestMsg,
    randomness_price: u128,
    r: Result<PlayResponse, ContractError>,
    post: ContractStateView,
) -> bool {
    match play_rejection(pre, ctx.funds@, msg.game_type, randomness_price) {
        Some(e) => r is Err && r.unwrap_err()@ == e && post == pre,
        None => {
            let wager = placed_wager(
                pre,
                ctx.sender@,
                ctx.funds@,
                msg.game_type,
                randomness_price,
                ctx.block_time,
            );
            &&& r is Ok
            &&& r.unwrap()@ == (PlayResponseView {
                game_id: pre.current_id,
                potential_winning_amount: wager.potential_winning_amount,
                request: dice_request(pre, msg.game_type, randomness_price),
            })
            &&& post == (ContractStateView {
                games: pre.games.push(wager),
                current_id: (pre.current_id + 1) as u64,
                not_resolved_bet_amount: (pre.not_resolved_bet_amount + wager.bet_amount) as u128,
                user_games: post.user_games,
                ..pre
            })
            &&& forall|other: Seq<char>|
                #[trigger] post.games_of(other) == if other == ctx.sender@ {
                    Some(appended(pre.games_of(other), pre.current_id))
                } else {
                    pre.games_of(other)
                }
        },
    }
}

/// Places a wager with the funds attached to the message.
///
/// `randomness_price` is what the randomness provider charges for the dice
/// this wager needs. What the call comes to is stated by [`wager_placed`].
pub fn exec_play_request(
    state: &mut ContractState,
    ctx: &ExecuteContext,
    play_req_msg: PlayRequestMsg,
    randomness_price: u128,
) -> (r: Result<PlayResponse, ContractError>)
    ensures
        wager_placed(old(state)@, *ctx, play_req_msg, randomness_price, r, final(state)@),
        handled(
            old(state)@,
            Message::Play {
                sender: ctx.sender@,
                funds: ctx.funds@,
                game_type: play_req_msg.game_type,
                randomness_price,
                block_time: ctx.block_time,
            },
            final(state)@,
        ),
        old(state)@.wf() ==> final(state)@.wf(),
{
    if state.disabled {
        return Err(ContractError::DisabledError {  });
    }
    if state.random_config.is_none() {
        return Err(ContractError::RandomConfigNotSet {  });
    }
    let game_id: u64 = state.current_id;
    let game_type: GameType = play_req_msg.game_type;
    game_type.validate()?;
    let winning_percentage: u64 = game_type.get_winning_percentage();
    let number_of_requests: u64 = game_type.get_number_of_requests();
    let minimum_bet_amount_needed: u128 = if state.min_bet >= randomness_price {
        state.min_bet
    } else {
        randomness_price
    };
    if ctx.funds.len() == 0 || ctx.funds[0].denom != state.accepted_denom || ctx.funds[0].amount
        < minimum_bet_amount_needed {
        let available: u128 = if ctx.funds.len() > 0 {
            ctx.funds[0].amount
        } else {
            0
        };
        return Err(
            ContractError::InsufficientFunds {
                denom_requested: state.accepted_denom.clone(),
                requested: minimum_bet_amount_needed,
                available,
            },
        );
    }
    let sent_amount: u128 = ctx.funds[0].amount;
    let bet_amount: u128 = sub_u128(sent_amount, randomness_price)?;
    let potential_winning_amount: u128 = compute_potential_winning_amount(
        bet_amount,
        winning_percentage,
        state.fee_percentage,
    )?;
    if game_id == u64::MAX {
        return Err(ContractError::Overflow {  });
    }
    let escrow: u128 = add_u128(state.not_resolved_bet_amount, bet_amount)?;
    let game_request = GameRequest {
        id: game_id,
        user_address: ctx.sender.clone(),
        status: GameStatus::Requested,
        game_type,
        created_at: ctx.block_time,
        updated_at: ctx.block_time,
        bet_amount,
        bet_currency: state.accepted_denom.clone(),
        potential_winning_amount,
        dice_results: None,
        error_message: None,
    };
    let response = PlayResponse {
        game_id,
        potential_winning_amount,
        request: RandomnessRequest {
            provider: state.random_cw_address.clone(),
            response_id: game_id,
            n: number_of_requests as u16,
            min: DICE_MIN,
            max: DICE_MAX,
            gas_limit: state.gas_limit,
            payment: Coin { denom: state.accepted_denom.clone(), amount: randomness_price },
        },
    };
    state.record_user_game(&ctx.sender, game_id);
    let ghost recorded = state@;
    proof {
        lemma_escrow_push(old(state)@.games, game_request@);
        if old(state)@.wf() {
            lemma_index_below_grows(
                old(state)@.user_games,
                old(state)@.games.len(),
                old(state)@.games.len() + 1,
            );
        }
    }
    state.games.push(game_request);
    state.current_id = game_id + 1;
    state.not_resolved_bet_amount = escrow;
    assert(state@.games =~= old(state)@.games.push(game_request@));
    assert forall|other: Seq<char>|
        #[trigger] state@.games_of(other) == if other == ctx.sender@ {
            Some(appended(old(state)@.games_of(other), old(state)@.current_id))
        } else {
            old(state)@.games_of(other)
        } by {
        assert(state@.games_of(other) == recorded.games_of(other));
    }
    Ok(response)
}

} // verus!
