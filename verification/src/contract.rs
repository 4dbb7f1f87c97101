use crate::error::{ContractError, ContractErrorView};
use crate::execute::receive_randomness::{
    game_not_found, game_not_found_text, lemma_resolved_wf, not_requested_text,
};
use crate::lifecycle::{handled, Message};
use crate::math::sub_u128;
use crate::execute::play_request::{exec_play_request, wager_placed};
use crate::execute::receive_randomness::{exec_handle_received_randomness, randomness_received};
use crate::execute::set_config::{config_set, exec_set_config};
use crate::execute::update_random_cw_cfg::{exec_fetch_random_cw_cfg, random_config_cached};
use crate::execute::withdraw::{exec_withdraw, withdrawn};
use crate::msg::{ExecuteMsg, QueryMsg, Reply};
use crate::query::config::query_config;
use crate::query::play_request::query_game;
use crate::query::user_games::{query_user_games, user_games_page};
use crate::responses::{QueryResponse, Response};
use crate::state::{ExecuteContext, GameRequest, GameStatus, Querier};
use crate::storage::{ContractState, ContractStateView};
use crate::token::Transfer;
use vstd::prelude::*;
use vstd::string::StringExecFns;

verus! {

/// What handling `msg` in the state `pre` comes to: what the handler of
/// the message's kind makes of it, answered in the response of that kind.
pub open spec fn executed(
    pre: ContractStateView,
    ctx: ExecuteContext,
    querier: Querier,
    msg: ExecuteMsg,
    r: Result<Response, ContractError>,
    post: ContractStateView,
) -> bool {
    match msg {
        ExecuteMsg::SetConfig(config) => match r {
            Ok(Response::ConfigSet) => config_set(pre, ctx, config, Ok(()), post),
            Err(e) => config_set(pre, ctx, config, Err(e), post),
            _ => false,
        },
        ExecuteMsg::PlayRequest(play) => match r {
            Ok(Response::Played(p)) => wager_placed(
                pre,
                ctx,
                play,
                querier.randomness_price,
                Ok(p),
                post,
            ),
            Err(e) => wager_placed(pre, ctx, play, querier.randomness_price, Err(e), post),
            _ => false,
        },
        ExecuteMsg::ReceiveRandomness(received) => match r {
            Ok(Response::Settled(s)) => randomness_received(
                pre,
                ctx,
                received,
                querier.contract_balance,
                Ok(s),
                post,
            ),
            Err(e) => randomness_received(
                pre,
                ctx,
                received,
                querier.contract_balance,
                Err(e),
                post,
            ),
            _ => false,
        },
        ExecuteMsg::FetchRandomCWConfig(_) => match r {
            Ok(Response::RandomConfigCached) => random_config_cached(
                pre,
                ctx,
                querier.random_cw_config,
                Ok(()),
                post,
            ),
            Err(e) => random_config_cached(pre, ctx, querier.random_cw_config, Err(e), post),
            _ => false,
        },
        ExecuteMsg::Withdraw(withdrawal) => post == pre && match r {
            Ok(Response::Withdrawn(w)) => withdrawn(
                pre,
                ctx,
                withdrawal,
                querier.contract_balance,
                Ok(w),
            ),
            Err(e) => withdrawn(pre, ctx, withdrawal, querier.contract_balance, Err(e)),
            _ => false,
        },
    }
}

/// Handles a message that changes the contract, as [`executed`] states.
pub fn execute(
    state: &mut ContractState,
    ctx: &ExecuteContext,
    querier: &Querier,
    msg: &ExecuteMsg,
) -> (r: Result<Response, ContractError>)
    ensures
        executed(old(state)@, *ctx, *querier, *msg, r, final(state)@),
        old(state)@.wf() ==> final(state)@.wf(),
{
    match msg {
        ExecuteMsg::SetConfig(config) => match exec_set_config(state, ctx, config) {
            Ok(_) => Ok(Response::ConfigSet),
            Err(e) => Err(e),
        },
        ExecuteMsg::PlayRequest(play_req_msg) => match exec_play_request(
            state,
            ctx,
            *play_req_msg,
            querier.randomness_price,
        ) {
            Ok(played) => Ok(Response::Played(played)),
            Err(e) => Err(e),
        },
        ExecuteMsg::ReceiveRandomness(received_randomness_msg) => {
            match exec_handle_received_randomness(
                state,
                ctx,
                received_randomness_msg,
                querier.contract_balance,
            ) {
                Ok(settled) => Ok(Response::Settled(settled)),
                Err(e) => Err(e),
            }
        },
        ExecuteMsg::FetchRandomCWConfig(_) => match exec_fetch_random_cw_cfg(
            state,
            ctx,
            querier.random_cw_config,
        ) {
            Ok(_) => Ok(Response::RandomConfigCached),
            Err(e) => Err(e),
        },
        ExecuteMsg::Withdraw(withdraw_msg) => match exec_withdraw(
            state,
            ctx,
            withdraw_msg,
            querier.contract_balance,
        ) {
            Ok(withdrawal) => Ok(Response::Withdrawn(withdrawal)),
            Err(e) => Err(e),
        },
    }
}

/// What asking `msg` of the state `state` comes to: the configuration in
/// force, the wager with the id if one was placed, or a page of a
/// bettor's wagers.
pub open spec fn queried(
    state: ContractStateView,
    msg: QueryMsg,
    r: Result<QueryResponse, ContractError>,
) -> bool {
    match msg {
        QueryMsg::Config {  } => match r {
            Ok(QueryResponse::Config(c)) => c.0@ == state.config(),
            _ => false,
        },
        QueryMsg::QueryGame { id } => match r {
            Ok(QueryResponse::Game(found)) => match state.game(id) {
                Some(game) => found is Some && found.unwrap().0@ == game,
                None => found is None,
            },
            _ => false,
        },
        QueryMsg::UserGamesQuery(page) => match r {
            Ok(QueryResponse::UserGames(p)) => user_games_page(state, page, Ok(p)),
            Err(e) => user_games_page(state, page, Err(e)),
            _ => false,
        },
    }
}

/// Answers a question, as [`queried`] states.
pub fn query(state: &ContractState, msg: &QueryMsg) -> (r: Result<QueryResponse, ContractError>)
    ensures
        queried(state@, *msg, r),
{
    match msg {
        QueryMsg::Config {  } => Ok(QueryResponse::Config(query_config(state))),
        QueryMsg::QueryGame { id } => Ok(QueryResponse::Game(query_game(state, *id))),
        QueryMsg::UserGamesQuery(user_games_query_msg) => match query_user_games(
            state,
            user_games_query_msg,
        ) {
            Ok(page) => Ok(QueryResponse::UserGames(page)),
            Err(e) => Err(e),
        },
    }
}

/// Why a reported failure is turned away, if it is: no wager has the id,
/// the wager is already resolved, or the escrow total is below its stake.
pub open spec fn reply_rejection(state: ContractStateView, id: u64) -> Option<ContractErrorView> {
    if state.game(id) is None {
        Some(ContractErrorView::NotFound { reason: game_not_found_text(id as nat) })
    } else if state.game(id).unwrap().status != GameStatus::Requested {
        Some(ContractErrorView::InvalidGameStatus { reason: not_requested_text() })
    } else if state.not_resolved_bet_amount < state.game(id).unwrap().bet_amount {
        Some(ContractErrorView::Underflow)
    } else {
        None
    }
}

/// Handles the messaging layer's report on a request for randomness.
///
/// A report of success changes nothing. A report of failure refunds the
/// wager the request was made for, with the failure's text as the reason:
/// the stake leaves the escrow total and the transfer that returns it is
/// handed out. The report is turned away, and nothing changes, in the cases
/// of [`reply_rejection`].
pub fn reply(state: &mut ContractState, block_time: u64, msg: Reply) -> (r: Result<
    Option<Transfer>,
    ContractError,
>)
    ensures
        match msg.result {
            Ok(_) => r is Ok && r.unwrap() is None && final(state)@ == old(state)@,
            Err(text) => match reply_rejection(old(state)@, msg.id) {
                Some(e) => r is Err && r.unwrap_err()@ == e && final(state)@ == old(state)@,
                None => {
                    let game = old(state)@.games[msg.id as int];
                    &&& r is Ok
                    &&& crate::token::transfer_view(r.unwrap()) == Some(game.refund_transfer())
                    &&& final(state)@ == old(state)@.resolved(
                        msg.id,
                        game.refunded(block_time, Some(text@)),
                    )
                },
            },
        },
        msg.result is Ok ==> handled(old(state)@, Message::Other, final(state)@),
        msg.result is Err ==> handled(
            old(state)@,
            Message::Failure { id: msg.id, text: msg.result.unwrap_err()@, block_time },
            final(state)@,
        ),
        old(state)@.wf() ==> final(state)@.wf(),
{
    let request_id: u64 = msg.id;
    match msg.result {
        Ok(_) => Ok(None),
        Err(text) => {
            if request_id >= state.games.len() as u64 {
                return Err(game_not_found(request_id));
            }
            let index: usize = request_id as usize;
            if state.games[index].status != GameStatus::Requested {
                return Err(
                    ContractError::InvalidGameStatus {
                        reason: String::from_str("Game status is not in Requested State"),
                    },
                );
            }
            let remaining: u128 = sub_u128(
                state.not_resolved_bet_amount,
                state.games[index].bet_amount,
            )?;
            let mut game_request: GameRequest = state.games[index].clone();
            let transfer: Transfer = game_request.refund(block_time, Some(text));
            proof {
                if old(state)@.wf() {
                    lemma_resolved_wf(old(state)@, request_id, game_request@);
                }
            }
            state.not_resolved_bet_amount = remaining;
            state.games.set(index, game_request);
            assert(state@.games =~= old(state)@.games.update(request_id as int, game_request@));
            Ok(Some(transfer))
        },
    }
}

} // verus!
