use crate::contract::reply_rejection;
use crate::error::ContractErrorView;
use crate::execute::play_request::{appended, placed_wager, play_rejection};
use crate::execute::receive_randomness::{
    delivered_dice, lemma_resolved_wf, not_enough_balance_text, not_requested_text, outcome_of,
    receive_rejection, Outcome,
};
use crate::msg::JobResult;
use crate::state::{GameRequestView, GameStatus, GameType};
use crate::storage::{lemma_escrow_push, ContractStateView};
use crate::token::Coin;
use vstd::prelude::*;

verus! {

/// A message as the contract sees it, with what the host reports beside it.
pub enum Message {
    /// A wager is placed.
    Play {
        sender: Seq<char>,
        funds: Seq<Coin>,
        game_type: GameType,
        randomness_price: u128,
        block_time: u64,
    },
    /// The randomness provider answers a request.
    Receive {
        sender: Seq<char>,
        id: u64,
        results: Seq<JobResult>,
        contract_balance: u128,
        block_time: u64,
    },
    /// The messaging layer reports that a request failed.
    Failure { id: u64, text: Seq<char>, block_time: u64 },
    /// Any message that concerns no wager: a change of configuration, a
    /// withdrawal, a query.
    Other,
}

/// `post` is a state the contract may be in once it has handled `message`
/// in the state `pre`. A message that is turned away changes nothing; one
/// that concerns no wager leaves the wagers and the escrow total alone.
pub open spec fn handled(pre: ContractStateView, message: Message, post: ContractStateView) -> bool {
    match message {
        Message::Play { sender, funds, game_type, randomness_price, block_time } => {
            if play_rejection(pre, funds, game_type, randomness_price) is Some {
                post == pre
            } else {
                let wager = placed_wager(
                    pre,
                    sender,
                    funds,
                    game_type,
                    randomness_price,
                    block_time,
                );
                &&& post == (ContractStateView {
                    games: pre.games.push(wager),
                    current_id: (pre.current_id + 1) as u64,
                    not_resolved_bet_amount: (pre.not_resolved_bet_amount
                        + wager.bet_amount) as u128,
                    user_games: post.user_games,
                    ..pre
                })
                &&& forall|other: Seq<char>|
                    #[trigger] post.games_of(other) == if other == sender {
                        Some(appended(pre.games_of(other), pre.current_id))
                    } else {
                        pre.games_of(other)
                    }
            }
        },
        Message::Receive { sender, id, results, contract_balance, block_time } => {
            if receive_rejection(pre, sender, id, contract_balance) is Some {
                post == pre
            } else {
                let game = pre.games[id as int];
                let outcome = outcome_of(
                    game.game_type,
                    game.potential_winning_amount,
                    results,
                    (contract_balance - pre.not_resolved_bet_amount) as u128,
                );
                post == pre.resolved(id, outcome.apply(game, block_time))
            }
        },
        Message::Failure { id, text, block_time } => {
            if reply_rejection(pre, id) is Some {
                post == pre
            } else {
                post == pre.resolved(id, pre.games[id as int].refunded(block_time, Some(text)))
            }
        },
        Message::Other => {
            &&& post.games == pre.games
            &&& post.user_games == pre.user_games
            &&& post.current_id == pre.current_id
            &&& post.not_resolved_bet_amount == pre.not_resolved_bet_amount
        },
    }
}

/// However a wager ends, it ends: the record that an outcome leaves is
/// resolved, and holds samples or a failure reason accordingly.
pub proof fn lemma_outcome_is_terminal(outcome: Outcome, game: GameRequestView, block_time: u64)
    ensures
        outcome.apply(game, block_time).status == outcome.status(),
        outcome.apply(game, block_time).status != GameStatus::Requested,
        outcome.apply(game, block_time).wf(),
        outcome.apply(game, block_time).id == game.id,
        outcome.apply(game, block_time).bet_amount == game.bet_amount,
        outcome.apply(game, block_time).potential_winning_amount == game.potential_winning_amount,
{
}

/// Handling one message keeps the wagers numbered and the escrow total
/// equal to the stakes of the unresolved wagers.
pub proof fn lemma_handled_keeps_escrow(
    pre: ContractStateView,
    message: Message,
    post: ContractStateView,
)
    requires
        pre.wagers_wf(),
        handled(pre, message, post),
    ensures
        post.wagers_wf(),
{
    match message {
        Message::Play { sender, funds, game_type, randomness_price, block_time } => {
            if play_rejection(pre, funds, game_type, randomness_price) is None {
                let wager = placed_wager(
                    pre,
                    sender,
                    funds,
                    game_type,
                    randomness_price,
                    block_time,
                );
                lemma_escrow_push(pre.games, wager);
            }
        },
        Message::Receive { sender, id, results, contract_balance, block_time } => {
            if receive_rejection(pre, sender, id, contract_balance) is None {
                let game = pre.games[id as int];
                let outcome = outcome_of(
                    game.game_type,
                    game.potential_winning_amount,
                    results,
                    (contract_balance - pre.not_resolved_bet_amount) as u128,
                );
                lemma_outcome_is_terminal(outcome, game, block_time);
                lemma_resolved_wf(pre, id, outcome.apply(game, block_time));
            }
        },
        Message::Failure { id, text, block_time } => {
            if reply_rejection(pre, id) is None {
                lemma_resolved_wf(pre, id, pre.games[id as int].refunded(block_time, Some(text)));
            }
        },
        Message::Other => {},
    }
}

/// Escrow invariant. Along every sequence of messages, handled one after
/// the other from a state in which the escrow total equals the stakes of
/// the unresolved wagers, it equals them after each message.
pub proof fn lemma_escrow_invariant(states: Seq<ContractStateView>, messages: Seq<Message>)
    requires
        states.len() == messages.len() + 1,
        states[0].wagers_wf(),
        forall|i: int|
            0 <= i < messages.len() ==> handled(states[i], #[trigger] messages[i], states[i + 1]),
    ensures
        forall|i: int| 0 <= i < states.len() ==> (#[trigger] states[i]).escrow_balanced(),
        forall|i: int| 0 <= i < states.len() ==> (#[trigger] states[i]).wagers_wf(),
    decreases messages.len(),
{
    if messages.len() > 0 {
        let n = messages.len() - 1;
        assert forall|i: int| 0 <= i < messages.drop_last().len() implies handled(
            states.drop_last()[i],
            #[trigger] messages.drop_last()[i],
            states.drop_last()[i + 1],
        ) by {
            assert(handled(states[i], messages[i], states[i + 1]));
        }
        lemma_escrow_invariant(states.drop_last(), messages.drop_last());
        assert(states.drop_last()[n].wagers_wf());
        assert(handled(states[n], messages[n], states[n + 1]));
        lemma_handled_keeps_escrow(states[n], messages[n], states[n + 1]);
        assert forall|i: int| 0 <= i < states.len() implies (#[trigger] states[i]).wagers_wf() by {
            if i < states.len() - 1 {
                assert(states.drop_last()[i].wagers_wf());
            }
        }
    }
}

/// The bettors' lists only grow: whatever message is handled, the list a
/// bettor had is the beginning of the list the bettor has afterwards.
pub proof fn lemma_index_is_append_only(
    pre: ContractStateView,
    message: Message,
    post: ContractStateView,
    user: Seq<char>,
)
    requires
        handled(pre, message, post),
        pre.games_of(user) is Some,
    ensures
        post.games_of(user) is Some,
        pre.games_of(user).unwrap().is_prefix_of(post.games_of(user).unwrap()),
{
    let before = pre.games_of(user).unwrap();
    match message {
        Message::Play { sender, funds, game_type, randomness_price, .. } => {
            if play_rejection(pre, funds, game_type, randomness_price) is None {
                assert(post.games_of(user) == if user == sender {
                    Some(appended(pre.games_of(user), pre.current_id))
                } else {
                    pre.games_of(user)
                });
                if user == sender {
                    assert(before.is_prefix_of(before.push(pre.current_id)));
                }
            }
        },
        _ => {},
    }
}

/// Single resolution. Once a wager has left `Requested`, an answer from the
/// randomness provider and a report of failure for its id are both turned
/// away with `InvalidGameStatus`, and handling them changes nothing.
pub proof fn lemma_single_resolution(
    state: ContractStateView,
    id: u64,
    contract_balance: u128,
    results: Seq<JobResult>,
    text: Seq<char>,
    block_time: u64,
    post: ContractStateView,
)
    requires
        state.game(id) is Some,
        state.game(id).unwrap().status != GameStatus::Requested,
    ensures
        receive_rejection(state, state.random_cw_address, id, contract_balance) == Some(
            ContractErrorView::InvalidGameStatus { reason: not_requested_text() },
        ),
        reply_rejection(state, id) == Some(
            ContractErrorView::InvalidGameStatus { reason: not_requested_text() },
        ),
        handled(
            state,
            Message::Receive {
                sender: state.random_cw_address,
                id,
                results,
                contract_balance,
                block_time,
            },
            post,
        ) ==> post == state,
        handled(state, Message::Failure { id, text, block_time }, post) ==> post == state,
{
}

/// A resolved wager is never touched again: whatever message is handled,
/// the record of a wager that has left `Requested` stays as it is.
pub proof fn lemma_resolution_is_final(
    pre: ContractStateView,
    message: Message,
    post: ContractStateView,
    id: u64,
)
    requires
        handled(pre, message, post),
        pre.game(id) is Some,
        pre.game(id).unwrap().status != GameStatus::Requested,
    ensures
        post.game(id) == pre.game(id),
{
}

/// Solvency. A wager is won exactly when the dice win and the balance that
/// is not in escrow covers the payout; winning dice that it does not cover
/// end in a refund. The winnings are transferred only for a wager that is
/// won, and a refund transfers the stake.
pub proof fn lemma_solvency(game: GameRequestView, results: Seq<JobResult>, usable_balance: u128)
    ensures
        ({
            let outcome = outcome_of(
                game.game_type,
                game.potential_winning_amount,
                results,
                usable_balance,
            );
            let dice_win = delivered_dice(results) is Some && game.game_type.judgement(
                delivered_dice(results).unwrap(),
            ) == Ok::<bool, Seq<char>>(true);
            &&& outcome is Won <==> dice_win && usable_balance >= game.potential_winning_amount
            &&& dice_win && usable_balance < game.potential_winning_amount ==> outcome == (
            Outcome::Refunded { reason: not_enough_balance_text() })
            &&& outcome is Won ==> outcome.transfer(game) == Some(game.payout_transfer())
            &&& outcome is Refunded ==> outcome.transfer(game) == Some(game.refund_transfer())
            &&& outcome is Lost ==> outcome.transfer(game) is None
        }),
{
}

} // verus!
