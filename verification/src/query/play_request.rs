use crate::responses::QueryPlayResponse;
use crate::storage::ContractState;
use vstd::prelude::*;

verus! {

/// The wager with the given id, if one was placed.
pub fn query_game(state: &ContractState, id: u64) -> (r: Option<QueryPlayResponse>)
    ensures
        match state@.game(id) {
            Some(game) => r is Some && r.unwrap().0@ == game,
            None => r is None,
        },
{
    if id < state.games.len() as u64 {
        Some(QueryPlayResponse(state.games[id as usize].clone()))
    } else {
        None
    }
}

} // verus!
