use crate::error::{ContractError, ContractErrorView};
use crate::execute::receive_randomness::{game_not_found, game_not_found_text};
use crate::msg::UserGamesQueryMsg;
use crate::responses::QueryUserGamesResponse;
use crate::state::{GameRequest, GameRequestView};
use crate::storage::{
    game_views, games_of, ids_below, index_below, ContractState, ContractStateView, UserGamesView,
};
use vstd::prelude::*;
use vstd::string::StringExecFns;

verus! {

/// The most wagers one page may hold.
pub const MAX_REQUEST_LIMIT: u8 = 30;

/// Reason given for a bettor who never placed a wager.
pub open spec fn no_games_text(user: Seq<char>) -> Seq<char> {
    "User "@ + user + " has not played any games"@
}

/// Where a page starts: at the cursor, or at the bettor's first wager.
pub open spec fn page_start(cursor: Option<usize>) -> nat {
    match cursor {
        Some(c) => c as nat,
        None => 0,
    }
}

/// Where a page that starts at `start` ends: `limit` wagers on, or at the
/// end of the list if that comes first.
pub open spec fn page_end(start: nat, limit: u8, len: nat) -> nat {
    if start + limit <= len {
        start + limit as nat
    } else {
        len
    }
}

/// The first id in `ids[from..to]` under which no wager is kept.
pub open spec fn first_missing(ids: Seq<u64>, placed: nat, from: int, to: int) -> Option<u64>
    decreases to - from,
{
    if from >= to {
        None
    } else if ids[from] >= placed {
        Some(ids[from])
    } else {
        first_missing(ids, placed, from + 1, to)
    }
}

/// Why a query for a page is turned away, if it is: the limit is above
/// the maximum, the bettor has no list, the cursor is behind the end of the
/// list, or the page names a wager that is not kept.
pub open spec fn user_games_rejection(
    state: ContractStateView,
    user: Seq<char>,
    cursor: Option<usize>,
    limit: u8,
) -> Option<ContractErrorView> {
    if limit > MAX_REQUEST_LIMIT {
        Some(ContractErrorView::TooManyRecords { limit: MAX_REQUEST_LIMIT })
    } else if state.games_of(user) is None {
        Some(ContractErrorView::NotFound { reason: no_games_text(user) })
    } else {
        let ids = state.games_of(user).unwrap();
        let start = page_start(cursor);
        let end = page_end(start, limit, ids.len());
        if cursor is Some && ids.len() <= start {
            Some(ContractErrorView::NotFound { reason: game_not_found_text(start) })
        } else {
            match first_missing(ids, state.games.len(), start as int, end as int) {
                Some(id) => Some(
                    ContractErrorView::NotFound { reason: game_not_found_text(id as nat) },
                ),
                None => None,
            }
        }
    }
}

/// The wagers of the page `ids[start..end]`.
pub open spec fn page_of(state: ContractStateView, ids: Seq<u64>, start: nat, end: nat) -> Seq<
    GameRequestView,
> {
    Seq::new((end - start) as nat, |k: int| state.games[ids[start + k] as int])
}

/// Lists that name wagers which exist miss none.
pub proof fn lemma_none_missing(ids: Seq<u64>, placed: nat, from: int, to: int)
    requires
        ids_below(ids, placed),
        0 <= from,
        to <= ids.len(),
    ensures
        first_missing(ids, placed, from, to) is None,
    decreases to - from,
{
    if from < to {
        lemma_none_missing(ids, placed, from + 1, to);
    }
}

/// In an index whose lists name existing wagers, so does each bettor's list.
pub proof fn lemma_games_of_below(index: Seq<UserGamesView>, user: Seq<char>, placed: nat)
    requires
        index_below(index, placed),
        games_of(index, user) is Some,
    ensures
        ids_below(games_of(index, user).unwrap(), placed),
    decreases index.len(),
{
    if index.len() > 0 {
        if index[0].user_address == user {
            assert(ids_below(index[0].game_ids, placed));
        } else {
            assert forall|e: int| 0 <= e < index.drop_first().len() implies ids_below(
                (#[trigger] index.drop_first()[e]).game_ids,
                placed,
            ) by {
                assert(ids_below(index[e + 1].game_ids, placed));
            }
            lemma_games_of_below(index.drop_first(), user, placed);
        }
    }
}

/// A page and the page that starts where it ends make up the page that
/// spans both: following the cursor neither skips a wager nor repeats one.
pub proof fn lemma_pages_join(
    state: ContractStateView,
    ids: Seq<u64>,
    start: nat,
    middle: nat,
    end: nat,
)
    requires
        start <= middle <= end,
    ensures
        page_of(state, ids, start, middle) + page_of(state, ids, middle, end) == page_of(
            state,
            ids,
            start,
            end,
        ),
{
    assert(page_of(state, ids, start, middle) + page_of(state, ids, middle, end) =~= page_of(
        state,
        ids,
        start,
        end,
    ));
}

/// A page holds at most `limit` wagers, ends inside the list, and has
/// a next cursor exactly when wagers are left behind it.
pub proof fn lemma_page_bounds(start: nat, limit: u8, len: nat)
    requires
        start <= len,
    ensures
        start <= page_end(start, limit, len) <= len,
        page_end(start, limit, len) - start <= limit,
        page_end(start, limit, len) < len <==> start + limit < len,
{
}

/// What a query for a page comes to. It is turned away in the cases of
/// [`user_games_rejection`]. Otherwise the page starts at the cursor and
/// holds `limit` wagers, or fewer at the end of the list; the next cursor is
/// where the page ends, and is absent when the page reaches the end of
/// the list.
pub open spec fn user_games_page(
    state: ContractStateView,
    msg: UserGamesQueryMsg,
    r: Result<Option<QueryUserGamesResponse>, ContractError>,
) -> bool {
    match user_games_rejection(state, msg.user_address@, msg.cursor, msg.limit) {
        Some(e) => r is Err && r.unwrap_err()@ == e,
        None => {
            let ids = state.games_of(msg.user_address@).unwrap();
            let start = page_start(msg.cursor);
            let end = page_end(start, msg.limit, ids.len());
            &&& r is Ok
            &&& r.unwrap() is Some
            &&& game_views(r.unwrap().unwrap().games@) == page_of(state, ids, start, end)
            &&& r.unwrap().unwrap().next_cursor == if end >= ids.len() {
                None
            } else {
                Some(end as u64)
            }
        },
    }
}

/// One page of a bettor's wagers, oldest first, as [`user_games_page`]
/// states. In a well-formed state a page never names a wager that is
/// not kept.
#[verifier::loop_isolation(false)]
pub fn query_user_games(state: &ContractState, msg: &UserGamesQueryMsg) -> (r: Result<
    Option<QueryUserGamesResponse>,
    ContractError,
>)
    ensures
        user_games_page(state@, *msg, r),
        state@.wf() && msg.limit <= MAX_REQUEST_LIMIT && state@.games_of(msg.user_address@) is Some
            && (msg.cursor is Some ==> page_start(msg.cursor) < state@.games_of(
            msg.user_address@,
        ).unwrap().len()) ==> r is Ok,
{
    if msg.limit > MAX_REQUEST_LIMIT {
        return Err(ContractError::TooManyRecords { limit: MAX_REQUEST_LIMIT });
    }
    let found: Option<usize> = state.find_user(&msg.user_address);
    let entry: usize = match found {
        Some(entry) => entry,
        None => {
            return Err(
                ContractError::NotFound {
                    reason: String::from_str("User ").concat(msg.user_address.as_str()).concat(
                        " has not played any games",
                    ),
                },
            );
        },
    };
    let games_id: &Vec<u64> = &state.user_games[entry].game_ids;
    let starting_id: usize = match msg.cursor {
        Some(id) => {
            if games_id.len() <= id {
                return Err(game_not_found(id as u64));
            }
            id
        },
        None => 0,
    };
    let exclusive_max_bound: usize = if starting_id <= games_id.len() && games_id.len()
        - starting_id >= msg.limit as usize {
        starting_id + msg.limit as usize
    } else {
        games_id.len()
    };
    let next_cursor_id: Option<u64> = if exclusive_max_bound >= games_id.len() {
        None
    } else {
        Some(exclusive_max_bound as u64)
    };
    proof {
        if state@.wf() {
            lemma_games_of_below(state@.user_games, msg.user_address@, state@.games.len());
            lemma_none_missing(
                games_id@,
                state@.games.len(),
                starting_id as int,
                exclusive_max_bound as int,
            );
        }
    }
    let mut user_games: Vec<GameRequest> = Vec::new();
    let mut i: usize = starting_id;
    while i < exclusive_max_bound
        invariant
            starting_id <= i <= exclusive_max_bound || (i == starting_id && starting_id
                > exclusive_max_bound),
            exclusive_max_bound <= games_id.len(),
            first_missing(
                games_id@,
                state@.games.len(),
                starting_id as int,
                exclusive_max_bound as int,
            ) == first_missing(
                games_id@,
                state@.games.len(),
                i as int,
                exclusive_max_bound as int,
            ),
            game_views(user_games@) == page_of(state@, games_id@, starting_id as nat, i as nat),
        decreases exclusive_max_bound - i,
    {
        let game_id: u64 = games_id[i];
        if game_id >= state.games.len() as u64 {
            return Err(game_not_found(game_id));
        }
        let game: GameRequest = state.games[game_id as usize].clone();
        let ghost before = user_games@;
        user_games.push(game);
        assert(game_views(user_games@) =~= game_views(before).push(game@));
        assert(game_views(user_games@) =~= page_of(
            state@,
            games_id@,
            starting_id as nat,
            (i + 1) as nat,
        ));
        i += 1;
    }
    Ok(Some(QueryUserGamesResponse { games: user_games, next_cursor: next_cursor_id }))
}

} // verus!
