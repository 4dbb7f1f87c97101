use crate::state::{GameRequest, GameRequestView};
use vstd::prelude::*;

verus! {

/// The prices the randomness provider charges, as last fetched from it.
#[derive(Debug, Clone, Copy, PartialEq, Eq, Structural)]
pub struct RandomConfig {
    pub gas_to_token_ratio: u64,
    pub gas_price_per_job: u64,
}

/// The wagers one bettor has placed, oldest first.
#[derive(Debug, Clone, PartialEq, Eq)]
pub struct UserGames {
    pub user_address: String,
    pub game_ids: Vec<u64>,
}

pub struct UserGamesView {
    pub user_address: Seq<char>,
    pub game_ids: Seq<u64>,
}

impl View for UserGames {
    type V = UserGamesView;

    open spec fn view(&self) -> UserGamesView {
        UserGamesView { user_address: self.user_address@, game_ids: self.game_ids@ }
    }
}

/// Everything the contract keeps between two messages.
#[derive(Debug, Clone, PartialEq, Eq)]
pub struct ContractState {
    pub fee_percentage: u64,
    pub random_cw_address: String,
    pub accepted_denom: String,
    pub operator: String,
    pub disabled: bool,
    pub min_bet: u128,
    pub gas_limit: u64,
    pub random_config: Option<RandomConfig>,
    pub current_id: u64,
    pub not_resolved_bet_amount: u128,
    pub games: Vec<GameRequest>,
    pub user_games: Vec<UserGames>,
}

pub struct ContractStateView {
    pub fee_percentage: u64,
    pub random_cw_address: Seq<char>,
    pub accepted_denom: Seq<char>,
    pub operator: Seq<char>,
    pub disabled: bool,
    pub min_bet: u128,
    pub gas_limit: u64,
    pub random_config: Option<RandomConfig>,
    pub current_id: u64,
    pub not_resolved_bet_amount: u128,
    pub games: Seq<GameRequestView>,
    pub user_games: Seq<UserGamesView>,
}

pub open spec fn game_views(games: Seq<GameRequest>) -> Seq<GameRequestView> {
    Seq::new(games.len(), |i: int| games[i]@)
}

pub open spec fn index_views(index: Seq<UserGames>) -> Seq<UserGamesView> {
    Seq::new(index.len(), |i: int| index[i]@)
}

impl View for ContractState {
    type V = ContractStateView;

    open spec fn view(&self) -> ContractStateView {
        ContractStateView {
            fee_percentage: self.fee_percentage,
            random_cw_address: self.random_cw_address@,
            accepted_denom: self.accepted_denom@,
            operator: self.operator@,
            disabled: self.disabled,
            min_bet: self.min_bet,
            gas_limit: self.gas_limit,
            random_config: self.random_config,
            current_id: self.current_id,
            not_resolved_bet_amount: self.not_resolved_bet_amount,
            games: game_views(self.games@),
            user_games: index_views(self.user_games@),
        }
    }
}

/// The stakes of the wagers that are still unresolved, summed.
pub open spec fn escrow_total(games: Seq<GameRequestView>) -> nat
    decreases games.len(),
{
    if games.len() == 0 {
        0
    } else {
        escrow_total(games.drop_last()) + games.last().escrowed()
    }
}

/// The wagers recorded for a bettor, oldest first; `None` for a bettor who
/// never placed one.
pub open spec fn games_of(index: Seq<UserGamesView>, user: Seq<char>) -> Option<Seq<u64>>
    decreases index.len(),
{
    if index.len() == 0 {
        None
    } else if index[0].user_address == user {
        Some(index[0].game_ids)
    } else {
        games_of(index.drop_first(), user)
    }
}

/// Every id of the list names a wager among the first `n`.
pub open spec fn ids_below(ids: Seq<u64>, n: nat) -> bool {
    forall|k: int| 0 <= k < ids.len() ==> (#[trigger] ids[k]) < n
}

/// Every list of the index names wagers among the first `n` only.
pub open spec fn index_below(index: Seq<UserGamesView>, n: nat) -> bool {
    forall|e: int| 0 <= e < index.len() ==> ids_below((#[trigger] index[e]).game_ids, n)
}

impl ContractStateView {
    /// The escrow total equals the stakes of the unresolved wagers.
    pub open spec fn escrow_balanced(self) -> bool {
        self.not_resolved_bet_amount == escrow_total(self.games)
    }

    /// The state is one that the handlers produce: wagers are numbered in
    /// the order in which they were placed, the next id is their count, each
    /// holds samples or a failure reason exactly once it is resolved, the
    /// escrow total is balanced, and the bettors' lists name wagers that exist.
    pub open spec fn wf(self) -> bool {
        &&& self.wagers_wf()
        &&& index_below(self.user_games, self.games.len())
    }

    /// What [`Self::wf`] says of the wagers and the escrow total.
    pub open spec fn wagers_wf(self) -> bool {
        &&& self.current_id == self.games.len()
        &&& forall|i: int|
            0 <= i < self.games.len() ==> (#[trigger] self.games[i]).id == i && self.games[i].wf()
        &&& self.escrow_balanced()
    }

    /// The wager with the given id, if it was placed.
    pub open spec fn game(self, id: u64) -> Option<GameRequestView> {
        if id < self.games.len() {
            Some(self.games[id as int])
        } else {
            None
        }
    }

    /// The wagers recorded for a bettor.
    pub open spec fn games_of(self, user: Seq<char>) -> Option<Seq<u64>> {
        games_of(self.user_games, user)
    }
}

/// Placing a wager adds what it keeps in escrow to the total.
pub proof fn lemma_escrow_push(games: Seq<GameRequestView>, game: GameRequestView)
    ensures
        escrow_total(games.push(game)) == escrow_total(games) + game.escrowed(),
{
    assert(games.push(game).drop_last() =~= games);
}

/// Replacing a wager replaces its share of the total.
pub proof fn lemma_escrow_update(games: Seq<GameRequestView>, i: int, game: GameRequestView)
    requires
        0 <= i < games.len(),
    ensures
        escrow_total(games.update(i, game)) + games[i].escrowed() == escrow_total(games)
            + game.escrowed(),
    decreases games.len(),
{
    if i == games.len() - 1 {
        assert(games.update(i, game).drop_last() =~= games.drop_last());
    } else {
        assert(games.update(i, game).drop_last() =~= games.drop_last().update(i, game));
        lemma_escrow_update(games.drop_last(), i, game);
    }
}

/// An unresolved wager's stake is part of the total.
pub proof fn lemma_escrow_covers(games: Seq<GameRequestView>, i: int)
    requires
        0 <= i < games.len(),
    ensures
        games[i].escrowed() <= escrow_total(games),
    decreases games.len(),
{
    if i < games.len() - 1 {
        lemma_escrow_covers(games.drop_last(), i);
    }
}

/// A bettor whom no entry names has no list.
pub proof fn lemma_games_of_absent(index: Seq<UserGamesView>, user: Seq<char>)
    requires
        forall|j: int| 0 <= j < index.len() ==> (#[trigger] index[j]).user_address != user,
    ensures
        games_of(index, user) is None,
    decreases index.len(),
{
    if index.len() > 0 {
        lemma_games_of_absent(index.drop_first(), user);
    }
}

/// The first entry that names a bettor holds the bettor's list.
pub proof fn lemma_games_of_first(index: Seq<UserGamesView>, user: Seq<char>, i: int)
    requires
        0 <= i < index.len(),
        index[i].user_address == user,
        forall|j: int| 0 <= j < i ==> (#[trigger] index[j]).user_address != user,
    ensures
        games_of(index, user) == Some(index[i].game_ids),
    decreases index.len(),
{
    if i > 0 {
        lemma_games_of_first(index.drop_first(), user, i - 1);
    }
}

/// Replacing the list in the first entry of a bettor changes that bettor's
/// list and no other.
pub proof fn lemma_games_of_update(
    index: Seq<UserGamesView>,
    i: int,
    entry: UserGamesView,
    other: Seq<char>,
)
    requires
        0 <= i < index.len(),
        index[i].user_address == entry.user_address,
        forall|j: int| 0 <= j < i ==> (#[trigger] index[j]).user_address != entry.user_address,
    ensures
        games_of(index.update(i, entry), other) == if other == entry.user_address {
            Some(entry.game_ids)
        } else {
            games_of(index, other)
        },
    decreases index.len(),
{
    if i > 0 {
        assert(index.update(i, entry).drop_first() =~= index.drop_first().update(i - 1, entry));
        lemma_games_of_update(index.drop_first(), i - 1, entry, other);
    } else {
        assert(index.update(i, entry).drop_first() =~= index.drop_first());
    }
}

/// A new entry behind all others gives its bettor a list only if the
/// bettor had none.
pub proof fn lemma_games_of_push(index: Seq<UserGamesView>, entry: UserGamesView, other: Seq<char>)
    ensures
        games_of(index.push(entry), other) == if games_of(index, other) is Some {
            games_of(index, other)
        } else if other == entry.user_address {
            Some(entry.game_ids)
        } else {
            None
        },
    decreases index.len(),
{
    if index.len() > 0 {
        assert(index.push(entry).drop_first() =~= index.drop_first().push(entry));
        assert(index.push(entry)[0] == index[0]);
        lemma_games_of_push(index.drop_first(), entry, other);
    } else {
        assert(index.push(entry).drop_first() =~= Seq::<UserGamesView>::empty());
        assert(index.push(entry)[0] == entry);
        assert(games_of(Seq::<UserGamesView>::empty(), other) is None);
    }
}

impl ContractState {
    /// Where in the index the bettor's entry stands.
    pub fn find_user(&self, user: &String) -> (r: Option<usize>)
        ensures
            match r {
                Some(i) => i < self.user_games.len() && self.user_games[i as int].user_address@
                    == user@ && self@.games_of(user@) == Some(self.user_games[i as int].game_ids@)
                    && forall|j: int|
                    0 <= j < i ==> (#[trigger] self@.user_games[j]).user_address != user@,
                None => self@.games_of(user@) is None,
            },
    {
        let mut i: usize = 0;
        while i < self.user_games.len()
            invariant
                i <= self.user_games.len(),
                forall|j: int|
                    0 <= j < i ==> (#[trigger] self@.user_games[j]).user_address != user@,
            decreases self.user_games.len() - i,
        {
            if self.user_games[i].user_address == *user {
                proof {
                    lemma_games_of_first(self@.user_games, user@, i as int);
                }
                return Some(i);
            }
            i += 1;
        }
        proof {
            lemma_games_of_absent(self@.user_games, user@);
        }
        None
    }

    /// Appends a wager id to the bettor's list, which is created if absent.
    pub fn record_user_game(&mut self, user: &String, id: u64)
        ensures
            final(self)@ == (ContractStateView { user_games: final(self)@.user_games, ..old(self)@ }),
            final(self).games@ == old(self).games@,
            forall|other: Seq<char>|
                #[trigger] final(self)@.games_of(other) == if other == user@ {
                    Some(
                        match old(self)@.games_of(user@) {
                            Some(ids) => ids.push(id),
                            None => seq![id],
                        },
                    )
                } else {
                    old(self)@.games_of(other)
                },
            forall|n: nat|
                id < n && #[trigger] index_below(old(self)@.user_games, n) ==> index_below(
                    final(self)@.user_games,
                    n,
                ),
    {
        let found: Option<usize> = self.find_user(user);
        match found {
            Some(i) => {
                let mut ids: Vec<u64> = self.user_games[i].game_ids.clone();
                ids.push(id);
                let entry = UserGames { user_address: user.clone(), game_ids: ids };
                proof {
                    assert forall|other: Seq<char>|
                        #[trigger] games_of(old(self)@.user_games.update(i as int, entry@), other)
                            == if other == user@ {
                            Some(entry@.game_ids)
                        } else {
                            games_of(old(self)@.user_games, other)
                        } by {
                        lemma_games_of_update(old(self)@.user_games, i as int, entry@, other);
                    }
                }
                self.user_games.set(i, entry);
                assert(self@.user_games =~= old(self)@.user_games.update(i as int, entry@));
                assert forall|n: nat|
                    id < n && #[trigger] index_below(old(self)@.user_games, n) implies index_below(
                    self@.user_games,
                    n,
                ) by {
                    assert forall|e: int| 0 <= e < self@.user_games.len() implies ids_below(
                        (#[trigger] self@.user_games[e]).game_ids,
                        n,
                    ) by {
                        assert(ids_below(old(self)@.user_games[e].game_ids, n));
                    }
                }
            },
            None => {
                let mut ids: Vec<u64> = Vec::new();
                ids.push(id);
                let entry = UserGames { user_address: user.clone(), game_ids: ids };
                proof {
                    assert(entry@.game_ids =~= seq![id]);
                    assert forall|other: Seq<char>|
                        #[trigger] games_of(old(self)@.user_games.push(entry@), other) == if games_of(
                            old(self)@.user_games,
                            other,
                        ) is Some {
                            games_of(old(self)@.user_games, other)
                        } else if other == user@ {
                            Some(entry@.game_ids)
                        } else {
                            None
                        } by {
                        lemma_games_of_push(old(self)@.user_games, entry@, other);
                    }
                }
                self.user_games.push(entry);
                assert(self@.user_games =~= old(self)@.user_games.push(entry@));
                assert forall|n: nat|
                    id < n && #[trigger] index_below(old(self)@.user_games, n) implies index_below(
                    self@.user_games,
                    n,
                ) by {
                    assert forall|e: int| 0 <= e < self@.user_games.len() implies ids_below(
                        (#[trigger] self@.user_games[e]).game_ids,
                        n,
                    ) by {
                        if e < old(self)@.user_games.len() {
                            assert(ids_below(old(self)@.user_games[e].game_ids, n));
                        }
                    }
                }
            },
        }
    }
}

} // verus!
