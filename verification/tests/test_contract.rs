use roll_a_dice::config::Config;
use roll_a_dice::contract::reply;
use roll_a_dice::error::ContractError;
use roll_a_dice::execute::play_request::exec_play_request;
use roll_a_dice::execute::receive_randomness::exec_handle_received_randomness;
use roll_a_dice::execute::set_config::exec_set_config;
use roll_a_dice::execute::update_random_cw_cfg::exec_fetch_random_cw_cfg;
use roll_a_dice::execute::withdraw::exec_withdraw;
use roll_a_dice::msg::{
    InstantiateMsg, JobResult, PlayRequestMsg, ReceiveRandomnessMsg, Reply, UserGamesQueryMsg,
    WithdrawMsg,
};
use roll_a_dice::query::config::query_config;
use roll_a_dice::query::play_request::query_game;
use roll_a_dice::query::user_games::query_user_games;
use roll_a_dice::responses::{PlayResponse, QueryUserGamesResponse, SettleResponse};
use roll_a_dice::state::{
    ExactNumberGame, ExecuteContext, GameRequest, GameStatus, GameType, HighLowGame,
};
use roll_a_dice::storage::{ContractState, RandomConfig};
use roll_a_dice::token::{Coin, Token, Transfer};

const GAS_TO_TOKEN_RATIO: u64 = 2;
const GAS_PRICE_PER_JOB: u64 = 2;
const DENOM: &str = "ujuno";
const FEE_PERCENTAGE: u64 = 5;
const MIN_BET_AMOUNT: u128 = 1_000_000;
const DISABLED: bool = false;
const GAS_LIMIT: u64 = 5000;
const RANDOM_CW: &str = "random_cw";
const ROLL_A_DICE: &str = "roll_a_dice";

/// A ledger of one denomination with the contract and a randomness provider on it.
struct Chain {
    balances: Vec<(String, u128)>,
    state: ContractState,
    time: u64,
    /// Whether the provider accepts requests from the contract.
    whitelisted: bool,
}

fn randomness_price() -> u128 {
    (GAS_LIMIT * GAS_TO_TOKEN_RATIO + GAS_PRICE_PER_JOB) as u128
}

fn get_roll_dice_cw_default_config(random_cw_address: &str, operator: &str) -> Config {
    Config {
        accepted_denom: DENOM.to_string(),
        random_cw_address: random_cw_address.to_string(),
        fee_percentage: FEE_PERCENTAGE,
        min_bet: MIN_BET_AMOUNT,
        operator: Some(operator.to_string()),
        disabled: DISABLED,
        gas_limit: GAS_LIMIT,
    }
}

impl Chain {
    fn new(addr_list: &[&str], amount: u128, config: &Config, init_amount: u128) -> Chain {
        let mut balances: Vec<(String, u128)> =
            addr_list.iter().map(|a| (a.to_string(), amount)).collect();
        balances.push((ROLL_A_DICE.to_string(), 0));
        balances.push((RANDOM_CW.to_string(), 0));
        let ctx = ExecuteContext { sender: "owner".to_string(), funds: vec![], block_time: 1 };
        let state = ctx.instantiate(InstantiateMsg { config: config.clone() });
        let mut chain = Chain { balances, state, time: 1, whitelisted: false };
        chain.pay("owner", ROLL_A_DICE, init_amount);
        chain
    }

    fn balance(&self, addr: &str) -> u128 {
        self.balances.iter().find(|(a, _)| a == addr).map_or(0, |(_, b)| *b)
    }

    fn pay(&mut self, from: &str, to: &str, amount: u128) {
        assert!(self.balance(from) >= amount, "the ledger refuses an uncovered transfer");
        for entry in self.balances.iter_mut() {
            if entry.0 == from {
                entry.1 -= amount;
            }
        }
        if self.balances.iter().all(|(a, _)| a != to) {
            self.balances.push((to.to_string(), 0));
        }
        for entry in self.balances.iter_mut() {
            if entry.0 == to {
                entry.1 += amount;
            }
        }
    }

    fn carry_out(&mut self, transfer: &Transfer) {
        assert_eq!(transfer.token, Token::Denom(DENOM.to_string()));
        let recipient = transfer.recipient.clone();
        self.pay(ROLL_A_DICE, &recipient, transfer.amount);
    }

    fn ctx(&mut self, sender: &str, funds: Vec<Coin>) -> ExecuteContext {
        self.time += 5;
        ExecuteContext { sender: sender.to_string(), funds, block_time: self.time }
    }

    fn fetch_random_cw_config(&mut self, sender: &str) {
        let ctx = self.ctx(sender, vec![]);
        let fetched = RandomConfig {
            gas_to_token_ratio: GAS_TO_TOKEN_RATIO,
            gas_price_per_job: GAS_PRICE_PER_JOB,
        };
        exec_fetch_random_cw_cfg(&mut self.state, &ctx, fetched).unwrap();
    }

    fn play(
        &mut self,
        sender: &str,
        game_type: GameType,
        amount: u128,
    ) -> Result<PlayResponse, ContractError> {
        let before = self.state.clone();
        let ctx = self.ctx(sender, vec![Coin { denom: DENOM.to_string(), amount }]);
        let result =
            exec_play_request(&mut self.state, &ctx, PlayRequestMsg { game_type }, randomness_price());
        match &result {
            Err(_) => assert_eq!(self.state, before),
            Ok(response) => {
                self.pay(sender, ROLL_A_DICE, amount);
                assert_eq!(response.request.provider, RANDOM_CW);
                assert_eq!((response.request.min, response.request.max), (1, 6));
                if self.whitelisted {
                    self.pay(ROLL_A_DICE, RANDOM_CW, response.request.payment.amount);
                } else {
                    let failure = Reply {
                        id: response.request.response_id,
                        result: Err("the sender is not whitelisted".to_string()),
                    };
                    let time = self.time;
                    let transfer = reply(&mut self.state, time, failure).unwrap().unwrap();
                    self.carry_out(&transfer);
                }
            },
        }
        result
    }

    fn receive(
        &mut self,
        sender: &str,
        id: u64,
        results: Vec<JobResult>,
    ) -> Result<SettleResponse, ContractError> {
        let before = self.state.clone();
        let ctx = self.ctx(sender, vec![]);
        let balance = self.balance(ROLL_A_DICE);
        let msg = ReceiveRandomnessMsg { id, results };
        let result = exec_handle_received_randomness(&mut self.state, &ctx, &msg, balance);
        match &result {
            Err(_) => assert_eq!(self.state, before),
            Ok(response) => {
                if let Some(transfer) = &response.transfer {
                    self.carry_out(transfer);
                }
            },
        }
        result
    }

    fn withdraw(&mut self, sender: &str, denom: &str, amount: u128) -> Result<(), ContractError> {
        let ctx = self.ctx(sender, vec![]);
        let balance = self.balance(ROLL_A_DICE);
        let msg = WithdrawMsg { token: Token::Denom(denom.to_string()), amount };
        let response = exec_withdraw(&self.state, &ctx, &msg, balance)?;
        self.carry_out(&response.transfer);
        Ok(())
    }

    fn game(&self, id: u64) -> GameRequest {
        query_game(&self.state, id).unwrap().0
    }

    fn user_games(
        &self,
        user: &str,
        cursor: Option<usize>,
        limit: u8,
    ) -> Result<QueryUserGamesResponse, String> {
        let msg = UserGamesQueryMsg { user_address: user.to_string(), cursor, limit };
        match query_user_games(&self.state, &msg) {
            Ok(page) => Ok(page.unwrap()),
            Err(e) => Err("Generic error: Querier contract error: ".to_string() + &e.to_string()),
        }
    }

    /// The escrow total equals the stakes of the wagers that await their dice.
    fn escrow_is_balanced(&self) -> bool {
        let pending: u128 = self
            .state
            .games
            .iter()
            .filter(|g| g.status == GameStatus::Requested)
            .map(|g| g.bet_amount)
            .sum();
        self.state.not_resolved_bet_amount == pending
    }
}

/// The contract set up by "owner" with the default configuration, the
/// provider's prices fetched.
fn default_chain(amount: u128, init_amount: u128) -> Chain {
    let config = get_roll_dice_cw_default_config(RANDOM_CW, "owner");
    let mut chain = Chain::new(&["not_owner", "owner"], amount, &config, init_amount);
    chain.whitelisted = true;
    chain.fetch_random_cw_config("owner");
    chain
}

fn exact_number(chosen_number: u8) -> GameType {
    GameType::ExactNumber(ExactNumberGame { chosen_number })
}

fn high_low(dice_number: u8) -> GameType {
    GameType::HighLow(HighLowGame { dice_number })
}

fn send_randomness(chain: &mut Chain, sender: &str, game_id: u64, number_of_dice: u16) -> Result<SettleResponse, ContractError> {
    chain.receive(sender, game_id, vec![JobResult::U8(vec![4; number_of_dice as usize])])
}

fn send_empty_randomness(chain: &mut Chain, game_id: u64) {
    chain.receive(RANDOM_CW, game_id, vec![]).unwrap();
}

fn send_wrong_type_randomness(chain: &mut Chain, game_id: u64, number_of_dice: u16) {
    chain.receive(RANDOM_CW, game_id, vec![JobResult::U16(vec![4; number_of_dice as usize])]).unwrap();
}

fn send_win_high_low_game(chain: &mut Chain, game_id: u64, number_of_dice: u16) {
    chain.receive(RANDOM_CW, game_id, vec![JobResult::U8(vec![4; number_of_dice as usize])]).unwrap();
}

fn send_lose_high_low_game(chain: &mut Chain, game_id: u64, number_of_dice: u16) {
    chain.receive(RANDOM_CW, game_id, vec![JobResult::U8(vec![2; number_of_dice as usize])]).unwrap();
}

fn send_invalid_dice_number(chain: &mut Chain, game_id: u64, number_of_dice: u16) {
    chain.receive(RANDOM_CW, game_id, vec![JobResult::U8(vec![7; number_of_dice as usize])]).unwrap();
}

fn send_win_exact_number_game(chain: &mut Chain, game_id: u64, chosen_number: u8) {
    let dice_number1 = chosen_number / 2;
    let dice_number2 = chosen_number - dice_number1;
    chain.receive(RANDOM_CW, game_id, vec![JobResult::U8(vec![dice_number1, dice_number2])]).unwrap();
}

fn send_lose_exact_number_game(chain: &mut Chain, game_id: u64, chosen_number: u8) {
    let dice_number1 = chosen_number / 2;
    let mut dice_number2 = chosen_number - dice_number1;
    if dice_number2 == 1 {
        dice_number2 = 6;
    } else {
        dice_number2 = dice_number2 - 1;
    }
    chain.receive(RANDOM_CW, game_id, vec![JobResult::U8(vec![dice_number1, dice_number2])]).unwrap();
}

#[test]
fn test_set_config() {
    let amount = 100_000_000u128;
    let roll_a_dice_config = get_roll_dice_cw_default_config(RANDOM_CW, "owner");
    let mut chain = default_chain(amount, 10_000_000);
    let mut set_cfg_msg = roll_a_dice_config.clone();
    set_cfg_msg.operator = Some("not_owner".to_string());
    let ctx = chain.ctx("not_owner", vec![]);
    let resp = exec_set_config(&mut chain.state, &ctx, &set_cfg_msg).unwrap_err();
    assert_eq!(ContractError::NotAuthorized { reason: "not authorized".to_string() }, resp);
    let ctx = chain.ctx("owner", vec![]);
    exec_set_config(&mut chain.state, &ctx, &set_cfg_msg).unwrap();
    let cfg_queried = query_config(&chain.state).0;
    assert_eq!(cfg_queried, set_cfg_msg);
}

#[test]
fn test_exec_request_ok() {
    let amount = 100_000_000u128;
    let mut chain = default_chain(amount, 10_000_000);
    let chosen_number = 6;
    let bet_amount = 1_000_000u128;
    let resp = chain.play("not_owner", exact_number(chosen_number), bet_amount).unwrap();
    let req_id = resp.game_id;
    chain.receive(RANDOM_CW, req_id, vec![JobResult::U8(vec![5, 2])]).unwrap();
    let game_req = chain.game(req_id);
    assert!(game_req.error_message.is_none());
    assert!(game_req.dice_results.is_some());
    assert!(game_req.status != GameStatus::Requested);
    assert!(game_req.status != GameStatus::Error);
    assert!(game_req.status != GameStatus::Refunded);
    let number_dice_requested = match game_req.game_type {
        GameType::ExactNumber(exact_number_game) => exact_number_game.get_number_of_requests(),
        GameType::HighLow(high_low_game) => high_low_game.get_number_of_requests(),
    };
    assert_eq!(game_req.dice_results.unwrap().len(), number_dice_requested as usize);

    let bet_amount = 1_000_000u128;
    let resp = chain.play("not_owner", high_low(9), bet_amount).unwrap();
    assert_eq!(resp.request.n, 9);
    let req_id = resp.game_id;
    chain.receive(RANDOM_CW, req_id, vec![JobResult::U8(vec![1, 6, 2, 5, 3, 4, 1, 6, 2])]).unwrap();
    let game_req = chain.game(req_id);
    assert!(game_req.error_message.is_none());
    assert!(game_req.dice_results.is_some());
    assert!(game_req.status != GameStatus::Requested);
    assert!(game_req.status != GameStatus::Error);
    assert!(game_req.status != GameStatus::Refunded);
    let number_dice_requested = match game_req.game_type {
        GameType::ExactNumber(exact_number_game) => exact_number_game.get_number_of_requests(),
        GameType::HighLow(high_low_game) => high_low_game.get_number_of_requests(),
    };
    assert_eq!(game_req.dice_results.unwrap().len(), number_dice_requested as usize);
    assert!(chain.escrow_is_balanced());
}

#[test]
fn test_disabled_contract() {
    let amount = 100_000_000u128;
    let mut roll_a_dice_config = get_roll_dice_cw_default_config(RANDOM_CW, "owner");
    roll_a_dice_config.disabled = true;
    let mut chain = Chain::new(&["not_owner", "owner"], amount, &roll_a_dice_config, 10_000_000);
    chain.whitelisted = true;
    chain.fetch_random_cw_config("owner");
    let chosen_number = 6;
    let bet_amount = 1_000_000u128;
    let resp = chain.play("not_owner", exact_number(chosen_number), bet_amount).unwrap_err();
    assert_eq!(ContractError::DisabledError {}, resp);
}

#[test]
fn test_random_cw_cfg_not_fetched() {
    let amount = 100_000_000u128;
    let roll_a_dice_config = get_roll_dice_cw_default_config(RANDOM_CW, "owner");
    let mut chain = Chain::new(&["not_owner", "owner"], amount, &roll_a_dice_config, 10_000_000);
    chain.whitelisted = true;
    let chosen_number = 6;
    let bet_amount = 1_000_000u128;
    let resp = chain.play("not_owner", exact_number(chosen_number), bet_amount).unwrap_err();
    assert_eq!(ContractError::RandomConfigNotSet {}, resp);
}

#[test]
fn test_not_valid_high_low_game() {
    let amount = 100_000_000u128;
    let mut chain = default_chain(amount, 10_000_000);
    let not_valid_number_of_dices = 0;
    let bet_amount = 1_000_000u128;
    let resp = chain.play("not_owner", high_low(not_valid_number_of_dices), bet_amount).unwrap_err();
    assert_eq!(ContractError::InvalidDiceNumber { reason: "Invalid dice number".to_string() }, resp);
    let not_valid_number_of_dices = 2;
    let bet_amount = 1_000_000u128;
    let resp = chain.play("not_owner", high_low(not_valid_number_of_dices), bet_amount).unwrap_err();
    assert_eq!(ContractError::InvalidDiceNumber { reason: "Invalid dice number".to_string() }, resp);
}

#[test]
fn test_not_valid_exact_number_game() {
    let amount = 100_000_000u128;
    let mut chain = default_chain(amount, 10_000_000);
    let chosen_number = 1;
    let bet_amount = 1_000_000u128;
    let resp = chain.play("not_owner", exact_number(chosen_number), bet_amount).unwrap_err();
    assert_eq!(ContractError::InvalidDiceNumber { reason: "Invalid dice number".to_string() }, resp);
    let chosen_number = 13;
    let bet_amount = 1_000_000u128;
    let resp = chain.play("not_owner", exact_number(chosen_number), bet_amount).unwrap_err();
    assert_eq!(ContractError::InvalidDiceNumber { reason: "Invalid dice number".to_string() }, resp);
}

#[test]
fn test_not_at_least_minimum_bet_amount() {
    let amount = 100_000_000u128;
    let roll_a_dice_config = get_roll_dice_cw_default_config(RANDOM_CW, "owner");
    let mut chain = default_chain(amount, 10_000_000);
    let chosen_number = 2;
    let bet_amount = roll_a_dice_config.min_bet - 1;
    let resp = chain.play("not_owner", exact_number(chosen_number), bet_amount).unwrap_err();
    assert_eq!(
        ContractError::InsufficientFunds {
            denom_requested: DENOM.to_string(),
            requested: roll_a_dice_config.min_bet,
            available: bet_amount,
        },
        resp
    );
}

#[test]
fn test_error_random_cw_request_refund() {
    let amount = 100_000_000u128;
    let roll_a_dice_config = get_roll_dice_cw_default_config(RANDOM_CW, "owner");
    let mut chain = default_chain(amount, 10_000_000);
    chain.whitelisted = false;
    let chosen_number = 2;
    let bet_amount = roll_a_dice_config.min_bet;
    let resp = chain.play("not_owner", exact_number(chosen_number), bet_amount).unwrap();
    let game_req = chain.game(resp.game_id);
    assert!(game_req.error_message.is_some());
    assert!(game_req.dice_results.is_none());
    assert!(game_req.status == GameStatus::Refunded);
    let balance = chain.balance("not_owner");
    assert_eq!(balance, amount - bet_amount + game_req.bet_amount);
    assert_eq!(game_req.error_message.unwrap(), "the sender is not whitelisted");
    assert_eq!(chain.state.not_resolved_bet_amount, 0);
}

#[test]
fn test_not_enough_coin_to_pay_the_win_refund() {
    let amount = 100_000_000u128;
    let roll_a_dice_config = get_roll_dice_cw_default_config(RANDOM_CW, "owner");
    let mut chain = default_chain(amount, 500_000);
    let chosen_number = 2;
    let bet_amount = roll_a_dice_config.min_bet;
    let resp = chain.play("not_owner", exact_number(chosen_number), bet_amount).unwrap();
    send_win_exact_number_game(&mut chain, resp.game_id, chosen_number);
    let game_req = chain.game(resp.game_id);
    assert!(game_req.error_message.is_some());
    assert_eq!(game_req.error_message.unwrap(), "Not enough balance -> refunding");
    assert!(game_req.dice_results.is_none());
    assert!(game_req.status == GameStatus::Refunded);
    let balance = chain.balance("not_owner");
    assert_eq!(balance, amount - bet_amount + game_req.bet_amount);
    let cw_balance = chain.balance(ROLL_A_DICE);
    assert_eq!(cw_balance, 500_000u128);
}

#[test]
fn test_wrong_job_result_type() {
    let amount = 100_000_000u128;
    let roll_dice_init_amount = 10_000_000u128;
    let roll_a_dice_config = get_roll_dice_cw_default_config(RANDOM_CW, "owner");
    let mut chain = default_chain(amount, roll_dice_init_amount);
    let chosen_number = 2;
    let bet_amount = roll_a_dice_config.min_bet;
    let resp = chain.play("not_owner", exact_number(chosen_number), bet_amount).unwrap();
    send_wrong_type_randomness(&mut chain, resp.game_id, 2);
    let game_req = chain.game(resp.game_id);
    assert!(game_req.error_message.is_some());
    assert_eq!(game_req.error_message.unwrap(), "Invalid Randomness Results");
    assert!(game_req.dice_results.is_none());
    assert!(game_req.status == GameStatus::Refunded);
    let balance = chain.balance("not_owner");
    assert_eq!(balance, amount - bet_amount + game_req.bet_amount);
    let cw_balance = chain.balance(ROLL_A_DICE);
    assert_eq!(cw_balance, roll_dice_init_amount);
}

#[test]
fn test_empty_results_refund() {
    let amount = 100_000_000u128;
    let roll_dice_init_amount = 10_000_000u128;
    let roll_a_dice_config = get_roll_dice_cw_default_config(RANDOM_CW, "owner");
    let mut chain = default_chain(amount, roll_dice_init_amount);
    let chosen_number = 2;
    let bet_amount = roll_a_dice_config.min_bet;
    let resp = chain.play("not_owner", exact_number(chosen_number), bet_amount).unwrap();
    send_empty_randomness(&mut chain, resp.game_id);
    let game_req = chain.game(resp.game_id);
    assert!(game_req.error_message.is_some());
    assert_eq!(game_req.error_message.unwrap(), "Invalid Randomness Results");
    assert!(game_req.dice_results.is_none());
    assert!(game_req.status == GameStatus::Refunded);
    let balance = chain.balance("not_owner");
    assert_eq!(balance, amount - bet_amount + game_req.bet_amount);
    let cw_balance = chain.balance(ROLL_A_DICE);
    assert_eq!(cw_balance, roll_dice_init_amount);
}

#[test]
fn test_invalid_dice_number_results_refund() {
    let amount = 100_000_000u128;
    let roll_dice_init_amount = 10_000_000u128;
    let roll_a_dice_config = get_roll_dice_cw_default_config(RANDOM_CW, "owner");
    let mut chain = default_chain(amount, roll_dice_init_amount);
    let chosen_number = 2;
    let bet_amount = roll_a_dice_config.min_bet;
    let resp = chain.play("not_owner", exact_number(chosen_number), bet_amount).unwrap();
    let req_id = resp.game_id;
    send_invalid_dice_number(&mut chain, req_id, 2);
    let game_req = chain.game(req_id);
    assert!(game_req.error_message.is_some());
    assert_eq!(
        game_req.error_message.unwrap(),
        ContractError::InvalidDiceResults { reason: "Invalid dice result".to_string() }.to_string()
    );
    assert!(game_req.dice_results.is_none());
    assert!(game_req.status == GameStatus::Refunded);
    let balance = chain.balance("not_owner");
    assert_eq!(balance, amount - bet_amount + game_req.bet_amount);
    let cw_balance = chain.balance(ROLL_A_DICE);
    assert_eq!(cw_balance, roll_dice_init_amount);

    let number_of_dices = 9;
    let resp = chain.play("not_owner", high_low(number_of_dices), bet_amount).unwrap();
    let new_req_id = resp.game_id;
    assert_eq!(req_id + 1u64, new_req_id);
    send_invalid_dice_number(&mut chain, new_req_id, number_of_dices as u16);
    let game_req = chain.game(new_req_id);
    assert!(game_req.error_message.is_some());
    assert_eq!(
        game_req.error_message.unwrap(),
        ContractError::InvalidDiceResults { reason: "Invalid dice result".to_string() }.to_string()
    );
    assert!(game_req.dice_results.is_none());
    assert!(game_req.status == GameStatus::Refunded);
    let new_balance = chain.balance("not_owner");
    assert_eq!(new_balance, balance - bet_amount + game_req.bet_amount);
    let cw_balance = chain.balance(ROLL_A_DICE);
    assert_eq!(cw_balance, roll_dice_init_amount);
}

#[test]
fn test_high_low_win() {
    let amount = 100_000_000u128;
    let roll_dice_init_amount = 10_000_000u128;
    let roll_a_dice_config = get_roll_dice_cw_default_config(RANDOM_CW, "owner");
    let mut chain = default_chain(amount, roll_dice_init_amount);
    let number_of_dices = 9;
    let bet_amount = roll_a_dice_config.min_bet;
    let resp = chain.play("not_owner", high_low(number_of_dices), bet_amount).unwrap();
    send_win_high_low_game(&mut chain, resp.game_id, number_of_dices as u16);
    let game_req = chain.game(resp.game_id);
    assert!(game_req.error_message.is_none());
    assert!(game_req.dice_results.is_some());
    assert!(game_req.status == GameStatus::Won);
    let balance = chain.balance("not_owner");
    assert_eq!(balance, amount - bet_amount + game_req.potential_winning_amount);
    let cw_balance = chain.balance(ROLL_A_DICE);
    assert_eq!(
        cw_balance,
        roll_dice_init_amount - game_req.potential_winning_amount + game_req.bet_amount
    );
}

#[test]
fn test_high_low_lose() {
    let amount = 100_000_000u128;
    let roll_dice_init_amount = 10_000_000u128;
    let roll_a_dice_config = get_roll_dice_cw_default_config(RANDOM_CW, "owner");
    let mut chain = default_chain(amount, roll_dice_init_amount);
    let number_of_dices = 9;
    let bet_amount = roll_a_dice_config.min_bet;
    let resp = chain.play("not_owner", high_low(number_of_dices), bet_amount).unwrap();
    send_lose_high_low_game(&mut chain, resp.game_id, number_of_dices as u16);
    let game_req = chain.game(resp.game_id);
    assert!(game_req.error_message.is_none());
    assert!(game_req.dice_results.is_some());
    assert!(game_req.status == GameStatus::Lost);
    let balance = chain.balance("not_owner");
    assert_eq!(balance, amount - bet_amount);
    let cw_balance = chain.balance(ROLL_A_DICE);
    assert_eq!(cw_balance, roll_dice_init_amount + game_req.bet_amount);
}

#[test]
fn test_exact_number_win() {
    let amount = 100_000_000u128;
    let roll_dice_init_amount = 10_000_000u128;
    let roll_a_dice_config = get_roll_dice_cw_default_config(RANDOM_CW, "owner");
    let mut chain = default_chain(amount, roll_dice_init_amount);
    let chosen_number = 2;
    let bet_amount = roll_a_dice_config.min_bet;
    let resp = chain.play("not_owner", exact_number(chosen_number), bet_amount).unwrap();
    send_win_exact_number_game(&mut chain, resp.game_id, chosen_number);
    let game_req = chain.game(resp.game_id);
    assert!(game_req.error_message.is_none());
    assert!(game_req.dice_results.is_some());
    assert!(game_req.status == GameStatus::Won);
    let balance = chain.balance("not_owner");
    assert_eq!(balance, amount - bet_amount + game_req.potential_winning_amount);
    let cw_balance = chain.balance(ROLL_A_DICE);
    assert_eq!(
        cw_balance,
        roll_dice_init_amount - game_req.potential_winning_amount + game_req.bet_amount
    );
}

#[test]
fn test_exact_number_lose() {
    let amount = 100_000_000u128;
    let roll_dice_init_amount = 10_000_000u128;
    let roll_a_dice_config = get_roll_dice_cw_default_config(RANDOM_CW, "owner");
    let mut chain = default_chain(amount, roll_dice_init_amount);
    let chosen_number = 2;
    let bet_amount = roll_a_dice_config.min_bet;
    let resp = chain.play("not_owner", exact_number(chosen_number), bet_amount).unwrap();
    send_lose_exact_number_game(&mut chain, resp.game_id, chosen_number);
    let game_req = chain.game(resp.game_id);
    assert!(game_req.error_message.is_none());
    assert!(game_req.dice_results.is_some());
    assert!(game_req.status == GameStatus::Lost);
    let balance = chain.balance("not_owner");
    assert_eq!(balance, amount - bet_amount);
    let cw_balance = chain.balance(ROLL_A_DICE);
    assert_eq!(cw_balance, roll_dice_init_amount + game_req.bet_amount);
}

#[test]
fn test_not_authorized_randomness() {
    let amount = 100_000_000u128;
    let roll_dice_init_amount = 10_000_000u128;
    let roll_a_dice_config = get_roll_dice_cw_default_config(RANDOM_CW, "owner");
    let mut chain = default_chain(amount, roll_dice_init_amount);
    let chosen_number = 2;
    let bet_amount = roll_a_dice_config.min_bet;
    let resp = chain.play("not_owner", exact_number(chosen_number), bet_amount).unwrap();
    let result = send_randomness(&mut chain, "owner", resp.game_id, 2);
    assert_eq!(
        ContractError::NotAuthorized { reason: "Only random cw address can call this".to_string() },
        result.unwrap_err(),
    );
    let game_req = chain.game(resp.game_id);
    assert!(game_req.error_message.is_none());
    assert!(game_req.dice_results.is_none());
    assert!(game_req.status == GameStatus::Requested);
    let balance = chain.balance("not_owner");
    assert_eq!(balance, amount - bet_amount);
    let cw_balance = chain.balance(ROLL_A_DICE);
    assert_eq!(cw_balance, roll_dice_init_amount + game_req.bet_amount);
}

#[test]
fn test_resend_randomness_to_a_completed_game() {
    let amount = 100_000_000u128;
    let roll_dice_init_amount = 10_000_000u128;
    let roll_a_dice_config = get_roll_dice_cw_default_config(RANDOM_CW, "owner");
    let mut chain = default_chain(amount, roll_dice_init_amount);
    let chosen_number = 2;
    let bet_amount = roll_a_dice_config.min_bet;
    let resp = chain.play("not_owner", exact_number(chosen_number), bet_amount).unwrap();
    send_lose_exact_number_game(&mut chain, resp.game_id, chosen_number);
    let result = send_randomness(&mut chain, RANDOM_CW, resp.game_id, 2);
    assert_eq!(
        ContractError::InvalidGameStatus { reason: "Game status is not in Requested State".to_string() },
        result.unwrap_err(),
    );
    let game_req = chain.game(resp.game_id);
    assert!(game_req.error_message.is_none());
    assert!(game_req.dice_results.is_some());
    assert!(game_req.status == GameStatus::Lost);
    let balance = chain.balance("not_owner");
    assert_eq!(balance, amount - bet_amount);
    let cw_balance = chain.balance(ROLL_A_DICE);
    assert_eq!(cw_balance, roll_dice_init_amount + game_req.bet_amount);
}

#[test]
fn test_not_resolved_bet_amount_correctly_working() {
    let amount = 100_000_000u128;
    let contract_init_amount = 500_000u128;
    let roll_a_dice_config = get_roll_dice_cw_default_config(RANDOM_CW, "owner");
    let mut chain = default_chain(amount, contract_init_amount);
    let chosen_number = 2;
    let bet_amount_1 = roll_a_dice_config.min_bet;
    let req_id_1 = chain.play("not_owner", exact_number(chosen_number), bet_amount_1).unwrap().game_id;
    let bet_amount_2 = roll_a_dice_config.min_bet * 3u128;
    let req_id_2 = chain.play("not_owner", exact_number(chosen_number), bet_amount_2).unwrap().game_id;
    let bet_amount_3 = roll_a_dice_config.min_bet;
    let req_id_3 = chain.play("not_owner", exact_number(chosen_number), bet_amount_3).unwrap().game_id;
    assert!(chain.escrow_is_balanced());
    let cw_balance = chain.balance(ROLL_A_DICE);
    send_win_exact_number_game(&mut chain, req_id_1, chosen_number);
    let game_req = chain.game(req_id_1);
    assert!(game_req.error_message.is_some());
    assert_eq!(game_req.error_message.unwrap(), "Not enough balance -> refunding");
    assert!(game_req.dice_results.is_none());
    assert!(game_req.status == GameStatus::Refunded);
    let balance = chain.balance("not_owner");
    assert_eq!(balance, amount - bet_amount_1 - bet_amount_2 - bet_amount_3 + game_req.bet_amount);
    let new_cw_balance = chain.balance(ROLL_A_DICE);
    assert_eq!(new_cw_balance, cw_balance - game_req.bet_amount);
    assert!(chain.escrow_is_balanced());
    let not_owner_balance_after_req_1 = balance;

    send_lose_exact_number_game(&mut chain, req_id_2, chosen_number);
    let game_req = chain.game(req_id_2);
    assert!(game_req.error_message.is_none());
    assert!(game_req.dice_results.is_some());
    assert!(game_req.status == GameStatus::Lost);
    let balance = chain.balance("not_owner");
    assert_eq!(balance, not_owner_balance_after_req_1);
    let cw_balance = chain.balance(ROLL_A_DICE);
    assert_eq!(cw_balance, new_cw_balance);
    assert!(chain.escrow_is_balanced());
    let not_owner_balance_after_req_2 = balance;
    let cw_balance_last_amount = cw_balance;

    send_win_exact_number_game(&mut chain, req_id_3, chosen_number);
    let game_req = chain.game(req_id_3);
    assert!(game_req.error_message.is_none());
    assert!(game_req.dice_results.is_some());
    assert!(game_req.status == GameStatus::Won);
    let balance = chain.balance("not_owner");
    assert_eq!(balance, not_owner_balance_after_req_2 + game_req.potential_winning_amount);
    let cw_balance = chain.balance(ROLL_A_DICE);
    assert_eq!(cw_balance, cw_balance_last_amount - game_req.potential_winning_amount);
    assert!(chain.escrow_is_balanced());
    assert_eq!(chain.state.not_resolved_bet_amount, 0);
}

#[test]
fn test_withdraw_not_authorized() {
    let amount = 100_000_000u128;
    let roll_a_dice_config = get_roll_dice_cw_default_config(RANDOM_CW, "owner");
    let mut chain = default_chain(amount, 10_000_000);
    let resp = chain.withdraw("not_owner", &roll_a_dice_config.accepted_denom, 100_000).unwrap_err();
    assert_eq!(ContractError::NotAuthorized { reason: "not authorized".to_string() }, resp);
}

#[test]
fn test_withdraw_with_game_to_resolve() {
    let amount = 100_000_000u128;
    let roll_a_dice_init_amount = 10_000_000u128;
    let roll_a_dice_config = get_roll_dice_cw_default_config(RANDOM_CW, "owner");
    let mut chain = default_chain(amount, roll_a_dice_init_amount);
    let chosen_number = 6;
    let bet_amount = 1_000_000u128;
    let game_id = chain.play("not_owner", exact_number(chosen_number), bet_amount).unwrap().game_id;
    let cw_balance_pre_withdraw = chain.balance(ROLL_A_DICE);
    let owner_pre_withdraw_balance = chain.balance("owner");
    chain
        .withdraw("owner", &roll_a_dice_config.accepted_denom, bet_amount + roll_a_dice_init_amount)
        .unwrap();
    let balance = chain.balance("owner");
    assert_eq!(balance, owner_pre_withdraw_balance + roll_a_dice_init_amount);
    let cw_balance = chain.balance(ROLL_A_DICE);
    assert_eq!(cw_balance, cw_balance_pre_withdraw - roll_a_dice_init_amount);
    send_lose_exact_number_game(&mut chain, game_id, chosen_number);
    let owner_pre_withdraw_balance = chain.balance("owner");
    chain
        .withdraw("owner", &roll_a_dice_config.accepted_denom, bet_amount + roll_a_dice_init_amount)
        .unwrap();
    let balance = chain.balance("owner");
    assert_eq!(balance, owner_pre_withdraw_balance + cw_balance);
    let cw_balance = chain.balance(ROLL_A_DICE);
    assert_eq!(cw_balance, 0u128);
}

#[test]
fn test_user_games() {
    let amount = 100_000_000u128;
    let mut chain = default_chain(amount, 10_000_000);
    let chosen_number = 6;
    let bet_amount = 1_000_000u128;
    let number_of_games = 15;
    let mut req_id_vec: Vec<u64> = Vec::with_capacity(number_of_games);
    for _ in 0..number_of_games {
        let resp = chain.play("not_owner", exact_number(chosen_number), bet_amount).unwrap();
        req_id_vec.push(resp.game_id);
    }
    let limit = 5;
    let query_user_games_response = chain.user_games("not_owner", None, limit).unwrap();
    for i in 0..5 {
        let game = query_user_games_response.games.get(i).unwrap();
        assert_eq!(game.id, *req_id_vec.get(i).unwrap());
    }
    assert_eq!(query_user_games_response.games.len(), limit as usize);
    assert_eq!(query_user_games_response.next_cursor, Some(limit as u64));
    let new_limit = 15;
    let query_user_games_response =
        chain.user_games("not_owner", Some(limit as usize), new_limit).unwrap();
    for i in 5..15 {
        let game = query_user_games_response.games.get(i - 5).unwrap();
        assert_eq!(game.id, *req_id_vec.get(i).unwrap());
    }
    assert_eq!(query_user_games_response.games.len(), 10);
    assert_eq!(query_user_games_response.next_cursor, None);
}

#[test]
fn test_empty_user_games() {
    let amount = 100_000_000u128;
    let roll_a_dice_init_amount = 10_000_000u128;
    let chain = default_chain(amount, roll_a_dice_init_amount);
    let limit = 5;
    let query_user_games_response = chain.user_games("not_owner", None, limit);
    println!("resp: {:?}", query_user_games_response);
    assert_eq!(query_user_games_response.is_err(), true);
    let err_msg = query_user_games_response.err().unwrap();
    assert_eq!(
        "Generic error: Querier contract error: ".to_string()
            + &ContractError::NotFound {
                reason: format!("User {} has not played any games", "not_owner"),
            }
            .to_string(),
        err_msg,
    );
}
