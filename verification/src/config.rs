use crate::storage::{ContractState, ContractStateView};
use vstd::prelude::*;

verus! {

/// What the operator configures.
#[derive(Debug, PartialEq, Eq)]
pub struct Config {
    pub fee_percentage: u64,
    pub random_cw_address: String,
    pub accepted_denom: String,
    pub operator: Option<String>,
    pub disabled: bool,
    pub min_bet: u128,
    pub gas_limit: u64,
}

pub struct ConfigView {
    pub fee_percentage: u64,
    pub random_cw_address: Seq<char>,
    pub accepted_denom: Seq<char>,
    pub operator: Option<Seq<char>>,
    pub disabled: bool,
    pub min_bet: u128,
    pub gas_limit: u64,
}

impl View for Config {
    type V = ConfigView;

    open spec fn view(&self) -> ConfigView {
        ConfigView {
            fee_percentage: self.fee_percentage,
            random_cw_address: self.random_cw_address@,
            accepted_denom: self.accepted_denom@,
            operator: match self.operator {
                Some(o) => Some(o@),
                None => None,
            },
            disabled: self.disabled,
            min_bet: self.min_bet,
            gas_limit: self.gas_limit,
        }
    }
}

impl Clone for Config {
    fn clone(&self) -> (r: Config)
        ensures
            r@ == self@,
    {
        Config {
            fee_percentage: self.fee_percentage,
            random_cw_address: self.random_cw_address.clone(),
            accepted_denom: self.accepted_denom.clone(),
            operator: match &self.operator {
                Some(o) => Some(o.clone()),
                None => None,
            },
            disabled: self.disabled,
            min_bet: self.min_bet,
            gas_limit: self.gas_limit,
        }
    }
}

impl ConfigView {
    /// The operator this configuration installs when `sender` saves it:
    /// the one it names, or else the sender.
    pub open spec fn operator_or(self, sender: Seq<char>) -> Seq<char> {
        match self.operator {
            Some(o) => o,
            None => sender,
        }
    }
}

impl ContractStateView {
    /// The configuration in force.
    pub open spec fn config(self) -> ConfigView {
        ConfigView {
            fee_percentage: self.fee_percentage,
            random_cw_address: self.random_cw_address,
            accepted_denom: self.accepted_denom,
            operator: Some(self.operator),
            disabled: self.disabled,
            min_bet: self.min_bet,
            gas_limit: self.gas_limit,
        }
    }

    /// The state once `sender` has saved `config`: nothing but the
    /// configuration changes.
    pub open spec fn with_config(self, config: ConfigView, sender: Seq<char>) -> ContractStateView {
        ContractStateView {
            fee_percentage: config.fee_percentage,
            random_cw_address: config.random_cw_address,
            accepted_denom: config.accepted_denom,
            operator: config.operator_or(sender),
            disabled: config.disabled,
            min_bet: config.min_bet,
            gas_limit: config.gas_limit,
            ..self
        }
    }
}

impl Config {
    /// Puts this configuration in force. Where it names no operator,
    /// `sender` becomes the operator.
    pub fn save(&self, state: &mut ContractState, sender: String)
        ensures
            final(state)@ == old(state)@.with_config(self@, sender@),
            final(state).games@ == old(state).games@,
            old(state)@.wf() ==> final(state)@.wf(),
    {
        state.fee_percentage = self.fee_percentage;
        state.random_cw_address = self.random_cw_address.clone();
        state.accepted_denom = self.accepted_denom.clone();
        state.operator = match &self.operator {
            Some(o) => o.clone(),
            None => sender,
        };
        state.disabled = self.disabled;
        state.min_bet = self.min_bet;
        state.gas_limit = self.gas_limit;
    }

    /// The configuration in force.
    pub fn load(state: &ContractState) -> (r: Config)
        ensures
            r@ == state@.config(),
    {
        Config {
            fee_percentage: state.fee_percentage,
            random_cw_address: state.random_cw_address.clone(),
            accepted_denom: state.accepted_denom.clone(),
            operator: Some(state.operator.clone()),
            disabled: state.disabled,
            min_bet: state.min_bet,
            gas_limit: state.gas_limit,
        }
    }
}

pub fn get_current_config(state: &ContractState) -> (r: Config)
    ensures
        r@ == state@.config(),
{
    Config::load(state)
}

pub fn get_disabled(state: &ContractState) -> (r: bool)
    ensures
        r == state@.disabled,
{
    state.disabled
}

pub fn get_fee_percentage(state: &ContractState) -> (r: u64)
    ensures
        r == state@.fee_percentage,
{
    state.fee_percentage
}

pub fn get_random_cw_address(state: &ContractState) -> (r: String)
    ensures
        r@ == state@.random_cw_address,
{
    state.random_cw_address.clone()
}

pub fn get_accepted_denom(state: &ContractState) -> (r: String)
    ensures
        r@ == state@.accepted_denom,
{
    state.accepted_denom.clone()
}

pub fn get_operator(state: &ContractState) -> (r: String)
    ensures
        r@ == state@.operator,
{
    state.operator.clone()
}

pub fn get_min_bet(state: &ContractState) -> (r: u128)
    ensures
        r == state@.min_bet,
{
    state.min_bet
}

pub fn get_gas_limit(state: &ContractState) -> (r: u64)
    ensures
        r == state@.gas_limit,
{
    state.gas_limit
}

} // verus!
