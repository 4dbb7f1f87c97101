use crate::config::get_current_config;
use crate::responses::ConfigResponse;
use crate::storage::ContractState;
use vstd::prelude::*;

verus! {

/// The configuration in force.
pub fn query_config(state: &ContractState) -> (r: ConfigResponse)
    ensures
        r.0@ == state@.config(),
{
    ConfigResponse(get_current_config(state))
}

} // verus!
