use crate::error::{ContractError, ContractErrorView};
use crate::execute::set_config::not_authorized_text;
use crate::lifecycle::{handled, Message};
use crate::state::ExecuteContext;
use crate::storage::{ContractState, ContractStateView, RandomConfig};
use vstd::prelude::*;
use vstd::string::StringExecFns;

verus! {

/// What caching the provider's prices in the state `pre` comes to. Only
/// the operator may have them fetched.
pub open spec fn random_config_cached(
    pre: ContractStateView,
    ctx: ExecuteContext,
    fetched: RandomConfig,
    r: Result<(), ContractError>,
    post: ContractStateView,
) -> bool {
    if ctx.sender@ != pre.operator {
        &&& r is Err
        &&& r.unwrap_err()@ == (ContractErrorView::NotAuthorized { reason: not_authorized_text() })
        &&& post == pre
    } else {
        &&& r is Ok
        &&& post == (ContractStateView { random_config: Some(fetched), ..pre })
    }
}

/// Caches the prices that were fetched from the randomness provider, as
/// [`random_config_cached`] states.
pub fn exec_fetch_random_cw_cfg(
    state: &mut ContractState,
    ctx: &ExecuteContext,
    fetched: RandomConfig,
) -> (r: Result<(), ContractError>)
    ensures
        random_config_cached(old(state)@, *ctx, fetched, r, final(state)@),
        handled(old(state)@, Message::Other, final(state)@),
        old(state)@.wf() ==> final(state)@.wf(),
{
    if state.operator != ctx.sender {
        return Err(ContractError::NotAuthorized { reason: String::from_str("not authorized") });
    }
    state.random_config = Some(fetched);
    Ok(())
}

} // verus!
