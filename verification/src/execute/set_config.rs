use crate::config::Config;
use crate::error::{ContractError, ContractErrorView};
use crate::lifecycle::{handled, Message};
use crate::state::ExecuteContext;
use crate::storage::{ContractState, ContractStateView};
use vstd::prelude::*;
use vstd::string::StringExecFns;

verus! {

/// Reason given to a sender other than the operator.
pub open spec fn not_authorized_text() -> Seq<char> {
    "not authorized"@
}

/// What replacing the configuration in the state `pre` comes to. Only the
/// operator may; a configuration that names no operator keeps the
/// current one.
pub open spec fn config_set(
    pre: ContractStateView,
    ctx: ExecuteContext,
    config: Config,
    r: Result<(), ContractError>,
    post: ContractStateView,
) -> bool {
    if ctx.sender@ != pre.operator {
        &&& r is Err
        &&& r.unwrap_err()@ == (ContractErrorView::NotAuthorized { reason: not_authorized_text() })
        &&& post == pre
    } else {
        &&& r is Ok
        &&& post == pre.with_config(config@, pre.operator)
    }
}

/// Replaces the configuration, as [`config_set`] states.
pub fn exec_set_config(state: &mut ContractState, ctx: &ExecuteContext, config: &Config) -> (r:
    Result<(), ContractError>)
    ensures
        config_set(old(state)@, *ctx, *config, r, final(state)@),
        handled(old(state)@, Message::Other, final(state)@),
        old(state)@.wf() ==> final(state)@.wf(),
{
    let saved_operator: String = state.operator.clone();
    if saved_operator != ctx.sender {
        return Err(ContractError::NotAuthorized { reason: String::from_str("not authorized") });
    }
    config.save(state, saved_operator);
    Ok(())
}

} // verus!
