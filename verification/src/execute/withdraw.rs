use crate::error::{ContractError, ContractErrorView};
use crate::execute::set_config::not_authorized_text;
use crate::math::sub_u128;
use crate::msg::WithdrawMsg;
use crate::responses::WithdrawResponse;
use crate::state::ExecuteContext;
use crate::storage::{ContractState, ContractStateView};
use crate::token::{Token, TokenView, TransferView};
use vstd::prelude::*;
use vstd::string::StringExecFns;

verus! {

/// How much of a token's balance may leave the contract: of the accepted
/// denomination, what is not in escrow; of any other token, all of it.
/// `None` where the balance is below the escrow total.
pub open spec fn withdrawable_balance(
    state: ContractStateView,
    token: TokenView,
    contract_balance: u128,
) -> Option<u128> {
    if token == TokenView::Denom(state.accepted_denom) {
        if contract_balance < state.not_resolved_bet_amount {
            None
        } else {
            Some((contract_balance - state.not_resolved_bet_amount) as u128)
        }
    } else {
        Some(contract_balance)
    }
}

/// Why a withdrawal is turned away, if it is: the sender is not the
/// operator, the contract holds nothing of the token, or the balance is
/// below the escrow total.
pub open spec fn withdraw_rejection(
    state: ContractStateView,
    sender: Seq<char>,
    token: Token,
    amount: u128,
    contract_balance: u128,
) -> Option<ContractErrorView> {
    if sender != state.operator {
        Some(ContractErrorView::NotAuthorized { reason: not_authorized_text() })
    } else if contract_balance == 0 {
        Some(
            ContractErrorView::InsufficientFunds {
                denom_requested: token.name(),
                requested: amount,
                available: 0,
            },
        )
    } else if withdrawable_balance(state, token@, contract_balance) is None {
        Some(ContractErrorView::Underflow)
    } else {
        None
    }
}

/// What a withdrawal pays out: the amount asked for, capped by what may leave.
pub open spec fn withdrawn_amount(
    state: ContractStateView,
    token: TokenView,
    amount: u128,
    contract_balance: u128,
) -> u128 {
    let cap = withdrawable_balance(state, token, contract_balance).unwrap();
    if amount <= cap {
        amount
    } else {
        cap
    }
}

/// A withdrawal of the accepted denomination leaves the escrow in the
/// contract: what is paid out and what is in escrow together do not exceed
/// the balance, and no withdrawal pays more than was asked for.
pub proof fn lemma_withdrawal_spares_escrow(
    state: ContractStateView,
    sender: Seq<char>,
    token: Token,
    amount: u128,
    contract_balance: u128,
)
    requires
        withdraw_rejection(state, sender, token, amount, contract_balance) is None,
    ensures
        withdrawn_amount(state, token@, amount, contract_balance) <= amount,
        withdrawn_amount(state, token@, amount, contract_balance) <= contract_balance,
        token@ == TokenView::Denom(state.accepted_denom) ==> withdrawn_amount(
            state,
            token@,
            amount,
            contract_balance,
        ) + state.not_resolved_bet_amount <= contract_balance,
{
}

/// What a withdrawal in the state `state` comes to. It is turned away in
/// the cases of [`withdraw_rejection`]. Otherwise the response carries
/// a transfer of [`withdrawn_amount`] to the sender: funds in escrow
/// never leave.
pub open spec fn withdrawn(
    state: ContractStateView,
    ctx: ExecuteContext,
    msg: WithdrawMsg,
    contract_balance: u128,
    r: Result<WithdrawResponse, ContractError>,
) -> bool {
    match withdraw_rejection(state, ctx.sender@, msg.token, msg.amount, contract_balance) {
        Some(e) => r is Err && r.unwrap_err()@ == e,
        None => {
            let amount = withdrawn_amount(state, msg.token@, msg.amount, contract_balance);
            &&& r is Ok
            &&& r.unwrap().token@ == msg.token.name()
            &&& r.unwrap().amount == amount
            &&& r.unwrap().transfer@ == (TransferView {
                recipient: ctx.sender@,
                token: msg.token@,
                amount,
            })
        },
    }
}

/// Pays out to the operator.
///
/// `contract_balance` is what the host ledger holds for the contract in the
/// token asked for. What the call comes to is stated by [`withdrawn`].
pub fn exec_withdraw(
    state: &ContractState,
    ctx: &ExecuteContext,
    withdraw_msg: &WithdrawMsg,
    contract_balance: u128,
) -> (r: Result<WithdrawResponse, ContractError>)
    ensures
        withdrawn(state@, *ctx, *withdraw_msg, contract_balance, r),
{
    if state.operator != ctx.sender {
        return Err(ContractError::NotAuthorized { reason: String::from_str("not authorized") });
    }
    let amount_requested: u128 = withdraw_msg.amount;
    let type_of_token: String = match &withdraw_msg.token {
        Token::Denom(denom) => denom.clone(),
        Token::Address(address) => address.clone(),
    };
    if contract_balance == 0 {
        return Err(
            ContractError::InsufficientFunds {
                denom_requested: type_of_token,
                requested: amount_requested,
                available: contract_balance,
            },
        );
    }
    let cap: u128 = match &withdraw_msg.token {
        Token::Denom(denom) => {
            if *denom == state.accepted_denom {
                sub_u128(contract_balance, state.not_resolved_bet_amount)?
            } else {
                contract_balance
            }
        },
        Token::Address(_) => contract_balance,
    };
    let withdrawable_amount: u128 = if amount_requested <= cap {
        amount_requested
    } else {
        cap
    };
    Ok(
        WithdrawResponse {
            token: type_of_token,
            amount: withdrawable_amount,
            transfer: withdraw_msg.token.transfer(&ctx.sender, withdrawable_amount),
        },
    )
}

} // verus!
