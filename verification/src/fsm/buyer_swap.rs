//! The buyer's states: what a check of the chains and the clock leads to.

use vstd::prelude::*;
use crate::error::{ErrorCode, ErrorKind};
use crate::fsm::seller_swap::{
    are_locks_confirmed, check_result_is, go, locks_confirmed, moving, rest, resting, seen,
    seen_confirmations, stay, staying, wait_for_locks, wait_for_mwc, wait_for_secondary,
};
use crate::fsm::state::{Action, ActionCode, StateId, StateProcessRespond, Step};
use crate::message::{accept_offer_message, can_accept, can_init_redeem, init_redeem_message};
use crate::swap::{clamp, Swap};
use crate::types::{Role, SwapTransactionsConfirmations};

verus! {

/// Why the buyer of `swap` cannot make its acceptance.
pub open spec fn accept_fault(swap: &Swap) -> ErrorCode {
    if swap.role != Role::Buyer {
        ErrorCode::UnexpectedRole
    } else if !(swap.secondary_data is Btc) {
        ErrorCode::UnexpectedCoinType
    } else {
        ErrorCode::UnexpectedAction
    }
}

/// Why the buyer of `swap` cannot make the message that opens the redeem.
pub open spec fn init_redeem_fault(swap: &Swap) -> ErrorCode {
    if swap.role != Role::Buyer {
        ErrorCode::UnexpectedRole
    } else {
        ErrorCode::UnexpectedAction
    }
}

/// Why the lock script of `swap` cannot be built.
pub open spec fn lock_script_fault(swap: &Swap) -> ErrorCode {
    if !(swap.secondary_data is Btc) {
        ErrorCode::UnexpectedCoinType
    } else {
        ErrorCode::UnexpectedAction
    }
}

/// What a check leads to in a state of the buyer, given the confirmations
/// `conf` and the time `now`. A state of the seller gives
/// `SwapStateMachineError`.
pub open spec fn buyer_check_spec(
    state: StateId,
    swap: &Swap,
    conf: &SwapTransactionsConfirmations,
    now: i64,
) -> Result<Step, ErrorCode> {
    match state {
        StateId::BuyerOfferCreated => Ok(go(StateId::BuyerSendingAcceptOfferMessage)),
        StateId::BuyerSendingAcceptOfferMessage => {
            if now >= swap.spec_time_message_offers() {
                Ok(go(StateId::BuyerCancelled))
            } else if !can_accept(swap) {
                Err(accept_fault(swap))
            } else {
                Ok(
                    stay(
                        state,
                        ActionCode::BuyerSendAcceptOfferMessage,
                        swap.spec_time_message_offers(),
                    ),
                )
            }
        },
        StateId::BuyerWaitingForSellerToLock => {
            if !swap.seller_lock_first || conf.mwc_lock_conf is Some {
                Ok(go(StateId::BuyerPostingSecondaryToMultisigAccount))
            } else if now >= swap.spec_time_message_offers() {
                Ok(go(StateId::BuyerCancelled))
            } else {
                Ok(stay(state, wait_for_mwc(1, 0), swap.spec_time_message_offers()))
            }
        },
        StateId::BuyerPostingSecondaryToMultisigAccount => {
            if conf.secondary_lock_amount >= swap.secondary_amount {
                Ok(go(StateId::BuyerWaitingForLockConfirmations))
            } else if now >= swap.spec_time_message_offers() {
                Ok(go(StateId::BuyerWaitingForRefundTime))
            } else if !swap.has_lock_script() {
                Err(lock_script_fault(swap))
            } else {
                Ok(
                    stay(
                        state,
                        ActionCode::DepositSecondary {
                            amount: (swap.secondary_amount - conf.secondary_lock_amount) as u64,
                        },
                        swap.spec_time_message_offers(),
                    ),
                )
            }
        },
        StateId::BuyerWaitingForLockConfirmations => {
            if conf.secondary_lock_amount < swap.secondary_amount {
                Ok(go(StateId::BuyerPostingSecondaryToMultisigAccount))
            } else if now >= swap.spec_time_buyer_redeem_limit() {
                Ok(go(StateId::BuyerWaitingForRefundTime))
            } else if locks_confirmed(swap, conf) {
                Ok(go(StateId::BuyerSendingInitRedeemMessage))
            } else {
                Ok(stay(state, wait_for_locks(swap, conf), swap.spec_time_buyer_redeem_limit()))
            }
        },
        StateId::BuyerSendingInitRedeemMessage => {
            if !locks_confirmed(swap, conf) {
                Ok(go(StateId::BuyerWaitingForLockConfirmations))
            } else if now >= swap.spec_time_buyer_redeem_limit() {
                Ok(go(StateId::BuyerWaitingForRefundTime))
            } else if !can_init_redeem(swap) {
                Err(init_redeem_fault(swap))
            } else {
                Ok(
                    stay(
                        state,
                        ActionCode::BuyerSendInitRedeemMessage,
                        swap.spec_time_buyer_redeem_limit(),
                    ),
                )
            }
        },
        StateId::BuyerWaitingForRespondRedeemMessage => {
            if !locks_confirmed(swap, conf) {
                Ok(go(StateId::BuyerWaitingForLockConfirmations))
            } else if swap.adaptor_signature is Some {
                Ok(go(StateId::BuyerRedeemMwc))
            } else if now >= swap.spec_time_buyer_redeem_limit() {
                Ok(go(StateId::BuyerWaitingForRefundTime))
            } else {
                Ok(
                    stay(
                        state,
                        ActionCode::BuyerWaitingForRedeemMessage,
                        swap.spec_time_buyer_redeem_limit(),
                    ),
                )
            }
        },
        StateId::BuyerRedeemMwc => {
            if conf.mwc_redeem_conf is Some {
                Ok(go(StateId::BuyerWaitForRedeemMwcConfirmations))
            } else if now >= swap.spec_time_buyer_redeem_limit() {
                Ok(go(StateId::BuyerWaitingForRefundTime))
            } else {
                Ok(
                    stay(
                        state,
                        ActionCode::BuyerPublishMwcRedeemTx,
                        swap.spec_time_buyer_redeem_limit(),
                    ),
                )
            }
        },
        StateId::BuyerWaitForRedeemMwcConfirmations => {
            if conf.mwc_redeem_conf is None {
                Ok(go(StateId::BuyerRedeemMwc))
            } else if seen(conf.mwc_redeem_conf) >= swap.mwc_confirmations {
                Ok(go(StateId::BuyerSwapComplete))
            } else {
                Ok(rest(state, wait_for_mwc(swap.mwc_confirmations, seen(conf.mwc_redeem_conf))))
            }
        },
        StateId::BuyerSwapComplete => Ok(go(state)),
        StateId::BuyerWaitingForRefundTime => {
            if conf.secondary_lock_amount == 0 {
                Ok(go(StateId::BuyerCancelled))
            } else if now >= swap.spec_time_btc_lock() {
                Ok(go(StateId::BuyerPostingRefundForSecondary))
            } else {
                Ok(stay(state, ActionCode::NoAction, swap.spec_time_btc_lock()))
            }
        },
        StateId::BuyerPostingRefundForSecondary => {
            if conf.secondary_refund_conf is Some {
                Ok(go(StateId::BuyerWaitingForRefundConfirmations))
            } else {
                Ok(rest(state, ActionCode::BuyerPublishSecondaryRefundTx))
            }
        },
        StateId::BuyerWaitingForRefundConfirmations => {
            if conf.secondary_refund_conf is None {
                Ok(go(StateId::BuyerPostingRefundForSecondary))
            } else if seen(conf.secondary_refund_conf) >= swap.secondary_confirmations {
                Ok(go(StateId::BuyerCancelledRefunded))
            } else {
                Ok(
                    rest(
                        state,
                        wait_for_secondary(
                            swap.secondary_confirmations,
                            seen(conf.secondary_refund_conf),
                        ),
                    ),
                )
            }
        },
        StateId::BuyerCancelledRefunded => Ok(go(state)),
        StateId::BuyerCancelled => Ok(go(state)),
        _ => Err(ErrorCode::SwapStateMachineError),
    }
}

/// Checks the chains and the clock in a state of the buyer.
pub fn buyer_check(
    state: StateId,
    swap: &Swap,
    conf: &SwapTransactionsConfirmations,
    now: i64,
) -> (r: Result<StateProcessRespond, ErrorKind>)
    ensures
        check_result_is(r, buyer_check_spec(state, swap, conf, now), swap),
{
    let now: i128 = now as i128;
    match state {
        StateId::BuyerOfferCreated => moving(StateId::BuyerSendingAcceptOfferMessage),
        StateId::BuyerSendingAcceptOfferMessage => {
            let limit = swap.get_time_message_offers();
            if now >= limit {
                moving(StateId::BuyerCancelled)
            } else {
                let message = accept_offer_message(swap)?;
                staying(state, Action::BuyerSendAcceptOfferMessage(message), limit)
            }
        },
        StateId::BuyerWaitingForSellerToLock => {
            let limit = swap.get_time_message_offers();
            if !swap.seller_lock_first || conf.mwc_lock_conf.is_some() {
                moving(StateId::BuyerPostingSecondaryToMultisigAccount)
            } else if now >= limit {
                moving(StateId::BuyerCancelled)
            } else {
                staying(
                    state,
                    Action::WaitForConfirmations {
                        mwc_required: 1,
                        mwc_actual: 0,
                        secondary_required: 0,
                        secondary_actual: 0,
                    },
                    limit,
                )
            }
        },
        StateId::BuyerPostingSecondaryToMultisigAccount => {
            let limit = swap.get_time_message_offers();
            if conf.secondary_lock_amount >= swap.secondary_amount {
                moving(StateId::BuyerWaitingForLockConfirmations)
            } else if now >= limit {
                moving(StateId::BuyerWaitingForRefundTime)
            } else {
                let address = swap.secondary_lock_address()?;
                staying(
                    state,
                    Action::DepositSecondary {
                        currency: swap.secondary_currency,
                        amount: swap.secondary_amount - conf.secondary_lock_amount,
                        address,
                    },
                    limit,
                )
            }
        },
        StateId::BuyerWaitingForLockConfirmations => {
            let limit = swap.get_time_buyer_redeem_limit();
            if conf.secondary_lock_amount < swap.secondary_amount {
                moving(StateId::BuyerPostingSecondaryToMultisigAccount)
            } else if now >= limit {
                moving(StateId::BuyerWaitingForRefundTime)
            } else if are_locks_confirmed(swap, conf) {
                moving(StateId::BuyerSendingInitRedeemMessage)
            } else {
                staying(
                    state,
                    Action::WaitForConfirmations {
                        mwc_required: swap.mwc_confirmations,
                        mwc_actual: seen_confirmations(conf.mwc_lock_conf),
                        secondary_required: swap.secondary_confirmations,
                        secondary_actual: seen_confirmations(conf.secondary_lock_conf),
                    },
                    limit,
                )
            }
        },
        StateId::BuyerSendingInitRedeemMessage => {
            let limit = swap.get_time_buyer_redeem_limit();
            if !are_locks_confirmed(swap, conf) {
                moving(StateId::BuyerWaitingForLockConfirmations)
            } else if now >= limit {
                moving(StateId::BuyerWaitingForRefundTime)
            } else {
                let message = init_redeem_message(swap)?;
                staying(state, Action::BuyerSendInitRedeemMessage(message), limit)
            }
        },
        StateId::BuyerWaitingForRespondRedeemMessage => {
            let limit = swap.get_time_buyer_redeem_limit();
            if !are_locks_confirmed(swap, conf) {
                moving(StateId::BuyerWaitingForLockConfirmations)
            } else if swap.adaptor_signature.is_some() {
                moving(StateId::BuyerRedeemMwc)
            } else if now >= limit {
                moving(StateId::BuyerWaitingForRefundTime)
            } else {
                staying(state, Action::BuyerWaitingForRedeemMessage, limit)
            }
        },
        StateId::BuyerRedeemMwc => {
            let limit = swap.get_time_buyer_redeem_limit();
            if conf.mwc_redeem_conf.is_some() {
                moving(StateId::BuyerWaitForRedeemMwcConfirmations)
            } else if now >= limit {
                moving(StateId::BuyerWaitingForRefundTime)
            } else {
                staying(state, Action::BuyerPublishMwcRedeemTx, limit)
            }
        },
        StateId::BuyerWaitForRedeemMwcConfirmations => {
            if conf.mwc_redeem_conf.is_none() {
                moving(StateId::BuyerRedeemMwc)
            } else if seen_confirmations(conf.mwc_redeem_conf) >= swap.mwc_confirmations {
                moving(StateId::BuyerSwapComplete)
            } else {
                resting(
                    state,
                    Action::WaitForConfirmations {
                        mwc_required: swap.mwc_confirmations,
                        mwc_actual: seen_confirmations(conf.mwc_redeem_conf),
                        secondary_required: 0,
                        secondary_actual: 0,
                    },
                )
            }
        },
        StateId::BuyerSwapComplete => moving(state),
        StateId::BuyerWaitingForRefundTime => {
            let limit = swap.get_time_btc_lock();
            if conf.secondary_lock_amount == 0 {
                moving(StateId::BuyerCancelled)
            } else if now >= limit {
                moving(StateId::BuyerPostingRefundForSecondary)
            } else {
                Ok(StateProcessRespond::new(state).time_limit(clamp(limit)))
            }
        },
        StateId::BuyerPostingRefundForSecondary => {
            if conf.secondary_refund_conf.is_some() {
                moving(StateId::BuyerWaitingForRefundConfirmations)
            } else {
                resting(state, Action::BuyerPublishSecondaryRefundTx(swap.secondary_currency))
            }
        },
        StateId::BuyerWaitingForRefundConfirmations => {
            if conf.secondary_refund_conf.is_none() {
                moving(StateId::BuyerPostingRefundForSecondary)
            } else if seen_confirmations(conf.secondary_refund_conf) >= swap.secondary_confirmations {
                moving(StateId::BuyerCancelledRefunded)
            } else {
                resting(
                    state,
                    Action::WaitForConfirmations {
                        mwc_required: 0,
                        mwc_actual: 0,
                        secondary_required: swap.secondary_confirmations,
                        secondary_actual: seen_confirmations(conf.secondary_refund_conf),
                    },
                )
            }
        },
        StateId::BuyerCancelledRefunded => moving(state),
        StateId::BuyerCancelled => moving(state),
        _ => Err(
            ErrorKind::SwapStateMachineError("The state does not belong to the buyer".to_owned()),
        ),
    }
}

/// A measure that every move of `buyer_check_spec` to another state makes smaller.
pub open spec fn buyer_rank(
    state: StateId,
    swap: &Swap,
    conf: &SwapTransactionsConfirmations,
    now: i64,
) -> nat {
    let funded = conf.secondary_lock_amount >= swap.secondary_amount;
    let confirmed = locks_confirmed(swap, conf);
    match state {
        StateId::BuyerOfferCreated => 42,
        StateId::BuyerSendingAcceptOfferMessage => 41,
        StateId::BuyerWaitingForSellerToLock => 40,
        StateId::BuyerPostingSecondaryToMultisigAccount => if funded {
            23
        } else {
            13
        },
        StateId::BuyerWaitingForLockConfirmations => if confirmed {
            22
        } else if funded {
            15
        } else {
            14
        },
        StateId::BuyerSendingInitRedeemMessage => if confirmed {
            21
        } else {
            30
        },
        StateId::BuyerWaitingForRespondRedeemMessage => if confirmed {
            20
        } else {
            31
        },
        StateId::BuyerRedeemMwc => 6,
        StateId::BuyerWaitForRedeemMwcConfirmations => if conf.mwc_redeem_conf is Some {
            5
        } else {
            7
        },
        StateId::BuyerWaitingForRefundTime => 4,
        StateId::BuyerPostingRefundForSecondary => 2,
        StateId::BuyerWaitingForRefundConfirmations => if conf.secondary_refund_conf is Some {
            1
        } else {
            3
        },
        _ => 0,
    }
}

/// Every move of the buyer's check to another state lowers the measure, so
/// repeated checks under the same observations come to rest.
pub proof fn lemma_buyer_check_descends(
    state: StateId,
    swap: &Swap,
    conf: &SwapTransactionsConfirmations,
    now: i64,
)
    ensures
        buyer_check_spec(state, swap, conf, now) matches Ok(step) ==> step.next == state
            || buyer_rank(step.next, swap, conf, now) < buyer_rank(state, swap, conf, now),
        buyer_check_spec(state, swap, conf, now) matches Ok(step)
            ==> !step.next.spec_is_seller_state(),
{
}

} // verus!
