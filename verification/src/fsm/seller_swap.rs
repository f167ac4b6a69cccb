//! The seller's states: what a check of the chains and the clock leads to.

use vstd::prelude::*;
use crate::error::{ErrorCode, ErrorKind};
use crate::fsm::state::{respond_is, Action, ActionCode, StateId, StateProcessRespond, Step};
use crate::message::{can_offer, can_redeem, offer_message, redeem_message};
use crate::swap::{clamp, clamp_time, Swap};
use crate::types::{Role, SwapTransactionsConfirmations};

verus! {

/// The number of confirmations, or zero for a transaction that is not seen.
pub open spec fn seen(conf: Option<u64>) -> u64 {
    match conf {
        Some(n) => n,
        None => 0,
    }
}

/// The number of confirmations, or zero for a transaction that is not seen.
pub fn seen_confirmations(conf: Option<u64>) -> (n: u64)
    ensures
        n == seen(conf),
{
    match conf {
        Some(n) => n,
        None => 0,
    }
}

/// The confirmations of the buyer's lock that the seller asks for before
/// it posts its own lock, where the buyer locks first.
pub const BUYER_LOCK_CONFIRMATIONS: u64 = 1;

/// The confirmations of the buyer's lock as the seller counts them before
/// it posts its own: those of the least confirmed output on the lock
/// address, and none as long as the address holds less than the agreed amount.
pub open spec fn buyer_lock_seen(swap: &Swap, conf: &SwapTransactionsConfirmations) -> u64 {
    if conf.secondary_lock_amount < swap.secondary_amount {
        0
    } else {
        seen(conf.secondary_lock_conf)
    }
}

/// The confirmations of the buyer's lock as the seller counts them before
/// it posts its own.
pub fn buyer_lock_confirmations(swap: &Swap, conf: &SwapTransactionsConfirmations) -> (n: u64)
    ensures
        n == buyer_lock_seen(swap, conf),
{
    if conf.secondary_lock_amount < swap.secondary_amount {
        0
    } else {
        seen_confirmations(conf.secondary_lock_conf)
    }
}

/// Whether both locks hold the agreed amounts with the required confirmations.
pub open spec fn locks_confirmed(swap: &Swap, conf: &SwapTransactionsConfirmations) -> bool {
    &&& seen(conf.mwc_lock_conf) >= swap.mwc_confirmations
    &&& conf.mwc_lock_conf is Some
    &&& conf.secondary_lock_amount >= swap.secondary_amount
    &&& seen(conf.secondary_lock_conf) >= swap.secondary_confirmations
}

/// Whether both locks hold the agreed amounts with the required confirmations.
pub fn are_locks_confirmed(swap: &Swap, conf: &SwapTransactionsConfirmations) -> (r: bool)
    ensures
        r == locks_confirmed(swap, conf),
{
    seen_confirmations(conf.mwc_lock_conf) >= swap.mwc_confirmations && conf.mwc_lock_conf.is_some()
        && conf.secondary_lock_amount >= swap.secondary_amount && seen_confirmations(
        conf.secondary_lock_conf,
    ) >= swap.secondary_confirmations
}

/// The wait for the confirmations of both locks.
pub open spec fn wait_for_locks(swap: &Swap, conf: &SwapTransactionsConfirmations) -> ActionCode {
    ActionCode::WaitForConfirmations {
        mwc_required: swap.mwc_confirmations,
        mwc_actual: seen(conf.mwc_lock_conf),
        secondary_required: swap.secondary_confirmations,
        secondary_actual: seen(conf.secondary_lock_conf),
    }
}

/// The wait for the confirmations of one primary-chain transaction.
pub open spec fn wait_for_mwc(required: u64, actual: u64) -> ActionCode {
    ActionCode::WaitForConfirmations {
        mwc_required: required,
        mwc_actual: actual,
        secondary_required: 0,
        secondary_actual: 0,
    }
}

/// The wait for the confirmations of one secondary-chain transaction.
pub open spec fn wait_for_secondary(required: u64, actual: u64) -> ActionCode {
    ActionCode::WaitForConfirmations {
        mwc_required: 0,
        mwc_actual: 0,
        secondary_required: required,
        secondary_actual: actual,
    }
}

/// The step that moves on to `next` without further ado.
pub open spec fn go(next: StateId) -> Step {
    Step { next, action: ActionCode::NoAction, time_limit: None }
}

/// The step that stays in `state`, asks for `action` and gives up at `limit`.
pub open spec fn stay(state: StateId, action: ActionCode, limit: int) -> Step {
    Step { next: state, action, time_limit: Some(clamp_time(limit)) }
}

/// The step that stays in `state` and asks for `action`, without a limit.
pub open spec fn rest(state: StateId, action: ActionCode) -> Step {
    Step { next: state, action, time_limit: None }
}

/// Whether the answer `r` of a check is what `expected` stands for.
pub open spec fn check_result_is(
    r: Result<StateProcessRespond, ErrorKind>,
    expected: Result<Step, ErrorCode>,
    swap: &Swap,
) -> bool {
    match expected {
        Ok(step) => r is Ok && respond_is(&r->Ok_0, step, swap) && r->Ok_0.journal_message is None,
        Err(code) => r is Err && r->Err_0.spec_code() == code,
    }
}

/// Why the seller of `swap` cannot make its offer.
pub open spec fn offer_fault(swap: &Swap) -> ErrorCode {
    if swap.role != Role::Seller {
        ErrorCode::UnexpectedRole
    } else {
        ErrorCode::UnexpectedCoinType
    }
}

/// Why the seller of `swap` cannot make its redeem message.
pub open spec fn redeem_fault(swap: &Swap) -> ErrorCode {
    if swap.role != Role::Seller {
        ErrorCode::UnexpectedRole
    } else {
        ErrorCode::UnexpectedAction
    }
}

/// What a check leads to in a state of the seller, given the confirmations
/// `conf` and the time `now`. A state of the buyer gives
/// `SwapStateMachineError`.
///
/// Where the buyer locks first, the seller posts its lock once the lock
/// address holds the agreed amount with `BUYER_LOCK_CONFIRMATIONS`
/// confirmations. A seller whose lock is due and not seen when the deadline
/// of the locking has passed may have posted it: it does not end there but
/// waits for the refund height, and ends without a refund only where the
/// chain does not show the lock by then.
pub open spec fn seller_check_spec(
    state: StateId,
    swap: &Swap,
    conf: &SwapTransactionsConfirmations,
    now: i64,
) -> Result<Step, ErrorCode> {
    match state {
        StateId::SellerOfferCreated => Ok(go(StateId::SellerSendingOffer)),
        StateId::SellerSendingOffer => {
            if now >= swap.spec_time_message_offers() {
                Ok(go(StateId::SellerCancelled))
            } else if !can_offer(swap) {
                Err(offer_fault(swap))
            } else {
                Ok(
                    stay(
                        state,
                        ActionCode::SellerSendOfferMessage,
                        swap.spec_time_message_offers(),
                    ),
                )
            }
        },
        StateId::SellerWaitingForAcceptanceMessage => {
            if swap.redeem_public is Some {
                Ok(go(StateId::SellerWaitingForBuyerLock))
            } else if now >= swap.spec_time_message_offers() {
                Ok(go(StateId::SellerCancelled))
            } else {
                Ok(
                    stay(
                        state,
                        ActionCode::SellerWaitingForOfferMessage,
                        swap.spec_time_message_offers(),
                    ),
                )
            }
        },
        StateId::SellerWaitingForBuyerLock => {
            if swap.seller_lock_first || buyer_lock_seen(swap, conf) >= BUYER_LOCK_CONFIRMATIONS {
                Ok(go(StateId::SellerPostingLockMwcSlate))
            } else if now >= swap.spec_time_message_offers() {
                Ok(go(StateId::SellerCancelled))
            } else {
                Ok(
                    stay(
                        state,
                        wait_for_secondary(BUYER_LOCK_CONFIRMATIONS, buyer_lock_seen(swap, conf)),
                        swap.spec_time_message_offers(),
                    ),
                )
            }
        },
        StateId::SellerPostingLockMwcSlate => {
            if conf.mwc_lock_conf is Some {
                Ok(go(StateId::SellerWaitingForLockConfirmations))
            } else if now >= swap.spec_time_message_offers() {
                Ok(go(StateId::SellerWaitingForRefundHeight))
            } else {
                Ok(
                    stay(state, ActionCode::SellerPublishMwcLockTx, swap.spec_time_message_offers()),
                )
            }
        },
        StateId::SellerWaitingForLockConfirmations => {
            if conf.mwc_lock_conf is None {
                Ok(go(StateId::SellerPostingLockMwcSlate))
            } else if conf.secondary_lock_amount < swap.secondary_amount && now
                >= swap.spec_time_message_offers() {
                Ok(go(StateId::SellerWaitingForRefundHeight))
            } else if now >= swap.spec_time_buyer_redeem_limit() {
                Ok(go(StateId::SellerWaitingForRefundHeight))
            } else if locks_confirmed(swap, conf) {
                Ok(go(StateId::SellerWaitingForInitRedeemMessage))
            } else {
                Ok(stay(state, wait_for_locks(swap, conf), swap.spec_time_buyer_redeem_limit()))
            }
        },
        StateId::SellerWaitingForInitRedeemMessage => {
            if !locks_confirmed(swap, conf) {
                Ok(go(StateId::SellerWaitingForLockConfirmations))
            } else if swap.redeem_slate.buyer_signature is Some {
                Ok(go(StateId::SellerSendingInitRedeemMessage))
            } else if now >= swap.spec_time_buyer_redeem_limit() {
                Ok(go(StateId::SellerWaitingForRefundHeight))
            } else {
                Ok(
                    stay(
                        state,
                        ActionCode::SellerWaitingForInitRedeemMessage,
                        swap.spec_time_buyer_redeem_limit(),
                    ),
                )
            }
        },
        StateId::SellerSendingInitRedeemMessage => {
            if !locks_confirmed(swap, conf) {
                Ok(go(StateId::SellerWaitingForLockConfirmations))
            } else if now >= swap.spec_time_buyer_redeem_limit() {
                Ok(go(StateId::SellerWaitingForRefundHeight))
            } else if !can_redeem(swap) {
                Err(redeem_fault(swap))
            } else {
                Ok(
                    stay(
                        state,
                        ActionCode::SellerSendRedeemMessage,
                        swap.spec_time_buyer_redeem_limit(),
                    ),
                )
            }
        },
        StateId::SellerWaitingForBuyerToRedeemMwc => {
            if conf.mwc_redeem_conf is Some {
                Ok(go(StateId::SellerRedeemSecondaryCurrency))
            } else if conf.mwc_tip >= swap.refund_slate.lock_height {
                Ok(go(StateId::SellerWaitingForRefundHeight))
            } else {
                Ok(stay(state, wait_for_mwc(1, 0), swap.spec_time_mwc_refund()))
            }
        },
        StateId::SellerRedeemSecondaryCurrency => {
            if conf.secondary_redeem_conf is Some {
                Ok(go(StateId::SellerWaitingForRedeemConfirmations))
            } else if now >= swap.spec_time_seller_redeem_limit() {
                Ok(go(StateId::SellerWaitingForRefundHeight))
            } else {
                Ok(
                    stay(
                        state,
                        ActionCode::SellerPublishTxSecondaryRedeem,
                        swap.spec_time_seller_redeem_limit(),
                    ),
                )
            }
        },
        StateId::SellerWaitingForRedeemConfirmations => {
            if conf.secondary_redeem_conf is None {
                Ok(go(StateId::SellerRedeemSecondaryCurrency))
            } else if seen(conf.secondary_redeem_conf) >= swap.secondary_confirmations {
                Ok(go(StateId::SellerSwapComplete))
            } else {
                Ok(
                    rest(
                        state,
                        wait_for_secondary(
                            swap.secondary_confirmations,
                            seen(conf.secondary_redeem_conf),
                        ),
                    ),
                )
            }
        },
        StateId::SellerSwapComplete => Ok(go(state)),
        StateId::SellerWaitingForRefundHeight => {
            if conf.mwc_lock_conf is Some && conf.mwc_redeem_conf is Some && now
                < swap.spec_time_seller_redeem_limit() {
                Ok(go(StateId::SellerRedeemSecondaryCurrency))
            } else if conf.mwc_tip >= swap.refund_slate.lock_height {
                if conf.mwc_lock_conf is None {
                    Ok(go(StateId::SellerCancelled))
                } else {
                    Ok(go(StateId::SellerPostingRefundSlate))
                }
            } else {
                Ok(stay(state, ActionCode::NoAction, swap.spec_time_mwc_refund()))
            }
        },
        StateId::SellerPostingRefundSlate => {
            if conf.mwc_refund_conf is Some {
                Ok(go(StateId::SellerWaitingForRefundConfirmations))
            } else {
                Ok(rest(state, ActionCode::SellerPublishMwcRefundTx))
            }
        },
        StateId::SellerWaitingForRefundConfirmations => {
            if conf.mwc_refund_conf is None {
                Ok(go(StateId::SellerPostingRefundSlate))
            } else if seen(conf.mwc_refund_conf) >= swap.mwc_confirmations {
                Ok(go(StateId::SellerCancelledRefunded))
            } else {
                Ok(rest(state, wait_for_mwc(swap.mwc_confirmations, seen(conf.mwc_refund_conf))))
            }
        },
        StateId::SellerCancelledRefunded => Ok(go(state)),
        StateId::SellerCancelled => Ok(go(state)),
        _ => Err(ErrorCode::SwapStateMachineError),
    }
}

/// The answer that moves on to `next`.
pub(crate) fn moving(next: StateId) -> (r: Result<StateProcessRespond, ErrorKind>)
    ensures
        r is Ok,
        r->Ok_0 == (StateProcessRespond {
            next_state_id: next,
            action: None,
            time_limit: None,
            journal_message: None,
        }),
{
    Ok(StateProcessRespond::new(next))
}

/// The answer that stays in `state`, asks for `action` and gives up at `limit`.
pub(crate) fn staying(state: StateId, action: Action, limit: i128) -> (r: Result<
    StateProcessRespond,
    ErrorKind,
>)
    ensures
        r is Ok,
        r->Ok_0 == (StateProcessRespond {
            next_state_id: state,
            action: Some(action),
            time_limit: Some(clamp_time(limit as int)),
            journal_message: None,
        }),
{
    Ok(StateProcessRespond::new(state).action(action).time_limit(clamp(limit)))
}

/// The answer that stays in `state` and asks for `action`.
pub(crate) fn resting(state: StateId, action: Action) -> (r: Result<StateProcessRespond, ErrorKind>)
    ensures
        r is Ok,
        r->Ok_0 == (StateProcessRespond {
            next_state_id: state,
            action: Some(action),
            time_limit: None,
            journal_message: None,
        }),
{
    Ok(StateProcessRespond::new(state).action(action))
}

/// The wait for the confirmations of both locks.
fn lock_wait(swap: &Swap, conf: &SwapTransactionsConfirmations) -> (a: Action)
    ensures
        a == (Action::WaitForConfirmations {
            mwc_required: swap.mwc_confirmations,
            mwc_actual: seen(conf.mwc_lock_conf),
            secondary_required: swap.secondary_confirmations,
            secondary_actual: seen(conf.secondary_lock_conf),
        }),
{
    Action::WaitForConfirmations {
        mwc_required: swap.mwc_confirmations,
        mwc_actual: seen_confirmations(conf.mwc_lock_conf),
        secondary_required: swap.secondary_confirmations,
        secondary_actual: seen_confirmations(conf.secondary_lock_conf),
    }
}

/// Checks the chains and the clock in a state of the seller.
pub fn seller_check(
    state: StateId,
    swap: &Swap,
    conf: &SwapTransactionsConfirmations,
    now: i64,
) -> (r: Result<StateProcessRespond, ErrorKind>)
    ensures
        check_result_is(r, seller_check_spec(state, swap, conf, now), swap),
{
    let now: i128 = now as i128;
    match state {
        StateId::SellerOfferCreated => moving(StateId::SellerSendingOffer),
        StateId::SellerSendingOffer => {
            let limit = swap.get_time_message_offers();
            if now >= limit {
                moving(StateId::SellerCancelled)
            } else {
                let message = offer_message(swap)?;
                staying(state, Action::SellerSendOfferMessage(message), limit)
            }
        },
        StateId::SellerWaitingForAcceptanceMessage => {
            let limit = swap.get_time_message_offers();
            if swap.redeem_public.is_some() {
                moving(StateId::SellerWaitingForBuyerLock)
            } else if now >= limit {
                moving(StateId::SellerCancelled)
            } else {
                staying(state, Action::SellerWaitingForOfferMessage, limit)
            }
        },
        StateId::SellerWaitingForBuyerLock => {
            let limit = swap.get_time_message_offers();
            let seen = buyer_lock_confirmations(swap, conf);
            if swap.seller_lock_first || seen >= BUYER_LOCK_CONFIRMATIONS {
                moving(StateId::SellerPostingLockMwcSlate)
            } else if now >= limit {
                moving(StateId::SellerCancelled)
            } else {
                staying(
                    state,
                    Action::WaitForConfirmations {
                        mwc_required: 0,
                        mwc_actual: 0,
                        secondary_required: BUYER_LOCK_CONFIRMATIONS,
                        secondary_actual: seen,
                    },
                    limit,
                )
            }
        },
        StateId::SellerPostingLockMwcSlate => {
            let limit = swap.get_time_message_offers();
            if conf.mwc_lock_conf.is_some() {
                moving(StateId::SellerWaitingForLockConfirmations)
            } else if now >= limit {
                moving(StateId::SellerWaitingForRefundHeight)
            } else {
                staying(state, Action::SellerPublishMwcLockTx, limit)
            }
        },
        StateId::SellerWaitingForLockConfirmations => {
            let limit = swap.get_time_buyer_redeem_limit();
            if conf.mwc_lock_conf.is_none() {
                moving(StateId::SellerPostingLockMwcSlate)
            } else if conf.secondary_lock_amount < swap.secondary_amount && now
                >= swap.get_time_message_offers() {
                moving(StateId::SellerWaitingForRefundHeight)
            } else if now >= limit {
                moving(StateId::SellerWaitingForRefundHeight)
            } else if are_locks_confirmed(swap, conf) {
                moving(StateId::SellerWaitingForInitRedeemMessage)
            } else {
                staying(state, lock_wait(swap, conf), limit)
            }
        },
        StateId::SellerWaitingForInitRedeemMessage => {
            let limit = swap.get_time_buyer_redeem_limit();
            if !are_locks_confirmed(swap, conf) {
                moving(StateId::SellerWaitingForLockConfirmations)
            } else if swap.redeem_slate.buyer_signature.is_some() {
                moving(StateId::SellerSendingInitRedeemMessage)
            } else if now >= limit {
                moving(StateId::SellerWaitingForRefundHeight)
            } else {
                staying(state, Action::SellerWaitingForInitRedeemMessage, limit)
            }
        },
        StateId::SellerSendingInitRedeemMessage => {
            let limit = swap.get_time_buyer_redeem_limit();
            if !are_locks_confirmed(swap, conf) {
                moving(StateId::SellerWaitingForLockConfirmations)
            } else if now >= limit {
                moving(StateId::SellerWaitingForRefundHeight)
            } else {
                let message = redeem_message(swap)?;
                staying(state, Action::SellerSendRedeemMessage(message), limit)
            }
        },
        StateId::SellerWaitingForBuyerToRedeemMwc => {
            if conf.mwc_redeem_conf.is_some() {
                moving(StateId::SellerRedeemSecondaryCurrency)
            } else if conf.mwc_tip >= swap.refund_slate.lock_height {
                moving(StateId::SellerWaitingForRefundHeight)
            } else {
                staying(
                    state,
                    Action::WaitForConfirmations {
                        mwc_required: 1,
                        mwc_actual: 0,
                        secondary_required: 0,
                        secondary_actual: 0,
                    },
                    swap.get_time_mwc_refund(),
                )
            }
        },
        StateId::SellerRedeemSecondaryCurrency => {
            let limit = swap.get_time_seller_redeem_limit();
            if conf.secondary_redeem_conf.is_some() {
                moving(StateId::SellerWaitingForRedeemConfirmations)
            } else if now >= limit {
                moving(StateId::SellerWaitingForRefundHeight)
            } else {
                staying(state, Action::SellerPublishTxSecondaryRedeem(swap.secondary_currency), limit)
            }
        },
        StateId::SellerWaitingForRedeemConfirmations => {
            if conf.secondary_redeem_conf.is_none() {
                moving(StateId::SellerRedeemSecondaryCurrency)
            } else if seen_confirmations(conf.secondary_redeem_conf) >= swap.secondary_confirmations {
                moving(StateId::SellerSwapComplete)
            } else {
                resting(
                    state,
                    Action::WaitForConfirmations {
                        mwc_required: 0,
                        mwc_actual: 0,
                        secondary_required: swap.secondary_confirmations,
                        secondary_actual: seen_confirmations(conf.secondary_redeem_conf),
                    },
                )
            }
        },
        StateId::SellerSwapComplete => moving(state),
        StateId::SellerWaitingForRefundHeight => {
            if conf.mwc_lock_conf.is_some() && conf.mwc_redeem_conf.is_some() && now
                < swap.get_time_seller_redeem_limit() {
                moving(StateId::SellerRedeemSecondaryCurrency)
            } else if conf.mwc_tip >= swap.refund_slate.lock_height {
                if conf.mwc_lock_conf.is_none() {
                    moving(StateId::SellerCancelled)
                } else {
                    moving(StateId::SellerPostingRefundSlate)
                }
            } else {
                Ok(StateProcessRespond::new(state).time_limit(clamp(swap.get_time_mwc_refund())))
            }
        },
        StateId::SellerPostingRefundSlate => {
            if conf.mwc_refund_conf.is_some() {
                moving(StateId::SellerWaitingForRefundConfirmations)
            } else {
                resting(state, Action::SellerPublishMwcRefundTx)
            }
        },
        StateId::SellerWaitingForRefundConfirmations => {
            if conf.mwc_refund_conf.is_none() {
                moving(StateId::SellerPostingRefundSlate)
            } else if seen_confirmations(conf.mwc_refund_conf) >= swap.mwc_confirmations {
                moving(StateId::SellerCancelledRefunded)
            } else {
                resting(
                    state,
                    Action::WaitForConfirmations {
                        mwc_required: swap.mwc_confirmations,
                        mwc_actual: seen_confirmations(conf.mwc_refund_conf),
                        secondary_required: 0,
                        secondary_actual: 0,
                    },
                )
            }
        },
        StateId::SellerCancelledRefunded => moving(state),
        StateId::SellerCancelled => moving(state),
        _ => Err(
            ErrorKind::SwapStateMachineError("The state does not belong to the seller".to_owned()),
        ),
    }
}

/// A measure that every move of `seller_check_spec` to another state makes smaller.
pub open spec fn seller_rank(
    state: StateId,
    swap: &Swap,
    conf: &SwapTransactionsConfirmations,
    now: i64,
) -> nat {
    let locked = conf.mwc_lock_conf is Some;
    let confirmed = locks_confirmed(swap, conf);
    let late = now >= swap.spec_time_seller_redeem_limit();
    match state {
        StateId::SellerOfferCreated => 43,
        StateId::SellerSendingOffer => 42,
        StateId::SellerWaitingForAcceptanceMessage => 41,
        StateId::SellerWaitingForBuyerLock => 40,
        StateId::SellerPostingLockMwcSlate => if locked {
            23
        } else {
            13
        },
        StateId::SellerWaitingForLockConfirmations => if confirmed {
            22
        } else if locked {
            15
        } else {
            14
        },
        StateId::SellerWaitingForInitRedeemMessage => if confirmed {
            21
        } else {
            30
        },
        StateId::SellerSendingInitRedeemMessage => if confirmed {
            20
        } else {
            31
        },
        StateId::SellerWaitingForBuyerToRedeemMwc => 12,
        StateId::SellerRedeemSecondaryCurrency => 6,
        StateId::SellerWaitingForRedeemConfirmations => if conf.secondary_redeem_conf is Some {
            5
        } else {
            7
        },
        StateId::SellerWaitingForRefundHeight => if late {
            4
        } else {
            10
        },
        StateId::SellerPostingRefundSlate => 2,
        StateId::SellerWaitingForRefundConfirmations => if conf.mwc_refund_conf is Some {
            1
        } else {
            3
        },
        _ => 0,
    }
}

/// Every move of the seller's check to another state lowers the measure, so
/// repeated checks under the same observations come to rest.
pub proof fn lemma_seller_check_descends(
    state: StateId,
    swap: &Swap,
    conf: &SwapTransactionsConfirmations,
    now: i64,
)
    ensures
        seller_check_spec(state, swap, conf, now) matches Ok(step) ==> step.next == state
            || seller_rank(step.next, swap, conf, now) < seller_rank(state, swap, conf, now),
        seller_check_spec(state, swap, conf, now) matches Ok(step)
            ==> step.next.spec_is_seller_state(),
{
}

} // verus!
