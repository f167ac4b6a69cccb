//! The runtime that drives a trade through the states of its party.

use vstd::prelude::*;
use crate::error::{ErrorCode, ErrorKind};
use crate::fsm::buyer_swap::{buyer_check, buyer_check_spec, buyer_rank, lemma_buyer_check_descends};
use crate::fsm::seller_swap::{
    check_result_is, go, lemma_seller_check_descends, seller_check, seller_check_spec, seller_rank,
};
use crate::fsm::state::{respond_is, Input, StateId, StateProcessRespond, Step};
use crate::message::{BtcUpdate, Message, MessageKind, SecondaryUpdate, Update};
use crate::swap::{BtcData, SecondaryData, Slate, Swap};
use crate::types::{Context, Role, RoleContext, Signature, SwapTransactionsConfirmations};

verus! {

/// What a check leads to in `state`, whichever party it belongs to.
pub open spec fn check_spec(
    state: StateId,
    swap: &Swap,
    conf: &SwapTransactionsConfirmations,
    now: i64,
) -> Result<Step, ErrorCode> {
    if state.spec_is_seller_state() {
        seller_check_spec(state, swap, conf, now)
    } else {
        buyer_check_spec(state, swap, conf, now)
    }
}

/// A measure that every move of a check to another state makes smaller.
pub open spec fn rank(
    state: StateId,
    swap: &Swap,
    conf: &SwapTransactionsConfirmations,
    now: i64,
) -> nat {
    if state.spec_is_seller_state() {
        seller_rank(state, swap, conf, now)
    } else {
        buyer_rank(state, swap, conf, now)
    }
}

/// Every move of a check to another state lowers the measure.
pub proof fn lemma_check_descends(
    state: StateId,
    swap: &Swap,
    conf: &SwapTransactionsConfirmations,
    now: i64,
)
    ensures
        check_spec(state, swap, conf, now) matches Ok(step) ==> step.next == state || rank(
            step.next,
            swap,
            conf,
            now,
        ) < rank(state, swap, conf, now),
{
    lemma_seller_check_descends(state, swap, conf, now);
    lemma_buyer_check_descends(state, swap, conf, now);
}

/// Checks the chains and the clock in `state`.
pub fn check(state: StateId, swap: &Swap, conf: &SwapTransactionsConfirmations, now: i64) -> (r:
    Result<StateProcessRespond, ErrorKind>)
    ensures
        check_result_is(r, check_spec(state, swap, conf, now), swap),
{
    if state.is_seller_state() {
        seller_check(state, swap, conf, now)
    } else {
        buyer_check(state, swap, conf, now)
    }
}

/// The deadline by which the pending action of `state` has to be carried
/// out, where it has one: the deadline of the message exchange for offer,
/// acceptance and primary lock, the buyer's redeem limit for the redeem
/// messages and the buyer's redeem, the seller's redeem limit for the
/// seller's redeem.
pub open spec fn action_deadline(state: StateId, swap: &Swap) -> Option<int> {
    match state {
        StateId::SellerSendingOffer
        | StateId::SellerPostingLockMwcSlate
        | StateId::BuyerSendingAcceptOfferMessage => Some(swap.spec_time_message_offers()),
        StateId::SellerSendingInitRedeemMessage
        | StateId::BuyerSendingInitRedeemMessage
        | StateId::BuyerRedeemMwc => Some(swap.spec_time_buyer_redeem_limit()),
        StateId::SellerRedeemSecondaryCurrency => Some(swap.spec_time_seller_redeem_limit()),
        _ => None,
    }
}

/// The state that follows `state` once its pending action has been carried out.
pub open spec fn state_after_action(state: StateId) -> Option<StateId> {
    match state {
        StateId::SellerSendingOffer => Some(StateId::SellerWaitingForAcceptanceMessage),
        StateId::SellerPostingLockMwcSlate => Some(StateId::SellerWaitingForLockConfirmations),
        StateId::SellerSendingInitRedeemMessage => Some(StateId::SellerWaitingForBuyerToRedeemMwc),
        StateId::SellerRedeemSecondaryCurrency => Some(
            StateId::SellerWaitingForRedeemConfirmations,
        ),
        StateId::SellerPostingRefundSlate => Some(StateId::SellerWaitingForRefundConfirmations),
        StateId::BuyerSendingAcceptOfferMessage => Some(StateId::BuyerWaitingForSellerToLock),
        StateId::BuyerSendingInitRedeemMessage => Some(
            StateId::BuyerWaitingForRespondRedeemMessage,
        ),
        StateId::BuyerRedeemMwc => Some(StateId::BuyerWaitForRedeemMwcConfirmations),
        StateId::BuyerPostingRefundForSecondary => Some(
            StateId::BuyerWaitingForRefundConfirmations,
        ),
        _ => None,
    }
}

/// The confirmations of a transaction that has just been posted: those
/// that the chain shows, and none yet where it does not show it.
pub open spec fn posted(conf: Option<u64>) -> Option<u64> {
    match conf {
        Some(n) => Some(n),
        None => Some(0),
    }
}

/// What is known of the chains once the action that is pending in `state`
/// has been carried out: the transaction that the action has posted is
/// under way, so that the state that waits for its confirmations does not
/// ask for it to be posted again before the chains have been looked at anew.
pub open spec fn conf_after_action(
    state: StateId,
    conf: SwapTransactionsConfirmations,
) -> SwapTransactionsConfirmations {
    match state {
        StateId::SellerPostingLockMwcSlate => SwapTransactionsConfirmations {
            mwc_lock_conf: posted(conf.mwc_lock_conf),
            ..conf
        },
        StateId::SellerRedeemSecondaryCurrency => SwapTransactionsConfirmations {
            secondary_redeem_conf: posted(conf.secondary_redeem_conf),
            ..conf
        },
        StateId::SellerPostingRefundSlate => SwapTransactionsConfirmations {
            mwc_refund_conf: posted(conf.mwc_refund_conf),
            ..conf
        },
        StateId::BuyerRedeemMwc => SwapTransactionsConfirmations {
            mwc_redeem_conf: posted(conf.mwc_redeem_conf),
            ..conf
        },
        StateId::BuyerPostingRefundForSecondary => SwapTransactionsConfirmations {
            secondary_refund_conf: posted(conf.secondary_refund_conf),
            ..conf
        },
        _ => conf,
    }
}

/// What is known of the chains once the action that is pending in `state`
/// has been carried out.
pub fn note_action(state: StateId, conf: &SwapTransactionsConfirmations) -> (r:
    SwapTransactionsConfirmations)
    ensures
        r == conf_after_action(state, *conf),
{
    let mut seen = *conf;
    match state {
        StateId::SellerPostingLockMwcSlate => {
            if seen.mwc_lock_conf.is_none() {
                seen.mwc_lock_conf = Some(0);
            }
        },
        StateId::SellerRedeemSecondaryCurrency => {
            if seen.secondary_redeem_conf.is_none() {
                seen.secondary_redeem_conf = Some(0);
            }
        },
        StateId::SellerPostingRefundSlate => {
            if seen.mwc_refund_conf.is_none() {
                seen.mwc_refund_conf = Some(0);
            }
        },
        StateId::BuyerRedeemMwc => {
            if seen.mwc_redeem_conf.is_none() {
                seen.mwc_redeem_conf = Some(0);
            }
        },
        StateId::BuyerPostingRefundForSecondary => {
            if seen.secondary_refund_conf.is_none() {
                seen.secondary_refund_conf = Some(0);
            }
        },
        _ => {},
    }
    seen
}

/// What is known of the chains once `input` has been fed to the trade in
/// `state`: after an action has been carried out, what `conf_after_action`
/// says; else what was known before.
pub open spec fn conf_after_input(
    input: &Input,
    state: StateId,
    conf: SwapTransactionsConfirmations,
) -> SwapTransactionsConfirmations {
    match *input {
        Input::Execute | Input::ExecuteWith { .. } => conf_after_action(state, conf),
        _ => conf,
    }
}

/// The state that follows `state` once the pending action has been carried
/// out at the time `now`: `InvalidSwapStateInput` where the state has no
/// action to carry out, `DeadlinePassed` where the action has a deadline and
/// `now` has reached it.
pub open spec fn execute_spec(state: StateId, swap: &Swap, now: i64) -> Result<StateId, ErrorCode> {
    match state_after_action(state) {
        None => Err(ErrorCode::InvalidSwapStateInput),
        Some(next) => match action_deadline(state, swap) {
            Some(limit) if now >= limit => Err(ErrorCode::DeadlinePassed),
            _ => Ok(next),
        },
    }
}

/// The state that follows `state` once the pending action has been carried
/// out at the time `now`.
pub fn execute(state: StateId, swap: &Swap, now: i64) -> (r: Result<StateId, ErrorKind>)
    ensures
        match execute_spec(state, swap, now) {
            Ok(next) => r == Ok::<StateId, ErrorKind>(next),
            Err(code) => r is Err && r->Err_0.spec_code() == code,
        },
{
    let next = match state {
        StateId::SellerSendingOffer => StateId::SellerWaitingForAcceptanceMessage,
        StateId::SellerPostingLockMwcSlate => StateId::SellerWaitingForLockConfirmations,
        StateId::SellerSendingInitRedeemMessage => StateId::SellerWaitingForBuyerToRedeemMwc,
        StateId::SellerRedeemSecondaryCurrency => StateId::SellerWaitingForRedeemConfirmations,
        StateId::SellerPostingRefundSlate => StateId::SellerWaitingForRefundConfirmations,
        StateId::BuyerSendingAcceptOfferMessage => StateId::BuyerWaitingForSellerToLock,
        StateId::BuyerSendingInitRedeemMessage => StateId::BuyerWaitingForRespondRedeemMessage,
        StateId::BuyerRedeemMwc => StateId::BuyerWaitForRedeemMwcConfirmations,
        StateId::BuyerPostingRefundForSecondary => StateId::BuyerWaitingForRefundConfirmations,
        _ => {
            return Err(
                ErrorKind::InvalidSwapStateInput("The state has no action to carry out".to_owned()),
            );
        },
    };
    let limit: Option<i128> = match state {
        StateId::SellerSendingOffer
        | StateId::SellerPostingLockMwcSlate
        | StateId::BuyerSendingAcceptOfferMessage => Some(swap.get_time_message_offers()),
        StateId::SellerSendingInitRedeemMessage
        | StateId::BuyerSendingInitRedeemMessage
        | StateId::BuyerRedeemMwc => Some(swap.get_time_buyer_redeem_limit()),
        StateId::SellerRedeemSecondaryCurrency => Some(swap.get_time_seller_redeem_limit()),
        _ => None,
    };
    match limit {
        Some(l) => {
            if now as i128 >= l {
                return Err(
                    ErrorKind::DeadlinePassed("The deadline of the action has passed".to_owned()),
                );
            }
        },
        None => {},
    }
    Ok(next)
}

/// The state that a cancellation leads to: the plain end while this party
/// has nothing on chain, the refund path from then on; `NotCancellable`
/// where the state is not cancellable.
pub open spec fn cancel_spec(state: StateId) -> Result<StateId, ErrorCode> {
    match state {
        StateId::SellerOfferCreated
        | StateId::SellerSendingOffer
        | StateId::SellerWaitingForAcceptanceMessage
        | StateId::SellerWaitingForBuyerLock
        | StateId::SellerPostingLockMwcSlate => Ok(StateId::SellerCancelled),
        StateId::SellerWaitingForLockConfirmations
        | StateId::SellerWaitingForInitRedeemMessage
        | StateId::SellerSendingInitRedeemMessage => Ok(StateId::SellerWaitingForRefundHeight),
        StateId::BuyerOfferCreated
        | StateId::BuyerSendingAcceptOfferMessage
        | StateId::BuyerWaitingForSellerToLock => Ok(StateId::BuyerCancelled),
        StateId::BuyerPostingSecondaryToMultisigAccount
        | StateId::BuyerWaitingForLockConfirmations
        | StateId::BuyerSendingInitRedeemMessage
        | StateId::BuyerWaitingForRespondRedeemMessage => Ok(StateId::BuyerWaitingForRefundTime),
        _ => Err(ErrorCode::NotCancellable),
    }
}

/// The state that a cancellation leads to.
pub fn cancel(state: StateId) -> (r: Result<StateId, ErrorKind>)
    ensures
        match cancel_spec(state) {
            Ok(next) => r == Ok::<StateId, ErrorKind>(next),
            Err(code) => r is Err && r->Err_0.spec_code() == code,
        },
{
    match state {
        StateId::SellerOfferCreated
        | StateId::SellerSendingOffer
        | StateId::SellerWaitingForAcceptanceMessage
        | StateId::SellerWaitingForBuyerLock
        | StateId::SellerPostingLockMwcSlate => Ok(StateId::SellerCancelled),
        StateId::SellerWaitingForLockConfirmations
        | StateId::SellerWaitingForInitRedeemMessage
        | StateId::SellerSendingInitRedeemMessage => Ok(StateId::SellerWaitingForRefundHeight),
        StateId::BuyerOfferCreated
        | StateId::BuyerSendingAcceptOfferMessage
        | StateId::BuyerWaitingForSellerToLock => Ok(StateId::BuyerCancelled),
        StateId::BuyerPostingSecondaryToMultisigAccount
        | StateId::BuyerWaitingForLockConfirmations
        | StateId::BuyerSendingInitRedeemMessage
        | StateId::BuyerWaitingForRespondRedeemMessage => Ok(StateId::BuyerWaitingForRefundTime),
        _ => Err(ErrorKind::NotCancellable),
    }
}

/// How a message relates to the phase that a trade is in.
#[derive(Clone, Copy, Debug, PartialEq, Eq, Structural)]
pub enum MessagePhase {
    /// The trade waits for this message.
    Consume,
    /// The trade has consumed a message of this kind before.
    Duplicate,
    /// The trade has ended.
    Mismatch,
    /// The trade does not take this message now.
    OutOfOrder,
}

/// Whether the trade has consumed a message of `kind` before. The buyer's
/// trade is made from the offer, so the buyer has always consumed it.
pub open spec fn message_consumed(swap: &Swap, kind: MessageKind) -> bool {
    match (swap.role, kind) {
        (Role::Seller, MessageKind::AcceptOffer) => swap.redeem_public is Some,
        (Role::Seller, MessageKind::InitRedeem) => swap.redeem_slate.buyer_signature is Some,
        (Role::Buyer, MessageKind::Offer) => true,
        (Role::Buyer, MessageKind::Redeem) => swap.adaptor_signature is Some,
        _ => false,
    }
}

/// The state in which a party waits for a message of `kind`.
pub open spec fn consuming_state(role: Role, kind: MessageKind) -> Option<StateId> {
    match (role, kind) {
        (Role::Seller, MessageKind::AcceptOffer) => Some(
            StateId::SellerWaitingForAcceptanceMessage,
        ),
        (Role::Seller, MessageKind::InitRedeem) => Some(StateId::SellerWaitingForInitRedeemMessage),
        (Role::Buyer, MessageKind::Redeem) => Some(StateId::BuyerWaitingForRespondRedeemMessage),
        _ => None,
    }
}

/// How a message of `kind` relates to the phase that the trade is in.
pub open spec fn message_phase(swap: &Swap, kind: MessageKind) -> MessagePhase {
    if swap.state.spec_is_final() {
        MessagePhase::Mismatch
    } else if message_consumed(swap, kind) {
        MessagePhase::Duplicate
    } else if consuming_state(swap.role, kind) == Some(swap.state) {
        MessagePhase::Consume
    } else {
        MessagePhase::OutOfOrder
    }
}

/// How a message of `kind` relates to the phase that the trade is in.
pub fn classify_message(swap: &Swap, kind: MessageKind) -> (p: MessagePhase)
    ensures
        p == message_phase(swap, kind),
{
    if swap.state.is_final() {
        return MessagePhase::Mismatch;
    }
    let consumed = match (swap.role, kind) {
        (Role::Seller, MessageKind::AcceptOffer) => swap.redeem_public.is_some(),
        (Role::Seller, MessageKind::InitRedeem) => swap.redeem_slate.buyer_signature.is_some(),
        (Role::Buyer, MessageKind::Offer) => true,
        (Role::Buyer, MessageKind::Redeem) => swap.adaptor_signature.is_some(),
        _ => false,
    };
    if consumed {
        return MessagePhase::Duplicate;
    }
    let waiting = match (swap.role, kind) {
        (Role::Seller, MessageKind::AcceptOffer) => swap.state
            == StateId::SellerWaitingForAcceptanceMessage,
        (Role::Seller, MessageKind::InitRedeem) => swap.state
            == StateId::SellerWaitingForInitRedeemMessage,
        (Role::Buyer, MessageKind::Redeem) => swap.state
            == StateId::BuyerWaitingForRespondRedeemMessage,
        _ => false,
    };
    if waiting {
        MessagePhase::Consume
    } else {
        MessagePhase::OutOfOrder
    }
}

/// The signature that is kept: one that is there is never replaced.
pub open spec fn keep_signature(held: Option<Signature>, incoming: Signature) -> Option<
    Signature,
> {
    match held {
        Some(s) => Some(s),
        None => Some(incoming),
    }
}

/// What keeps a message that the trade waits for from being taken in.
pub open spec fn consume_fault(swap: &Swap, m: &Message) -> Option<ErrorCode> {
    match m.inner {
        Update::AcceptOffer(_) => {
            if !(m.secondary_update matches SecondaryUpdate::BTC(BtcUpdate::AcceptOffer(_))) {
                Some(ErrorCode::UnexpectedMessageType)
            } else if !(swap.secondary_data is Btc) {
                Some(ErrorCode::UnexpectedCoinType)
            } else {
                None
            }
        },
        Update::InitRedeem(u) => {
            if u.redeem_slate.buyer_signature is None {
                Some(ErrorCode::UnexpectedMessageType)
            } else {
                None
            }
        },
        _ => None,
    }
}

/// The trade once the message, for which it waits, has been taken in.
pub open spec fn consume_spec(swap: Swap, m: Message) -> Swap {
    match m.inner {
        Update::AcceptOffer(u) => Swap {
            redeem_public: Some(u.redeem_public),
            lock_slate: Slate {
                buyer_signature: keep_signature(swap.lock_slate.buyer_signature, u.lock_signature),
                ..swap.lock_slate
            },
            refund_slate: Slate {
                buyer_signature: keep_signature(
                    swap.refund_slate.buyer_signature,
                    u.refund_signature,
                ),
                ..swap.refund_slate
            },
            secondary_data: SecondaryData::Btc(
                BtcData {
                    refund: Some(m.secondary_update->BTC_0->AcceptOffer_0),
                    ..swap.secondary_data->Btc_0
                },
            ),
            ..swap
        },
        Update::InitRedeem(u) => Swap { redeem_slate: u.redeem_slate, ..swap },
        Update::Redeem(u) => Swap { adaptor_signature: Some(u.adaptor_signature), ..swap },
        _ => swap,
    }
}

/// The state that follows once a message of `kind` has been taken in.
pub open spec fn state_after_message(kind: MessageKind, state: StateId) -> StateId {
    match kind {
        MessageKind::AcceptOffer => StateId::SellerWaitingForBuyerLock,
        MessageKind::InitRedeem => StateId::SellerSendingInitRedeemMessage,
        MessageKind::Redeem => StateId::BuyerRedeemMwc,
        _ => state,
    }
}

/// The first step that a message leads to: `Generic` for a message of another
/// trade, `StateMismatch` once the trade has ended, no move for a
/// duplicate, `UnexpectedMessageType` for a message out of order, and the
/// move to the next state for the message that the trade waits for.
pub open spec fn message_step_spec(swap: &Swap, m: &Message) -> Result<Step, ErrorCode> {
    if m.id@ != swap.id@ {
        Err(ErrorCode::Generic)
    } else {
        match message_phase(swap, m.spec_kind()) {
            MessagePhase::Mismatch => Err(ErrorCode::StateMismatch),
            MessagePhase::Duplicate => Ok(go(swap.state)),
            MessagePhase::OutOfOrder => Err(ErrorCode::UnexpectedMessageType),
            MessagePhase::Consume => match consume_fault(swap, m) {
                Some(code) => Err(code),
                None => Ok(go(state_after_message(m.spec_kind(), swap.state))),
            },
        }
    }
}

/// Whether `m` is taken in by the trade.
pub open spec fn message_taken(swap: &Swap, m: &Message) -> bool {
    &&& m.id@ == swap.id@
    &&& message_phase(swap, m.spec_kind()) == MessagePhase::Consume
    &&& consume_fault(swap, m) is None
}

/// Whether `m` repeats a message that the trade has consumed before.
pub open spec fn message_repeated(swap: &Swap, m: &Message) -> bool {
    m.id@ == swap.id@ && message_phase(swap, m.spec_kind()) == MessagePhase::Duplicate
}

/// The first step that `input` leads to in the state of the trade.
pub open spec fn first_step_spec(
    input: &Input,
    swap: &Swap,
    conf: &SwapTransactionsConfirmations,
    now: i64,
) -> Result<Step, ErrorCode> {
    match *input {
        Input::Check => check_spec(swap.state, swap, conf, now),
        Input::Execute | Input::ExecuteWith { .. } => match execute_spec(swap.state, swap, now) {
            Ok(next) => Ok(go(next)),
            Err(code) => Err(code),
        },
        Input::Cancel => match cancel_spec(swap.state) {
            Ok(next) => Ok(go(next)),
            Err(code) => Err(code),
        },
        Input::IncomeMessage(m) => message_step_spec(swap, &m),
    }
}

/// The trade as `input` leaves it, apart from its state.
pub open spec fn after_input(swap: Swap, input: Input) -> Swap {
    match input {
        Input::IncomeMessage(m) => if message_taken(&swap, &m) {
            consume_spec(swap, m)
        } else {
            swap
        },
        _ => swap,
    }
}

/// Whether `input` repeats a message that the trade has consumed before.
pub open spec fn input_repeated(swap: &Swap, input: &Input) -> bool {
    *input matches Input::IncomeMessage(m) && message_repeated(swap, &m)
}

/// Whether `note` is the note for the journal that an answer carries: the
/// words `duplicate message` for an input that repeats a message, else none.
pub open spec fn note_is(note: Option<String>, repeated: bool) -> bool {
    match note {
        Some(words) => repeated && words@ == "duplicate message"@,
        None => !repeated,
    }
}

/// Where repeated checks in the states `states` lead from `state`: the
/// answer of the first state that a check does not leave.
pub open spec fn settle_spec(
    states: Seq<StateId>,
    state: StateId,
    swap: &Swap,
    conf: &SwapTransactionsConfirmations,
    now: i64,
) -> Result<Step, ErrorCode>
    decreases rank(state, swap, conf, now),
{
    if !states.contains(state) {
        Err(ErrorCode::SwapStateMachineError)
    } else {
        match check_spec(state, swap, conf, now) {
            Err(code) => Err(code),
            Ok(step) => if step.next == state {
                Ok(step)
            } else {
                proof {
                    lemma_check_descends(state, swap, conf, now);
                }
                settle_spec(states, step.next, swap, conf, now)
            },
        }
    }
}

/// The answer to a first step: the step itself where it stays in `state`,
/// else where the checks lead from its next state.
pub open spec fn resolve_spec(
    states: Seq<StateId>,
    state: StateId,
    first: Result<Step, ErrorCode>,
    swap: &Swap,
    conf: &SwapTransactionsConfirmations,
    now: i64,
) -> Result<Step, ErrorCode> {
    match first {
        Err(code) => Err(code),
        Ok(step) => if step.next == state {
            Ok(step)
        } else {
            settle_spec(states, step.next, swap, conf, now)
        },
    }
}

/// Whether the private material is that of the party of the trade.
pub open spec fn context_fits(context: &Context, swap: &Swap) -> bool {
    (context.role_context is Seller) == (swap.role == Role::Seller)
}

/// The answer of a machine with the states `states` to `input`:
/// `UnexpectedRole` where the private material is the other party's,
/// `SwapStateMachineError` where the machine does not hold the state of the
/// trade, else what the first step and the checks after it lead to. The
/// checks that follow an action that has been carried out count its
/// transaction as posted.
pub open spec fn process_spec(
    states: Seq<StateId>,
    input: &Input,
    swap: &Swap,
    context: &Context,
    conf: &SwapTransactionsConfirmations,
    now: i64,
) -> Result<Step, ErrorCode> {
    if !context_fits(context, swap) {
        Err(ErrorCode::UnexpectedRole)
    } else if !states.contains(swap.state) {
        Err(ErrorCode::SwapStateMachineError)
    } else {
        resolve_spec(
            states,
            swap.state,
            first_step_spec(input, swap, conf, now),
            &after_input(*swap, *input),
            &conf_after_input(input, swap.state, *conf),
            now,
        )
    }
}

/// What keeps a machine with the states `states` from taking in the
/// message `m`, whatever the chains show: `UnexpectedRole` where the private
/// material is the other party's, `SwapStateMachineError` where the machine
/// does not hold the state of the trade, `Generic` for a message of
/// another trade, `StateMismatch` where the trade has ended,
/// `UnexpectedMessageType` for a message that the trade does not wait for
/// and has not taken before, and what `consume_fault` says of the message
/// that it waits for.
pub open spec fn message_fault(
    states: Seq<StateId>,
    swap: &Swap,
    context: &Context,
    m: &Message,
) -> Option<ErrorCode> {
    if !context_fits(context, swap) {
        Some(ErrorCode::UnexpectedRole)
    } else if !states.contains(swap.state) {
        Some(ErrorCode::SwapStateMachineError)
    } else {
        match message_step_spec(swap, m) {
            Err(code) => Some(code),
            Ok(_) => None,
        }
    }
}

/// The states of the seller, in the order of the protocol.
pub open spec fn seller_states() -> Seq<StateId> {
    seq![
        StateId::SellerOfferCreated,
        StateId::SellerSendingOffer,
        StateId::SellerWaitingForAcceptanceMessage,
        StateId::SellerWaitingForBuyerLock,
        StateId::SellerPostingLockMwcSlate,
        StateId::SellerWaitingForLockConfirmations,
        StateId::SellerWaitingForInitRedeemMessage,
        StateId::SellerSendingInitRedeemMessage,
        StateId::SellerWaitingForBuyerToRedeemMwc,
        StateId::SellerRedeemSecondaryCurrency,
        StateId::SellerWaitingForRedeemConfirmations,
        StateId::SellerSwapComplete,
        StateId::SellerWaitingForRefundHeight,
        StateId::SellerPostingRefundSlate,
        StateId::SellerWaitingForRefundConfirmations,
        StateId::SellerCancelledRefunded,
        StateId::SellerCancelled,
    ]
}

/// The states of the buyer, in the order of the protocol.
pub open spec fn buyer_states() -> Seq<StateId> {
    seq![
        StateId::BuyerOfferCreated,
        StateId::BuyerSendingAcceptOfferMessage,
        StateId::BuyerWaitingForSellerToLock,
        StateId::BuyerPostingSecondaryToMultisigAccount,
        StateId::BuyerWaitingForLockConfirmations,
        StateId::BuyerSendingInitRedeemMessage,
        StateId::BuyerWaitingForRespondRedeemMessage,
        StateId::BuyerRedeemMwc,
        StateId::BuyerWaitForRedeemMwcConfirmations,
        StateId::BuyerSwapComplete,
        StateId::BuyerWaitingForRefundTime,
        StateId::BuyerPostingRefundForSecondary,
        StateId::BuyerWaitingForRefundConfirmations,
        StateId::BuyerCancelledRefunded,
        StateId::BuyerCancelled,
    ]
}

/// Whether the answer `r` of a machine and the trade `after` are what
/// `expected` stands for: on success the trade is the one that the input
/// leaves, in the state of the answer, and the answer carries a note for the
/// journal exactly where the input repeats a consumed message; on failure
/// the trade is as it was.
pub open spec fn process_result_is(
    r: Result<StateProcessRespond, ErrorKind>,
    expected: Result<Step, ErrorCode>,
    before: Swap,
    after: Swap,
    input: Input,
) -> bool {
    match expected {
        Ok(step) => {
            &&& r is Ok
            &&& respond_is(&r->Ok_0, step, &after)
            &&& note_is(r->Ok_0.journal_message, input_repeated(&before, &input))
            &&& after == (Swap { state: step.next, ..after_input(before, input) })
        },
        Err(code) => r is Err && r->Err_0.spec_code() == code && after == before,
    }
}

/// An ordered list of states with the runtime that dispatches on them.
#[derive(Debug, PartialEq, Eq)]
pub struct StateMachine {
    pub states: Vec<StateId>,
}

impl StateMachine {
    /// A machine with the given states.
    pub fn new(states: Vec<StateId>) -> (m: StateMachine)
        ensures
            m.states == states,
    {
        StateMachine { states }
    }

    /// Whether the machine holds `state`.
    pub open spec fn spec_has_state(&self, state: &StateId) -> bool {
        self.states@.contains(*state)
    }

    /// Whether the machine holds `state`.
    #[verifier::when_used_as_spec(spec_has_state)]
    pub fn has_state(&self, state: &StateId) -> (r: bool)
        ensures
            r == self.spec_has_state(state),
    {
        let mut i: usize = 0;
        while i < self.states.len()
            invariant
                i <= self.states.len(),
                forall|j: int| 0 <= j < i ==> self.states@[j] != *state,
            decreases self.states.len() - i,
        {
            if self.states[i] == *state {
                return true;
            }
            i = i + 1;
        }
        false
    }

    /// Whether the trade can be cancelled in its state;
    /// `SwapStateMachineError` where the machine does not hold the state.
    pub fn is_cancellable(&self, swap: &Swap) -> (r: Result<bool, ErrorKind>)
        ensures
            self.spec_has_state(&swap.state) ==> r == Ok::<bool, ErrorKind>(
                swap.state.spec_is_cancellable(),
            ),
            !self.spec_has_state(&swap.state) ==> r matches Err(
                ErrorKind::SwapStateMachineError(_),
            ),
    {
        if !self.has_state(&swap.state) {
            return Err(ErrorKind::SwapStateMachineError("Unknown state".to_owned()));
        }
        Ok(swap.state.is_cancellable())
    }

    /// Whether the machine takes the message `m` in, before the chains
    /// are looked at: fails as `message_fault` says, and only then.
    pub fn admit_message(&self, m: &Message, swap: &Swap, context: &Context) -> (r: Result<
        (),
        ErrorKind,
    >)
        ensures
            message_fault(self.states@, swap, context, m) matches Some(code) ==> r is Err
                && r->Err_0.spec_code() == code,
            message_fault(self.states@, swap, context, m) is None ==> r is Ok,
    {
        let seller_material = match &context.role_context {
            RoleContext::Seller(_) => true,
            RoleContext::Buyer(_) => false,
        };
        if seller_material != swap.is_seller() {
            return Err(
                ErrorKind::UnexpectedRole("The private material is the other party's".to_owned()),
            );
        }
        if !self.has_state(&swap.state) {
            return Err(ErrorKind::SwapStateMachineError("Unknown state".to_owned()));
        }
        if !(m.id == swap.id) {
            return Err(
                ErrorKind::Generic("The message does not belong to the selected trade".to_owned()),
            );
        }
        match classify_message(swap, m.kind()) {
            MessagePhase::Mismatch => Err(
                ErrorKind::StateMismatch("The trade has ended".to_owned()),
            ),
            MessagePhase::OutOfOrder => Err(
                ErrorKind::UnexpectedMessageType("The trade does not take this message now".to_owned()),
            ),
            MessagePhase::Duplicate => Ok(()),
            MessagePhase::Consume => match &m.inner {
                Update::AcceptOffer(_) => {
                    match &m.secondary_update {
                        SecondaryUpdate::BTC(BtcUpdate::AcceptOffer(_)) => {},
                        _ => {
                            return Err(
                                ErrorKind::UnexpectedMessageType(
                                    "The acceptance lacks the refund key".to_owned(),
                                ),
                            );
                        },
                    }
                    match &swap.secondary_data {
                        SecondaryData::Btc(_) => Ok(()),
                        SecondaryData::Empty => Err(ErrorKind::UnexpectedCoinType),
                    }
                },
                Update::InitRedeem(u) => {
                    if u.redeem_slate.buyer_signature.is_none() {
                        return Err(
                            ErrorKind::UnexpectedMessageType(
                                "The redeem slate is not signed by the buyer".to_owned(),
                            ),
                        );
                    }
                    Ok(())
                },
                _ => Ok(()),
            },
        }
    }

    /// Checks again and again, from the answer `first` given in `state`,
    /// until a state is reached that a check does not leave.
    fn settle(
        &self,
        first: StateProcessRespond,
        state: StateId,
        swap: &Swap,
        conf: &SwapTransactionsConfirmations,
        now: i64,
        Ghost(step): Ghost<Step>,
    ) -> (r: Result<StateProcessRespond, ErrorKind>)
        requires
            respond_is(&first, step, swap),
            first.journal_message is None,
        ensures
            check_result_is(r, resolve_spec(self.states@, state, Ok(step), swap, conf, now), swap),
    {
        let mut respond = first;
        let mut cur = state;
        let ghost mut cur_step = step;
        while respond.next_state_id != cur
            invariant
                respond_is(&respond, cur_step, swap),
                respond.journal_message is None,
                resolve_spec(self.states@, cur, Ok(cur_step), swap, conf, now) == resolve_spec(
                    self.states@,
                    state,
                    Ok(step),
                    swap,
                    conf,
                    now,
                ),
            decreases
                    rank(respond.next_state_id, swap, conf, now) + (if respond.next_state_id != cur {
                        1nat
                    } else {
                        0nat
                    }),
        {
            cur = respond.next_state_id;
            if !self.has_state(&cur) {
                return Err(ErrorKind::SwapStateMachineError("Unknown state".to_owned()));
            }
            proof {
                lemma_check_descends(cur, swap, conf, now);
            }
            match check(cur, swap, conf, now) {
                Ok(r) => {
                    proof {
                        cur_step = check_spec(cur, swap, conf, now)->Ok_0;
                    }
                    respond = r;
                },
                Err(e) => {
                    return Err(e);
                },
            }
        }
        Ok(respond)
    }

    /// Takes in a message of the other party.
    fn take_message(
        &self,
        m: Message,
        swap: &mut Swap,
        conf: &SwapTransactionsConfirmations,
        now: i64,
    ) -> (r: Result<StateProcessRespond, ErrorKind>)
        requires
            self.states@.contains(old(swap).state),
        ensures
            process_result_is(
                r,
                resolve_spec(
                    self.states@,
                    old(swap).state,
                    message_step_spec(old(swap), &m),
                    &after_input(*old(swap), Input::IncomeMessage(m)),
                    conf,
                    now,
                ),
                *old(swap),
                *final(swap),
                Input::IncomeMessage(m),
            ),
    {
        if !(m.id == swap.id) {
            return Err(
                ErrorKind::Generic("The message does not belong to the selected trade".to_owned()),
            );
        }
        let state = swap.state;
        match classify_message(swap, m.kind()) {
            MessagePhase::Mismatch => Err(
                ErrorKind::StateMismatch("The trade has ended".to_owned()),
            ),
            MessagePhase::OutOfOrder => Err(
                ErrorKind::UnexpectedMessageType("The trade does not take this message now".to_owned()),
            ),
            MessagePhase::Duplicate => Ok(
                StateProcessRespond {
                    next_state_id: state,
                    action: None,
                    time_limit: None,
                    journal_message: Some("duplicate message".to_owned()),
                },
            ),
            MessagePhase::Consume => {
                let Message { id: _, inner, secondary_update } = m;
                match inner {
                    Update::AcceptOffer(u) => {
                        let refund = match secondary_update {
                            SecondaryUpdate::BTC(BtcUpdate::AcceptOffer(key)) => key,
                            _ => {
                                return Err(
                                    ErrorKind::UnexpectedMessageType(
                                        "The acceptance lacks the refund key".to_owned(),
                                    ),
                                );
                            },
                        };
                        let btc = match swap.secondary_data {
                            SecondaryData::Btc(d) => d,
                            SecondaryData::Empty => {
                                return Err(ErrorKind::UnexpectedCoinType);
                            },
                        };
                        let held_public = swap.redeem_public;
                        let held_lock = swap.lock_slate.buyer_signature;
                        let held_refund = swap.refund_slate.buyer_signature;
                        let held_data = swap.secondary_data;
                        swap.redeem_public = Some(u.redeem_public);
                        if swap.lock_slate.buyer_signature.is_none() {
                            swap.lock_slate.buyer_signature = Some(u.lock_signature);
                        }
                        if swap.refund_slate.buyer_signature.is_none() {
                            swap.refund_slate.buyer_signature = Some(u.refund_signature);
                        }
                        swap.secondary_data = SecondaryData::Btc(
                            BtcData {
                                cosign: btc.cosign,
                                refund: Some(refund),
                                redeem_tx: btc.redeem_tx,
                                refund_tx: btc.refund_tx,
                            },
                        );
                        let next = StateId::SellerWaitingForBuyerLock;
                        match self.settle(
                            StateProcessRespond::new(next),
                            state,
                            swap,
                            conf,
                            now,
                            Ghost(go(next)),
                        ) {
                            Ok(r) => {
                                swap.state = r.next_state_id;
                                Ok(r)
                            },
                            Err(e) => {
                                swap.redeem_public = held_public;
                                swap.lock_slate.buyer_signature = held_lock;
                                swap.refund_slate.buyer_signature = held_refund;
                                swap.secondary_data = held_data;
                                Err(e)
                            },
                        }
                    },
                    Update::InitRedeem(u) => {
                        if u.redeem_slate.buyer_signature.is_none() {
                            return Err(
                                ErrorKind::UnexpectedMessageType(
                                    "The redeem slate is not signed by the buyer".to_owned(),
                                ),
                            );
                        }
                        let mut slate = u.redeem_slate;
                        core::mem::swap(&mut swap.redeem_slate, &mut slate);
                        let next = StateId::SellerSendingInitRedeemMessage;
                        match self.settle(
                            StateProcessRespond::new(next),
                            state,
                            swap,
                            conf,
                            now,
                            Ghost(go(next)),
                        ) {
                            Ok(r) => {
                                swap.state = r.next_state_id;
                                Ok(r)
                            },
                            Err(e) => {
                                core::mem::swap(&mut swap.redeem_slate, &mut slate);
                                Err(e)
                            },
                        }
                    },
                    Update::Redeem(u) => {
                        let held = swap.adaptor_signature;
                        swap.adaptor_signature = Some(u.adaptor_signature);
                        let next = StateId::BuyerRedeemMwc;
                        match self.settle(
                            StateProcessRespond::new(next),
                            state,
                            swap,
                            conf,
                            now,
                            Ghost(go(next)),
                        ) {
                            Ok(r) => {
                                swap.state = r.next_state_id;
                                Ok(r)
                            },
                            Err(e) => {
                                swap.adaptor_signature = held;
                                Err(e)
                            },
                        }
                    },
                    _ => Err(
                        ErrorKind::UnexpectedMessageType(
                            "The trade does not take this message now".to_owned(),
                        ),
                    ),
                }
            },
        }
    }

    /// Feeds `input` to the state of the trade and then checks until the
    /// trade rests. On failure the trade is left as it was.
    pub fn process(
        &self,
        input: Input,
        swap: &mut Swap,
        context: &Context,
        tx_conf: &SwapTransactionsConfirmations,
        now: i64,
    ) -> (r: Result<StateProcessRespond, ErrorKind>)
        ensures
            process_result_is(
                r,
                process_spec(self.states@, &input, old(swap), context, tx_conf, now),
                *old(swap),
                *final(swap),
                input,
            ),
    {
        let seller_material = match &context.role_context {
            RoleContext::Seller(_) => true,
            RoleContext::Buyer(_) => false,
        };
        if seller_material != swap.is_seller() {
            return Err(
                ErrorKind::UnexpectedRole("The private material is the other party's".to_owned()),
            );
        }
        if !self.has_state(&swap.state) {
            return Err(ErrorKind::SwapStateMachineError("Unknown state".to_owned()));
        }
        let state = swap.state;
        match input {
            Input::Check => {
                let first = check(state, swap, tx_conf, now)?;
                let r = self.settle(
                    first,
                    state,
                    swap,
                    tx_conf,
                    now,
                    Ghost(check_spec(state, swap, tx_conf, now)->Ok_0),
                )?;
                swap.state = r.next_state_id;
                Ok(r)
            },
            Input::Execute | Input::ExecuteWith { .. } => {
                let next = execute(state, swap, now)?;
                let seen = note_action(state, tx_conf);
                let r = self.settle(
                    StateProcessRespond::new(next),
                    state,
                    swap,
                    &seen,
                    now,
                    Ghost(go(next)),
                )?;
                swap.state = r.next_state_id;
                Ok(r)
            },
            Input::Cancel => {
                let next = cancel(state)?;
                let r = self.settle(
                    StateProcessRespond::new(next),
                    state,
                    swap,
                    tx_conf,
                    now,
                    Ghost(go(next)),
                )?;
                swap.state = r.next_state_id;
                Ok(r)
            },
            Input::IncomeMessage(m) => self.take_message(m, swap, tx_conf, now),
        }
    }
}

/// The machine of the seller.
pub fn seller_machine() -> (m: StateMachine)
    ensures
        m.states@ == seller_states(),
{
    let states = vec![
        StateId::SellerOfferCreated,
        StateId::SellerSendingOffer,
        StateId::SellerWaitingForAcceptanceMessage,
        StateId::SellerWaitingForBuyerLock,
        StateId::SellerPostingLockMwcSlate,
        StateId::SellerWaitingForLockConfirmations,
        StateId::SellerWaitingForInitRedeemMessage,
        StateId::SellerSendingInitRedeemMessage,
        StateId::SellerWaitingForBuyerToRedeemMwc,
        StateId::SellerRedeemSecondaryCurrency,
        StateId::SellerWaitingForRedeemConfirmations,
        StateId::SellerSwapComplete,
        StateId::SellerWaitingForRefundHeight,
        StateId::SellerPostingRefundSlate,
        StateId::SellerWaitingForRefundConfirmations,
        StateId::SellerCancelledRefunded,
        StateId::SellerCancelled,
    ];
    assert(states@ =~= seller_states());
    StateMachine::new(states)
}

/// The machine of the buyer.
pub fn buyer_machine() -> (m: StateMachine)
    ensures
        m.states@ == buyer_states(),
{
    let states = vec![
        StateId::BuyerOfferCreated,
        StateId::BuyerSendingAcceptOfferMessage,
        StateId::BuyerWaitingForSellerToLock,
        StateId::BuyerPostingSecondaryToMultisigAccount,
        StateId::BuyerWaitingForLockConfirmations,
        StateId::BuyerSendingInitRedeemMessage,
        StateId::BuyerWaitingForRespondRedeemMessage,
        StateId::BuyerRedeemMwc,
        StateId::BuyerWaitForRedeemMwcConfirmations,
        StateId::BuyerSwapComplete,
        StateId::BuyerWaitingForRefundTime,
        StateId::BuyerPostingRefundForSecondary,
        StateId::BuyerWaitingForRefundConfirmations,
        StateId::BuyerCancelledRefunded,
        StateId::BuyerCancelled,
    ];
    assert(states@ =~= buyer_states());
    StateMachine::new(states)
}

} // verus!
