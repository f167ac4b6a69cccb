//! Laws of the state machines and of the timing rules.

use vstd::prelude::*;
use crate::error::{ErrorCode, ErrorKind};
use crate::fsm::machine::{
    after_input, buyer_states, cancel_spec, check_spec, context_fits, execute_spec,
    lemma_check_descends, state_after_action,
    message_fault, message_repeated, process_result_is, process_spec, rank, seller_states,
    settle_spec,
};
use crate::fsm::seller_swap::{
    buyer_lock_seen, go, locks_confirmed, seen, wait_for_locks, wait_for_secondary,
    BUYER_LOCK_CONFIRMATIONS,
};
use crate::fsm::state::{
    respond_is, Action, ActionCode, Input, StateId, StateProcessRespond, Step,
};
use crate::message::{can_init_redeem, Message};
use crate::owner_swap::{
    carried_out, machine_states, published_as, signature_needed, taken_in, trade_processed,
};
use crate::trades::TradeRecord;
use crate::swap::{refund_blocks, Slate, Swap};
use crate::types::{
    Context, Role, SwapTransactionsConfirmations, BLOCK_INTERVAL_SEC, SAFETY_MARGIN_SEC,
};

verus! {

/// Where the checks come to rest, a further check stays: the state is held
/// by the machine and its check gives the same answer without a move.
pub proof fn lemma_settled_state_is_stable(
    states: Seq<StateId>,
    state: StateId,
    swap: &Swap,
    conf: &SwapTransactionsConfirmations,
    now: i64,
)
    ensures
        settle_spec(states, state, swap, conf, now) matches Ok(step) ==> states.contains(step.next)
            && check_spec(step.next, swap, conf, now) == Ok::<Step, ErrorCode>(step),
    decreases rank(state, swap, conf, now),
{
    if states.contains(state) {
        match check_spec(state, swap, conf, now) {
            Ok(step) => {
                if step.next != state {
                    lemma_check_descends(state, swap, conf, now);
                    lemma_settled_state_is_stable(states, step.next, swap, conf, now);
                }
            },
            Err(_) => {},
        }
    }
}

/// A check does not read the state that the trade record holds: it is
/// given the state to check.
pub proof fn lemma_check_ignores_recorded_state(
    state: StateId,
    swap: Swap,
    recorded: StateId,
    conf: &SwapTransactionsConfirmations,
    now: i64,
)
    ensures
        check_spec(state, &(Swap { state: recorded, ..swap }), conf, now) == check_spec(
            state,
            &swap,
            conf,
            now,
        ),
{
}

/// Checks under unchanged observations are idempotent. Let a check of the
/// trade `swap` succeed and leave it in the state of its answer. Then every
/// further check, with the same confirmations and at the same time, gives
/// the same answer and leaves the state, the three slates and all else of
/// the trade as they are.
pub proof fn law_check_is_idempotent(
    states: Seq<StateId>,
    swap: Swap,
    context: Context,
    conf: SwapTransactionsConfirmations,
    now: i64,
)
    ensures
        process_spec(states, &Input::Check, &swap, &context, &conf, now) matches Ok(step) ==> {
            let rested = Swap { state: step.next, ..swap };
            &&& process_spec(states, &Input::Check, &rested, &context, &conf, now) == Ok::<
                Step,
                ErrorCode,
            >(step)
            &&& after_input(rested, Input::Check) == rested
            &&& (Swap { state: step.next, ..after_input(rested, Input::Check) }) == rested
            &&& rested.lock_slate == swap.lock_slate
            &&& rested.redeem_slate == swap.redeem_slate
            &&& rested.refund_slate == swap.refund_slate
        },
{
    if let Ok(step) = process_spec(states, &Input::Check, &swap, &context, &conf, now) {
        let rested = Swap { state: step.next, ..swap };
        let first = check_spec(swap.state, &swap, &conf, now);
        assert(first is Ok);
        if first->Ok_0.next == swap.state {
            assert(step == first->Ok_0);
        } else {
            lemma_settled_state_is_stable(states, first->Ok_0.next, &swap, &conf, now);
        }
        assert(states.contains(step.next));
        assert(check_spec(step.next, &swap, &conf, now) == Ok::<Step, ErrorCode>(step));
        lemma_check_ignores_recorded_state(step.next, swap, step.next, &conf, now);
    }
}

/// Whether no deadline of the trade lies between the times `a` and `b`:
/// each deadline has been reached at both or at neither.
pub open spec fn no_deadline_between(swap: &Swap, a: i64, b: i64) -> bool {
    &&& (a >= swap.spec_time_message_offers()) == (b >= swap.spec_time_message_offers())
    &&& (a >= swap.spec_time_buyer_redeem_limit()) == (b >= swap.spec_time_buyer_redeem_limit())
    &&& (a >= swap.spec_time_seller_redeem_limit()) == (b >= swap.spec_time_seller_redeem_limit())
    &&& (a >= swap.spec_time_btc_lock()) == (b >= swap.spec_time_btc_lock())
}

/// A check reads the clock only to tell which deadlines have been
/// reached: at two times with no deadline between them it gives the same.
pub proof fn lemma_check_reads_deadlines_only(
    state: StateId,
    swap: &Swap,
    conf: &SwapTransactionsConfirmations,
    a: i64,
    b: i64,
)
    requires
        no_deadline_between(swap, a, b),
    ensures
        check_spec(state, swap, conf, a) == check_spec(state, swap, conf, b),
        rank(state, swap, conf, a) == rank(state, swap, conf, b),
{
}

/// Repeated checks come to rest in the same way at two times with no
/// deadline between them.
pub proof fn lemma_settling_reads_deadlines_only(
    states: Seq<StateId>,
    state: StateId,
    swap: &Swap,
    conf: &SwapTransactionsConfirmations,
    a: i64,
    b: i64,
)
    requires
        no_deadline_between(swap, a, b),
    ensures
        settle_spec(states, state, swap, conf, a) == settle_spec(states, state, swap, conf, b),
    decreases rank(state, swap, conf, a),
{
    lemma_check_reads_deadlines_only(state, swap, conf, a, b);
    if states.contains(state) {
        match check_spec(state, swap, conf, a) {
            Ok(step) => {
                if step.next != state {
                    lemma_check_descends(state, swap, conf, a);
                    lemma_settling_reads_deadlines_only(states, step.next, swap, conf, a, b);
                }
            },
            Err(_) => {},
        }
    }
}

/// Checks under unchanged observations are idempotent also as time goes
/// by. Let a check of the trade succeed at the time `first` and leave it in
/// the state of its answer. Then a check at a later or earlier time
/// `second`, with the same confirmations and with no deadline of the trade
/// between the two times, gives the same answer and leaves the trade as it
/// is.
pub proof fn law_check_is_idempotent_between_deadlines(
    states: Seq<StateId>,
    swap: Swap,
    context: Context,
    conf: SwapTransactionsConfirmations,
    first: i64,
    second: i64,
)
    requires
        no_deadline_between(&swap, first, second),
    ensures
        process_spec(states, &Input::Check, &swap, &context, &conf, first) matches Ok(step) ==> {
            let rested = Swap { state: step.next, ..swap };
            &&& process_spec(states, &Input::Check, &rested, &context, &conf, second) == Ok::<
                Step,
                ErrorCode,
            >(step)
            &&& (Swap { state: step.next, ..after_input(rested, Input::Check) }) == rested
        },
{
    law_check_is_idempotent(states, swap, context, conf, first);
    if let Ok(step) = process_spec(states, &Input::Check, &swap, &context, &conf, first) {
        let rested = Swap { state: step.next, ..swap };
        lemma_check_reads_deadlines_only(rested.state, &rested, &conf, first, second);
        let again = check_spec(rested.state, &rested, &conf, first);
        if again is Ok && again->Ok_0.next != rested.state {
            lemma_settling_reads_deadlines_only(states, again->Ok_0.next, &rested, &conf, first, second);
        }
    }
}

/// Whether two actions ask for the same: the same kind of action with the
/// same values, a message with the same content.
pub open spec fn same_action(a: Option<Action>, b: Option<Action>) -> bool {
    match (a, b) {
        (None, None) => true,
        (Some(Action::SellerSendOfferMessage(m)), Some(Action::SellerSendOfferMessage(n))) => m.same(
            &n,
        ),
        (
            Some(Action::BuyerSendAcceptOfferMessage(m)),
            Some(Action::BuyerSendAcceptOfferMessage(n)),
        ) => m.same(&n),
        (
            Some(Action::BuyerSendInitRedeemMessage(m)),
            Some(Action::BuyerSendInitRedeemMessage(n)),
        ) => m.same(&n),
        (Some(Action::SellerSendRedeemMessage(m)), Some(Action::SellerSendRedeemMessage(n))) => m.same(
            &n,
        ),
        (
            Some(Action::DepositSecondary { currency, amount, address }),
            Some(Action::DepositSecondary { currency: c, amount: n, address: d }),
        ) => currency == c && amount == n && address@ == d@,
        (Some(x), Some(y)) => x == y,
        _ => false,
    }
}

/// Two answers that stand for one step of one trade agree in everything:
/// the state, the time limit and the action, down to the message that the
/// action carries. With `law_check_is_idempotent` this gives that a
/// repeated check answers with the same action.
pub proof fn law_answers_of_one_step_agree(
    first: StateProcessRespond,
    second: StateProcessRespond,
    step: Step,
    swap: Swap,
)
    requires
        respond_is(&first, step, &swap),
        respond_is(&second, step, &swap),
    ensures
        first.next_state_id == second.next_state_id,
        first.time_limit == second.time_limit,
        same_action(first.action, second.action),
{
}

/// A message of a kind that the trade has consumed before is ignored: in a
/// machine that holds the state of the trade, and with the private material
/// of its party, the answer is a success that names the state of the trade,
/// and the trade stays as it is.
pub proof fn law_duplicate_message_is_ignored(
    states: Seq<StateId>,
    swap: Swap,
    context: Context,
    conf: SwapTransactionsConfirmations,
    now: i64,
    m: Message,
)
    requires
        context_fits(&context, &swap),
        states.contains(swap.state),
        message_repeated(&swap, &m),
    ensures
        process_spec(states, &Input::IncomeMessage(m), &swap, &context, &conf, now) == Ok::<
            Step,
            ErrorCode,
        >(go(swap.state)),
        after_input(swap, Input::IncomeMessage(m)) == swap,
        forall|r: Result<StateProcessRespond, ErrorKind>, after: Swap|
            process_result_is(
                r,
                process_spec(states, &Input::IncomeMessage(m), &swap, &context, &conf, now),
                swap,
                after,
                Input::IncomeMessage(m),
            ) ==> r is Ok && after == swap,
{
}

/// In a state that is not cancellable a cancellation fails, and the trade
/// stays as it is.
pub proof fn law_cancel_fails_where_not_cancellable(
    states: Seq<StateId>,
    swap: Swap,
    context: Context,
    conf: SwapTransactionsConfirmations,
    now: i64,
)
    requires
        !swap.state.spec_is_cancellable(),
    ensures
        process_spec(states, &Input::Cancel, &swap, &context, &conf, now) is Err,
        context_fits(&context, &swap) && states.contains(swap.state) ==> process_spec(
            states,
            &Input::Cancel,
            &swap,
            &context,
            &conf,
            now,
        ) == Err::<Step, ErrorCode>(ErrorCode::NotCancellable),
        forall|r: Result<StateProcessRespond, ErrorKind>, after: Swap|
            process_result_is(
                r,
                process_spec(states, &Input::Cancel, &swap, &context, &conf, now),
                swap,
                after,
                Input::Cancel,
            ) ==> r is Err && after == swap,
{
}

/// In every valid offer the secondary lock time lies more than the safety
/// margin after the primary refund time.
pub proof fn law_secondary_lock_after_primary_refund(swap: Swap)
    requires
        swap.offer_valid(),
    ensures
        swap.spec_time_btc_lock() > swap.spec_time_mwc_refund() + SAFETY_MARGIN_SEC,
{
}

/// The secondary lock time lies more than the safety margin after the
/// primary refund time exactly where the message exchange and two redeem
/// spans together outlast the blocks that the primary refund waits for; a
/// redeem span of at least one block interval is enough for that.
pub proof fn lemma_lock_order_by_spans(swap: Swap)
    ensures
        (swap.spec_time_btc_lock() > swap.spec_time_mwc_refund() + SAFETY_MARGIN_SEC) <==> (
        swap.message_exchange_time_sec + 2 * swap.redeem_time_sec > refund_blocks(
            swap.message_exchange_time_sec,
            swap.redeem_time_sec,
        ) * BLOCK_INTERVAL_SEC),
        swap.redeem_time_sec >= BLOCK_INTERVAL_SEC ==> swap.spec_time_btc_lock()
            > swap.spec_time_mwc_refund() + SAFETY_MARGIN_SEC,
{
}

/// The primary refund time is the start of the trade plus one block
/// interval for each block between the height of the offer and the refund
/// height, where the refund slate is locked as far above the lock slate as
/// the offer asks.
pub proof fn lemma_refund_time_by_height(swap: Swap)
    requires
        swap.refund_slate.lock_height == swap.lock_slate.height + refund_blocks(
            swap.message_exchange_time_sec,
            swap.redeem_time_sec,
        ),
    ensures
        swap.spec_time_mwc_refund() == swap.started + (swap.refund_slate.lock_height
            - swap.lock_slate.height) * BLOCK_INTERVAL_SEC,
{
}

/// What is fixed when a trade is made stays fixed: whatever the input, the
/// state machine leaves the identifier, the role, the network, the amounts,
/// the secondary currency, the required confirmations, the time spans,
/// the lock order and the start of the trade as they are. On success its
/// answer names the state in which the trade now is, and on failure the
/// whole trade is as it was.
pub proof fn law_terms_are_fixed(
    r: Result<StateProcessRespond, ErrorKind>,
    states: Seq<StateId>,
    input: Input,
    before: Swap,
    after: Swap,
    context: Context,
    conf: SwapTransactionsConfirmations,
    now: i64,
)
    requires
        process_result_is(
            r,
            process_spec(states, &input, &before, &context, &conf, now),
            before,
            after,
            input,
        ),
    ensures
        after.same_terms(&before),
        r is Ok ==> r->Ok_0.next_state_id == after.state,
        r is Err ==> after == before,
{
}

/// What has been signed or handed over is never replaced: whatever the
/// input, the state machine leaves the seller's signatures alone, adds the
/// buyer's signature to the lock and to the refund slate only where there
/// was none, and replaces neither a redeem slate that the buyer has
/// signed, nor a redeem point, nor an adaptor signature that the trade
/// holds.
pub proof fn law_signatures_are_kept(
    r: Result<StateProcessRespond, ErrorKind>,
    states: Seq<StateId>,
    input: Input,
    before: Swap,
    after: Swap,
    context: Context,
    conf: SwapTransactionsConfirmations,
    now: i64,
)
    requires
        process_result_is(
            r,
            process_spec(states, &input, &before, &context, &conf, now),
            before,
            after,
            input,
        ),
    ensures
        after.lock_slate == (Slate {
            buyer_signature: after.lock_slate.buyer_signature,
            ..before.lock_slate
        }),
        after.refund_slate == (Slate {
            buyer_signature: after.refund_slate.buyer_signature,
            ..before.refund_slate
        }),
        before.lock_slate.buyer_signature is Some ==> after.lock_slate == before.lock_slate,
        before.refund_slate.buyer_signature is Some ==> after.refund_slate == before.refund_slate,
        before.redeem_slate.buyer_signature is Some && before.role == Role::Seller
            ==> after.redeem_slate == before.redeem_slate,
        before.role == Role::Buyer ==> after.redeem_slate == before.redeem_slate,
        before.redeem_public is Some ==> after.redeem_public == before.redeem_public,
        before.adaptor_signature is Some ==> after.adaptor_signature == before.adaptor_signature,
{
}

/// The deadlines of a trade follow one another: the message exchange ends
/// no later than the buyer's redeem limit, which lies before the primary
/// refund time; the seller's redeem limit lies after the primary refund
/// time and before the secondary lock time. This holds for every trade
/// whose redeem span is not empty.
pub proof fn law_deadlines_are_ordered(swap: Swap)
    requires
        swap.redeem_time_sec > 0,
    ensures
        swap.spec_time_message_offers() <= swap.spec_time_buyer_redeem_limit(),
        swap.spec_time_buyer_redeem_limit() < swap.spec_time_mwc_refund(),
        swap.spec_time_mwc_refund() < swap.spec_time_seller_redeem_limit(),
        swap.spec_time_seller_redeem_limit() < swap.spec_time_btc_lock(),
{
}

/// Whether the trade is on its way out in `state`: on the refund path, at
/// an end, or, for the seller, at the redeem of the secondary asset.
pub open spec fn winding_down(state: StateId) -> bool {
    match state {
        StateId::SellerRedeemSecondaryCurrency
        | StateId::SellerWaitingForRedeemConfirmations
        | StateId::SellerSwapComplete
        | StateId::SellerWaitingForRefundHeight
        | StateId::SellerPostingRefundSlate
        | StateId::SellerWaitingForRefundConfirmations
        | StateId::SellerCancelledRefunded
        | StateId::SellerCancelled
        | StateId::BuyerWaitingForRefundTime
        | StateId::BuyerPostingRefundForSecondary
        | StateId::BuyerWaitingForRefundConfirmations
        | StateId::BuyerCancelledRefunded
        | StateId::BuyerCancelled => true,
        _ => false,
    }
}

/// Whether the states `states` hold every state in which a trade of the
/// party of `state` is on its way out.
pub open spec fn holds_way_out(states: Seq<StateId>, state: StateId) -> bool {
    forall|other: StateId|
        #[trigger] winding_down(other) && other.spec_is_seller_state()
            == state.spec_is_seller_state() ==> states.contains(other)
}

/// A trade on its way out never gets stuck: from such a state the checks
/// come to rest without failure, in another such state of the same party.
pub proof fn lemma_way_out_settles(
    states: Seq<StateId>,
    state: StateId,
    swap: &Swap,
    conf: &SwapTransactionsConfirmations,
    now: i64,
)
    requires
        winding_down(state),
        holds_way_out(states, state),
    ensures
        settle_spec(states, state, swap, conf, now) is Ok,
        winding_down(settle_spec(states, state, swap, conf, now)->Ok_0.next),
        settle_spec(states, state, swap, conf, now)->Ok_0.next.spec_is_seller_state()
            == state.spec_is_seller_state(),
    decreases rank(state, swap, conf, now),
{
    assert(states.contains(state));
    let first = check_spec(state, swap, conf, now);
    assert(first is Ok);
    assert(winding_down(first->Ok_0.next));
    assert(first->Ok_0.next.spec_is_seller_state() == state.spec_is_seller_state());
    if first->Ok_0.next != state {
        lemma_check_descends(state, swap, conf, now);
        lemma_way_out_settles(states, first->Ok_0.next, swap, conf, now);
    }
}

/// The machines of both parties hold every state on the way out of their party.
pub proof fn lemma_machines_hold_way_out()
    ensures
        forall|state: StateId|
            #[trigger] winding_down(state) && state.spec_is_seller_state()
                ==> seller_states().contains(state),
        forall|state: StateId|
            #[trigger] winding_down(state) && !state.spec_is_seller_state()
                ==> buyer_states().contains(state),
{
    let s = seller_states();
    assert(s[9] == StateId::SellerRedeemSecondaryCurrency);
    assert(s[10] == StateId::SellerWaitingForRedeemConfirmations);
    assert(s[11] == StateId::SellerSwapComplete);
    assert(s[12] == StateId::SellerWaitingForRefundHeight);
    assert(s[13] == StateId::SellerPostingRefundSlate);
    assert(s[14] == StateId::SellerWaitingForRefundConfirmations);
    assert(s[15] == StateId::SellerCancelledRefunded);
    assert(s[16] == StateId::SellerCancelled);
    let b = buyer_states();
    assert(b[10] == StateId::BuyerWaitingForRefundTime);
    assert(b[11] == StateId::BuyerPostingRefundForSecondary);
    assert(b[12] == StateId::BuyerWaitingForRefundConfirmations);
    assert(b[13] == StateId::BuyerCancelledRefunded);
    assert(b[14] == StateId::BuyerCancelled);
}

/// The states of the machine of the party that `state` belongs to.
pub open spec fn states_of_party(state: StateId) -> Seq<StateId> {
    if state.spec_is_seller_state() {
        seller_states()
    } else {
        buyer_states()
    }
}

/// Each state is held by the machine of its party.
pub proof fn lemma_party_machine_holds(state: StateId)
    ensures
        states_of_party(state).contains(state),
{
    let s = seller_states();
    let b = buyer_states();
    match state {
        StateId::SellerOfferCreated => assert(s[0] == state),
        StateId::SellerSendingOffer => assert(s[1] == state),
        StateId::SellerWaitingForAcceptanceMessage => assert(s[2] == state),
        StateId::SellerWaitingForBuyerLock => assert(s[3] == state),
        StateId::SellerPostingLockMwcSlate => assert(s[4] == state),
        StateId::SellerWaitingForLockConfirmations => assert(s[5] == state),
        StateId::SellerWaitingForInitRedeemMessage => assert(s[6] == state),
        StateId::SellerSendingInitRedeemMessage => assert(s[7] == state),
        StateId::SellerWaitingForBuyerToRedeemMwc => assert(s[8] == state),
        StateId::SellerRedeemSecondaryCurrency => assert(s[9] == state),
        StateId::SellerWaitingForRedeemConfirmations => assert(s[10] == state),
        StateId::SellerSwapComplete => assert(s[11] == state),
        StateId::SellerWaitingForRefundHeight => assert(s[12] == state),
        StateId::SellerPostingRefundSlate => assert(s[13] == state),
        StateId::SellerWaitingForRefundConfirmations => assert(s[14] == state),
        StateId::SellerCancelledRefunded => assert(s[15] == state),
        StateId::SellerCancelled => assert(s[16] == state),
        StateId::BuyerOfferCreated => assert(b[0] == state),
        StateId::BuyerSendingAcceptOfferMessage => assert(b[1] == state),
        StateId::BuyerWaitingForSellerToLock => assert(b[2] == state),
        StateId::BuyerPostingSecondaryToMultisigAccount => assert(b[3] == state),
        StateId::BuyerWaitingForLockConfirmations => assert(b[4] == state),
        StateId::BuyerSendingInitRedeemMessage => assert(b[5] == state),
        StateId::BuyerWaitingForRespondRedeemMessage => assert(b[6] == state),
        StateId::BuyerRedeemMwc => assert(b[7] == state),
        StateId::BuyerWaitForRedeemMwcConfirmations => assert(b[8] == state),
        StateId::BuyerSwapComplete => assert(b[9] == state),
        StateId::BuyerWaitingForRefundTime => assert(b[10] == state),
        StateId::BuyerPostingRefundForSecondary => assert(b[11] == state),
        StateId::BuyerWaitingForRefundConfirmations => assert(b[12] == state),
        StateId::BuyerCancelledRefunded => assert(b[13] == state),
        StateId::BuyerCancelled => assert(b[14] == state),
    }
}

/// In a state that is cancellable a cancellation goes through: in the
/// machine of the party of the state, with the private material of the
/// party of the trade, the answer is a success, and the trade is left on
/// its way out: at an end or on the refund path.
pub proof fn law_cancel_succeeds_where_cancellable(
    swap: Swap,
    context: Context,
    conf: SwapTransactionsConfirmations,
    now: i64,
)
    requires
        swap.state.spec_is_cancellable(),
        context_fits(&context, &swap),
    ensures
        process_spec(states_of_party(swap.state), &Input::Cancel, &swap, &context, &conf, now)
            is Ok,
        winding_down(
            process_spec(
                states_of_party(swap.state),
                &Input::Cancel,
                &swap,
                &context,
                &conf,
                now,
            )->Ok_0.next,
        ),
{
    let states = states_of_party(swap.state);
    let next = cancel_spec(swap.state)->Ok_0;
    assert(winding_down(next));
    assert(next != swap.state);
    assert(next.spec_is_seller_state() == swap.state.spec_is_seller_state());
    lemma_party_machine_holds(swap.state);
    lemma_machines_hold_way_out();
    assert(holds_way_out(states, next));
    lemma_way_out_settles(states, next, &swap, &conf, now);
}

/// A message that a machine does not admit fails with the same kind
/// whatever the chains show and whenever it comes.
pub proof fn law_unadmitted_message_fails(
    states: Seq<StateId>,
    swap: Swap,
    context: Context,
    m: Message,
    conf: SwapTransactionsConfirmations,
    now: i64,
)
    requires
        message_fault(states, &swap, &context, &m) is Some,
    ensures
        process_spec(states, &Input::IncomeMessage(m), &swap, &context, &conf, now) == Err::<
            Step,
            ErrorCode,
        >(message_fault(states, &swap, &context, &m)->0),
{
}

/// Whether the action that is pending in the state of the trade posts a
/// transaction that the chains do not show, of which the trade asks for a
/// confirmation; for the lock of the primary asset, whether besides that
/// the lock of the secondary asset is not complete.
pub open spec fn posts_unseen(swap: &Swap, conf: &SwapTransactionsConfirmations) -> bool {
    match swap.state {
        StateId::SellerPostingLockMwcSlate => conf.mwc_lock_conf is None
            && conf.secondary_lock_amount < swap.secondary_amount,
        StateId::SellerRedeemSecondaryCurrency => conf.secondary_redeem_conf is None
            && swap.secondary_confirmations > 0,
        StateId::SellerPostingRefundSlate => conf.mwc_refund_conf is None && swap.mwc_confirmations
            > 0,
        StateId::BuyerRedeemMwc => conf.mwc_redeem_conf is None && swap.mwc_confirmations > 0,
        StateId::BuyerPostingRefundForSecondary => conf.secondary_refund_conf is None
            && swap.secondary_confirmations > 0,
        _ => false,
    }
}

/// Once a transaction has been posted that the chains do not show yet, and
/// the machine is told in time, the trade waits for the confirmations of
/// that transaction: it is in the state that follows the action, and the
/// machine does not ask for the transaction to be posted again.
pub proof fn law_posted_transaction_is_waited_for(
    swap: Swap,
    context: Context,
    conf: SwapTransactionsConfirmations,
    now: i64,
)
    requires
        context_fits(&context, &swap),
        swap.redeem_time_sec > 0,
        posts_unseen(&swap, &conf),
        execute_spec(swap.state, &swap, now) is Ok,
    ensures
        process_spec(states_of_party(swap.state), &Input::Execute, &swap, &context, &conf, now)
            matches Ok(step) && Some(step.next) == state_after_action(swap.state)
            && step.action is WaitForConfirmations,
{
    law_deadlines_are_ordered(swap);
    lemma_party_machine_holds(swap.state);
    lemma_party_machine_holds(state_after_action(swap.state)->0);
}

/// A message that the trade has taken in before is only noted: whatever
/// the chains show, the owner's answer is a success that names the state of
/// the trade, and the trade is as it was but for the words `duplicate
/// message` at the end of its journal.
pub proof fn law_repeated_message_is_only_noted(
    respond: Result<StateProcessRespond, ErrorKind>,
    m: Message,
    conf: SwapTransactionsConfirmations,
    before: Swap,
    after: Swap,
    context: Context,
    now: i64,
)
    requires
        context_fits(&context, &before),
        machine_states(before.role).contains(before.state),
        message_repeated(&before, &m),
        taken_in(respond, m, conf, before, after, context, now),
    ensures
        respond is Ok,
        respond->Ok_0.next_state_id == before.state,
        after == (Swap { journal: after.journal, ..before }),
        after.journal@.len() == before.journal@.len() + 1,
        after.journal@.drop_last() == before.journal@,
        after.journal@.last()@ == "duplicate message"@,
{
    law_duplicate_message_is_ignored(machine_states(before.role), before, context, conf, now, m);
    assert(!signature_needed(&before, &m));
    let words = respond->Ok_0.journal_message->0;
    assert(after.journal@ == before.journal@.push(words));
    assert(after.journal@.drop_last() =~= before.journal@);
}

/// Where the owner has published a transaction that the chains did not
/// show, in time, and answers with success, the trade is in the state that
/// follows the publishing and waits there for the confirmations: after the
/// lock of the primary asset for those of the lock, after a refund for
/// those of the refund, after a redeem for those of the redeem.
pub proof fn law_published_transaction_is_waited_for(
    r: Result<StateProcessRespond, ErrorKind>,
    input: Input,
    conf: SwapTransactionsConfirmations,
    checked: Swap,
    base: Swap,
    after: Swap,
    context: Context,
    now: i64,
    records: bool,
)
    requires
        published_as(r, input, conf, checked, base, after, context, now, records),
        r is Ok,
        input is Execute || input is ExecuteWith,
        context_fits(&context, &base),
        (base.role == Role::Seller) == base.state.spec_is_seller_state(),
        base.redeem_time_sec > 0,
        posts_unseen(&base, &conf),
        execute_spec(base.state, &base, now) is Ok,
    ensures
        Some(after.state) == state_after_action(base.state),
        r->Ok_0.next_state_id == after.state,
        r->Ok_0.action is Some && r->Ok_0.action->0 is WaitForConfirmations,
        after == (Swap { state: after.state, ..base }),
{
    law_posted_transaction_is_waited_for(base, context, conf, now);
    assert(machine_states(base.role) == states_of_party(base.state));
    assert(process_spec(machine_states(base.role), &input, &base, &context, &conf, now)
        == process_spec(machine_states(base.role), &Input::Execute, &base, &context, &conf, now));
}

/// A check does not read what earlier checks have noted on the trade: the
/// last check error and the journal.
pub proof fn lemma_check_ignores_notes(
    states: Seq<StateId>,
    swap: Swap,
    noted: Swap,
    context: Context,
    conf: SwapTransactionsConfirmations,
    now: i64,
)
    requires
        noted == (Swap { last_check_error: noted.last_check_error, journal: noted.journal, ..swap }),
    ensures
        process_spec(states, &Input::Check, &noted, &context, &conf, now) == process_spec(
            states,
            &Input::Check,
            &swap,
            &context,
            &conf,
            now,
        ),
{
    lemma_settling_ignores_notes(states, swap.state, swap, noted, conf, now);
    let first = check_spec(swap.state, &swap, &conf, now);
    if first is Ok {
        lemma_settling_ignores_notes(states, first->Ok_0.next, swap, noted, conf, now);
    }
}

/// Repeated checks do not read what earlier checks have noted on the trade.
pub proof fn lemma_settling_ignores_notes(
    states: Seq<StateId>,
    state: StateId,
    swap: Swap,
    noted: Swap,
    conf: SwapTransactionsConfirmations,
    now: i64,
)
    requires
        noted == (Swap { last_check_error: noted.last_check_error, journal: noted.journal, ..swap }),
    ensures
        check_spec(state, &noted, &conf, now) == check_spec(state, &swap, &conf, now),
        rank(state, &noted, &conf, now) == rank(state, &swap, &conf, now),
        settle_spec(states, state, &noted, &conf, now) == settle_spec(
            states,
            state,
            &swap,
            &conf,
            now,
        ),
    decreases rank(state, &swap, &conf, now),
{
    if states.contains(state) {
        match check_spec(state, &swap, &conf, now) {
            Ok(step) => {
                if step.next != state {
                    lemma_check_descends(state, &swap, &conf, now);
                    lemma_settling_ignores_notes(states, step.next, swap, noted, conf, now);
                }
            },
            Err(_) => {},
        }
    }
}

/// Two checks of one stored trade under one snapshot of the chains, with
/// no deadline of the trade between them, agree: where the first succeeds,
/// the second succeeds with the same state, the same time limit and the
/// same action, and leaves the stored trade, with the same values, as the
/// first left it.
pub proof fn law_stored_check_is_idempotent(
    first: Result<StateProcessRespond, ErrorKind>,
    second: Result<StateProcessRespond, ErrorKind>,
    before: Seq<TradeRecord>,
    between: Seq<TradeRecord>,
    after: Seq<TradeRecord>,
    i: int,
    conf: SwapTransactionsConfirmations,
    earlier: i64,
    later: i64,
)
    requires
        trade_processed(first, before, between, i, Input::Check, &conf, earlier),
        trade_processed(second, between, after, i, Input::Check, &conf, later),
        first is Ok,
        no_deadline_between(&before[i].swap, earlier, later),
    ensures
        second is Ok,
        second->Ok_0.next_state_id == first->Ok_0.next_state_id,
        second->Ok_0.next_state_id == after[i].swap.state,
        second->Ok_0.time_limit == first->Ok_0.time_limit,
        same_action(first->Ok_0.action, second->Ok_0.action),
        after[i].swap.same(&between[i].swap),
        after[i].context == between[i].context,
        forall|j: int| 0 <= j < between.len() && j != i ==> after[j] == between[j],
{
    let swap = before[i].swap;
    let context = before[i].context;
    let states = machine_states(swap.role);
    let step = process_spec(states, &Input::Check, &swap, &context, &conf, earlier)->Ok_0;
    let rested = Swap { state: step.next, ..swap };
    law_check_is_idempotent_between_deadlines(states, swap, context, conf, earlier, later);
    lemma_check_ignores_notes(states, rested, between[i].swap, context, conf, later);
    assert(after[i].swap.journal@ =~= between[i].swap.journal@);
}

/// Where the buyer locks first, the seller posts nothing before the
/// buyer's lock is there: as long as the lock address holds less than the
/// agreed amount, or holds it without the confirmation that the seller
/// asks for, a check before the deadline of the locking leaves the seller
/// waiting for the buyer's lock, and its answer asks only to wait.
pub proof fn law_seller_waits_for_the_buyers_lock(
    swap: Swap,
    context: Context,
    conf: SwapTransactionsConfirmations,
    now: i64,
)
    requires
        context_fits(&context, &swap),
        swap.state == StateId::SellerWaitingForBuyerLock,
        !swap.seller_lock_first,
        conf.secondary_lock_amount < swap.secondary_amount || seen(conf.secondary_lock_conf)
            < BUYER_LOCK_CONFIRMATIONS,
        now < swap.spec_time_message_offers(),
    ensures
        process_spec(seller_states(), &Input::Check, &swap, &context, &conf, now) matches Ok(step)
            && step.next == StateId::SellerWaitingForBuyerLock && step.action == wait_for_secondary(
            BUYER_LOCK_CONFIRMATIONS,
            buyer_lock_seen(&swap, &conf),
        ),
{
}

/// The seller posts its lock only when it is its turn: where a check in
/// the state that waits for the buyer's lock leads to the posting of the
/// seller's lock, the seller locks first, or the lock address holds the
/// agreed amount with the confirmation that the seller asks for.
pub proof fn law_seller_lock_follows_the_buyers(
    swap: Swap,
    conf: SwapTransactionsConfirmations,
    now: i64,
)
    requires
        check_spec(StateId::SellerWaitingForBuyerLock, &swap, &conf, now) matches Ok(step)
            && step.next == StateId::SellerPostingLockMwcSlate,
    ensures
        swap.seller_lock_first || (conf.secondary_lock_amount >= swap.secondary_amount && seen(
            conf.secondary_lock_conf,
        ) >= BUYER_LOCK_CONFIRMATIONS),
{
}

/// A seller whose lock is on the chain while the buyer has not locked the
/// agreed amount turns to its refund once the deadline of the locking has
/// passed: below the refund height it waits and is asked for nothing; from
/// the refund height on it is asked to publish the refund.
pub proof fn law_seller_refund_waits_for_its_height(
    swap: Swap,
    context: Context,
    conf: SwapTransactionsConfirmations,
    now: i64,
)
    requires
        context_fits(&context, &swap),
        swap.state == StateId::SellerWaitingForLockConfirmations || swap.state
            == StateId::SellerWaitingForRefundHeight,
        conf.mwc_lock_conf is Some,
        conf.mwc_redeem_conf is None,
        conf.mwc_refund_conf is None,
        conf.secondary_lock_amount < swap.secondary_amount,
        now >= swap.spec_time_message_offers(),
    ensures
        process_spec(seller_states(), &Input::Check, &swap, &context, &conf, now) matches Ok(step)
            && if conf.mwc_tip < swap.refund_slate.lock_height {
            step.next == StateId::SellerWaitingForRefundHeight && step.action == ActionCode::NoAction
        } else {
            step.next == StateId::SellerPostingRefundSlate && step.action
                == ActionCode::SellerPublishMwcRefundTx
        },
{
    assert(seller_states().contains(StateId::SellerWaitingForLockConfirmations));
    assert(seller_states().contains(StateId::SellerWaitingForRefundHeight));
    assert(seller_states().contains(StateId::SellerPostingRefundSlate));
    let waiting = StateId::SellerWaitingForRefundHeight;
    let posting = StateId::SellerPostingRefundSlate;
    if conf.mwc_tip >= swap.refund_slate.lock_height {
        assert(check_spec(waiting, &swap, &conf, now) == Ok::<Step, ErrorCode>(go(posting)));
        assert(check_spec(posting, &swap, &conf, now) is Ok);
        assert(settle_spec(seller_states(), posting, &swap, &conf, now) == check_spec(
            posting,
            &swap,
            &conf,
            now,
        ));
        assert(settle_spec(seller_states(), waiting, &swap, &conf, now) == settle_spec(
            seller_states(),
            posting,
            &swap,
            &conf,
            now,
        ));
    } else {
        assert(settle_spec(seller_states(), waiting, &swap, &conf, now) == check_spec(
            waiting,
            &swap,
            &conf,
            now,
        ));
    }
}

/// After a reorganisation that leaves a lock with fewer confirmations than
/// the trade asks for, a check before the redeem limit takes the party back
/// to the state that waits for the confirmations of the locks, whether it
/// had gone on to the redeem messages or not; the answer asks to wait for
/// the confirmations that are missing.
pub proof fn law_reorganisation_leads_back_to_waiting(
    swap: Swap,
    context: Context,
    conf: SwapTransactionsConfirmations,
    now: i64,
)
    requires
        context_fits(&context, &swap),
        swap.state == StateId::SellerWaitingForLockConfirmations || swap.state
            == StateId::SellerWaitingForInitRedeemMessage || swap.state
            == StateId::SellerSendingInitRedeemMessage || swap.state
            == StateId::BuyerWaitingForLockConfirmations || swap.state
            == StateId::BuyerSendingInitRedeemMessage || swap.state
            == StateId::BuyerWaitingForRespondRedeemMessage,
        conf.mwc_lock_conf is Some,
        conf.secondary_lock_amount >= swap.secondary_amount,
        !locks_confirmed(&swap, &conf),
        now < swap.spec_time_buyer_redeem_limit(),
    ensures
        process_spec(states_of_party(swap.state), &Input::Check, &swap, &context, &conf, now)
            matches Ok(step) && step.next == (if swap.state.spec_is_seller_state() {
            StateId::SellerWaitingForLockConfirmations
        } else {
            StateId::BuyerWaitingForLockConfirmations
        }) && step.action == wait_for_locks(&swap, &conf),
{
    lemma_party_machine_holds(swap.state);
    let seller = StateId::SellerWaitingForLockConfirmations;
    let buyer = StateId::BuyerWaitingForLockConfirmations;
    assert(seller_states().contains(seller));
    assert(buyer_states().contains(buyer));
    if swap.state.spec_is_seller_state() {
        assert(settle_spec(seller_states(), seller, &swap, &conf, now) == check_spec(
            seller,
            &swap,
            &conf,
            now,
        ));
    } else {
        assert(settle_spec(buyer_states(), buyer, &swap, &conf, now) == check_spec(
            buyer,
            &swap,
            &conf,
            now,
        ));
    }
}

/// Once both locks hold the agreed amounts with the confirmations that the
/// trade asks for again, a check before the redeem limit takes a party that
/// waits for them on to the redeem messages: the seller to the state that
/// waits for the buyer's message, the buyer to the state that sends it. The
/// wait leaves nothing behind that would keep the trade from going on.
pub proof fn law_confirmed_locks_lead_on(
    swap: Swap,
    context: Context,
    conf: SwapTransactionsConfirmations,
    now: i64,
)
    requires
        context_fits(&context, &swap),
        swap.state == StateId::SellerWaitingForLockConfirmations || swap.state
            == StateId::BuyerWaitingForLockConfirmations,
        locks_confirmed(&swap, &conf),
        now < swap.spec_time_buyer_redeem_limit(),
        swap.redeem_time_sec > 0,
        swap.state == StateId::SellerWaitingForLockConfirmations
            ==> swap.redeem_slate.buyer_signature is None,
        swap.state == StateId::BuyerWaitingForLockConfirmations ==> can_init_redeem(&swap),
    ensures
        process_spec(states_of_party(swap.state), &Input::Check, &swap, &context, &conf, now)
            matches Ok(step) && if swap.state == StateId::SellerWaitingForLockConfirmations {
            step.next == StateId::SellerWaitingForInitRedeemMessage && step.action
                == ActionCode::SellerWaitingForInitRedeemMessage
        } else {
            step.next == StateId::BuyerSendingInitRedeemMessage && step.action
                == ActionCode::BuyerSendInitRedeemMessage
        },
{
    law_deadlines_are_ordered(swap);
    lemma_party_machine_holds(swap.state);
    let seller = StateId::SellerWaitingForInitRedeemMessage;
    let buyer = StateId::BuyerSendingInitRedeemMessage;
    assert(seller_states().contains(seller));
    assert(buyer_states().contains(buyer));
    if swap.state == StateId::SellerWaitingForLockConfirmations {
        assert(settle_spec(seller_states(), seller, &swap, &conf, now) == check_spec(
            seller,
            &swap,
            &conf,
            now,
        ));
    } else {
        assert(settle_spec(buyer_states(), buyer, &swap, &conf, now) == check_spec(
            buyer,
            &swap,
            &conf,
            now,
        ));
    }
}

/// Where the answer of the check asks for nothing that the owner can
/// carry out, the owner carries out nothing: its answer is that of the
/// check, the trade is as the check left it, and the wallet is as it was.
pub proof fn law_nothing_is_carried_out_while_waiting<
    F: FnOnce(Message) -> Result<(), ErrorKind>,
    G: FnOnce(String) -> Result<Message, ErrorKind>,
>(
    r: Result<StateProcessRespond, ErrorKind>,
    respond: StateProcessRespond,
    conf: SwapTransactionsConfirmations,
    checked: Swap,
    after: Swap,
    context: Context,
    message_sender: F,
    message_reader: G,
    destination: Option<String>,
    fee_per_vb: Option<u64>,
    now: i64,
    wallet_kept: bool,
)
    requires
        carried_out(
            r,
            respond,
            conf,
            checked,
            after,
            context,
            message_sender,
            message_reader,
            destination,
            fee_per_vb,
            now,
            wallet_kept,
        ),
        respond.action is None || respond.action->0 is WaitForConfirmations || respond.action->0
            is DepositSecondary,
    ensures
        r == Ok::<StateProcessRespond, ErrorKind>(respond),
        after == checked,
        wallet_kept,
{
}

} // verus!
