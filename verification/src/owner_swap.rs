//! The owner API: what the operator of a wallet does with its trades.

use vstd::prelude::*;
use crate::btc::api::{
    confirmations_fit, context_fault, context_is, with_redeem_tx, with_refund_tx, BtcSwapApi,
    CONTEXT_KEY_COUNT,
};
use crate::btc::client::{BtcNodeClient, NodeClient, SwapKeychain};
use crate::error::{is_trade_io_error, ErrorCode, ErrorKind};
use crate::fsm::machine::{
    after_input, buyer_machine, buyer_states, classify_message, input_repeated, message_fault,
    message_taken, note_is, process_result_is, process_spec, seller_machine, seller_states, MessagePhase,
};
use crate::fsm::state::{respond_is, Action, Input, StateId, StateProcessRespond};
use crate::script::{btc_address_valid, is_valid_address};
use crate::swap::{are_terms_valid, terms_valid, Slate, Swap};
use crate::laws::law_terms_are_fixed;
use crate::trades::{holds, record_at, TradeRecord, TradeStore};
use crate::message::{Message, MessageKind, Update};
use crate::types::{
    Context, Currency, KeyId, Network, OutputData, Role, Signature, SwapStartArgs,
    SwapTransactionsConfirmations, Txid,
};
use crate::wallet::{can_record_receive, receive_records, WalletBackend};

verus! {

/// The states of the machine of a party.
pub open spec fn machine_states(role: Role) -> Seq<StateId> {
    if role == Role::Seller {
        seller_states()
    } else {
        buyer_states()
    }
}

/// The trade as it is processed: in the state `start` where one is given.
pub open spec fn started_from(swap: Swap, start: Option<StateId>) -> Swap {
    match start {
        Some(state) => Swap { state, ..swap },
        None => swap,
    }
}

/// Whether the records `after` are the records `before` with another
/// trade at `i` beside the same private material.
pub open spec fn trade_replaced(before: Seq<TradeRecord>, after: Seq<TradeRecord>, i: int) -> bool {
    &&& 0 <= i < before.len()
    &&& after.len() == before.len()
    &&& after == before.update(i, after[i])
    &&& after[i].context == before[i].context
}

/// Whether the records `after` are the records `before` with the failed
/// check `error` recorded on the trade at `i`.
pub open spec fn check_recorded(
    before: Seq<TradeRecord>,
    after: Seq<TradeRecord>,
    i: int,
    error: &ErrorKind,
) -> bool {
    trade_replaced(before, after, i) && before[i].swap.check_failed(&after[i].swap, error)
}

/// Whether the answer `r` and the records `after` are what `input` makes
/// of the record at `i` of `before`, taken up in the state `start` where one
/// is given: all other records stay, the private material stays, and the
/// trade is what its state machine makes of it, with the note of the
/// answer in its journal, and after a check without a check error. On
/// failure the trade stays as it was, but that a failed check is recorded
/// on it.
pub open spec fn trade_processed_from(
    r: Result<StateProcessRespond, ErrorKind>,
    before: Seq<TradeRecord>,
    after: Seq<TradeRecord>,
    i: int,
    start: Option<StateId>,
    input: Input,
    conf: &SwapTransactionsConfirmations,
    now: i64,
) -> bool {
    &&& trade_replaced(before, after, i)
    &&& match process_spec(
        machine_states(before[i].swap.role),
        &input,
        &started_from(before[i].swap, start),
        &before[i].context,
        conf,
        now,
    ) {
        Ok(step) => {
            let machine = Swap {
                state: step.next,
                ..after_input(started_from(before[i].swap, start), input)
            };
            &&& r is Ok
            &&& respond_is(&r->Ok_0, step, &machine)
            &&& note_is(
                r->Ok_0.journal_message,
                input_repeated(&started_from(before[i].swap, start), &input),
            )
            &&& if input is Check {
                machine.check_passed(&after[i].swap, r->Ok_0.journal_message)
            } else {
                machine.noted(&after[i].swap, r->Ok_0.journal_message)
            }
        },
        Err(code) => {
            &&& r is Err
            &&& r->Err_0.spec_code() == code
            &&& if input is Check {
                before[i].swap.check_failed(&after[i].swap, &r->Err_0)
            } else {
                after[i].swap == before[i].swap
            }
        },
    }
}

/// Whether the answer `r` and the records `after` are what `input` makes
/// of the record at `i` of `before`.
pub open spec fn trade_processed(
    r: Result<StateProcessRespond, ErrorKind>,
    before: Seq<TradeRecord>,
    after: Seq<TradeRecord>,
    i: int,
    input: Input,
    conf: &SwapTransactionsConfirmations,
    now: i64,
) -> bool {
    trade_processed_from(r, before, after, i, None, input, conf, now)
}

/// Feeds `input` to the trade `swap_id`, taken up in the state `start`
/// where one is given, under the confirmations `conf` at the time `now`,
/// and keeps what becomes of the trade. `TradeIoError` where the store does
/// not hold the trade; else the answer of the state machine of the trade's
/// party. On its failure the trade stays as it was, but that a failed check
/// is recorded on it.
pub fn process_trade_from(
    store: &mut TradeStore,
    swap_id: &str,
    start: Option<StateId>,
    input: Input,
    conf: &SwapTransactionsConfirmations,
    now: i64,
) -> (r: Result<StateProcessRespond, ErrorKind>)
    ensures
        !holds(old(store)@, swap_id@) ==> is_trade_io_error(r, swap_id@) && final(store)@ == old(
            store,
        )@,
        holds(old(store)@, swap_id@) ==> exists|i: int|
            record_at(old(store)@, i, swap_id@) && #[trigger] trade_processed_from(
                r,
                old(store)@,
                final(store)@,
                i,
                start,
                input,
                conf,
                now,
            ),
{
    let index = match store.find(swap_id) {
        Some(i) => i,
        None => {
            return Err(
                ErrorKind::TradeIoError(
                    swap_id.to_owned(),
                    "The trade record is not found".to_owned(),
                ),
            );
        },
    };
    let ghost before = store@;
    let record = store.checkout(index);
    let fsm = if record.swap.is_seller() {
        seller_machine()
    } else {
        buyer_machine()
    };
    let TradeRecord { context, mut swap } = record;
    let held = swap.state;
    match start {
        Some(state) => {
            swap.state = state;
        },
        None => {},
    }
    let is_check = match &input {
        Input::Check => true,
        _ => false,
    };
    let r = fsm.process(input, &mut swap, &context, conf, now);
    match &r {
        Ok(respond) => {
            if is_check {
                swap.last_check_error = None;
            }
            match &respond.journal_message {
                Some(note) => {
                    swap.journal.push(note.clone());
                },
                None => {},
            }
        },
        Err(e) => {
            swap.state = held;
            if is_check {
                swap.record_check_failure(e);
            }
        },
    }
    proof {
        assert(swap.id == before[index as int].swap.id);
        lemma_checked_out(before, store@, index as int);
    }
    store.checkin(index, TradeRecord { context, swap });
    proof {
        assert(store@ =~= before.update(index as int, store@[index as int]));
        assert(trade_processed_from(r, before, store@, index as int, start, input, conf, now));
    }
    r
}

/// Once the record at `index` is taken out of the records `before`,
/// what is left holds no record of that trade.
pub proof fn lemma_checked_out(before: Seq<TradeRecord>, left: Seq<TradeRecord>, index: int)
    requires
        crate::trades::ids_distinct(before),
        0 <= index < before.len(),
        left == before.remove(index),
    ensures
        forall|j: int| !record_at(left, j, before[index].swap.id@),
{
    assert forall|j: int| !record_at(left, j, before[index].swap.id@) by {
        if 0 <= j < left.len() {
            if j < index {
                assert(left[j] == before[j]);
            } else {
                assert(left[j] == before[j + 1]);
            }
        }
    }
}

/// Records the failed check `error` on the trade at `index`.
fn note_check_failure(store: &mut TradeStore, index: usize, error: &ErrorKind)
    requires
        index < old(store)@.len(),
    ensures
        check_recorded(old(store)@, final(store)@, index as int, error),
{
    let ghost before = store@;
    let record = store.checkout(index);
    let TradeRecord { context, mut swap } = record;
    swap.record_check_failure(error);
    proof {
        lemma_checked_out(before, store@, index as int);
    }
    store.checkin(index, TradeRecord { context, swap });
    proof {
        assert(store@ =~= before.update(index as int, store@[index as int]));
    }
}

/// Feeds `input` to the trade `swap_id` under the confirmations `conf` at
/// the time `now` and keeps what becomes of the trade. `TradeIoError` where
/// the store does not hold the trade; else the answer of the state machine
/// of the trade's party, and on its failure the store stays as it was.
pub fn process_trade(
    store: &mut TradeStore,
    swap_id: &str,
    input: Input,
    conf: &SwapTransactionsConfirmations,
    now: i64,
) -> (r: Result<StateProcessRespond, ErrorKind>)
    ensures
        !holds(old(store)@, swap_id@) ==> is_trade_io_error(r, swap_id@) && final(store)@ == old(
            store,
        )@,
        holds(old(store)@, swap_id@) ==> exists|i: int|
            record_at(old(store)@, i, swap_id@) && #[trigger] trade_processed(
                r,
                old(store)@,
                final(store)@,
                i,
                input,
                conf,
                now,
            ),
{
    let ghost before = store@;
    let r = process_trade_from(store, swap_id, None, input, conf, now);
    proof {
        if holds(before, swap_id@) {
            let i = choose|i: int|
                record_at(before, i, swap_id@) && #[trigger] trade_processed_from(
                    r,
                    before,
                    store@,
                    i,
                    None,
                    input,
                    conf,
                    now,
                );
            assert(trade_processed(r, before, store@, i, input, conf, now));
        }
    }
    r
}

/// The identifiers of the trades with the names of their states, in the
/// order in which the trades were stored.
pub fn swap_list(store: &TradeStore) -> (r: Result<Vec<(String, String)>, ErrorKind>)
    ensures
        r is Ok,
        r->Ok_0@.len() == store@.len(),
        forall|i: int|
            0 <= i < store@.len() ==> (#[trigger] r->Ok_0@[i]).0@ == store@[i].swap.id@
                && r->Ok_0@[i].1@ == store@[i].swap.state.spec_name(),
{
    let mut result: Vec<(String, String)> = Vec::new();
    let mut i: usize = 0;
    let n = store.len();
    while i < n
        invariant
            i <= n,
            n == store@.len(),
            result@.len() == i,
            forall|j: int|
                0 <= j < i ==> (#[trigger] result@[j]).0@ == store@[j].swap.id@ && result@[j].1@
                    == store@[j].swap.state.spec_name(),
        decreases n - i,
    {
        let record = store.record(i);
        result.push((record.swap.id.clone(), record.swap.state.to_string()));
        i = i + 1;
    }
    Ok(result)
}

/// Removes the trade `swap_id`; `TradeIoError` where the store does not hold it.
pub fn swap_delete(store: &mut TradeStore, swap_id: &str) -> (r: Result<(), ErrorKind>)
    ensures
        final(store)@ == crate::trades::without_record(old(store)@, swap_id@),
        holds(old(store)@, swap_id@) ==> r is Ok && !holds(final(store)@, swap_id@),
        !holds(old(store)@, swap_id@) ==> is_trade_io_error(r, swap_id@),
{
    store.delete_swap_trade(swap_id)
}

/// A copy of the trade `swap_id`; `TradeIoError` where the store does not hold it.
pub fn swap_get(store: &TradeStore, swap_id: &str) -> (r: Result<Swap, ErrorKind>)
    ensures
        holds(store@, swap_id@) ==> r is Ok && exists|i: int|
            record_at(store@, i, swap_id@) && r->Ok_0.same(&store@[i].swap),
        !holds(store@, swap_id@) ==> is_trade_io_error(r, swap_id@),
{
    match store.find(swap_id) {
        Some(i) => {
            let record = store.record(i);
            Ok(record.swap.duplicate())
        },
        None => Err(
            ErrorKind::TradeIoError(swap_id.to_owned(), "The trade record is not found".to_owned()),
        ),
    }
}

/// A description of the trade `swap_id` for the operator; `TradeIoError`
/// where the store does not hold it.
pub fn swap_dump(store: &TradeStore, swap_id: &str) -> (r: Result<String, ErrorKind>)
    ensures
        holds(store@, swap_id@) ==> r is Ok && exists|i: int|
            record_at(store@, i, swap_id@) && r->Ok_0@ == crate::trades::dump_text(&store@[i]),
        !holds(store@, swap_id@) ==> is_trade_io_error(r, swap_id@),
{
    store.dump_swap_trade(swap_id)
}

/// The action of an answer, or `Nothing` where it has none.
pub fn action_or_nothing(action: Option<Action>) -> (a: Action)
    ensures
        a == match action {
            Some(x) => x,
            None => Action::Nothing,
        },
{
    match action {
        Some(x) => x,
        None => Action::Nothing,
    }
}

/// The state and the pending action of the trade `swap_id`, after a check
/// under what the two nodes report now. `TradeIoError` where the store does
/// not hold the trade; else as the nodes or the check fail, and then the
/// failure is recorded on the trade, which stays as it was in all else. On
/// success the store holds what the check, under the confirmations that
/// came back, made of the trade.
pub fn get_swap_status_action<C: NodeClient, B: BtcNodeClient>(
    api: &mut BtcSwapApi<C, B>,
    store: &mut TradeStore,
    swap_id: &str,
    now: i64,
) -> (r: Result<(StateId, Action), ErrorKind>)
    ensures
        !holds(old(store)@, swap_id@) ==> is_trade_io_error(r, swap_id@) && final(store)@ == old(
            store,
        )@,
        holds(old(store)@, swap_id@) && r is Err ==> exists|i: int|
            record_at(old(store)@, i, swap_id@) && #[trigger] check_recorded(
                old(store)@,
                final(store)@,
                i,
                &r->Err_0,
            ),
        r is Ok ==> exists|
            i: int,
            conf: SwapTransactionsConfirmations,
            respond: Result<StateProcessRespond, ErrorKind>,
        |
            record_at(old(store)@, i, swap_id@) && confirmations_fit(&old(store)@[i].swap, &conf)
                && #[trigger] trade_processed(
                respond,
                old(store)@,
                final(store)@,
                i,
                Input::Check,
                &conf,
                now,
            ) && respond is Ok && r->Ok_0.0 == respond->Ok_0.next_state_id && r->Ok_0.1 == (
            match respond->Ok_0.action {
                Some(x) => x,
                None => Action::Nothing,
            }),
{
    let index = match store.find(swap_id) {
        Some(i) => i,
        None => {
            return Err(
                ErrorKind::TradeIoError(
                    swap_id.to_owned(),
                    "The trade record is not found".to_owned(),
                ),
            );
        },
    };
    let ghost before = store@;
    let conf = match api.request_tx_confirmations(&store.record(index).swap) {
        Ok(c) => c,
        Err(e) => {
            note_check_failure(store, index, &e);
            assert(record_at(before, index as int, swap_id@));
            return Err(e);
        },
    };
    let respond = process_trade(store, swap_id, Input::Check, &conf, now);
    proof {
        let k = choose|k: int|
            record_at(before, k, swap_id@) && #[trigger] trade_processed(
                respond,
                before,
                store@,
                k,
                Input::Check,
                &conf,
                now,
            );
        if respond is Err {
            assert(check_recorded(before, store@, k, &respond->Err_0));
        }
        assert(k == index) by {
            assert(record_at(before, index as int, swap_id@));
        }
        assert(confirmations_fit(&before[k].swap, &conf));
    }
    match respond {
        Ok(resp) => {
            let StateProcessRespond { next_state_id, action, time_limit: _, journal_message: _ } =
                resp;
            Ok((next_state_id, action_or_nothing(action)))
        },
        Err(e) => Err(e),
    }
}

/// The confirmations of every transaction of the trade `swap_id`, as the
/// two nodes see them now. `TradeIoError` where the store does not hold the
/// trade; else as the adapter answers for the trade.
pub fn get_swap_tx_tstatus<C: NodeClient, B: BtcNodeClient>(
    api: &mut BtcSwapApi<C, B>,
    store: &TradeStore,
    swap_id: &str,
) -> (r: Result<SwapTransactionsConfirmations, ErrorKind>)
    ensures
        !holds(store@, swap_id@) ==> is_trade_io_error(r, swap_id@),
        r is Ok ==> exists|i: int|
            record_at(store@, i, swap_id@) && #[trigger] confirmations_fit(
                &store@[i].swap,
                &r->Ok_0,
            ),
{
    let index = match store.find(swap_id) {
        Some(i) => i,
        None => {
            return Err(
                ErrorKind::TradeIoError(
                    swap_id.to_owned(),
                    "The trade record is not found".to_owned(),
                ),
            );
        },
    };
    let res = api.request_tx_confirmations(&store.record(index).swap)?;
    assert(record_at(store@, index as int, swap_id@) && confirmations_fit(
        &store@[index as int].swap,
        &res,
    ));
    Ok(res)
}

/// The private material of a new trade: asks the wallet for as many keys
/// as the adapter needs and hands them to the adapter. Fails with
/// `UnexpectedCoinType` for another coin than BTC and with `UnexpectedRole`
/// for a seller without inputs, else as the wallet or the signing context
/// fails.
pub fn create_context<W: WalletBackend, C: NodeClient, B: BtcNodeClient>(
    wallet: &mut W,
    swap_api: &mut BtcSwapApi<C, B>,
    secondary_currency: Currency,
    is_seller: bool,
    inputs: Option<Vec<(KeyId, Option<u64>, u64)>>,
    change_amount: u64,
) -> (r: Result<Context, ErrorKind>)
    ensures
        secondary_currency != Currency::Btc ==> r matches Err(ErrorKind::UnexpectedCoinType),
        secondary_currency == Currency::Btc && is_seller && inputs is None ==> r is Err,
        r is Ok ==> exists|keys: Seq<KeyId>|
            keys.len() == CONTEXT_KEY_COUNT && #[trigger] context_is(
                &r->Ok_0,
                is_seller,
                inputs,
                change_amount,
                keys,
            ),
{
    let secondary_key_size = swap_api.context_key_count(secondary_currency, is_seller)?;
    let mut keys: Vec<KeyId> = Vec::new();
    let mut i: usize = 0;
    while i < secondary_key_size
        invariant
            i <= secondary_key_size,
            keys@.len() == i,
            secondary_currency == Currency::Btc,
        decreases secondary_key_size - i,
    {
        let key = wallet.next_child()?;
        keys.push(key);
        i = i + 1;
    }
    let ghost made = keys@;
    let context = swap_api.create_context(
        secondary_currency,
        is_seller,
        inputs,
        change_amount,
        keys,
    );
    proof {
        if context is Ok {
            assert(context_fault(secondary_currency, is_seller, inputs, made) is None);
            assert(context_is(&context->Ok_0, is_seller, inputs, change_amount, made));
        }
    }
    context
}

/// Records the slate in the wallet as a transaction that it receives
/// under the name `tx_name`, with the output that pays to `output_key_id`.
/// `Generic` where the slate has no kernel or not exactly one output, or
/// where the key has no path: then the wallet is not touched. Else as the
/// wallet fails.
pub fn create_receive_tx_record<W: WalletBackend>(
    wallet: &mut W,
    slate: &Slate,
    tx_name: String,
    output_key_id: &KeyId,
) -> (r: Result<(), ErrorKind>)
    ensures
        !can_record_receive(slate, output_key_id) ==> (r matches Err(ErrorKind::Generic(_)))
            && *final(wallet) == *old(wallet),
{
    if slate.kernel.is_none() || slate.outputs.len() != 1 {
        return Err(
            ErrorKind::Generic("The slate does not hold one kernel and one output".to_owned()),
        );
    }
    if output_key_id.last_path_index().is_none() {
        return Err(ErrorKind::Generic("The key of the output has no path".to_owned()));
    }
    let parent_key_id = wallet.parent_key_id();
    let log_id = wallet.next_tx_log_id(&parent_key_id)?;
    let (entry, output) = receive_records(parent_key_id, log_id, slate, tx_name, output_key_id)?;
    wallet.save_tx_log_entry(entry, &parent_key_id)?;
    wallet.save(output)?;
    wallet.commit()
}

/// Number of confirmations that the funding outputs need where the
/// operator names none.
pub const DEFAULT_MINIMUM_CONFIRMATIONS: u64 = 10;

/// What the operator asks for with `cancel`.
pub open spec fn is_cancel(adjust_cmd: Seq<char>) -> bool {
    adjust_cmd == "cancel"@
}

/// What keeps an adjustment from being tried: for a cancellation
/// `SwapStateMachineError` where the trade is in a state of the other
/// party and `NotCancellable` where its state is not cancellable; for a move to a
/// state `Generic` where the name is unknown or the state is not one of
/// the trade's party.
pub open spec fn adjust_fault(adjust_cmd: Seq<char>, swap: &Swap) -> Option<ErrorCode> {
    if is_cancel(adjust_cmd) {
        if !machine_states(swap.role).contains(swap.state) {
            Some(ErrorCode::SwapStateMachineError)
        } else if !swap.state.spec_is_cancellable() {
            Some(ErrorCode::NotCancellable)
        } else {
            None
        }
    } else {
        match StateId::spec_from_name(adjust_cmd) {
            None => Some(ErrorCode::Generic),
            Some(state) => if !machine_states(swap.role).contains(state) {
                Some(ErrorCode::Generic)
            } else {
                None
            },
        }
    }
}

/// The state in which an adjustment takes the trade up.
pub open spec fn adjust_start(adjust_cmd: Seq<char>) -> Option<StateId> {
    if is_cancel(adjust_cmd) {
        None
    } else {
        StateId::spec_from_name(adjust_cmd)
    }
}

/// The input that an adjustment feeds to the trade.
pub open spec fn adjust_input(adjust_cmd: Seq<char>) -> Input {
    if is_cancel(adjust_cmd) {
        Input::Cancel
    } else {
        Input::Check
    }
}

/// What an adjustment of the trade comes to: the state to take the trade
/// up in, if another than its own.
pub fn plan_adjust(adjust_cmd: &str, swap: &Swap) -> (r: Result<Option<StateId>, ErrorKind>)
    ensures
        match adjust_fault(adjust_cmd@, swap) {
            Some(code) => r is Err && r->Err_0.spec_code() == code,
            None => r == Ok::<Option<StateId>, ErrorKind>(adjust_start(adjust_cmd@)),
        },
{
    let fsm = if swap.is_seller() {
        seller_machine()
    } else {
        buyer_machine()
    };
    if crate::text::str_eq(adjust_cmd, "cancel") {
        if !fsm.is_cancellable(swap)? {
            return Err(ErrorKind::NotCancellable);
        }
        return Ok(None);
    }
    let state = StateId::from_cmd_str(adjust_cmd)?;
    if !fsm.has_state(&state) {
        return Err(
            ErrorKind::Generic(
                crate::text::join3("State ", adjust_cmd, " is invalid for this trade"),
            ),
        );
    }
    Ok(Some(state))
}

/// Cancels the trade `swap_id`, for the command `cancel`, or takes it up
/// in the state that `adjust_cmd` names, and gives its state and pending
/// action after that. `TradeIoError` where the store does not hold the
/// trade; else as `adjust_fault` says, and then the store stays as it was;
/// else as the nodes fail and as the state machine fails: then the trade
/// stays as it was, but that the failure of a check is recorded on it. On
/// success the store holds what the machine, under the confirmations that
/// came back for the trade, made of it.
pub fn swap_adjust<C: NodeClient, B: BtcNodeClient>(
    api: &mut BtcSwapApi<C, B>,
    store: &mut TradeStore,
    swap_id: &str,
    adjust_cmd: &str,
    now: i64,
) -> (r: Result<(StateId, Action), ErrorKind>)
    ensures
        !holds(old(store)@, swap_id@) ==> is_trade_io_error(r, swap_id@),
        forall|i: int|
            record_at(old(store)@, i, swap_id@) ==> (#[trigger] adjust_fault(
                adjust_cmd@,
                &old(store)@[i].swap,
            ) matches Some(code) ==> r is Err && r->Err_0.spec_code() == code),
        forall|i: int|
            record_at(old(store)@, i, swap_id@) && (#[trigger] adjust_fault(
                adjust_cmd@,
                &old(store)@[i].swap,
            )) is Some ==> final(store)@ == old(store)@,
        r is Err ==> final(store)@ == old(store)@ || (!is_cancel(adjust_cmd@) && exists|i: int|
            record_at(old(store)@, i, swap_id@) && #[trigger] check_recorded(
                old(store)@,
                final(store)@,
                i,
                &r->Err_0,
            )),
        r is Ok ==> exists|
            i: int,
            conf: SwapTransactionsConfirmations,
            respond: Result<StateProcessRespond, ErrorKind>,
        |
            record_at(old(store)@, i, swap_id@) && confirmations_fit(&old(store)@[i].swap, &conf)
                && #[trigger] trade_processed_from(
                respond,
                old(store)@,
                final(store)@,
                i,
                adjust_start(adjust_cmd@),
                adjust_input(adjust_cmd@),
                &conf,
                now,
            ) && respond is Ok && r->Ok_0.0 == respond->Ok_0.next_state_id && r->Ok_0.1 == (
            match respond->Ok_0.action {
                Some(x) => x,
                None => Action::Nothing,
            }),
{
    let index = match store.find(swap_id) {
        Some(i) => i,
        None => {
            return Err(
                ErrorKind::TradeIoError(
                    swap_id.to_owned(),
                    "The trade record is not found".to_owned(),
                ),
            );
        },
    };
    proof {
        assert forall|i: int| record_at(store@, i, swap_id@) implies i == index by {}
    }
    let ghost before = store@;
    let start = plan_adjust(adjust_cmd, &store.record(index).swap)?;
    let cancels = crate::text::str_eq(adjust_cmd, "cancel");
    let conf = match api.request_tx_confirmations(&store.record(index).swap) {
        Ok(c) => c,
        Err(e) => {
            if !cancels {
                note_check_failure(store, index, &e);
                assert(record_at(before, index as int, swap_id@));
            }
            return Err(e);
        },
    };
    let input = if cancels {
        Input::Cancel
    } else {
        Input::Check
    };
    let respond = process_trade_from(store, swap_id, start, input, &conf, now);
    proof {
        let k = choose|k: int|
            record_at(before, k, swap_id@) && #[trigger] trade_processed_from(
                respond,
                before,
                store@,
                k,
                start,
                input,
                &conf,
                now,
            );
        if respond is Err {
            if cancels {
                assert(store@[k] == before[k]);
                assert(store@ =~= before);
            } else {
                assert(check_recorded(before, store@, k, &respond->Err_0));
            }
        }
        assert(confirmations_fit(&before[k].swap, &conf));
    }
    match respond {
        Ok(resp) => {
            let StateProcessRespond { next_state_id, action, time_limit: _, journal_message: _ } =
                resp;
            Ok((next_state_id, action_or_nothing(action)))
        },
        Err(e) => Err(e),
    }
}

/// The list of the wallet outputs that fund the lock: key, position, value.
pub fn funding_inputs(outputs: &Vec<OutputData>) -> (inputs: Vec<
    (KeyId, Option<u64>, u64),
>)
    ensures
        inputs@.len() == outputs@.len(),
        forall|i: int|
            0 <= i < outputs@.len() ==> #[trigger] inputs@[i] == (
                outputs@[i].key_id,
                outputs@[i].mmr_index,
                outputs@[i].value,
            ),
{
    let mut inputs: Vec<(KeyId, Option<u64>, u64)> = Vec::new();
    let mut i: usize = 0;
    while i < outputs.len()
        invariant
            i <= outputs.len(),
            inputs@.len() == i,
            forall|j: int|
                0 <= j < i ==> #[trigger] inputs@[j] == (
                    outputs@[j].key_id,
                    outputs@[j].mmr_index,
                    outputs@[j].value,
                ),
        decreases outputs.len() - i,
    {
        inputs.push((outputs[i].key_id, outputs[i].mmr_index, outputs[i].value));
        i = i + 1;
    }
    inputs
}

/// What the seller gets back of the picked outputs: their sum less the
/// amount and the fee, or `None` where they do not cover both.
pub fn change_of(total: u64, amount: u64, fee: u64) -> (r: Option<u64>)
    ensures
        total >= amount + fee ==> r == Some((total - amount - fee) as u64),
        total < amount + fee ==> r is None,
{
    match total.checked_sub(amount) {
        Some(rest) => rest.checked_sub(fee),
        None => None,
    }
}

/// What keeps a trade from being started before a collaborator is asked:
/// `TradeIoError` where the store holds a trade of the same identifier,
/// `InvalidCurrency` for an unknown coin, `UnexpectedCoinType` for another
/// coin than BTC, `InvalidAddress` where the redeem address does not parse,
/// `InvalidAmount` where the terms are not those of a valid offer.
pub open spec fn start_fault(
    records: Seq<TradeRecord>,
    id: Seq<char>,
    params: &SwapStartArgs,
) -> Option<ErrorCode> {
    if holds(records, id) {
        Some(ErrorCode::TradeIoError)
    } else {
        match Currency::spec_from_ticker(params.secondary_currency@) {
            None => Some(ErrorCode::InvalidCurrency),
            Some(c) => if c != Currency::Btc {
                Some(ErrorCode::UnexpectedCoinType)
            } else if !btc_address_valid(params.secondary_redeem_address@) {
                Some(ErrorCode::InvalidAddress)
            } else if !terms_valid(
                params.mwc_amount,
                params.secondary_amount,
                params.message_exchange_time_sec,
                params.redeem_time_sec,
            ) {
                Some(ErrorCode::InvalidAmount)
            } else {
                None
            },
        }
    }
}

/// Starts a trade as the seller under the fresh identifier `id` at the
/// time `now`: funds it from the wallet, makes the private material and the
/// offer, and stores both. Gives the identifier back. Fails as
/// `start_fault` says before a collaborator is asked; after that as the
/// node, the wallet and the keychain fail, with `NotEnoughFunds` where the
/// picked outputs do not cover amount and fee, and as the making of the
/// offer fails. On failure the store stays as it was.
pub fn swap_start<W: WalletBackend, K: SwapKeychain, C: NodeClient, B: BtcNodeClient>(
    wallet: &mut W,
    keychain: &K,
    api: &mut BtcSwapApi<C, B>,
    store: &mut TradeStore,
    params: &SwapStartArgs,
    id: String,
    network: Network,
    now: i64,
) -> (r: Result<String, ErrorKind>)
    ensures
        holds(old(store)@, id@) ==> is_trade_io_error(r, id@),
        start_fault(old(store)@, id@, params) matches Some(code) ==> r is Err
            && r->Err_0.spec_code() == code && *final(wallet) == *old(wallet),
        r is Err ==> final(store)@ == old(store)@,
        r is Ok ==> {
            &&& r->Ok_0@ == id@
            &&& final(store)@.len() == old(store)@.len() + 1
            &&& final(store)@ == old(store)@.push(final(store)@.last())
            &&& final(store)@.last().context.role_context is Seller
            &&& crate::btc::api::offer_is(
                &final(store)@.last().swap,
                id,
                network,
                params.mwc_amount,
                params.secondary_amount,
                params.secondary_redeem_address,
                params.seller_lock_first,
                params.mwc_confirmations,
                params.secondary_confirmations,
                params.message_exchange_time_sec,
                params.redeem_time_sec,
                now,
            )
        },
{
    if store.find(id.as_str()).is_some() {
        return Err(
            ErrorKind::TradeIoError(id, "This trade record already exist".to_owned()),
        );
    }
    let secondary_currency = Currency::try_from_str(params.secondary_currency.as_str())?;
    match secondary_currency {
        Currency::Btc => {},
        _ => {
            return Err(ErrorKind::UnexpectedCoinType);
        },
    }
    if !is_valid_address(params.secondary_redeem_address.as_str()) {
        return Err(
            ErrorKind::InvalidAddress(
                crate::text::join2(
                    "Unable to parse the redeem address ",
                    params.secondary_redeem_address.as_str(),
                ),
            ),
        );
    }
    if !are_terms_valid(
        params.mwc_amount,
        params.secondary_amount,
        params.message_exchange_time_sec,
        params.redeem_time_sec,
    ) {
        return Err(ErrorKind::InvalidAmount("The terms are not those of a valid offer".to_owned()));
    }
    let height = api.node_client.get_chain_tip()?.0;
    let minimum_confirmations = match params.minimum_confirmations {
        Some(n) => n,
        None => DEFAULT_MINIMUM_CONFIRMATIONS,
    };
    let selection = wallet.select_coins_and_fee(params.mwc_amount, height, minimum_confirmations)?;
    let change = match change_of(selection.total, selection.amount, selection.fee) {
        Some(c) => c,
        None => {
            return Err(
                ErrorKind::NotEnoughFunds(
                    "The picked outputs do not cover the amount and the fee".to_owned(),
                ),
            );
        },
    };
    let inputs = funding_inputs(&selection.outputs);
    let context = create_context(wallet, api, secondary_currency, true, Some(inputs), change)?;
    let swap_id = id.clone();
    let swap = api.create_swap_offer(
        keychain,
        &context,
        id,
        network,
        params.mwc_amount,
        params.secondary_amount,
        secondary_currency,
        params.secondary_redeem_address.clone(),
        params.seller_lock_first,
        params.mwc_confirmations,
        params.secondary_confirmations,
        params.message_exchange_time_sec,
        params.redeem_time_sec,
        now,
    )?;
    let ghost before = store@;
    proof {
        let keys = choose|keys: Seq<KeyId>|
            keys.len() == CONTEXT_KEY_COUNT && #[trigger] context_is(
                &context,
                true,
                Some(inputs),
                change,
                keys,
            );
        assert(context.role_context is Seller);
    }
    store.store_swap_trade(context, swap);
    proof {
        assert(!holds(before, swap.id@));
        assert(store@ == before.push(TradeRecord { context, swap }));
        assert(store@.last() == TradeRecord { context, swap });
    }
    Ok(swap_id)
}

/// The trade with the seller's adaptor signature `signature`, where one is given.
pub open spec fn signed_for(swap: Swap, signature: Option<Signature>) -> Swap {
    match signature {
        Some(s) => Swap { adaptor_signature: Some(s), ..swap },
        None => swap,
    }
}

/// Whether the answer `r` and the trade `after` are what the message makes
/// of the trade `before`, which the keychain has signed for with
/// `signature` where it had to: what the state machine of the trade's
/// party makes of it, with the note of the answer in the journal.
pub open spec fn message_fed(
    r: Result<StateProcessRespond, ErrorKind>,
    before: Swap,
    after: Swap,
    context: Context,
    message: Message,
    signature: Option<Signature>,
    conf: SwapTransactionsConfirmations,
    now: i64,
) -> bool {
    match process_spec(
        machine_states(before.role),
        &Input::IncomeMessage(message),
        &signed_for(before, signature),
        &context,
        &conf,
        now,
    ) {
        Ok(step) => {
            let machine = Swap {
                state: step.next,
                ..after_input(signed_for(before, signature), Input::IncomeMessage(message))
            };
            &&& r is Ok
            &&& respond_is(&r->Ok_0, step, &machine)
            &&& note_is(
                r->Ok_0.journal_message,
                input_repeated(&signed_for(before, signature), &Input::IncomeMessage(message)),
            )
            &&& machine.noted(&after, r->Ok_0.journal_message)
        },
        Err(_) => false,
    }
}

/// Whether the seller's keychain has to sign before the message is fed to
/// the trade: the trade is the seller's and holds no adaptor signature, and
/// the message is the one that opens the redeem and is taken in.
pub open spec fn signature_needed(swap: &Swap, message: &Message) -> bool {
    &&& swap.role == Role::Seller
    &&& swap.adaptor_signature is None
    &&& message.inner is InitRedeem
    &&& message_taken(swap, message)
}

/// Whether the seller's keychain has to sign before the message is fed to the trade.
pub fn is_signature_needed(swap: &Swap, message: &Message) -> (r: bool)
    ensures
        r == signature_needed(swap, message),
{
    match &message.inner {
        Update::InitRedeem(u) => {
            swap.is_seller() && swap.adaptor_signature.is_none() && message.id == swap.id
                && u.redeem_slate.buyer_signature.is_some() && classify_message(
                swap,
                MessageKind::InitRedeem,
            ) == MessagePhase::Consume
        },
        _ => false,
    }
}

/// Whether the answer `r` and the trade `after` are what the state machine
/// of the trade's party makes of the message and of the trade `before`
/// with `signature` for its adaptor signature, where one is given: on
/// success as `message_fed` says, on failure the trade as it was.
pub open spec fn message_outcome(
    r: Result<StateProcessRespond, ErrorKind>,
    before: Swap,
    after: Swap,
    context: Context,
    message: Message,
    signature: Option<Signature>,
    conf: SwapTransactionsConfirmations,
    now: i64,
) -> bool {
    match process_spec(
        machine_states(before.role),
        &Input::IncomeMessage(message),
        &signed_for(before, signature),
        &context,
        &conf,
        now,
    ) {
        Ok(_) => message_fed(r, before, after, context, message, signature, conf, now),
        Err(code) => r is Err && r->Err_0.spec_code() == code && after == before,
    }
}

/// Feeds a message to the trade. Where no signature is needed, the answer
/// and the trade are what the state machine of the trade's party makes of
/// the message. Where the seller takes in the message that opens the redeem
/// and has not signed yet, its keychain first signs the redeem slate of the
/// message, so that the seller can answer; then the outcome is that of the
/// trade with that signature, or the failure of the keychain. On failure
/// the trade stays as it was.
fn feed_message<K: SwapKeychain>(
    keychain: &K,
    context: &Context,
    swap: &mut Swap,
    message: Message,
    conf: &SwapTransactionsConfirmations,
    now: i64,
) -> (r: Result<StateProcessRespond, ErrorKind>)
    ensures
        !signature_needed(old(swap), &message) ==> message_outcome(
            r,
            *old(swap),
            *final(swap),
            *context,
            message,
            None,
            *conf,
            now,
        ),
        final(swap).same_terms(old(swap)),
        r is Ok ==> r->Ok_0.next_state_id == final(swap).state,
        r is Ok ==> exists|signature: Option<Signature>| #[trigger]
            message_fed(r, *old(swap), *final(swap), *context, message, signature, *conf, now),
        r is Ok && signature_needed(old(swap), &message) ==> exists|signature: Signature| #[trigger]
            message_fed(
                r,
                *old(swap),
                *final(swap),
                *context,
                message,
                Some(signature),
                *conf,
                now,
            ),
        r is Err ==> *final(swap) == *old(swap),
{
    let fsm = if swap.is_seller() {
        seller_machine()
    } else {
        buyer_machine()
    };
    let signs = is_signature_needed(swap, &message);
    let ghost mut given: Option<Signature> = None;
    if signs {
        let signature = match &message.inner {
            Update::InitRedeem(u) => keychain.adaptor_signature(context, swap, &u.redeem_slate)?,
            _ => {
                return Err(ErrorKind::UnexpectedMessageType("Not a redeem message".to_owned()));
            },
        };
        swap.adaptor_signature = Some(signature);
        proof {
            given = Some(signature);
        }
    }
    let ghost signed = *swap;
    assert(signed == signed_for(*old(swap), given));
    let r = fsm.process(Input::IncomeMessage(message), swap, context, conf, now);
    proof {
        law_terms_are_fixed(
            r,
            fsm.states@,
            Input::IncomeMessage(message),
            signed,
            *swap,
            *context,
            *conf,
            now,
        );
    }
    match &r {
        Ok(respond) => {
            match &respond.journal_message {
                Some(note) => {
                    swap.journal.push(note.clone());
                },
                None => {},
            }
            assert(message_fed(r, *old(swap), *swap, *context, message, given, *conf, now));
        },
        Err(_) => {
            if signs {
                swap.adaptor_signature = None;
            }
        },
    }
    r
}

/// Whether the records `after` are the records `before` with the
/// buyer's trade for the offer of `message` at their end.
pub open spec fn offer_taken(
    before: Seq<TradeRecord>,
    after: Seq<TradeRecord>,
    message: Message,
) -> bool {
    &&& after.len() == before.len() + 1
    &&& after == before.push(after.last())
    &&& after.last().context.role_context is Buyer
    &&& crate::buyer::refund_height_fits(&message.inner->Offer_0)
    &&& crate::buyer::offer_unfit(&message.inner->Offer_0, message.secondary_update) is None
    &&& exists|share: crate::btc::client::BuyerShare| #[trigger]
        crate::buyer::accepted_is(
            &after.last().swap,
            message.id,
            message.inner->Offer_0,
            message.secondary_update,
            share,
        )
}

/// Whether the records `after` are the records `before` with the trade
/// that `message` names as the machine of its party left it, under
/// confirmations that fit the trade, as `taken_in` says.
pub open spec fn message_taken_in(
    before: Seq<TradeRecord>,
    after: Seq<TradeRecord>,
    message: Message,
    now: i64,
) -> bool {
    exists|i: int, conf: SwapTransactionsConfirmations, respond: Result<StateProcessRespond, ErrorKind>|
        {
            &&& record_at(before, i, message.id@)
            &&& trade_replaced(before, after, i)
            &&& confirmations_fit(&before[i].swap, &conf)
            &&& respond is Ok
            &&& #[trigger] taken_in(
                respond,
                message,
                conf,
                before[i].swap,
                after[i].swap,
                before[i].context,
                now,
            )
        }
}

/// Makes the buyer's trade from an offer and stores it. `TradeIoError`
/// where the store holds a trade of the same identifier, and what
/// `offer_unfit` says for an offer that is not in order, both before the
/// wallet is touched; after that as the wallet and the keychain fail.
fn take_offer<W: WalletBackend, K: SwapKeychain, C: NodeClient, B: BtcNodeClient>(
    wallet: &mut W,
    keychain: &K,
    api: &mut BtcSwapApi<C, B>,
    store: &mut TradeStore,
    message: Message,
) -> (r: Result<(), ErrorKind>)
    requires
        message.inner is Offer,
    ensures
        holds(old(store)@, message.id@) ==> is_trade_io_error(r, message.id@) && *final(wallet)
            == *old(wallet),
        !holds(old(store)@, message.id@) ==> (crate::buyer::offer_unfit(
            &message.inner->Offer_0,
            message.secondary_update,
        ) matches Some(code) ==> r is Err && r->Err_0.spec_code() == code && *final(wallet) == *old(
            wallet,
        )),
        r is Err ==> final(store)@ == old(store)@,
        r is Ok ==> offer_taken(old(store)@, final(store)@, message),
{
    if store.find(message.id.as_str()).is_some() {
        return Err(
            ErrorKind::TradeIoError(
                message.id.clone(),
                crate::text::join3(
                    "trade with SwapID ",
                    message.id.as_str(),
                    " already exist. Probably you already processed this message",
                ),
            ),
        );
    }
    let (id, offer, secondary_update) = message.unwrap_offer()?;
    crate::buyer::check_offer_terms(&offer, &secondary_update)?;
    let context = create_context(wallet, api, offer.secondary_currency, false, None, 0)?;
    let swap = crate::buyer::accept_swap_offer(keychain, &context, id, offer, secondary_update)?;
    let ghost before = store@;
    proof {
        let keys = choose|keys: Seq<KeyId>|
            keys.len() == CONTEXT_KEY_COUNT && #[trigger] context_is(&context, false, None, 0, keys);
        assert(context.role_context is Buyer);
        let share = choose|share: crate::btc::client::BuyerShare| #[trigger]
            crate::buyer::accepted_is(&swap, id, offer, secondary_update, share);
        assert(swap.id == message.id);
    }
    store.store_swap_trade(context, swap);
    proof {
        assert(!holds(before, swap.id@));
        assert(store@.last() == TradeRecord { context, swap });
    }
    Ok(())
}

/// Feeds a message that is no offer to the trade that it names.
/// `TradeIoError` where the store does not hold that trade; where the
/// machine of the trade does not admit the message, the failure that
/// `message_fault` names, before a node is asked; else as the nodes and the
/// keychain fail, and what the machine makes of the message.
fn take_update<K: SwapKeychain, C: NodeClient, B: BtcNodeClient>(
    keychain: &K,
    api: &mut BtcSwapApi<C, B>,
    store: &mut TradeStore,
    message: Message,
    now: i64,
) -> (r: Result<(), ErrorKind>)
    ensures
        !holds(old(store)@, message.id@) ==> is_trade_io_error(r, message.id@),
        forall|i: int| #[trigger]
            record_at(old(store)@, i, message.id@) ==> (message_fault(
                machine_states(old(store)@[i].swap.role),
                &old(store)@[i].swap,
                &old(store)@[i].context,
                &message,
            ) matches Some(code) ==> r is Err && r->Err_0.spec_code() == code),
        r is Err ==> final(store)@ == old(store)@,
        r is Ok ==> message_taken_in(old(store)@, final(store)@, message, now),
{
    let index = match store.find(message.id.as_str()) {
        Some(i) => i,
        None => {
            return Err(
                ErrorKind::TradeIoError(
                    message.id.clone(),
                    "The trade record is not found".to_owned(),
                ),
            );
        },
    };
    let ghost before = store@;
    assert(record_at(before, index as int, message.id@));
    let held = store.record(index);
    let fsm = api.get_fsm(&held.swap);
    fsm.admit_message(&message, &held.swap, &held.context)?;
    let conf = api.request_tx_confirmations(&held.swap)?;
    let record = store.checkout(index);
    let TradeRecord { context, mut swap } = record;
    let r = feed_message(keychain, &context, &mut swap, message, &conf, now);
    proof {
        assert(swap.id == before[index as int].swap.id);
        lemma_checked_out(before, store@, index as int);
    }
    store.checkin(index, TradeRecord { context, swap });
    proof {
        assert(store@ =~= before.update(index as int, store@[index as int]));
        if r is Err {
            assert(store@[index as int] == before[index as int]);
            assert(store@ =~= before);
        }
        if r is Ok {
            assert(trade_replaced(before, store@, index as int));
            assert(taken_in(
                r,
                message,
                conf,
                before[index as int].swap,
                store@[index as int].swap,
                context,
                now,
            ));
        }
    }
    match r {
        Ok(_) => Ok(()),
        Err(e) => Err(e),
    }
}

/// Takes in a message of the other party, given as the operator got it.
/// An empty message fails with `Generic`. An offer makes the buyer's trade:
/// it fails with `TradeIoError` where the store holds a trade of the same
/// identifier and as `offer_unfit` says for an offer that is not in order,
/// both before the wallet is touched; else the private material is made,
/// the offer is accepted and both are stored, as `offer_taken` says. Any
/// other message is fed to the trade that it names and leaves the wallet
/// alone: `TradeIoError` where the store does not hold that trade; where
/// the machine of the trade does not admit the message, the failure that
/// `message_fault` names, before a node is asked; else what the machine
/// makes of the message under what the nodes report now, as
/// `message_taken_in` says. On failure the store stays as it was.
pub fn swap_income_message<W: WalletBackend, K: SwapKeychain, C: NodeClient, B: BtcNodeClient>(
    wallet: &mut W,
    keychain: &K,
    api: &mut BtcSwapApi<C, B>,
    store: &mut TradeStore,
    message: Message,
    now: i64,
) -> (r: Result<(), ErrorKind>)
    ensures
        message.inner is Empty ==> (r matches Err(ErrorKind::Generic(_))) && *final(wallet) == *old(
            wallet,
        ),
        message.inner is Offer && holds(old(store)@, message.id@) ==> is_trade_io_error(
            r,
            message.id@,
        ) && *final(wallet) == *old(wallet),
        message.inner is Offer && !holds(old(store)@, message.id@) ==> (crate::buyer::offer_unfit(
            &message.inner->Offer_0,
            message.secondary_update,
        ) matches Some(code) ==> r is Err && r->Err_0.spec_code() == code && *final(wallet) == *old(
            wallet,
        )),
        !(message.inner is Offer) ==> *final(wallet) == *old(wallet),
        !(message.inner is Empty) && !(message.inner is Offer) && !holds(old(store)@, message.id@)
            ==> is_trade_io_error(r, message.id@),
        !(message.inner is Empty) && !(message.inner is Offer) ==> forall|i: int| #[trigger]
            record_at(old(store)@, i, message.id@) ==> (message_fault(
                machine_states(old(store)@[i].swap.role),
                &old(store)@[i].swap,
                &old(store)@[i].context,
                &message,
            ) matches Some(code) ==> r is Err && r->Err_0.spec_code() == code),
        r is Err ==> final(store)@ == old(store)@,
        r is Ok && message.inner is Offer ==> offer_taken(old(store)@, final(store)@, message),
        r is Ok && !(message.inner is Offer) ==> message_taken_in(
            old(store)@,
            final(store)@,
            message,
            now,
        ),
{
    match message.kind() {
        MessageKind::Empty => Err(
            ErrorKind::Generic("Get empty message, nothing to process".to_owned()),
        ),
        MessageKind::Offer => take_offer(wallet, keychain, api, store, message),
        _ => take_update(keychain, api, store, message, now),
    }
}

/// Whether `first` and the trade `after` are what a check made of the
/// trade `before`: on success the answer of the state machine of the
/// trade's party to a check under confirmations that fit the trade, with
/// the trade in the state of the answer and without a check error; on
/// failure the trade as it was, with the failure recorded on it.
pub open spec fn check_made(
    first: Result<(StateProcessRespond, SwapTransactionsConfirmations), ErrorKind>,
    before: Swap,
    after: Swap,
    context: Context,
    now: i64,
) -> bool {
    match first {
        Ok((respond, conf)) => {
            &&& confirmations_fit(&before, &conf)
            &&& process_spec(
                machine_states(before.role),
                &Input::Check,
                &before,
                &context,
                &conf,
                now,
            ) matches Ok(step)
            &&& respond_is(&respond, step, &before)
            &&& respond.journal_message is None
            &&& after == (Swap { state: step.next, last_check_error: None, ..before })
        },
        Err(e) => before.check_failed(&after, &e),
    }
}

/// Asks for the confirmations of the trade and checks the trade under
/// them. A failure is recorded on the trade.
fn check_record<C: NodeClient, B: BtcNodeClient>(
    api: &mut BtcSwapApi<C, B>,
    context: &Context,
    swap: &mut Swap,
    now: i64,
) -> (r: Result<(StateProcessRespond, SwapTransactionsConfirmations), ErrorKind>)
    ensures
        check_made(r, *old(swap), *final(swap), *context, now),
        final(swap).same_terms(old(swap)),
        r is Ok ==> r->Ok_0.0.next_state_id == final(swap).state,
{
    let conf = match api.request_tx_confirmations(swap) {
        Ok(c) => c,
        Err(e) => {
            swap.record_check_failure(&e);
            return Err(e);
        },
    };
    let fsm = api.get_fsm(swap);
    let ghost before = *swap;
    let r = fsm.process(Input::Check, swap, context, &conf, now);
    proof {
        law_terms_are_fixed(r, fsm.states@, Input::Check, before, *swap, *context, conf, now);
    }
    match r {
        Ok(respond) => {
            swap.last_check_error = None;
            Ok((respond, conf))
        },
        Err(e) => {
            swap.record_check_failure(&e);
            Err(e)
        },
    }
}

/// Tells the state machine of the party of the trade that the pending
/// action has been carried out: the answer and the trade are what the
/// machine makes of `input`, and on failure the trade stays as it was.
fn executed<C: NodeClient, B: BtcNodeClient>(
    api: &BtcSwapApi<C, B>,
    input: Input,
    context: &Context,
    swap: &mut Swap,
    conf: &SwapTransactionsConfirmations,
    now: i64,
) -> (r: Result<StateProcessRespond, ErrorKind>)
    ensures
        process_result_is(
            r,
            process_spec(machine_states(old(swap).role), &input, old(swap), context, conf, now),
            *old(swap),
            *final(swap),
            input,
        ),
        final(swap).same_terms(old(swap)),
        r is Ok ==> r->Ok_0.next_state_id == final(swap).state,
        r is Err ==> *final(swap) == *old(swap),
{
    let fsm = api.get_fsm(swap);
    let ghost before = *swap;
    let r = fsm.process(input, swap, context, conf, now);
    proof {
        law_terms_are_fixed(r, fsm.states@, input, before, *swap, *context, *conf, now);
    }
    r
}

/// The message that the action asks to send, if it asks for that.
pub open spec fn message_to_send(action: Action) -> Option<Message> {
    match action {
        Action::SellerSendOfferMessage(m) => Some(m),
        Action::BuyerSendAcceptOfferMessage(m) => Some(m),
        Action::BuyerSendInitRedeemMessage(m) => Some(m),
        Action::SellerSendRedeemMessage(m) => Some(m),
        _ => None,
    }
}

/// Whether the action asks for a message of the other party.
pub open spec fn waits_for_message(action: Action) -> bool {
    action is SellerWaitingForOfferMessage || action is SellerWaitingForInitRedeemMessage
        || action is BuyerWaitingForRedeemMessage
}

/// Whether the action leaves nothing to carry out: there is none, or it
/// only tells the operator what to wait for or to deposit.
pub open spec fn nothing_to_carry_out(action: Option<Action>) -> bool {
    match action {
        None => true,
        Some(a) => a is Nothing || a is DepositSecondary || a is WaitForConfirmations,
    }
}

/// Whether the answer `r` and the trade `after` are what sending the
/// message `m` makes of the checked trade: the sender was handed `m`; where
/// it failed, its failure is the answer and the trade is as checked; else
/// the state machine was told that the action is carried out.
pub open spec fn sent_out<F: FnOnce(Message) -> Result<(), ErrorKind>>(
    r: Result<StateProcessRespond, ErrorKind>,
    m: Message,
    conf: SwapTransactionsConfirmations,
    checked: Swap,
    after: Swap,
    context: Context,
    message_sender: F,
    now: i64,
) -> bool {
    exists|sent: Result<(), ErrorKind>|
        #[trigger] call_ensures(message_sender, (m,), sent) && match sent {
            Err(e) => r == Err::<StateProcessRespond, ErrorKind>(e) && after == checked,
            Ok(_) => process_result_is(
                r,
                process_spec(
                    machine_states(checked.role),
                    &Input::Execute,
                    &checked,
                    &context,
                    &conf,
                    now,
                ),
                checked,
                after,
                Input::Execute,
            ),
        }
}

/// Whether the answer `r` and the trade `after` are what feeding the
/// message `m` makes of the checked trade.
pub open spec fn taken_in(
    r: Result<StateProcessRespond, ErrorKind>,
    m: Message,
    conf: SwapTransactionsConfirmations,
    checked: Swap,
    after: Swap,
    context: Context,
    now: i64,
) -> bool {
    &&& !signature_needed(&checked, &m) ==> message_outcome(
        r,
        checked,
        after,
        context,
        m,
        None,
        conf,
        now,
    )
    &&& r is Ok && signature_needed(&checked, &m) ==> exists|signature: Signature| #[trigger]
        message_fed(r, checked, after, context, m, Some(signature), conf, now)
    &&& r is Err ==> after == checked
}

/// Whether the answer `r` and the trade `after` are what reading a
/// message from `path` makes of the checked trade: the reader was handed
/// `path`; where it failed, its failure is the answer; a message of another
/// trade gives `Generic`; in both cases the trade is as checked; else the
/// message was fed to the trade.
pub open spec fn read_in<G: FnOnce(String) -> Result<Message, ErrorKind>>(
    r: Result<StateProcessRespond, ErrorKind>,
    path: String,
    conf: SwapTransactionsConfirmations,
    checked: Swap,
    after: Swap,
    context: Context,
    message_reader: G,
    now: i64,
) -> bool {
    exists|read: Result<Message, ErrorKind>|
        #[trigger] call_ensures(message_reader, (path,), read) && match read {
            Err(e) => r == Err::<StateProcessRespond, ErrorKind>(e) && after == checked,
            Ok(m) => if m.id@ != checked.id@ {
                (r matches Err(ErrorKind::Generic(_))) && after == checked
            } else {
                taken_in(r, m, conf, checked, after, context, now)
            },
        }
}

/// Whether the answer `r` and the trade `after` are what the state machine
/// of the trade's party makes of `input` and of the trade `base`.
pub open spec fn machine_told(
    r: Result<StateProcessRespond, ErrorKind>,
    input: Input,
    conf: SwapTransactionsConfirmations,
    base: Swap,
    after: Swap,
    context: Context,
    now: i64,
) -> bool {
    process_result_is(
        r,
        process_spec(machine_states(base.role), &input, &base, &context, &conf, now),
        base,
        after,
        input,
    )
}

/// Whether the answer `r` and the trade `after` are what publishing a
/// transaction makes of the checked trade, where `base` is the trade once
/// the transaction is posted. Either a collaborator failed before the
/// machine was told: then the trade is as checked, or as posted. Or the
/// machine was told `input` about the posted trade, and the answer and the
/// trade are what it made of that. Or, with `records`, the machine was told
/// and took the step, and the wallet then failed to record the
/// transaction: the trade is as the machine left it.
pub open spec fn published_as(
    r: Result<StateProcessRespond, ErrorKind>,
    input: Input,
    conf: SwapTransactionsConfirmations,
    checked: Swap,
    base: Swap,
    after: Swap,
    context: Context,
    now: i64,
    records: bool,
) -> bool {
    ||| r is Err && (after == checked || after == base)
    ||| machine_told(r, input, conf, base, after, context, now)
    ||| records && r is Err && exists|answer: StateProcessRespond| #[trigger]
        machine_told(
            Ok::<StateProcessRespond, ErrorKind>(answer),
            input,
            conf,
            base,
            after,
            context,
            now,
        )
}

/// Whether the slate has its kernel and both signatures.
pub open spec fn slate_complete(slate: &Slate) -> bool {
    slate.kernel is Some && slate.spec_is_signed()
}

/// What publishing the seller's redeem of the secondary asset makes of
/// the checked trade: a failure before the transaction is posted leaves the
/// trade as checked; else the trade holds the identifier of the posted
/// transaction and the machine is told.
pub open spec fn secondary_redeemed(
    r: Result<StateProcessRespond, ErrorKind>,
    conf: SwapTransactionsConfirmations,
    checked: Swap,
    after: Swap,
    context: Context,
    now: i64,
) -> bool {
    ||| r is Err && after == checked
    ||| exists|txid: Txid| #[trigger]
        published_as(
            r,
            Input::Execute,
            conf,
            checked,
            with_redeem_tx(checked, txid),
            after,
            context,
            now,
            false,
        )
}

/// What publishing the buyer's redeem of the primary asset makes of the
/// checked trade. A redeem slate that is complete is posted as it is. Else
/// the keychain completes it: where that fails, the trade is as checked;
/// else the trade holds the completed slate, which is posted. After that
/// the machine is told, and the wallet records what it receives.
pub open spec fn primary_redeemed(
    r: Result<StateProcessRespond, ErrorKind>,
    conf: SwapTransactionsConfirmations,
    checked: Swap,
    after: Swap,
    context: Context,
    now: i64,
) -> bool {
    if slate_complete(&checked.redeem_slate) {
        published_as(r, Input::Execute, conf, checked, checked, after, context, now, true)
    } else {
        ||| r is Err && after == checked
        ||| exists|slate: Slate|
            slate_complete(&slate) && #[trigger] published_as(
                r,
                Input::Execute,
                conf,
                checked,
                Swap { redeem_slate: slate, ..checked },
                after,
                context,
                now,
                true,
            )
    }
}

/// What publishing the buyer's refund of the secondary asset to the
/// address `destination` makes of the checked trade: `UnexpectedRole` for a
/// seller's trade and `InvalidAddress` for an address that does not parse,
/// both with the trade as checked; a failure before the transaction is
/// posted leaves the trade as checked; else the trade holds the identifier
/// of the posted transaction and the machine is told that the refund went
/// to `destination` at the fee `fee_per_vb`.
pub open spec fn secondary_refunded(
    r: Result<StateProcessRespond, ErrorKind>,
    destination: String,
    fee_per_vb: Option<u64>,
    conf: SwapTransactionsConfirmations,
    checked: Swap,
    after: Swap,
    context: Context,
    now: i64,
) -> bool {
    if checked.role == Role::Seller {
        (r matches Err(ErrorKind::UnexpectedRole(_))) && after == checked
    } else if !btc_address_valid(destination@) {
        (r matches Err(ErrorKind::InvalidAddress(_))) && after == checked
    } else {
        ||| r is Err && after == checked
        ||| exists|txid: Txid| #[trigger]
            published_as(
                r,
                Input::ExecuteWith { refund_address: Some(destination), fee_per_vb },
                conf,
                checked,
                with_refund_tx(checked, txid),
                after,
                context,
                now,
                false,
            )
    }
}

/// Whether the answer `r` and the trade `after` are what carrying out
/// the pending action of the check's answer `respond` makes of the checked
/// trade; `wallet_kept` says that the wallet is as it was. Where nothing is
/// to be carried out, the answer is that of the check and the trade is as
/// checked. A message to send goes to the sender, as `sent_out` says. A
/// message to take in is read from `destination`, as `read_in` says, and
/// without a destination the answer is `Generic`. The primary lock without
/// a kernel gives `UnexpectedAction`, the secondary refund without a
/// destination `Generic`; both leave the trade as checked. In all these
/// cases, and where a transaction of the secondary chain is published, the
/// wallet is as it was. A transaction to publish is posted and the machine
/// is told, as `published_as`, `secondary_redeemed`, `primary_redeemed` and
/// `secondary_refunded` say.
pub open spec fn carried_out<
    F: FnOnce(Message) -> Result<(), ErrorKind>,
    G: FnOnce(String) -> Result<Message, ErrorKind>,
>(
    r: Result<StateProcessRespond, ErrorKind>,
    respond: StateProcessRespond,
    conf: SwapTransactionsConfirmations,
    checked: Swap,
    after: Swap,
    context: Context,
    message_sender: F,
    message_reader: G,
    destination: Option<String>,
    fee_per_vb: Option<u64>,
    now: i64,
    wallet_kept: bool,
) -> bool {
    if nothing_to_carry_out(respond.action) {
        r == Ok::<StateProcessRespond, ErrorKind>(respond) && after == checked && wallet_kept
    } else if message_to_send(respond.action->0) is Some {
        wallet_kept && sent_out(
            r,
            message_to_send(respond.action->0)->0,
            conf,
            checked,
            after,
            context,
            message_sender,
            now,
        )
    } else if waits_for_message(respond.action->0) {
        wallet_kept && match destination {
            None => (r matches Err(ErrorKind::Generic(_))) && after == checked,
            Some(path) => read_in(r, path, conf, checked, after, context, message_reader, now),
        }
    } else {
        match respond.action->0 {
            Action::SellerPublishMwcLockTx => if checked.lock_slate.kernel is None {
                (r matches Err(ErrorKind::UnexpectedAction(_))) && after == checked && wallet_kept
            } else {
                published_as(r, Input::Execute, conf, checked, checked, after, context, now, false)
            },
            Action::SellerPublishTxSecondaryRedeem(_) => wallet_kept && secondary_redeemed(
                r,
                conf,
                checked,
                after,
                context,
                now,
            ),
            Action::BuyerPublishMwcRedeemTx => primary_redeemed(
                r,
                conf,
                checked,
                after,
                context,
                now,
            ),
            Action::SellerPublishMwcRefundTx => published_as(
                r,
                Input::Execute,
                conf,
                checked,
                checked,
                after,
                context,
                now,
                true,
            ),
            Action::BuyerPublishSecondaryRefundTx(_) => wallet_kept && match destination {
                None => (r matches Err(ErrorKind::Generic(_))) && after == checked,
                Some(address) => secondary_refunded(
                    r,
                    address,
                    fee_per_vb,
                    conf,
                    checked,
                    after,
                    context,
                    now,
                ),
            },
            _ => r == Ok::<StateProcessRespond, ErrorKind>(respond) && after == checked
                && wallet_kept,
        }
    }
}

/// Whether the answer `r` and the trade `after` are what follows the
/// check `first` that left the trade as `checked`: the failure of the check
/// is the answer, the trade stays as the check left it and the wallet as it
/// was; else the pending action is carried out, as `carried_out` says.
pub open spec fn driven<
    F: FnOnce(Message) -> Result<(), ErrorKind>,
    G: FnOnce(String) -> Result<Message, ErrorKind>,
>(
    r: Result<StateProcessRespond, ErrorKind>,
    first: Result<(StateProcessRespond, SwapTransactionsConfirmations), ErrorKind>,
    checked: Swap,
    after: Swap,
    context: Context,
    message_sender: F,
    message_reader: G,
    destination: Option<String>,
    fee_per_vb: Option<u64>,
    now: i64,
    wallet_kept: bool,
) -> bool {
    match first {
        Err(e) => r == Err::<StateProcessRespond, ErrorKind>(e) && after == checked && wallet_kept,
        Ok((respond, conf)) => carried_out(
            r,
            respond,
            conf,
            checked,
            after,
            context,
            message_sender,
            message_reader,
            destination,
            fee_per_vb,
            now,
            wallet_kept,
        ),
    }
}

/// Posts the lock of the primary asset, which the wallet first takes note
/// of unless its log holds the kernel, and tells the machine.
fn publish_lock<W: WalletBackend, C: NodeClient, B: BtcNodeClient>(
    wallet: &mut W,
    api: &mut BtcSwapApi<C, B>,
    context: &Context,
    swap: &mut Swap,
    conf: &SwapTransactionsConfirmations,
    now: i64,
) -> (r: Result<StateProcessRespond, ErrorKind>)
    ensures
        old(swap).lock_slate.kernel is None ==> (r matches Err(ErrorKind::UnexpectedAction(_)))
            && *final(swap) == *old(swap) && *final(wallet) == *old(wallet),
        old(swap).lock_slate.kernel is Some ==> published_as(
            r,
            Input::Execute,
            *conf,
            *old(swap),
            *old(swap),
            *final(swap),
            *context,
            now,
            false,
        ),
        final(swap).same_terms(old(swap)),
        r is Ok ==> r->Ok_0.next_state_id == final(swap).state,
{
    let kernel = match &swap.lock_slate.kernel {
        Some(k) => *k,
        None => {
            return Err(ErrorKind::UnexpectedAction("The lock slate has no kernel".to_owned()));
        },
    };
    let log = wallet.tx_log_iter();
    if !crate::wallet::tx_log_has_kernel(&log, &kernel) {
        match wallet.lock_tx_context(
            &swap.lock_slate,
            context,
            crate::wallet::lock_record_name(swap.id.as_str()),
        ) {
            Ok(_) => {},
            Err(e) => {
                return Err(e);
            },
        }
    }
    match api.node_client.post_tx(&swap.lock_slate) {
        Ok(_) => {},
        Err(e) => {
            return Err(e);
        },
    }
    executed(api, Input::Execute, context, swap, conf, now)
}

/// Builds, signs and posts the seller's redeem of the secondary asset and
/// tells the machine.
fn publish_secondary_redeem<K: SwapKeychain, C: NodeClient, B: BtcNodeClient>(
    keychain: &K,
    api: &mut BtcSwapApi<C, B>,
    context: &Context,
    swap: &mut Swap,
    fee_per_vb: Option<u64>,
    conf: &SwapTransactionsConfirmations,
    now: i64,
) -> (r: Result<StateProcessRespond, ErrorKind>)
    ensures
        secondary_redeemed(r, *conf, *old(swap), *final(swap), *context, now),
        final(swap).same_terms(old(swap)),
        r is Ok ==> r->Ok_0.next_state_id == final(swap).state,
{
    match api.publish_secondary_transaction(keychain, swap, context, fee_per_vb, false) {
        Ok(_) => {},
        Err(e) => {
            return Err(e);
        },
    }
    let ghost posted = *swap;
    let r = executed(api, Input::Execute, context, swap, conf, now);
    proof {
        let txid = choose|txid: Txid| posted == with_redeem_tx(*old(swap), txid);
        assert(published_as(
            r,
            Input::Execute,
            *conf,
            *old(swap),
            with_redeem_tx(*old(swap), txid),
            *swap,
            *context,
            now,
            false,
        ));
    }
    r
}

/// Records in the wallet what the slate pays to `output_key_id`, under the
/// name `tx_name`, unless the log of the wallet holds the kernel of the slate.
fn record_received<W: WalletBackend>(
    wallet: &mut W,
    slate: &Slate,
    tx_name: String,
    output_key_id: &KeyId,
) -> (r: Result<(), ErrorKind>) {
    let log = wallet.tx_log_iter();
    let logged = match &slate.kernel {
        Some(k) => crate::wallet::tx_log_has_kernel(&log, k),
        None => false,
    };
    if !logged {
        create_receive_tx_record(wallet, slate, tx_name, output_key_id)
    } else {
        Ok(())
    }
}

/// The slate that the keychain has handed back, where it is complete:
/// with its kernel and both signatures. `Generic` where it is not.
pub fn completed_slate(slate: Slate) -> (r: Result<Slate, ErrorKind>)
    ensures
        slate_complete(&slate) ==> r == Ok::<Slate, ErrorKind>(slate),
        !slate_complete(&slate) ==> r matches Err(ErrorKind::Generic(_)),
{
    if slate.kernel.is_some() && slate.is_signed() {
        Ok(slate)
    } else {
        Err(ErrorKind::Generic("The keychain did not complete the redeem slate".to_owned()))
    }
}

/// Posts the buyer's redeem of the primary asset, which the keychain first
/// completes where that is to do, tells the machine, and records in the
/// wallet what the buyer receives.
fn publish_redeem<W: WalletBackend, K: SwapKeychain, C: NodeClient, B: BtcNodeClient>(
    wallet: &mut W,
    keychain: &K,
    api: &mut BtcSwapApi<C, B>,
    context: &Context,
    swap: &mut Swap,
    conf: &SwapTransactionsConfirmations,
    now: i64,
) -> (r: Result<StateProcessRespond, ErrorKind>)
    ensures
        primary_redeemed(r, *conf, *old(swap), *final(swap), *context, now),
        final(swap).same_terms(old(swap)),
        r is Ok ==> r->Ok_0.next_state_id == final(swap).state,
{
    let ghost mut completed: Option<Slate> = None;
    if !(swap.redeem_slate.kernel.is_some() && swap.redeem_slate.is_signed()) {
        let slate = match keychain.finalize_redeem_slate(context, swap) {
            Ok(s) => s,
            Err(e) => {
                return Err(e);
            },
        };
        let slate = match completed_slate(slate) {
            Ok(s) => s,
            Err(e) => {
                return Err(e);
            },
        };
        proof {
            completed = Some(slate);
        }
        swap.redeem_slate = slate;
    }
    let ghost base = *swap;
    assert(base == match completed {
        Some(slate) => Swap { redeem_slate: slate, ..*old(swap) },
        None => *old(swap),
    });
    match api.node_client.post_tx(&swap.redeem_slate) {
        Ok(_) => {},
        Err(e) => {
            let failed: Result<StateProcessRespond, ErrorKind> = Err(e);
            assert(published_as(
                failed,
                Input::Execute,
                *conf,
                *old(swap),
                base,
                *swap,
                *context,
                now,
                true,
            ));
            return failed;
        },
    }
    let told = executed(api, Input::Execute, context, swap, conf, now);
    let respond = match told {
        Ok(respond) => respond,
        Err(e) => {
            let failed: Result<StateProcessRespond, ErrorKind> = Err(e);
            assert(published_as(
                failed,
                Input::Execute,
                *conf,
                *old(swap),
                base,
                *swap,
                *context,
                now,
                true,
            ));
            return failed;
        },
    };
    assert(machine_told(
        Ok::<StateProcessRespond, ErrorKind>(respond),
        Input::Execute,
        *conf,
        base,
        *swap,
        *context,
        now,
    ));
    let recorded = match context.unwrap_buyer() {
        Ok(buyer) => record_received(
            wallet,
            &swap.redeem_slate,
            crate::wallet::redeem_record_name(swap.id.as_str()),
            &buyer.redeem,
        ),
        Err(e) => Err(e),
    };
    let done: Result<StateProcessRespond, ErrorKind> = match recorded {
        Ok(_) => Ok(respond),
        Err(e) => Err(e),
    };
    assert(published_as(done, Input::Execute, *conf, *old(swap), base, *swap, *context, now, true));
    done
}

/// Posts the seller's refund of the primary asset, tells the machine, and
/// records in the wallet what the seller receives.
fn publish_refund<W: WalletBackend, C: NodeClient, B: BtcNodeClient>(
    wallet: &mut W,
    api: &mut BtcSwapApi<C, B>,
    context: &Context,
    swap: &mut Swap,
    conf: &SwapTransactionsConfirmations,
    now: i64,
) -> (r: Result<StateProcessRespond, ErrorKind>)
    ensures
        published_as(
            r,
            Input::Execute,
            *conf,
            *old(swap),
            *old(swap),
            *final(swap),
            *context,
            now,
            true,
        ),
        final(swap).same_terms(old(swap)),
        r is Ok ==> r->Ok_0.next_state_id == final(swap).state,
{
    match api.node_client.post_tx(&swap.refund_slate) {
        Ok(_) => {},
        Err(e) => {
            return Err(e);
        },
    }
    let told = executed(api, Input::Execute, context, swap, conf, now);
    let respond = match told {
        Ok(respond) => respond,
        Err(e) => {
            return Err(e);
        },
    };
    assert(machine_told(
        Ok::<StateProcessRespond, ErrorKind>(respond),
        Input::Execute,
        *conf,
        *old(swap),
        *swap,
        *context,
        now,
    ));
    let recorded = match context.unwrap_seller() {
        Ok(seller) => record_received(
            wallet,
            &swap.refund_slate,
            crate::wallet::refund_record_name(swap.id.as_str()),
            &seller.refund_output,
        ),
        Err(e) => Err(e),
    };
    match recorded {
        Ok(_) => Ok(respond),
        Err(e) => Err(e),
    }
}

/// Builds, signs and posts the buyer's refund of the secondary asset to
/// `destination` at the fee `fee_per_vb`, and tells the machine where the
/// refund went.
fn publish_secondary_refund<K: SwapKeychain, C: NodeClient, B: BtcNodeClient>(
    keychain: &K,
    api: &mut BtcSwapApi<C, B>,
    context: &Context,
    swap: &mut Swap,
    destination: String,
    fee_per_vb: Option<u64>,
    conf: &SwapTransactionsConfirmations,
    now: i64,
) -> (r: Result<StateProcessRespond, ErrorKind>)
    ensures
        secondary_refunded(
            r,
            destination,
            fee_per_vb,
            *conf,
            *old(swap),
            *final(swap),
            *context,
            now,
        ),
        final(swap).same_terms(old(swap)),
        r is Ok ==> r->Ok_0.next_state_id == final(swap).state,
{
    match api.post_secondary_refund_tx(keychain, context, swap, Some(destination.clone()), fee_per_vb) {
        Ok(_) => {},
        Err(e) => {
            return Err(e);
        },
    }
    let ghost posted = *swap;
    let input = Input::ExecuteWith { refund_address: Some(destination), fee_per_vb };
    let r = executed(api, input, context, swap, conf, now);
    proof {
        let txid = choose|txid: Txid| posted == with_refund_tx(*old(swap), txid);
        assert(published_as(
            r,
            input,
            *conf,
            *old(swap),
            with_refund_tx(*old(swap), txid),
            *swap,
            *context,
            now,
            false,
        ));
    }
    r
}

/// Checks the trade and carries out the action that is pending after
/// that: the trade is first what the check makes of it, as `check_made`
/// says, and then what carrying out the pending action makes of it, as
/// `driven` says.
fn drive<
    W: WalletBackend,
    K: SwapKeychain,
    C: NodeClient,
    B: BtcNodeClient,
    F: FnOnce(Message) -> Result<(), ErrorKind>,
    G: FnOnce(String) -> Result<Message, ErrorKind>,
>(
    wallet: &mut W,
    keychain: &K,
    api: &mut BtcSwapApi<C, B>,
    context: &Context,
    swap: &mut Swap,
    message_sender: F,
    message_reader: G,
    destination: Option<String>,
    fee_per_vb: Option<u64>,
    now: i64,
) -> (r: Result<StateProcessRespond, ErrorKind>)
    requires
        forall|m: Message| call_requires(message_sender, (m,)),
        forall|p: String| call_requires(message_reader, (p,)),
    ensures
        exists|
            first: Result<(StateProcessRespond, SwapTransactionsConfirmations), ErrorKind>,
            checked: Swap,
        |
            #[trigger] check_made(first, *old(swap), checked, *context, now) && driven(
                r,
                first,
                checked,
                *final(swap),
                *context,
                message_sender,
                message_reader,
                destination,
                fee_per_vb,
                now,
                *final(wallet) == *old(wallet),
            ),
        final(swap).same_terms(old(swap)),
        r is Ok ==> r->Ok_0.next_state_id == final(swap).state,
{
    let first = check_record(api, context, swap, now);
    let ghost checked = *swap;
    let ghost seen = first;
    assert(check_made(seen, *old(swap), checked, *context, now));
    let (respond, conf) = match first {
        Ok(pair) => pair,
        Err(e) => {
            return Err(e);
        },
    };
    let ghost answer = respond;
    let StateProcessRespond { next_state_id, action, time_limit, journal_message } = respond;
    let action = match action {
        Some(a) => a,
        None => {
            return Ok(
                StateProcessRespond { next_state_id, action: None, time_limit, journal_message },
            );
        },
    };
    match action {
        Action::SellerSendOfferMessage(message)
        | Action::BuyerSendAcceptOfferMessage(message)
        | Action::BuyerSendInitRedeemMessage(message)
        | Action::SellerSendRedeemMessage(message) => {
            let ghost m = message;
            let sent = message_sender(message);
            let ghost out = sent;
            assert(call_ensures(message_sender, (m,), out));
            match sent {
                Ok(_) => executed(api, Input::Execute, context, swap, &conf, now),
                Err(e) => Err(e),
            }
        },
        Action::SellerWaitingForOfferMessage
        | Action::SellerWaitingForInitRedeemMessage
        | Action::BuyerWaitingForRedeemMessage => {
            let path = match destination {
                Some(p) => p,
                None => {
                    return Err(
                        ErrorKind::Generic(
                            "Please define 'destination' value if you you are processing income message from the file".to_owned(),
                        ),
                    );
                },
            };
            let ghost from = path;
            let got = message_reader(path);
            let ghost out = got;
            assert(call_ensures(message_reader, (from,), out));
            let message = match got {
                Ok(m) => m,
                Err(e) => {
                    return Err(e);
                },
            };
            let ghost read = message;
            if !(message.id == swap.id) {
                return Err(
                    ErrorKind::Generic(
                        crate::text::join3(
                            "Message id ",
                            message.id.as_str(),
                            " doesn't match selected trade id",
                        ),
                    ),
                );
            }
            let r = feed_message(keychain, context, swap, message, &conf, now);
            assert(taken_in(r, read, conf, checked, *swap, *context, now));
            r
        },
        Action::SellerPublishMwcLockTx => publish_lock(wallet, api, context, swap, &conf, now),
        Action::SellerPublishTxSecondaryRedeem(_) => publish_secondary_redeem(
            keychain,
            api,
            context,
            swap,
            fee_per_vb,
            &conf,
            now,
        ),
        Action::BuyerPublishMwcRedeemTx => publish_redeem(
            wallet,
            keychain,
            api,
            context,
            swap,
            &conf,
            now,
        ),
        Action::SellerPublishMwcRefundTx => publish_refund(wallet, api, context, swap, &conf, now),
        Action::BuyerPublishSecondaryRefundTx(_) => {
            let address = match destination {
                Some(a) => a,
                None => {
                    return Err(
                        ErrorKind::Generic(
                            crate::text::join3(
                                "Please specify 'destination' ",
                                swap.secondary_currency.ticker().as_str(),
                                " address for your refund",
                            ),
                        ),
                    );
                },
            };
            publish_secondary_refund(keychain, api, context, swap, address, fee_per_vb, &conf, now)
        },
        other => Ok(
            StateProcessRespond {
                next_state_id,
                action: Some(other),
                time_limit,
                journal_message,
            },
        ),
    }
}

/// Checks the trade `swap_id` under what the nodes report now and carries
/// out the action that is pending after that: a message to send goes to
/// `message_sender`; a message to take in is read from `destination` by
/// `message_reader` and must name the trade; a transaction to publish is
/// posted to its node; the refund of the secondary asset goes to the
/// address `destination`. After each the state machine is told, and what
/// it makes of the trade is kept, also where a later step fails.
/// `TradeIoError` where the store does not hold the trade. Else the trade
/// is first what the check makes of it, as `check_made` says, and then what
/// carrying out the pending action makes of it, as `driven` says: after a
/// publishing that succeeds, what the machine makes of the posted trade
/// once it is told that the action is carried out. The wallet is as it was
/// unless a transaction of the primary chain is published. Whatever
/// happens, the other trades, the private material and the terms of the
/// trade stay, and on success the answer names the state in which the
/// trade now is.
pub fn swap_process<
    W: WalletBackend,
    K: SwapKeychain,
    C: NodeClient,
    B: BtcNodeClient,
    F: FnOnce(Message) -> Result<(), ErrorKind>,
    G: FnOnce(String) -> Result<Message, ErrorKind>,
>(
    wallet: &mut W,
    keychain: &K,
    api: &mut BtcSwapApi<C, B>,
    store: &mut TradeStore,
    swap_id: &str,
    message_sender: F,
    message_reader: G,
    destination: Option<String>,
    fee_per_vb: Option<u64>,
    now: i64,
) -> (r: Result<StateProcessRespond, ErrorKind>)
    requires
        forall|m: Message| call_requires(message_sender, (m,)),
        forall|p: String| call_requires(message_reader, (p,)),
    ensures
        !holds(old(store)@, swap_id@) ==> is_trade_io_error(r, swap_id@) && final(store)@ == old(
            store,
        )@ && *final(wallet) == *old(wallet),
        holds(old(store)@, swap_id@) ==> exists|i: int|
            {
                &&& #[trigger] record_at(old(store)@, i, swap_id@)
                &&& final(store)@.len() == old(store)@.len()
                &&& final(store)@ == old(store)@.update(i, final(store)@[i])
                &&& final(store)@[i].context == old(store)@[i].context
                &&& final(store)@[i].swap.same_terms(&old(store)@[i].swap)
                &&& (r is Ok ==> r->Ok_0.next_state_id == final(store)@[i].swap.state)
            },
        holds(old(store)@, swap_id@) ==> exists|
            i: int,
            first: Result<(StateProcessRespond, SwapTransactionsConfirmations), ErrorKind>,
            checked: Swap,
        |
            {
                &&& record_at(old(store)@, i, swap_id@)
                &&& trade_replaced(old(store)@, final(store)@, i)
                &&& #[trigger] check_made(
                    first,
                    old(store)@[i].swap,
                    checked,
                    old(store)@[i].context,
                    now,
                )
                &&& driven(
                    r,
                    first,
                    checked,
                    final(store)@[i].swap,
                    old(store)@[i].context,
                    message_sender,
                    message_reader,
                    destination,
                    fee_per_vb,
                    now,
                    *final(wallet) == *old(wallet),
                )
            },
{
    let index = match store.find(swap_id) {
        Some(i) => i,
        None => {
            return Err(
                ErrorKind::TradeIoError(
                    swap_id.to_owned(),
                    "The trade record is not found".to_owned(),
                ),
            );
        },
    };
    let ghost before = store@;
    let record = store.checkout(index);
    let TradeRecord { context, mut swap } = record;
    let ghost taken = swap;
    let r = drive(
        wallet,
        keychain,
        api,
        &context,
        &mut swap,
        message_sender,
        message_reader,
        destination,
        fee_per_vb,
        now,
    );
    let ghost left = swap;
    proof {
        assert(swap.id == before[index as int].swap.id);
        lemma_checked_out(before, store@, index as int);
    }
    store.checkin(index, TradeRecord { context, swap });
    proof {
        assert(store@ =~= before.update(index as int, store@[index as int]));
        assert(record_at(before, index as int, swap_id@));
        assert(trade_replaced(before, store@, index as int));
        let (first, checked) = choose|
            first: Result<(StateProcessRespond, SwapTransactionsConfirmations), ErrorKind>,
            checked: Swap,
        |
            #[trigger] check_made(first, taken, checked, context, now) && driven(
                r,
                first,
                checked,
                left,
                context,
                message_sender,
                message_reader,
                destination,
                fee_per_vb,
                now,
                *wallet == *old(wallet),
            );
        assert(check_made(first, before[index as int].swap, checked, before[index as int].context, now));
    }
    r
}

} // verus!
