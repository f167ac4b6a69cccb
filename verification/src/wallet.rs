//! The wallet as a trade needs it, and the records that a trade leaves in it.

use vstd::prelude::*;
use crate::error::ErrorKind;
use crate::swap::Slate;
use crate::text::{hex_text, to_hex};
use crate::types::{
    Commitment, Context, KeyId, OutputData, OutputStatus, TxLogEntry, TxLogEntryType,
};
use crate::keychain::{spec_last_path_index, MAX_PATH_DEPTH};

verus! {

/// The outputs that the wallet picked to fund a transaction.
#[derive(Debug, PartialEq, Eq)]
pub struct CoinSelection {
    /// The picked outputs.
    pub outputs: Vec<OutputData>,
    /// Sum of the picked outputs.
    pub total: u64,
    /// The amount that the transaction moves.
    pub amount: u64,
    /// The fee of the transaction.
    pub fee: u64,
}

/// The wallet that owns the outputs and keeps the transaction log.
pub trait WalletBackend {
    /// The key of the current account.
    fn parent_key_id(&mut self) -> KeyId;

    /// A fresh key below the current account.
    fn next_child(&mut self) -> Result<KeyId, ErrorKind>;

    /// Picks outputs that pay for `amount` and the fee at `height`.
    fn select_coins_and_fee(
        &mut self,
        amount: u64,
        height: u64,
        minimum_confirmations: u64,
    ) -> Result<CoinSelection, ErrorKind>;

    /// The entries of the transaction log.
    fn tx_log_iter(&mut self) -> Vec<TxLogEntry>;

    /// Locks the outputs that the slate spends and logs the transaction under `name`.
    fn lock_tx_context(&mut self, slate: &Slate, context: &Context, name: String) -> Result<
        (),
        ErrorKind,
    >;

    /// The next free number of the transaction log.
    fn next_tx_log_id(&mut self, parent_key_id: &KeyId) -> Result<u32, ErrorKind>;

    /// Queues an entry of the transaction log.
    fn save_tx_log_entry(&mut self, entry: TxLogEntry, parent_key_id: &KeyId) -> Result<
        (),
        ErrorKind,
    >;

    /// Queues an output.
    fn save(&mut self, output: OutputData) -> Result<(), ErrorKind>;

    /// Writes what was queued.
    fn commit(&mut self) -> Result<(), ErrorKind>;
}

/// Whether the log holds a transaction with this kernel excess.
pub open spec fn log_has_kernel(log: Seq<TxLogEntry>, excess: Commitment) -> bool {
    exists|i: int| 0 <= i < log.len() && #[trigger] log[i].kernel_excess == Some(excess)
}

/// Whether the log holds a transaction with this kernel excess.
pub fn tx_log_has_kernel(log: &Vec<TxLogEntry>, excess: &Commitment) -> (r: bool)
    ensures
        r == log_has_kernel(log@, *excess),
{
    let mut i: usize = 0;
    while i < log.len()
        invariant
            i <= log.len(),
            forall|j: int| 0 <= j < i ==> #[trigger] log@[j].kernel_excess != Some(*excess),
        decreases log.len() - i,
    {
        let hit = match &log[i].kernel_excess {
            Some(k) => k.same(excess),
            None => false,
        };
        if hit {
            assert(log@[i as int].kernel_excess == Some(*excess));
            return true;
        }
        i = i + 1;
    }
    false
}

/// Whether a received transaction can be recorded for the slate: it has a
/// kernel and exactly one output, and the key of the output has a path.
pub open spec fn can_record_receive(slate: &Slate, output_key_id: &KeyId) -> bool {
    &&& slate.kernel is Some
    &&& slate.outputs@.len() == 1
    &&& output_key_id.bytes@[0] <= MAX_PATH_DEPTH
}

/// Whether `entry` logs the slate as a received transaction named `tx_name`.
pub open spec fn is_receive_entry(
    entry: &TxLogEntry,
    parent_key_id: KeyId,
    log_id: u32,
    slate: &Slate,
    tx_name: String,
) -> bool {
    &&& entry.parent_key_id == parent_key_id
    &&& entry.id == log_id
    &&& entry.tx_slate_id == Some(slate.id)
    &&& entry.tx_type == TxLogEntryType::TxReceived
    &&& entry.address == Some(tx_name)
    &&& entry.amount_credited == slate.amount
    &&& entry.amount_debited == 0
    &&& entry.num_inputs == 0
    &&& entry.num_outputs == 1
    &&& entry.output_commits@ == slate.outputs@
    &&& entry.kernel_excess == slate.kernel
    &&& entry.kernel_lookup_min_height == Some(slate.height)
    &&& entry.ttl_cutoff_height is None
    &&& !entry.confirmed
}

/// Whether `output` is the unconfirmed output that the slate pays to the
/// key `output_key_id`, logged under `log_id`.
pub open spec fn is_receive_output(
    output: &OutputData,
    parent_key_id: KeyId,
    output_key_id: KeyId,
    log_id: u32,
    slate: &Slate,
) -> bool {
    &&& output.root_key_id == parent_key_id
    &&& output.key_id == output_key_id
    &&& output.n_child == spec_last_path_index(output_key_id.bytes@)
    &&& output.mmr_index is None
    &&& output.commit is Some
    &&& output.commit->0@ == hex_text(slate.outputs@[0].bytes@)
    &&& output.value == slate.amount
    &&& output.status == OutputStatus::Unconfirmed
    &&& output.height == slate.height
    &&& output.lock_height == slate.lock_height
    &&& !output.is_coinbase
    &&& output.tx_log_entry == Some(log_id)
}

/// The bytes of a commitment.
pub fn commitment_bytes(commit: &Commitment) -> (bytes: Vec<u8>)
    ensures
        bytes@ == commit.bytes@,
{
    let mut bytes: Vec<u8> = Vec::new();
    let mut i: usize = 0;
    while i < 33
        invariant
            i <= 33,
            bytes@ == commit.bytes@.subrange(0, i as int),
        decreases 33 - i,
    {
        bytes.push(commit.bytes[i]);
        assert(bytes@ =~= commit.bytes@.subrange(0, i + 1));
        i = i + 1;
    }
    assert(bytes@ =~= commit.bytes@);
    bytes
}

/// A copy of a list of commitments.
pub fn copy_commitments(commits: &Vec<Commitment>) -> (r: Vec<Commitment>)
    ensures
        r@ == commits@,
{
    let mut r: Vec<Commitment> = Vec::new();
    let mut i: usize = 0;
    while i < commits.len()
        invariant
            i <= commits.len(),
            r@ == commits@.subrange(0, i as int),
        decreases commits.len() - i,
    {
        r.push(commits[i]);
        assert(r@ =~= commits@.subrange(0, i + 1));
        i = i + 1;
    }
    assert(r@ =~= commits@);
    r
}

/// The log entry and the output that record the slate as a transaction
/// that the wallet receives under the name `tx_name`. `Generic` where the
/// slate has no kernel or not exactly one output, or where the key has no
/// path.
pub fn receive_records(
    parent_key_id: KeyId,
    log_id: u32,
    slate: &Slate,
    tx_name: String,
    output_key_id: &KeyId,
) -> (r: Result<(TxLogEntry, OutputData), ErrorKind>)
    ensures
        can_record_receive(slate, output_key_id) ==> r is Ok && is_receive_entry(
            &r->Ok_0.0,
            parent_key_id,
            log_id,
            slate,
            tx_name,
        ) && is_receive_output(&r->Ok_0.1, parent_key_id, *output_key_id, log_id, slate),
        !can_record_receive(slate, output_key_id) ==> r matches Err(ErrorKind::Generic(_)),
{
    if slate.kernel.is_none() || slate.outputs.len() != 1 {
        return Err(
            ErrorKind::Generic("The slate does not hold one kernel and one output".to_owned()),
        );
    }
    let n_child = match output_key_id.last_path_index() {
        Some(n) => n,
        None => {
            return Err(ErrorKind::Generic("The key of the output has no path".to_owned()));
        },
    };
    let entry = TxLogEntry {
        parent_key_id,
        id: log_id,
        tx_slate_id: Some(slate.id.clone()),
        tx_type: TxLogEntryType::TxReceived,
        address: Some(tx_name),
        amount_credited: slate.amount,
        amount_debited: 0,
        num_inputs: 0,
        num_outputs: 1,
        output_commits: copy_commitments(&slate.outputs),
        kernel_excess: slate.kernel,
        kernel_lookup_min_height: Some(slate.height),
        ttl_cutoff_height: None,
        confirmed: false,
    };
    let commit_bytes = commitment_bytes(&slate.outputs[0]);
    let output = OutputData {
        root_key_id: parent_key_id,
        key_id: *output_key_id,
        n_child,
        mmr_index: None,
        commit: Some(to_hex(&commit_bytes)),
        value: slate.amount,
        status: OutputStatus::Unconfirmed,
        height: slate.height,
        lock_height: slate.lock_height,
        is_coinbase: false,
        tx_log_entry: Some(log_id),
    };
    Ok((entry, output))
}

/// The name under which the wallet takes note of the lock of the primary
/// asset of the trade `id`.
pub fn lock_record_name(id: &str) -> (name: String)
    ensures
        name@ == "Swap "@ + id@ + " Lock"@,
{
    crate::text::join3("Swap ", id, " Lock")
}

/// The name under which the wallet records what the buyer of the trade
/// `id` receives with its redeem.
pub fn redeem_record_name(id: &str) -> (name: String)
    ensures
        name@ == "Swap "@ + id@,
{
    crate::text::join2("Swap ", id)
}

/// The name under which the wallet records what the seller of the trade
/// `id` receives with its refund.
pub fn refund_record_name(id: &str) -> (name: String)
    ensures
        name@ == "Swap "@ + id@ + " Refund"@,
{
    crate::text::join3("Swap ", id, " Refund")
}

} // verus!
