//! The trade record and its timing rules.

use vstd::prelude::*;
use crate::error::ErrorKind;
use crate::fsm::state::StateId;
use crate::script::{
    build_lock_script, lock_address, lock_script_bytes, p2sh_address_text, SCRIPT_INT_LIMIT,
};
use crate::types::{
    Commitment, Currency, Network, PublicKey, Role, Signature, Txid, BLOCK_INTERVAL_SEC,
    SAFETY_MARGIN_SEC,
};

verus! {

/// Partially signed transaction of the primary chain, as far as the engine reads it.
#[derive(Debug, PartialEq, Eq)]
pub struct Slate {
    /// Identifier of the slate.
    pub id: String,
    /// Amount moved, in base units.
    pub amount: u64,
    /// Fee paid, in base units.
    pub fee: u64,
    /// Chain height at which the slate was made.
    pub height: u64,
    /// Height before which the transaction cannot be mined.
    pub lock_height: u64,
    /// Excess of the kernel, once the slate holds one.
    pub kernel: Option<Commitment>,
    /// Commitments of the outputs.
    pub outputs: Vec<Commitment>,
    /// Partial signature of the seller.
    pub seller_signature: Option<Signature>,
    /// Partial signature of the buyer.
    pub buyer_signature: Option<Signature>,
}

impl Slate {
    /// Whether the two slates hold the same values.
    pub open spec fn same(&self, other: &Slate) -> bool {
        &&& self.id == other.id
        &&& self.amount == other.amount
        &&& self.fee == other.fee
        &&& self.height == other.height
        &&& self.lock_height == other.lock_height
        &&& self.kernel == other.kernel
        &&& self.outputs@ == other.outputs@
        &&& self.seller_signature == other.seller_signature
        &&& self.buyer_signature == other.buyer_signature
    }

    /// Whether both parties have signed.
    pub open spec fn spec_is_signed(&self) -> bool {
        self.seller_signature is Some && self.buyer_signature is Some
    }

    /// Whether both parties have signed.
    #[verifier::when_used_as_spec(spec_is_signed)]
    pub fn is_signed(&self) -> (r: bool)
        ensures
            r == self.spec_is_signed(),
    {
        self.seller_signature.is_some() && self.buyer_signature.is_some()
    }

    /// Whether the slate is without content: no name, no amounts, no
    /// kernel, no outputs and no signature.
    pub open spec fn is_blank(&self) -> bool {
        &&& self.id@ == Seq::<char>::empty()
        &&& self.amount == 0 && self.fee == 0 && self.height == 0 && self.lock_height == 0
        &&& self.kernel is None
        &&& self.outputs@ == Seq::<Commitment>::empty()
        &&& self.seller_signature is None && self.buyer_signature is None
    }

    /// A slate without content, for a trade that has not made it yet.
    pub fn blank() -> (r: Slate)
        ensures
            r.is_blank(),
    {
        Slate {
            id: String::new(),
            amount: 0,
            fee: 0,
            height: 0,
            lock_height: 0,
            kernel: None,
            outputs: Vec::new(),
            seller_signature: None,
            buyer_signature: None,
        }
    }

    /// A copy of the slate.
    pub fn duplicate(&self) -> (r: Slate)
        ensures
            r.same(self),
    {
        Slate {
            id: self.id.clone(),
            amount: self.amount,
            fee: self.fee,
            height: self.height,
            lock_height: self.lock_height,
            kernel: self.kernel,
            outputs: self.outputs.clone(),
            seller_signature: self.seller_signature,
            buyer_signature: self.buyer_signature,
        }
    }
}

/// State of the trade on the secondary chain.
#[derive(Clone, Copy, Debug, PartialEq, Eq)]
pub struct BtcData {
    /// Key of the seller in the two-party branch of the lock script.
    pub cosign: PublicKey,
    /// Key of the buyer in the refund branch of the lock script.
    pub refund: Option<PublicKey>,
    /// The redeem transaction, once the seller has published it.
    pub redeem_tx: Option<Txid>,
    /// The refund transaction, once the buyer has published it.
    pub refund_tx: Option<Txid>,
}

/// Secondary-chain state by coin.
#[derive(Clone, Copy, Debug, PartialEq, Eq)]
pub enum SecondaryData {
    /// Not set up yet.
    Empty,
    /// State of a BTC trade.
    Btc(BtcData),
}

impl SecondaryData {
    /// The BTC state, or `UnexpectedCoinType` where there is none.
    pub fn unwrap_btc(&self) -> (r: Result<&BtcData, ErrorKind>)
        ensures
            match *self {
                SecondaryData::Btc(d) => r == Ok::<&BtcData, ErrorKind>(&d),
                SecondaryData::Empty => r matches Err(ErrorKind::UnexpectedCoinType),
            },
    {
        match self {
            SecondaryData::Btc(d) => Ok(d),
            SecondaryData::Empty => Err(ErrorKind::UnexpectedCoinType),
        }
    }
}

/// The persisted record of one trade.
#[derive(Debug, PartialEq, Eq)]
pub struct Swap {
    /// Identifier of the trade, minted by the seller.
    pub id: String,
    pub role: Role,
    pub state: StateId,
    pub network: Network,
    /// Amount of the primary asset, in base units.
    pub primary_amount: u64,
    /// Amount of the secondary asset, in base units.
    pub secondary_amount: u64,
    pub secondary_currency: Currency,
    /// Confirmations required on the primary chain.
    pub mwc_confirmations: u64,
    /// Confirmations required on the secondary chain.
    pub secondary_confirmations: u64,
    /// Seconds granted to the exchange of messages and to locking.
    pub message_exchange_time_sec: u64,
    /// Seconds granted to each redeem.
    pub redeem_time_sec: u64,
    /// Whether the seller publishes the primary lock before the buyer locks.
    pub seller_lock_first: bool,
    /// Start of the trade, in seconds since the epoch.
    pub started: i64,
    /// Where the seller receives the secondary asset.
    pub secondary_redeem_address: Option<String>,
    /// Where the buyer gets the secondary asset back.
    pub secondary_refund_address: Option<String>,
    pub lock_slate: Slate,
    pub redeem_slate: Slate,
    pub refund_slate: Slate,
    pub secondary_data: SecondaryData,
    /// The buyer's public point whose discrete log is the redeem secret.
    pub redeem_public: Option<PublicKey>,
    /// The seller's partial signature on the redeem slate, offset by `redeem_public`.
    pub adaptor_signature: Option<Signature>,
    /// Text of the last failed check.
    pub last_check_error: Option<String>,
    /// Diagnostic notes, oldest first.
    pub journal: Vec<String>,
}

/// Blocks of the primary chain that cover the message exchange and one redeem span.
pub open spec fn refund_blocks(message_exchange_time_sec: u64, redeem_time_sec: u64) -> int {
    (message_exchange_time_sec + redeem_time_sec + BLOCK_INTERVAL_SEC - 1) / (
    BLOCK_INTERVAL_SEC as int)
}

/// Brings a point in time into the range of `i64`.
pub open spec fn clamp_time(t: int) -> i64 {
    if t > i64::MAX {
        i64::MAX
    } else if t < i64::MIN {
        i64::MIN
    } else {
        t as i64
    }
}

/// Brings a point in time into the range of `i64`.
pub fn clamp(t: i128) -> (r: i64)
    ensures
        r == clamp_time(t as int),
{
    if t > i64::MAX as i128 {
        i64::MAX
    } else if t < i64::MIN as i128 {
        i64::MIN
    } else {
        t as i64
    }
}

/// Whether these are the terms of a valid offer: the amounts are positive,
/// the message exchange takes time, a redeem span is at least as long as
/// the message exchange, and the secondary lock time lies more than the
/// safety margin after the primary refund time.
pub open spec fn terms_valid(
    primary_amount: u64,
    secondary_amount: u64,
    message_exchange_time_sec: u64,
    redeem_time_sec: u64,
) -> bool {
    &&& primary_amount > 0
    &&& secondary_amount > 0
    &&& message_exchange_time_sec > 0
    &&& redeem_time_sec >= message_exchange_time_sec
    &&& message_exchange_time_sec + 2 * redeem_time_sec > refund_blocks(
        message_exchange_time_sec,
        redeem_time_sec,
    ) * BLOCK_INTERVAL_SEC
}

/// Whether these are the terms of a valid offer.
pub fn are_terms_valid(
    primary_amount: u64,
    secondary_amount: u64,
    message_exchange_time_sec: u64,
    redeem_time_sec: u64,
) -> (r: bool)
    ensures
        r == terms_valid(primary_amount, secondary_amount, message_exchange_time_sec, redeem_time_sec),
{
    if !(primary_amount > 0 && secondary_amount > 0 && message_exchange_time_sec > 0
        && redeem_time_sec >= message_exchange_time_sec) {
        return false;
    }
    let exchange: u128 = message_exchange_time_sec as u128;
    let redeem: u128 = redeem_time_sec as u128;
    let interval: u128 = BLOCK_INTERVAL_SEC as u128;
    let blocks: u128 = (exchange + redeem + (interval - 1)) / interval;
    exchange + 2 * redeem > blocks * interval
}

/// Blocks of the primary chain that cover the message exchange and one
/// redeem span.
pub fn count_refund_blocks(message_exchange_time_sec: u64, redeem_time_sec: u64) -> (r: u64)
    ensures
        r == refund_blocks(message_exchange_time_sec, redeem_time_sec),
{
    let span: u128 = message_exchange_time_sec as u128 + redeem_time_sec as u128 + (
    BLOCK_INTERVAL_SEC as u128 - 1);
    (span / (BLOCK_INTERVAL_SEC as u128)) as u64
}

impl Swap {
    /// Whether the two records hold the same values.
    pub open spec fn same(&self, other: &Swap) -> bool {
        &&& self.id == other.id
        &&& self.role == other.role
        &&& self.state == other.state
        &&& self.network == other.network
        &&& self.primary_amount == other.primary_amount
        &&& self.secondary_amount == other.secondary_amount
        &&& self.secondary_currency == other.secondary_currency
        &&& self.mwc_confirmations == other.mwc_confirmations
        &&& self.secondary_confirmations == other.secondary_confirmations
        &&& self.message_exchange_time_sec == other.message_exchange_time_sec
        &&& self.redeem_time_sec == other.redeem_time_sec
        &&& self.seller_lock_first == other.seller_lock_first
        &&& self.started == other.started
        &&& self.secondary_redeem_address == other.secondary_redeem_address
        &&& self.secondary_refund_address == other.secondary_refund_address
        &&& self.lock_slate.same(&other.lock_slate)
        &&& self.redeem_slate.same(&other.redeem_slate)
        &&& self.refund_slate.same(&other.refund_slate)
        &&& self.secondary_data == other.secondary_data
        &&& self.redeem_public == other.redeem_public
        &&& self.adaptor_signature == other.adaptor_signature
        &&& self.last_check_error == other.last_check_error
        &&& self.journal@ == other.journal@
    }

    /// Whether the two records are of the same trade with the same terms:
    /// what is fixed when a trade is made.
    pub open spec fn same_terms(&self, other: &Swap) -> bool {
        &&& self.id == other.id
        &&& self.role == other.role
        &&& self.network == other.network
        &&& self.primary_amount == other.primary_amount
        &&& self.secondary_amount == other.secondary_amount
        &&& self.secondary_currency == other.secondary_currency
        &&& self.mwc_confirmations == other.mwc_confirmations
        &&& self.secondary_confirmations == other.secondary_confirmations
        &&& self.message_exchange_time_sec == other.message_exchange_time_sec
        &&& self.redeem_time_sec == other.redeem_time_sec
        &&& self.seller_lock_first == other.seller_lock_first
        &&& self.started == other.started
    }

    /// A copy of the record.
    pub fn duplicate(&self) -> (r: Swap)
        ensures
            r.same(self),
    {
        let mut journal: Vec<String> = Vec::new();
        let mut i: usize = 0;
        while i < self.journal.len()
            invariant
                i <= self.journal.len(),
                journal@ == self.journal@.subrange(0, i as int),
            decreases self.journal.len() - i,
        {
            journal.push(self.journal[i].clone());
            assert(journal@ =~= self.journal@.subrange(0, i + 1));
            i = i + 1;
        }
        assert(journal@ =~= self.journal@);
        Swap {
            id: self.id.clone(),
            role: self.role,
            state: self.state,
            network: self.network,
            primary_amount: self.primary_amount,
            secondary_amount: self.secondary_amount,
            secondary_currency: self.secondary_currency,
            mwc_confirmations: self.mwc_confirmations,
            secondary_confirmations: self.secondary_confirmations,
            message_exchange_time_sec: self.message_exchange_time_sec,
            redeem_time_sec: self.redeem_time_sec,
            seller_lock_first: self.seller_lock_first,
            started: self.started,
            secondary_redeem_address: self.secondary_redeem_address.clone(),
            secondary_refund_address: self.secondary_refund_address.clone(),
            lock_slate: self.lock_slate.duplicate(),
            redeem_slate: self.redeem_slate.duplicate(),
            refund_slate: self.refund_slate.duplicate(),
            secondary_data: self.secondary_data,
            redeem_public: self.redeem_public,
            adaptor_signature: self.adaptor_signature,
            last_check_error: self.last_check_error.clone(),
            journal,
        }
    }

    /// Whether this party is the seller.
    pub open spec fn spec_is_seller(&self) -> bool {
        self.role == Role::Seller
    }

    /// Whether this party is the seller.
    #[verifier::when_used_as_spec(spec_is_seller)]
    pub fn is_seller(&self) -> (r: bool)
        ensures
            r == self.spec_is_seller(),
    {
        match self.role {
            Role::Seller => true,
            Role::Buyer => false,
        }
    }

    /// The seller's redeem address; `UnexpectedRole` for a buyer or where the
    /// address is missing.
    pub fn unwrap_seller(&self) -> (r: Result<&String, ErrorKind>)
        ensures
            self.role == Role::Seller && self.secondary_redeem_address is Some ==> r == Ok::<
                &String,
                ErrorKind,
            >(&self.secondary_redeem_address->0),
            !(self.role == Role::Seller && self.secondary_redeem_address is Some) ==> r matches Err(
                ErrorKind::UnexpectedRole(_),
            ),
    {
        match self.role {
            Role::Seller => match &self.secondary_redeem_address {
                Some(a) => Ok(a),
                None => Err(ErrorKind::UnexpectedRole("Swap Fn unwrap_seller()".to_owned())),
            },
            Role::Buyer => Err(ErrorKind::UnexpectedRole("Swap Fn unwrap_seller()".to_owned())),
        }
    }

    /// Deadline of the exchange of offer and acceptance and of the locking.
    pub open spec fn spec_time_message_offers(&self) -> int {
        self.started + self.message_exchange_time_sec
    }

    /// Wall-clock time at which the primary refund height is expected.
    pub open spec fn spec_time_mwc_refund(&self) -> int {
        self.started + refund_blocks(self.message_exchange_time_sec, self.redeem_time_sec)
            * BLOCK_INTERVAL_SEC
    }

    /// Lock time of the secondary chain: from then on the buyer can refund.
    pub open spec fn spec_time_btc_lock(&self) -> int {
        self.started + self.message_exchange_time_sec + 2 * self.redeem_time_sec
            + SAFETY_MARGIN_SEC
    }

    /// From this time on the buyer must not redeem the primary asset.
    pub open spec fn spec_time_buyer_redeem_limit(&self) -> int {
        self.spec_time_mwc_refund() - self.redeem_time_sec
    }

    /// From this time on the seller must not redeem the secondary asset.
    pub open spec fn spec_time_seller_redeem_limit(&self) -> int {
        self.spec_time_btc_lock() - self.redeem_time_sec
    }

    /// Deadline of the exchange of offer and acceptance and of the locking.
    pub fn get_time_message_offers(&self) -> (t: i128)
        ensures
            t == self.spec_time_message_offers(),
    {
        self.started as i128 + self.message_exchange_time_sec as i128
    }

    /// Wall-clock time at which the primary refund height is expected.
    pub fn get_time_mwc_refund(&self) -> (t: i128)
        ensures
            t == self.spec_time_mwc_refund(),
    {
        let span: i128 = self.message_exchange_time_sec as i128 + self.redeem_time_sec as i128
            + (BLOCK_INTERVAL_SEC as i128 - 1);
        let blocks: i128 = span / (BLOCK_INTERVAL_SEC as i128);
        self.started as i128 + blocks * (BLOCK_INTERVAL_SEC as i128)
    }

    /// Lock time of the secondary chain.
    pub fn get_time_btc_lock(&self) -> (t: i128)
        ensures
            t == self.spec_time_btc_lock(),
    {
        self.started as i128 + self.message_exchange_time_sec as i128 + 2
            * (self.redeem_time_sec as i128) + SAFETY_MARGIN_SEC as i128
    }

    /// From this time on the buyer must not redeem the primary asset.
    pub fn get_time_buyer_redeem_limit(&self) -> (t: i128)
        ensures
            t == self.spec_time_buyer_redeem_limit(),
    {
        self.get_time_mwc_refund() - self.redeem_time_sec as i128
    }

    /// From this time on the seller must not redeem the secondary asset.
    pub fn get_time_seller_redeem_limit(&self) -> (t: i128)
        ensures
            t == self.spec_time_seller_redeem_limit(),
    {
        self.get_time_btc_lock() - self.redeem_time_sec as i128
    }

    /// Whether the terms of the trade are those of a valid offer.
    pub open spec fn offer_valid(&self) -> bool {
        terms_valid(
            self.primary_amount,
            self.secondary_amount,
            self.message_exchange_time_sec,
            self.redeem_time_sec,
        )
    }

    /// Whether the terms of the trade are those of a valid offer.
    pub fn is_offer_valid(&self) -> (r: bool)
        ensures
            r == self.offer_valid(),
    {
        are_terms_valid(
            self.primary_amount,
            self.secondary_amount,
            self.message_exchange_time_sec,
            self.redeem_time_sec,
        )
    }

    /// Bytes of the lock script of the trade, where its keys are known.
    pub open spec fn spec_lock_script(&self) -> Seq<u8> {
        lock_script_bytes(
            self.secondary_data->Btc_0.refund->0.bytes@,
            self.secondary_data->Btc_0.cosign.bytes@,
            self.redeem_public->0.bytes@,
            self.spec_time_btc_lock(),
        )
    }

    /// Whether the lock script of the trade can be built: the trade is a BTC
    /// trade, the buyer's refund key and redeem point are known and the lock
    /// time is one that the script builder takes.
    pub open spec fn has_lock_script(&self) -> bool {
        &&& self.secondary_data is Btc
        &&& self.secondary_data->Btc_0.refund is Some
        &&& self.redeem_public is Some
        &&& -SCRIPT_INT_LIMIT <= self.spec_time_btc_lock() <= SCRIPT_INT_LIMIT
    }

    /// The lock script of the trade. Fails with `UnexpectedCoinType` for a
    /// trade without BTC data, else with `UnexpectedAction` where a key or
    /// the redeem point is missing or the lock time does not fit.
    pub fn lock_script(&self) -> (r: Result<Vec<u8>, ErrorKind>)
        ensures
            self.has_lock_script() ==> r is Ok && r->Ok_0@ == self.spec_lock_script(),
            !(self.secondary_data is Btc) ==> r matches Err(ErrorKind::UnexpectedCoinType),
            self.secondary_data is Btc && !self.has_lock_script() ==> r matches Err(
                ErrorKind::UnexpectedAction(_),
            ),
    {
        let btc_data = self.secondary_data.unwrap_btc()?;
        let redeem = match &self.redeem_public {
            Some(p) => p,
            None => {
                return Err(
                    ErrorKind::UnexpectedAction(
                        "swap.redeem_public value is not defined. Method BtcSwapApi::script".to_owned(),
                    ),
                );
            },
        };
        let refund = match &btc_data.refund {
            Some(p) => p,
            None => {
                return Err(
                    ErrorKind::UnexpectedAction("The refund key of the buyer is not known".to_owned()),
                );
            },
        };
        let lock_time = self.get_time_btc_lock();
        if lock_time > SCRIPT_INT_LIMIT as i128 || lock_time < -(SCRIPT_INT_LIMIT as i128) {
            return Err(ErrorKind::UnexpectedAction("The lock time is out of range".to_owned()));
        }
        Ok(build_lock_script(&refund.bytes, &btc_data.cosign.bytes, &redeem.bytes, lock_time as i64))
    }

    /// Text of the address that locks the secondary asset of the trade.
    pub open spec fn spec_lock_address(&self) -> Seq<char> {
        p2sh_address_text(self.spec_lock_script(), self.network == Network::Mainnet)
    }

    /// The address that locks the secondary asset; fails as `lock_script` does.
    pub fn secondary_lock_address(&self) -> (r: Result<String, ErrorKind>)
        ensures
            self.has_lock_script() ==> r is Ok && r->Ok_0@ == self.spec_lock_address(),
            !(self.secondary_data is Btc) ==> r matches Err(ErrorKind::UnexpectedCoinType),
            self.secondary_data is Btc && !self.has_lock_script() ==> r matches Err(
                ErrorKind::UnexpectedAction(_),
            ),
    {
        let script = self.lock_script()?;
        Ok(lock_address(&script, self.network))
    }

    /// Appends a note to the journal.
    pub fn add_journal_message(&mut self, note: String)
        ensures
            final(self).journal@ == old(self).journal@.push(note),
            *final(self) == (Swap { journal: final(self).journal, ..*old(self) }),
    {
        self.journal.push(note);
    }

    /// Whether `after` is `self` with the failed check `error` recorded: its
    /// text is the last check error, a note of it is the last of the
    /// journal, and nothing else has changed.
    pub open spec fn check_failed(&self, after: &Swap, error: &ErrorKind) -> bool {
        &&& *after == (Swap {
            last_check_error: after.last_check_error,
            journal: after.journal,
            ..*self
        })
        &&& after.last_check_error is Some
        &&& after.last_check_error->0@ == error.spec_text()
        &&& after.journal@.len() == self.journal@.len() + 1
        &&& after.journal@.drop_last() == self.journal@
        &&& after.journal@.last()@ == "Processing error: "@ + error.spec_text()
    }

    /// Records a failed check: its text becomes the last check error, and
    /// a note of it goes to the journal.
    pub fn record_check_failure(&mut self, error: &ErrorKind)
        ensures
            old(self).check_failed(final(self), error),
    {
        let text = error.to_string();
        let note = crate::text::join2("Processing error: ", text.as_str());
        self.last_check_error = Some(text);
        self.journal.push(note);
        assert(self.journal@.drop_last() =~= old(self).journal@);
    }

    /// The trade after a check that went well: no check error is left, and
    /// the note of the answer, if any, is the last of the journal.
    pub open spec fn check_passed(&self, after: &Swap, note: Option<String>) -> bool {
        &&& *after == (Swap { last_check_error: None, journal: after.journal, ..*self })
        &&& match note {
            Some(n) => after.journal@ == self.journal@.push(n),
            None => after.journal@ == self.journal@,
        }
    }

    /// The trade after another input that went well: the note of the
    /// answer, if any, is the last of the journal.
    pub open spec fn noted(&self, after: &Swap, note: Option<String>) -> bool {
        &&& *after == (Swap { journal: after.journal, ..*self })
        &&& match note {
            Some(n) => after.journal@ == self.journal@.push(n),
            None => after.journal@ == self.journal@,
        }
    }
}

} // verus!
