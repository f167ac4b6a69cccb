//! Plain value types shared by the swap engine.

use vstd::prelude::*;
use crate::error::ErrorKind;
use crate::text::str_eq;

verus! {

/// Seconds between two blocks of the primary chain.
pub const BLOCK_INTERVAL_SEC: u64 = 60;

/// Seconds added to the secondary lock time on top of the protocol phases.
pub const SAFETY_MARGIN_SEC: u64 = 3600;

/// Default fee of a secondary-chain transaction on the test network, in
/// satoshi per thousand bytes.
pub const DEFAULT_FEE_FLOONET: u64 = 1_400;

/// Default fee of a secondary-chain transaction on the main network, in
/// satoshi per thousand bytes.
pub const DEFAULT_FEE_MAINNET: u64 = 26_000;

/// Chain flavour a trade runs on.
#[derive(Clone, Copy, Debug, PartialEq, Eq, Structural)]
pub enum Network {
    /// Test network.
    Floonet,
    /// Production network.
    Mainnet,
}

/// Party of a trade.
#[derive(Clone, Copy, Debug, PartialEq, Eq, Structural)]
pub enum Role {
    /// Offers the primary asset for the secondary one.
    Seller,
    /// Offers the secondary asset for the primary one.
    Buyer,
}

/// Supported secondary coins.
#[derive(Clone, Copy, Debug, PartialEq, Eq, Structural)]
pub enum Currency {
    Btc,
    Bch,
    Ltc,
    Dash,
    Doge,
    ZCash,
}

impl Currency {
    /// The lower-case ticker of the coin.
    pub open spec fn spec_ticker(self) -> Seq<char> {
        match self {
            Currency::Btc => "btc"@,
            Currency::Bch => "bch"@,
            Currency::Ltc => "ltc"@,
            Currency::Dash => "dash"@,
            Currency::Doge => "doge"@,
            Currency::ZCash => "zcash"@,
        }
    }

    /// The coin that `name` is the lower-case ticker of, if any.
    pub open spec fn spec_from_ticker(name: Seq<char>) -> Option<Currency> {
        if name == "btc"@ {
            Some(Currency::Btc)
        } else if name == "bch"@ {
            Some(Currency::Bch)
        } else if name == "ltc"@ {
            Some(Currency::Ltc)
        } else if name == "dash"@ {
            Some(Currency::Dash)
        } else if name == "doge"@ {
            Some(Currency::Doge)
        } else if name == "zcash"@ {
            Some(Currency::ZCash)
        } else {
            None
        }
    }

    /// The lower-case ticker of the coin.
    pub fn ticker(&self) -> (s: String)
        ensures
            s@ == self.spec_ticker(),
    {
        match self {
            Currency::Btc => "btc".to_owned(),
            Currency::Bch => "bch".to_owned(),
            Currency::Ltc => "ltc".to_owned(),
            Currency::Dash => "dash".to_owned(),
            Currency::Doge => "doge".to_owned(),
            Currency::ZCash => "zcash".to_owned(),
        }
    }

    /// Parses the lower-case ticker of a coin, as given on the command line.
    pub fn try_from_str(name: &str) -> (r: Result<Currency, ErrorKind>)
        ensures
            match Currency::spec_from_ticker(name@) {
                Some(c) => r == Ok::<Currency, ErrorKind>(c),
                None => r matches Err(ErrorKind::InvalidCurrency(n)) && n@ == name@,
            },
    {
        if str_eq(name, "btc") {
            Ok(Currency::Btc)
        } else if str_eq(name, "bch") {
            Ok(Currency::Bch)
        } else if str_eq(name, "ltc") {
            Ok(Currency::Ltc)
        } else if str_eq(name, "dash") {
            Ok(Currency::Dash)
        } else if str_eq(name, "doge") {
            Ok(Currency::Doge)
        } else if str_eq(name, "zcash") {
            Ok(Currency::ZCash)
        } else {
            Err(ErrorKind::InvalidCurrency(name.to_owned()))
        }
    }

    /// Number of decimal places between the coin and its base unit.
    pub fn exponent(&self) -> (e: u32)
        ensures
            e == 8,
    {
        8
    }

    /// The amount in coins as decimal text: the coins, a dot and eight
    /// decimal places, of which `truncate` drops the trailing zeros but the
    /// first.
    pub fn amount_to_hr_string(&self, amount: u64, truncate: bool) -> (text: String)
        ensures
            text@ == amount_text(amount, truncate),
    {
        let coins = crate::text::u64_to_string(amount / BASE_UNITS);
        let places = if truncate {
            trimmed_places(amount % BASE_UNITS, 8)
        } else {
            padded_places(amount % BASE_UNITS, 8)
        };
        crate::text::join3(coins.as_str(), ".", places.as_str())
    }

    /// Default fee on `network`, in satoshi per thousand bytes.
    pub fn default_fee(&self, network: Network) -> (fee: u64)
        ensures
            fee == spec_default_fee(network),
    {
        match network {
            Network::Floonet => DEFAULT_FEE_FLOONET,
            Network::Mainnet => DEFAULT_FEE_MAINNET,
        }
    }
}

/// Base units in one coin.
pub const BASE_UNITS: u64 = 100_000_000;

/// The last `width` decimal digits of `n`, with leading zeros.
pub open spec fn padded(n: nat, width: nat) -> Seq<char>
    decreases width,
{
    if width == 0 {
        Seq::empty()
    } else {
        padded(n / 10, (width - 1) as nat).push(crate::text::digit_char(n % 10))
    }
}

/// The decimal places `padded(n, width)` without their trailing zeros, of
/// which the first place is always kept.
pub open spec fn trimmed(n: nat, width: nat) -> Seq<char>
    decreases width,
{
    if width > 1 && n % 10 == 0 {
        trimmed(n / 10, (width - 1) as nat)
    } else {
        padded(n, width)
    }
}

/// The amount in coins as decimal text.
pub open spec fn amount_text(amount: u64, truncate: bool) -> Seq<char> {
    crate::text::decimal_text((amount / BASE_UNITS) as nat) + "."@ + (if truncate {
        trimmed((amount % BASE_UNITS) as nat, 8)
    } else {
        padded((amount % BASE_UNITS) as nat, 8)
    })
}

/// The last `width` decimal digits of `n`, with leading zeros.
fn padded_places(n: u64, width: u32) -> (s: String)
    ensures
        s@ == padded(n as nat, width as nat),
    decreases width,
{
    if width == 0 {
        String::new()
    } else {
        let head = padded_places(n / 10, width - 1);
        let s = crate::text::join2(head.as_str(), crate::text::digit_text(n % 10));
        assert(s@ =~= padded(n as nat, width as nat));
        s
    }
}

/// The decimal places without their trailing zeros, of which the first is kept.
fn trimmed_places(n: u64, width: u32) -> (s: String)
    ensures
        s@ == trimmed(n as nat, width as nat),
    decreases width,
{
    if width > 1 && n % 10 == 0 {
        trimmed_places(n / 10, width - 1)
    } else {
        padded_places(n, width)
    }
}

/// Default fee on `network`, in satoshi per thousand bytes.
pub open spec fn spec_default_fee(network: Network) -> u64 {
    match network {
        Network::Floonet => DEFAULT_FEE_FLOONET,
        Network::Mainnet => DEFAULT_FEE_MAINNET,
    }
}

/// Identifier of a key in the wallet's keychain: depth, then four path
/// elements of four bytes each, most significant byte first.
#[derive(Clone, Copy, Debug, PartialEq, Eq)]
pub struct KeyId {
    pub bytes: [u8; 17],
}

/// Pedersen commitment in its serialized form.
#[derive(Clone, Copy, Debug, PartialEq, Eq)]
pub struct Commitment {
    pub bytes: [u8; 33],
}

/// Compressed public key.
#[derive(Clone, Copy, Debug, PartialEq, Eq)]
pub struct PublicKey {
    pub bytes: [u8; 33],
}

/// Partial or complete signature.
#[derive(Clone, Copy, Debug, PartialEq, Eq)]
pub struct Signature {
    pub bytes: [u8; 64],
}

/// Secret nonce of a signing session.
#[derive(Clone, Copy, Debug, PartialEq, Eq)]
pub struct SecretNonce {
    pub bytes: [u8; 32],
}

/// Identifier of a secondary-chain transaction.
#[derive(Clone, Copy, Debug, PartialEq, Eq)]
pub struct Txid {
    pub bytes: [u8; 32],
}

/// Whether two byte strings of the same length are equal.
pub fn bytes_eq<const N: usize>(a: &[u8; N], b: &[u8; N]) -> (r: bool)
    ensures
        r == (a == b),
        r == (a@ == b@),
{
    let mut i: usize = 0;
    while i < N
        invariant
            i <= N,
            a@.len() == N,
            b@.len() == N,
            forall|j: int| 0 <= j < i ==> a@[j] == b@[j],
        decreases N - i,
    {
        if a[i] != b[i] {
            return false;
        }
        i = i + 1;
    }
    assert(a@ =~= b@);
    assert(a =~= b);
    true
}

/// Whether `a` comes strictly before `b` in byte-wise dictionary order.
pub open spec fn lex_less(a: Seq<u8>, b: Seq<u8>) -> bool {
    exists|k: int|
        0 <= k < a.len() && k < b.len() && #[trigger] a[k] < b[k] && forall|j: int|
            0 <= j < k ==> a[j] == b[j]
}

impl Commitment {
    /// Whether every byte of the commitment is zero.
    pub open spec fn spec_is_zero(&self) -> bool {
        forall|i: int| 0 <= i < 33 ==> self.bytes@[i] == 0
    }

    /// Whether every byte of the commitment is zero.
    pub fn is_zero(&self) -> (r: bool)
        ensures
            r == self.spec_is_zero(),
    {
        let mut i: usize = 0;
        while i < 33
            invariant
                i <= 33,
                forall|j: int| 0 <= j < i ==> self.bytes@[j] == 0,
            decreases 33 - i,
        {
            if self.bytes[i] != 0 {
                return false;
            }
            i = i + 1;
        }
        true
    }

    /// Whether the two commitments are the same.
    pub fn same(&self, other: &Commitment) -> (r: bool)
        ensures
            r == (*self == *other),
    {
        bytes_eq(&self.bytes, &other.bytes)
    }
}

impl Txid {
    /// Whether `self` sorts strictly before `other`: byte-wise dictionary order.
    pub open spec fn spec_less(&self, other: &Txid) -> bool {
        lex_less(self.bytes@, other.bytes@)
    }

    /// Whether `self` sorts strictly before `other`.
    pub fn less(&self, other: &Txid) -> (r: bool)
        ensures
            r == self.spec_less(other),
    {
        let mut i: usize = 0;
        while i < 32
            invariant
                i <= 32,
                forall|j: int| 0 <= j < i ==> self.bytes@[j] == other.bytes@[j],
            decreases 32 - i,
        {
            if self.bytes[i] < other.bytes[i] {
                assert(self.bytes@[i as int] < other.bytes@[i as int]);
                return true;
            }
            if self.bytes[i] > other.bytes[i] {
                assert forall|k: int|
                    0 <= k < 32 && #[trigger] self.bytes@[k] < other.bytes@[k] implies !(forall|
                    j: int,
                |
                    0 <= j < k ==> self.bytes@[j] == other.bytes@[j]) by {
                    if k < i {
                    } else {
                        assert(self.bytes@[i as int] != other.bytes@[i as int]);
                    }
                }
                return false;
            }
            i = i + 1;
        }
        false
    }
}

/// Reference to one output of a secondary-chain transaction.
#[derive(Clone, Copy, Debug, PartialEq, Eq)]
pub struct OutPoint {
    pub txid: Txid,
    pub vout: u32,
}

/// Unspent output on the secondary chain. A height of zero means that the
/// output is still in the memory pool.
#[derive(Clone, Copy, Debug, PartialEq, Eq)]
pub struct Output {
    pub out_point: OutPoint,
    pub value: u64,
    pub height: u64,
}

/// Signed secondary-chain transaction, ready to be posted.
#[derive(Clone, Debug, PartialEq, Eq)]
pub struct BtcTransaction {
    pub txid: Txid,
    pub tx: Vec<u8>,
}

/// Snapshot of the confirmations of every transaction of a trade.
#[derive(Clone, Copy, Debug, PartialEq, Eq, Structural)]
pub struct SwapTransactionsConfirmations {
    /// Height of the primary chain.
    pub mwc_tip: u64,
    /// Confirmations of the primary lock transaction, if it is on chain.
    pub mwc_lock_conf: Option<u64>,
    /// Confirmations of the primary redeem transaction, if it is on chain.
    pub mwc_redeem_conf: Option<u64>,
    /// Confirmations of the primary refund transaction, if it is on chain.
    pub mwc_refund_conf: Option<u64>,
    /// Height of the secondary chain.
    pub secondary_tip: u64,
    /// Least number of confirmations among the outputs on the lock address.
    pub secondary_lock_conf: Option<u64>,
    /// Sum of the outputs on the lock address.
    pub secondary_lock_amount: u64,
    /// Confirmations of the secondary redeem transaction, if it is known.
    pub secondary_redeem_conf: Option<u64>,
    /// Confirmations of the secondary refund transaction, if it is known.
    pub secondary_refund_conf: Option<u64>,
}

/// Key of the seller on the secondary chain.
#[derive(Clone, Copy, Debug, PartialEq, Eq)]
pub struct BtcSellerContext {
    pub cosign: KeyId,
}

/// Key of the buyer on the secondary chain.
#[derive(Clone, Copy, Debug, PartialEq, Eq)]
pub struct BtcBuyerContext {
    pub refund: KeyId,
}

/// Secondary-chain part of the seller's private material.
#[derive(Clone, Copy, Debug, PartialEq, Eq)]
pub enum SecondarySellerContext {
    Btc(BtcSellerContext),
}

/// Secondary-chain part of the buyer's private material.
#[derive(Clone, Copy, Debug, PartialEq, Eq)]
pub enum SecondaryBuyerContext {
    Btc(BtcBuyerContext),
}

/// Private material of the seller.
#[derive(Debug, PartialEq, Eq)]
pub struct SellerContext {
    /// Wallet outputs spent by the lock transaction: key, position, value.
    pub inputs: Vec<(KeyId, Option<u64>, u64)>,
    pub change_output: KeyId,
    pub change_amount: u64,
    pub refund_output: KeyId,
    pub secondary_context: SecondarySellerContext,
}

/// Private material of the buyer.
#[derive(Clone, Copy, Debug, PartialEq, Eq)]
pub struct BuyerContext {
    pub output: KeyId,
    pub redeem: KeyId,
    pub secondary_context: SecondaryBuyerContext,
}

/// Role-specific private material.
#[derive(Debug, PartialEq, Eq)]
pub enum RoleContext {
    Seller(SellerContext),
    Buyer(BuyerContext),
}

/// Private per-trade material that never goes on the wire.
#[derive(Debug, PartialEq, Eq)]
pub struct Context {
    pub multisig_key: KeyId,
    pub multisig_nonce: SecretNonce,
    pub lock_nonce: SecretNonce,
    pub refund_nonce: SecretNonce,
    pub redeem_nonce: SecretNonce,
    pub role_context: RoleContext,
}

/// A copy of the list of wallet outputs.
pub fn copy_inputs(inputs: &Vec<(KeyId, Option<u64>, u64)>) -> (r: Vec<(KeyId, Option<u64>, u64)>)
    ensures
        r@ == inputs@,
{
    let mut r: Vec<(KeyId, Option<u64>, u64)> = Vec::new();
    let mut i: usize = 0;
    while i < inputs.len()
        invariant
            i <= inputs.len(),
            r@ == inputs@.subrange(0, i as int),
        decreases inputs.len() - i,
    {
        let item = inputs[i];
        r.push(item);
        assert(r@ =~= inputs@.subrange(0, i + 1));
        i = i + 1;
    }
    assert(r@ =~= inputs@);
    r
}

impl RoleContext {
    /// Whether the two hold the same values.
    pub open spec fn same(&self, other: &RoleContext) -> bool {
        match (*self, *other) {
            (RoleContext::Seller(a), RoleContext::Seller(b)) => {
                &&& a.inputs@ == b.inputs@
                &&& a.change_output == b.change_output
                &&& a.change_amount == b.change_amount
                &&& a.refund_output == b.refund_output
                &&& a.secondary_context == b.secondary_context
            },
            (RoleContext::Buyer(a), RoleContext::Buyer(b)) => a == b,
            _ => false,
        }
    }
}

impl Context {
    /// Whether the two hold the same values.
    pub open spec fn same(&self, other: &Context) -> bool {
        &&& self.multisig_key == other.multisig_key
        &&& self.multisig_nonce == other.multisig_nonce
        &&& self.lock_nonce == other.lock_nonce
        &&& self.refund_nonce == other.refund_nonce
        &&& self.redeem_nonce == other.redeem_nonce
        &&& self.role_context.same(&other.role_context)
    }

    /// A copy of the material.
    pub fn duplicate(&self) -> (r: Context)
        ensures
            r.same(self),
    {
        let role_context = match &self.role_context {
            RoleContext::Seller(c) => RoleContext::Seller(
                SellerContext {
                    inputs: copy_inputs(&c.inputs),
                    change_output: c.change_output,
                    change_amount: c.change_amount,
                    refund_output: c.refund_output,
                    secondary_context: c.secondary_context,
                },
            ),
            RoleContext::Buyer(c) => RoleContext::Buyer(*c),
        };
        Context {
            multisig_key: self.multisig_key,
            multisig_nonce: self.multisig_nonce,
            lock_nonce: self.lock_nonce,
            refund_nonce: self.refund_nonce,
            redeem_nonce: self.redeem_nonce,
            role_context,
        }
    }

    /// The seller's material, or `UnexpectedRole` for a buyer.
    pub fn unwrap_seller(&self) -> (r: Result<&SellerContext, ErrorKind>)
        ensures
            match self.role_context {
                RoleContext::Seller(c) => r == Ok::<&SellerContext, ErrorKind>(&c),
                RoleContext::Buyer(_) => r matches Err(ErrorKind::UnexpectedRole(_)),
            },
    {
        match &self.role_context {
            RoleContext::Seller(c) => Ok(c),
            RoleContext::Buyer(_) => Err(
                ErrorKind::UnexpectedRole("Context Fn unwrap_seller()".to_owned()),
            ),
        }
    }

    /// The buyer's material, or `UnexpectedRole` for a seller.
    pub fn unwrap_buyer(&self) -> (r: Result<&BuyerContext, ErrorKind>)
        ensures
            match self.role_context {
                RoleContext::Buyer(c) => r == Ok::<&BuyerContext, ErrorKind>(&c),
                RoleContext::Seller(_) => r matches Err(ErrorKind::UnexpectedRole(_)),
            },
    {
        match &self.role_context {
            RoleContext::Buyer(c) => Ok(c),
            RoleContext::Seller(_) => Err(
                ErrorKind::UnexpectedRole("Context Fn unwrap_buyer()".to_owned()),
            ),
        }
    }
}

impl SellerContext {
    /// The seller's secondary-chain key.
    pub fn unwrap_btc(&self) -> (r: Result<&BtcSellerContext, ErrorKind>)
        ensures
            r == Ok::<&BtcSellerContext, ErrorKind>(&self.secondary_context->Btc_0),
    {
        match &self.secondary_context {
            SecondarySellerContext::Btc(c) => Ok(c),
        }
    }
}

impl BuyerContext {
    /// The buyer's secondary-chain key.
    pub fn unwrap_btc(&self) -> (r: Result<&BtcBuyerContext, ErrorKind>)
        ensures
            r == Ok::<&BtcBuyerContext, ErrorKind>(&self.secondary_context->Btc_0),
    {
        match &self.secondary_context {
            SecondaryBuyerContext::Btc(c) => Ok(c),
        }
    }
}

/// State of a wallet output.
#[derive(Clone, Copy, Debug, PartialEq, Eq, Structural)]
pub enum OutputStatus {
    Unconfirmed,
    Unspent,
    Locked,
    Spent,
}

/// Wallet record of one output.
#[derive(Clone, Debug, PartialEq, Eq)]
pub struct OutputData {
    pub root_key_id: KeyId,
    pub key_id: KeyId,
    pub n_child: u32,
    pub mmr_index: Option<u64>,
    /// Commitment of the output, as lower-case hexadecimal text.
    pub commit: Option<String>,
    pub value: u64,
    pub status: OutputStatus,
    pub height: u64,
    pub lock_height: u64,
    pub is_coinbase: bool,
    pub tx_log_entry: Option<u32>,
}

/// Kind of a wallet transaction log entry.
#[derive(Clone, Copy, Debug, PartialEq, Eq, Structural)]
pub enum TxLogEntryType {
    ConfirmedCoinbase,
    TxReceived,
    TxSent,
    TxReceivedCancelled,
    TxSentCancelled,
}

/// Wallet record of one transaction.
#[derive(Clone, Debug, PartialEq, Eq)]
pub struct TxLogEntry {
    pub parent_key_id: KeyId,
    pub id: u32,
    pub tx_slate_id: Option<String>,
    pub tx_type: TxLogEntryType,
    pub address: Option<String>,
    pub amount_credited: u64,
    pub amount_debited: u64,
    pub num_inputs: usize,
    pub num_outputs: usize,
    pub output_commits: Vec<Commitment>,
    pub kernel_excess: Option<Commitment>,
    pub kernel_lookup_min_height: Option<u64>,
    pub ttl_cutoff_height: Option<u64>,
    pub confirmed: bool,
}

/// What the operator gives to start a trade as the seller.
#[derive(Clone, Debug, PartialEq, Eq)]
pub struct SwapStartArgs {
    pub mwc_amount: u64,
    pub minimum_confirmations: Option<u64>,
    pub secondary_currency: String,
    pub secondary_amount: u64,
    pub secondary_redeem_address: String,
    pub seller_lock_first: bool,
    pub mwc_confirmations: u64,
    pub secondary_confirmations: u64,
    pub message_exchange_time_sec: u64,
    pub redeem_time_sec: u64,
}

/// Number of confirmations of a transaction mined at `height` when the
/// chain tip is `tip`: the tip's distance plus one, kept within `u64`.
pub open spec fn confirmations_at(tip: u64, height: u64) -> u64 {
    if tip < height {
        1
    } else if tip - height == u64::MAX {
        u64::MAX
    } else {
        (tip - height + 1) as u64
    }
}

/// Number of confirmations of a transaction mined at `height` when the
/// chain tip is `tip`.
pub fn confirmations(tip: u64, height: u64) -> (c: u64)
    ensures
        c == confirmations_at(tip, height),
        c >= 1,
{
    tip.saturating_sub(height).saturating_add(1)
}

} // verus!
