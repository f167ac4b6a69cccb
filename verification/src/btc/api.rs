//! The adapter itself: what a trade asks of the two chains.

use vstd::prelude::*;
use vstd::pervasive::cloned;
use crate::btc::balance::{
    btc_confirmations, btc_confirmations_spec, capped, classify_outputs, confirmed_sum,
    kernel_confirmations, kernel_confirmations_spec, least_of_all, least_pending, lock_state, mined,
    outputs_confirmations, outputs_confirmations_spec, pending_sum, sort_outputs, sorted_by_txid,
    total_sum,
};
use crate::btc::client::{BtcNodeClient, NodeClient, SpendPlan, SwapKeychain};
use crate::error::{ErrorCode, ErrorKind};
use crate::fsm::machine::{buyer_machine, buyer_states, seller_machine, seller_states, StateMachine};
use crate::fsm::state::StateId;
use crate::keychain::generate_nonce;
use crate::message::{BtcUpdate, SecondaryUpdate};
use crate::script::{btc_address_valid, is_valid_address};
use crate::swap::{
    are_terms_valid, count_refund_blocks, refund_blocks, terms_valid, BtcData, SecondaryData, Slate,
    Swap,
};
use crate::types::{
    spec_default_fee, BtcBuyerContext, BtcSellerContext, BtcTransaction, BuyerContext, Commitment,
    Context, Currency, KeyId, Network, Output, PublicKey, Role, RoleContext,
    SecondaryBuyerContext,
    SecondarySellerContext, SecretNonce, SellerContext, SwapTransactionsConfirmations, Txid,
};

verus! {

/// Number of wallet keys that the private material of a BTC trade takes.
pub const CONTEXT_KEY_COUNT: usize = 4;

/// How the confirmations of a slate are looked up.
#[derive(Clone, Copy, Debug, PartialEq, Eq)]
pub enum SlateLookup {
    /// Not at all: the slate has no kernel, or nothing to find it by.
    Nothing,
    /// By the excess of its kernel, from the height of the slate on.
    ByKernel(Commitment, u64),
    /// By its outputs, because the excess is still zero.
    ByOutputs,
}

/// How the confirmations of `slate` are looked up; its outputs are used
/// only where `outputs_ok` allows it.
pub open spec fn slate_lookup_spec(slate: &Slate, outputs_ok: bool) -> SlateLookup {
    match slate.kernel {
        None => SlateLookup::Nothing,
        Some(excess) => if !excess.spec_is_zero() {
            SlateLookup::ByKernel(excess, slate.height)
        } else if outputs_ok {
            SlateLookup::ByOutputs
        } else {
            SlateLookup::Nothing
        },
    }
}

/// How the confirmations of `slate` are looked up.
pub fn slate_lookup(slate: &Slate, outputs_ok: bool) -> (r: SlateLookup)
    ensures
        r == slate_lookup_spec(slate, outputs_ok),
{
    match &slate.kernel {
        None => SlateLookup::Nothing,
        Some(excess) => if !excess.is_zero() {
            SlateLookup::ByKernel(*excess, slate.height)
        } else if outputs_ok {
            SlateLookup::ByOutputs
        } else {
            SlateLookup::Nothing
        },
    }
}

/// Whether `balance` is what the unspent `outputs` amount to under `tip`:
/// the pending and the confirmed sum, the least number of confirmations
/// among the pending outputs, and the mined outputs in ascending order of
/// their transaction ids.
pub open spec fn balance_is(
    balance: (u64, u64, u64, Vec<Output>),
    outputs: Seq<Output>,
    tip: u64,
    needed: u64,
) -> bool {
    &&& balance.0 == capped(pending_sum(outputs, tip, needed))
    &&& balance.1 == capped(confirmed_sum(outputs, tip, needed))
    &&& balance.2 == match least_pending(outputs, tip, needed) {
        Some(n) => n,
        None => 0,
    }
    &&& sorted_by_txid(balance.3@)
    &&& balance.3@.to_multiset() == mined(outputs).to_multiset()
}

/// Whether `found` is what a look-up of `slate` under the tip `tip` can
/// give: nothing for a slate that is not looked up; else the confirmations
/// of what the node finds by the kernel, or by the outputs.
pub open spec fn slate_confirmations_fit(
    slate: &Slate,
    outputs_ok: bool,
    tip: u64,
    found: Option<u64>,
) -> bool {
    match slate_lookup_spec(slate, outputs_ok) {
        SlateLookup::Nothing => found is None,
        SlateLookup::ByKernel(_, _) => exists|kernel: Option<(u64, u64)>|
            found == #[trigger] kernel_confirmations_spec(tip, kernel),
        SlateLookup::ByOutputs => exists|outputs: Seq<(Commitment, u64, u64)>|
            found == #[trigger] outputs_confirmations_spec(tip, outputs),
    }
}

/// Whether `found` is what a look-up of the transaction `tx_hash` under the
/// tip `tip` can give: nothing without a transaction, else the
/// confirmations of what the node knows of it.
pub open spec fn btc_confirmations_fit(tx_hash: Option<Txid>, tip: u64, found: Option<u64>) -> bool {
    match tx_hash {
        None => found is None,
        Some(_) => exists|known: Option<Option<u64>>|
            found == #[trigger] btc_confirmations_spec(tip, known),
    }
}

/// Whether `conf` is a snapshot that the nodes can give of the trade
/// `swap`: every number of confirmations is one that its look-up can give
/// under the tip of the snapshot, and the lock amount and the lock
/// confirmations are those of some unspent outputs, or nothing where the
/// lock script is not known yet.
pub open spec fn confirmations_fit(swap: &Swap, conf: &SwapTransactionsConfirmations) -> bool {
    &&& swap.secondary_data is Btc
    &&& slate_confirmations_fit(
        &swap.lock_slate,
        swap.role != Role::Seller,
        conf.mwc_tip,
        conf.mwc_lock_conf,
    )
    &&& slate_confirmations_fit(
        &swap.redeem_slate,
        swap.role == Role::Seller,
        conf.mwc_tip,
        conf.mwc_redeem_conf,
    )
    &&& slate_confirmations_fit(
        &swap.refund_slate,
        swap.role != Role::Seller,
        conf.mwc_tip,
        conf.mwc_refund_conf,
    )
    &&& btc_confirmations_fit(
        swap.secondary_data->Btc_0.redeem_tx,
        conf.secondary_tip,
        conf.secondary_redeem_conf,
    )
    &&& btc_confirmations_fit(
        swap.secondary_data->Btc_0.refund_tx,
        conf.secondary_tip,
        conf.secondary_refund_conf,
    )
    &&& if swap.has_lock_script() {
        exists|outputs: Seq<Output>| #[trigger] lock_state_is(conf, outputs)
    } else {
        conf.secondary_lock_amount == 0 && conf.secondary_lock_conf is None
    }
}

/// Whether the lock amount and the lock confirmations of `conf` are what
/// the unspent `outputs` on the lock address amount to.
pub open spec fn lock_state_is(conf: &SwapTransactionsConfirmations, outputs: Seq<Output>) -> bool {
    conf.secondary_lock_amount == capped(total_sum(outputs)) && conf.secondary_lock_conf
        == least_of_all(outputs, conf.secondary_tip)
}

/// What keeps the seller from redeeming before the chain is asked:
/// `UnexpectedRole` where the material or the trade is not the seller's,
/// `InvalidAddress` where the redeem address does not parse, `UnexpectedCoinType`
/// for a trade without BTC data, `OneShot` where a redeem transaction is
/// already stored.
pub open spec fn redeem_preflight_fault(swap: &Swap, context: &Context) -> Option<ErrorCode> {
    if !(context.role_context is Seller) {
        Some(ErrorCode::UnexpectedRole)
    } else if !(swap.role == Role::Seller && swap.secondary_redeem_address is Some) {
        Some(ErrorCode::UnexpectedRole)
    } else if !btc_address_valid(swap.secondary_redeem_address->0@) {
        Some(ErrorCode::InvalidAddress)
    } else if !(swap.secondary_data is Btc) {
        Some(ErrorCode::UnexpectedCoinType)
    } else if swap.secondary_data->Btc_0.redeem_tx is Some {
        Some(ErrorCode::OneShot)
    } else {
        None
    }
}

/// Checks that the seller can redeem, as far as that shows without the
/// chain, and gives the redeem address.
pub fn redeem_preflight(swap: &Swap, context: &Context) -> (r: Result<String, ErrorKind>)
    ensures
        match redeem_preflight_fault(swap, context) {
            Some(code) => r is Err && r->Err_0.spec_code() == code,
            None => r is Ok && r->Ok_0 == swap.secondary_redeem_address->0,
        },
{
    let seller = context.unwrap_seller()?;
    let _cosign = seller.unwrap_btc()?;
    let address = swap.unwrap_seller()?;
    if !is_valid_address(address.as_str()) {
        return Err(
            ErrorKind::InvalidAddress(
                crate::text::join2("Unable to parse BTC redeem address ", address.as_str()),
            ),
        );
    }
    let btc_data = swap.secondary_data.unwrap_btc()?;
    if btc_data.redeem_tx.is_some() {
        return Err(
            ErrorKind::OneShot(
                "Fn: seller_build_redeem_tx, btc_data.redeem_tx is not empty".to_owned(),
            ),
        );
    }
    Ok(address.clone())
}

/// What keeps the buyer from its refund before a collaborator is asked:
/// `UnexpectedRole` where the private material is the seller's,
/// `UnexpectedCoinType` for a trade without BTC data.
pub open spec fn refund_fault(swap: &Swap, context: &Context) -> Option<ErrorCode> {
    if !(context.role_context is Buyer) {
        Some(ErrorCode::UnexpectedRole)
    } else if !(swap.secondary_data is Btc) {
        Some(ErrorCode::UnexpectedCoinType)
    } else {
        None
    }
}

/// Whether `plan` spends `outputs` to `address` under `script`.
pub open spec fn plan_is(
    plan: &SpendPlan,
    address: String,
    script: Vec<u8>,
    fee: Option<u64>,
    network: Network,
    lock_time: i128,
    outputs: Seq<Output>,
) -> bool {
    &&& plan.address == address
    &&& plan.script == script
    &&& plan.fee == match fee {
        Some(f) => f,
        None => spec_default_fee(network),
    }
    &&& plan.lock_time == lock_time
    &&& sorted_by_txid(plan.outputs@)
    &&& plan.outputs@.to_multiset() == outputs.to_multiset()
}

/// What a transaction that empties the lock address is made of: the mined
/// outputs in the order of their transactions' identifiers, and the given
/// fee or else the default of the network. `NotEnoughFunds` where the
/// address holds nothing, pending or confirmed.
pub fn spend_plan(
    address: String,
    script: Vec<u8>,
    fee: Option<u64>,
    network: Network,
    lock_time: i128,
    balance: (u64, u64, u64, Vec<Output>),
) -> (r: Result<SpendPlan, ErrorKind>)
    ensures
        balance.0 == 0 && balance.1 == 0 ==> r matches Err(ErrorKind::NotEnoughFunds(_)),
        !(balance.0 == 0 && balance.1 == 0) ==> r is Ok && plan_is(
            &r->Ok_0,
            address,
            script,
            fee,
            network,
            lock_time,
            balance.3@,
        ),
{
    if balance.0 == 0 && balance.1 == 0 {
        return Err(
            ErrorKind::NotEnoughFunds(
                "Not found outputs to spend. Probably the other party already took them".to_owned(),
            ),
        );
    }
    let outputs = sort_outputs(&balance.3);
    let fee = match fee {
        Some(f) => f,
        None => Currency::Btc.default_fee(network),
    };
    Ok(SpendPlan { address, script, fee, lock_time, outputs })
}

/// The trade with `txid` stored as its redeem transaction.
pub open spec fn with_redeem_tx(swap: Swap, txid: Txid) -> Swap {
    Swap {
        secondary_data: SecondaryData::Btc(
            BtcData { redeem_tx: Some(txid), ..swap.secondary_data->Btc_0 },
        ),
        ..swap
    }
}

/// The trade with `txid` stored as its refund transaction.
pub open spec fn with_refund_tx(swap: Swap, txid: Txid) -> Swap {
    Swap {
        secondary_data: SecondaryData::Btc(
            BtcData { refund_tx: Some(txid), ..swap.secondary_data->Btc_0 },
        ),
        ..swap
    }
}

/// Stores `txid` as the redeem transaction of the trade; `UnexpectedCoinType`
/// for a trade without BTC data.
pub fn store_redeem_tx(swap: &mut Swap, txid: Txid) -> (r: Result<(), ErrorKind>)
    ensures
        old(swap).secondary_data is Btc ==> r is Ok && *final(swap) == with_redeem_tx(
            *old(swap),
            txid,
        ),
        !(old(swap).secondary_data is Btc) ==> (r matches Err(ErrorKind::UnexpectedCoinType))
            && *final(swap) == *old(swap),
{
    match swap.secondary_data {
        SecondaryData::Btc(d) => {
            swap.secondary_data = SecondaryData::Btc(
                BtcData {
                    cosign: d.cosign,
                    refund: d.refund,
                    redeem_tx: Some(txid),
                    refund_tx: d.refund_tx,
                },
            );
            Ok(())
        },
        SecondaryData::Empty => Err(ErrorKind::UnexpectedCoinType),
    }
}

/// Stores `txid` as the refund transaction of the trade; `UnexpectedCoinType`
/// for a trade without BTC data.
pub fn store_refund_tx(swap: &mut Swap, txid: Txid) -> (r: Result<(), ErrorKind>)
    ensures
        old(swap).secondary_data is Btc ==> r is Ok && *final(swap) == with_refund_tx(
            *old(swap),
            txid,
        ),
        !(old(swap).secondary_data is Btc) ==> (r matches Err(ErrorKind::UnexpectedCoinType))
            && *final(swap) == *old(swap),
{
    match swap.secondary_data {
        SecondaryData::Btc(d) => {
            swap.secondary_data = SecondaryData::Btc(
                BtcData {
                    cosign: d.cosign,
                    refund: d.refund,
                    redeem_tx: d.redeem_tx,
                    refund_tx: Some(txid),
                },
            );
            Ok(())
        },
        SecondaryData::Empty => Err(ErrorKind::UnexpectedCoinType),
    }
}

/// Whether `context` is the private material that these keys and nonces make.
pub open spec fn context_is(
    context: &Context,
    is_seller: bool,
    inputs: Option<Vec<(KeyId, Option<u64>, u64)>>,
    change_amount: u64,
    keys: Seq<KeyId>,
) -> bool {
    &&& context.multisig_key == keys[3]
    &&& if is_seller {
        context.role_context == RoleContext::Seller(
            SellerContext {
                inputs: inputs->0,
                change_output: keys[0],
                change_amount,
                refund_output: keys[1],
                secondary_context: SecondarySellerContext::Btc(BtcSellerContext { cosign: keys[2] }),
            },
        )
    } else {
        context.role_context == RoleContext::Buyer(
            BuyerContext {
                output: keys[0],
                redeem: keys[1],
                secondary_context: SecondaryBuyerContext::Btc(BtcBuyerContext { refund: keys[2] }),
            },
        )
    }
}

/// The private material that four wallet keys and four drawn nonces
/// make: the keys stand where `context_is` says, and each nonce stands in
/// the field that it was drawn for.
pub fn assemble_context(
    is_seller: bool,
    inputs: Option<Vec<(KeyId, Option<u64>, u64)>>,
    change_amount: u64,
    keys: &Vec<KeyId>,
    multisig_nonce: SecretNonce,
    lock_nonce: SecretNonce,
    refund_nonce: SecretNonce,
    redeem_nonce: SecretNonce,
) -> (c: Context)
    requires
        keys@.len() >= CONTEXT_KEY_COUNT,
        is_seller ==> inputs is Some,
    ensures
        context_is(&c, is_seller, inputs, change_amount, keys@),
        c.multisig_nonce == multisig_nonce,
        c.lock_nonce == lock_nonce,
        c.refund_nonce == refund_nonce,
        c.redeem_nonce == redeem_nonce,
{
    let seller_inputs = if is_seller {
        inputs
    } else {
        None
    };
    let role_context = match seller_inputs {
        Some(i) => RoleContext::Seller(
            SellerContext {
                inputs: i,
                change_output: keys[0],
                change_amount,
                refund_output: keys[1],
                secondary_context: SecondarySellerContext::Btc(BtcSellerContext { cosign: keys[2] }),
            },
        ),
        None => RoleContext::Buyer(
            BuyerContext {
                output: keys[0],
                redeem: keys[1],
                secondary_context: SecondaryBuyerContext::Btc(BtcBuyerContext { refund: keys[2] }),
            },
        ),
    };
    Context {
        multisig_key: keys[3],
        multisig_nonce,
        lock_nonce,
        refund_nonce,
        redeem_nonce,
        role_context,
    }
}

/// What keeps the private material from being made, apart from the signing context.
pub open spec fn context_fault(
    secondary_currency: Currency,
    is_seller: bool,
    inputs: Option<Vec<(KeyId, Option<u64>, u64)>>,
    keys: Seq<KeyId>,
) -> Option<ErrorCode> {
    if secondary_currency != Currency::Btc {
        Some(ErrorCode::UnexpectedCoinType)
    } else if is_seller && inputs is None {
        Some(ErrorCode::UnexpectedRole)
    } else if keys.len() < CONTEXT_KEY_COUNT {
        Some(ErrorCode::UnexpectedAction)
    } else {
        None
    }
}

/// Whether `swap` is the new offer of a seller with these terms.
pub open spec fn offer_is(
    swap: &Swap,
    id: String,
    network: Network,
    primary_amount: u64,
    secondary_amount: u64,
    secondary_redeem_address: String,
    seller_lock_first: bool,
    mwc_confirmations: u64,
    secondary_confirmations: u64,
    message_exchange_time_sec: u64,
    redeem_time_sec: u64,
    now: i64,
) -> bool {
    &&& swap.id == id
    &&& swap.role == Role::Seller
    &&& swap.state == StateId::SellerOfferCreated
    &&& swap.network == network
    &&& swap.primary_amount == primary_amount
    &&& swap.secondary_amount == secondary_amount
    &&& swap.secondary_currency == Currency::Btc
    &&& swap.mwc_confirmations == mwc_confirmations
    &&& swap.secondary_confirmations == secondary_confirmations
    &&& swap.message_exchange_time_sec == message_exchange_time_sec
    &&& swap.redeem_time_sec == redeem_time_sec
    &&& swap.seller_lock_first == seller_lock_first
    &&& swap.started == now
    &&& swap.secondary_redeem_address == Some(secondary_redeem_address)
    &&& swap.secondary_refund_address is None
    &&& swap.lock_slate.amount == primary_amount
    &&& swap.lock_slate.seller_signature is Some
    &&& swap.refund_slate.seller_signature is Some
    &&& swap.refund_slate.lock_height == swap.lock_slate.height + refund_blocks(
        message_exchange_time_sec,
        redeem_time_sec,
    )
    &&& swap.redeem_slate.buyer_signature is None
    &&& swap.secondary_data is Btc
    &&& swap.secondary_data->Btc_0.refund is None
    &&& swap.secondary_data->Btc_0.redeem_tx is None
    &&& swap.secondary_data->Btc_0.refund_tx is None
    &&& swap.redeem_public is None
    &&& swap.adaptor_signature is None
    &&& swap.last_check_error is None
    &&& swap.journal@ == Seq::<String>::empty()
    &&& swap.offer_valid()
}

/// The height from which the refund of an offer made at `height` can be
/// mined: `InvalidAmount` where it is beyond every height.
pub fn refund_height_of(height: u64, message_exchange_time_sec: u64, redeem_time_sec: u64) -> (r:
    Result<u64, ErrorKind>)
    ensures
        height + refund_blocks(message_exchange_time_sec, redeem_time_sec) <= u64::MAX ==> r
            == Ok::<u64, ErrorKind>(
            (height + refund_blocks(message_exchange_time_sec, redeem_time_sec)) as u64,
        ),
        height + refund_blocks(message_exchange_time_sec, redeem_time_sec) > u64::MAX ==> r matches Err(
            ErrorKind::InvalidAmount(_),
        ),
{
    let blocks = count_refund_blocks(message_exchange_time_sec, redeem_time_sec);
    match height.checked_add(blocks) {
        Some(h) => Ok(h),
        None => Err(ErrorKind::InvalidAmount("The refund height is out of range".to_owned())),
    }
}

/// Whether the slates are those of an offer of `primary_amount` made at
/// `height`: the lock slate holds the amount and the height, the refund
/// slate is locked as far above as the terms ask, and the seller has
/// signed both.
pub open spec fn slates_fit(
    lock_slate: &Slate,
    refund_slate: &Slate,
    primary_amount: u64,
    height: u64,
    message_exchange_time_sec: u64,
    redeem_time_sec: u64,
) -> bool {
    &&& lock_slate.amount == primary_amount
    &&& lock_slate.height == height
    &&& refund_slate.lock_height == height + refund_blocks(
        message_exchange_time_sec,
        redeem_time_sec,
    )
    &&& lock_slate.seller_signature is Some
    &&& refund_slate.seller_signature is Some
}

/// The seller's new trade under the identifier `id`, started at `now`,
/// once the node has given the `height` and the keychain the slates and the
/// seller's key of the two-party branch: the trade holds the terms, the
/// slates and the key as they were given. `Generic` where the slates do not
/// fit the offer, and only then.
pub fn assemble_offer(
    id: String,
    network: Network,
    primary_amount: u64,
    secondary_amount: u64,
    secondary_redeem_address: String,
    seller_lock_first: bool,
    mwc_confirmations: u64,
    secondary_confirmations: u64,
    message_exchange_time_sec: u64,
    redeem_time_sec: u64,
    now: i64,
    height: u64,
    lock_slate: Slate,
    refund_slate: Slate,
    cosign: PublicKey,
) -> (r: Result<Swap, ErrorKind>)
    requires
        terms_valid(primary_amount, secondary_amount, message_exchange_time_sec, redeem_time_sec),
    ensures
        slates_fit(
            &lock_slate,
            &refund_slate,
            primary_amount,
            height,
            message_exchange_time_sec,
            redeem_time_sec,
        ) ==> r is Ok && offer_is(
            &r->Ok_0,
            id,
            network,
            primary_amount,
            secondary_amount,
            secondary_redeem_address,
            seller_lock_first,
            mwc_confirmations,
            secondary_confirmations,
            message_exchange_time_sec,
            redeem_time_sec,
            now,
        ) && r->Ok_0.lock_slate == lock_slate && r->Ok_0.refund_slate == refund_slate
            && r->Ok_0.redeem_slate.is_blank()
            && r->Ok_0.secondary_data->Btc_0.cosign == cosign,
        !slates_fit(
            &lock_slate,
            &refund_slate,
            primary_amount,
            height,
            message_exchange_time_sec,
            redeem_time_sec,
        ) ==> r matches Err(ErrorKind::Generic(_)),
{
    let fits = match refund_height_of(height, message_exchange_time_sec, redeem_time_sec) {
        Ok(refund_height) => lock_slate.amount == primary_amount && lock_slate.height == height
            && refund_slate.lock_height == refund_height && lock_slate.seller_signature.is_some()
            && refund_slate.seller_signature.is_some(),
        Err(_) => false,
    };
    if !fits {
        return Err(
            ErrorKind::Generic("The slates of the keychain do not fit the offer".to_owned()),
        );
    }
    Ok(
        Swap {
            id,
            role: Role::Seller,
            state: StateId::SellerOfferCreated,
            network,
            primary_amount,
            secondary_amount,
            secondary_currency: Currency::Btc,
            mwc_confirmations,
            secondary_confirmations,
            message_exchange_time_sec,
            redeem_time_sec,
            seller_lock_first,
            started: now,
            secondary_redeem_address: Some(secondary_redeem_address),
            secondary_refund_address: None,
            lock_slate,
            redeem_slate: Slate::blank(),
            refund_slate,
            secondary_data: SecondaryData::Btc(
                BtcData { cosign, refund: None, redeem_tx: None, refund_tx: None },
            ),
            redeem_public: None,
            adaptor_signature: None,
            last_check_error: None,
            journal: Vec::new(),
        },
    )
}

/// What keeps an offer from being made before a collaborator is asked:
/// `InvalidAddress` where the redeem address does not parse, `UnexpectedCoinType`
/// for another coin than BTC, `InvalidAmount` where the terms are not those
/// of a valid offer, `UnexpectedRole` where the material is the buyer's.
pub open spec fn offer_fault(
    context: &Context,
    primary_amount: u64,
    secondary_amount: u64,
    secondary_currency: Currency,
    secondary_redeem_address: Seq<char>,
    message_exchange_time_sec: u64,
    redeem_time_sec: u64,
) -> Option<ErrorCode> {
    if !btc_address_valid(secondary_redeem_address) {
        Some(ErrorCode::InvalidAddress)
    } else if secondary_currency != Currency::Btc {
        Some(ErrorCode::UnexpectedCoinType)
    } else if !terms_valid(
        primary_amount,
        secondary_amount,
        message_exchange_time_sec,
        redeem_time_sec,
    ) {
        Some(ErrorCode::InvalidAmount)
    } else if !(context.role_context is Seller) {
        Some(ErrorCode::UnexpectedRole)
    } else {
        None
    }
}

/// The adapter of the secondary chain for BTC, with the nodes of both chains.
pub struct BtcSwapApi<C: NodeClient, B: BtcNodeClient> {
    /// Client of the primary chain's node.
    pub node_client: C,
    /// Client of the secondary chain's node.
    pub btc_node_client: B,
}

impl<C: NodeClient, B: BtcNodeClient> BtcSwapApi<C, B> {
    /// An adapter over the two clients.
    pub fn new(node_client: C, btc_node_client: B) -> (api: Self)
        ensures
            api.node_client == node_client,
            api.btc_node_client == btc_node_client,
    {
        BtcSwapApi { node_client, btc_node_client }
    }

    /// The lock script of the trade. Fails with `UnexpectedCoinType` for a
    /// trade without BTC data, else with `UnexpectedAction` where a key or
    /// the redeem point is missing or the lock time does not fit.
    pub fn script(&self, swap: &Swap) -> (r: Result<Vec<u8>, ErrorKind>)
        ensures
            swap.has_lock_script() ==> r is Ok && r->Ok_0@ == swap.spec_lock_script(),
            !(swap.secondary_data is Btc) ==> r matches Err(ErrorKind::UnexpectedCoinType),
            swap.secondary_data is Btc && !swap.has_lock_script() ==> r matches Err(
                ErrorKind::UnexpectedAction(_),
            ),
    {
        swap.lock_script()
    }

    /// What the lock address of `input_script` holds: the pending and the
    /// confirmed amount, the least number of confirmations among the pending
    /// outputs, and the mined outputs sorted by transaction id. Fails with `UnexpectedCoinType` for a
    /// trade without BTC data, else as the node fails.
    pub fn btc_balance(&mut self, swap: &Swap, input_script: &Vec<u8>, confirmations_needed: u64) -> (r:
        Result<(u64, u64, u64, Vec<Output>), ErrorKind>)
        ensures
            !(swap.secondary_data is Btc) ==> r matches Err(ErrorKind::UnexpectedCoinType),
            r is Ok ==> exists|outputs: Seq<Output>, tip: u64| #[trigger]
                balance_is(r->Ok_0, outputs, tip, confirmations_needed),
    {
        let _btc_data = swap.secondary_data.unwrap_btc()?;
        let address = crate::script::lock_address(input_script, swap.network);
        let outputs = self.btc_node_client.unspent(&address)?;
        let height = self.btc_node_client.height()?;
        let b = classify_outputs(&outputs, height, confirmations_needed);
        let balance = (b.pending, b.confirmed, b.least_confirmations, b.outputs);
        assert(balance_is(balance, outputs@, height, confirmations_needed));
        let done: Result<(u64, u64, u64, Vec<Output>), ErrorKind> = Ok(balance);
        assert(balance_is(done->Ok_0, outputs@, height, confirmations_needed));
        done
    }

    /// The signed transaction with which the seller redeems the secondary
    /// asset. Fails as `redeem_preflight` says before anything is asked of a
    /// collaborator; after that as the node or the keychain fails, or with
    /// `NotEnoughFunds` where the lock address holds nothing.
    fn seller_build_redeem_tx<K: SwapKeychain>(
        &mut self,
        keychain: &K,
        swap: &Swap,
        context: &Context,
        input_script: &Vec<u8>,
        fee_per_vb: Option<u64>,
    ) -> (r: Result<BtcTransaction, ErrorKind>)
        ensures
            redeem_preflight_fault(swap, context) matches Some(code) ==> r is Err
                && r->Err_0.spec_code() == code,
    {
        let address = redeem_preflight(swap, context)?;
        let balance = self.btc_balance(swap, input_script, 0)?;
        let script = copy_bytes(input_script);
        let plan = spend_plan(
            address,
            script,
            fee_per_vb,
            swap.network,
            swap.get_time_btc_lock(),
            balance,
        )?;
        keychain.sign_redeem_tx(context, swap, &plan)
    }

    /// Builds, signs and posts the buyer's refund and stores its identifier.
    /// Fails as `refund_fault` says before a collaborator is asked; after
    /// that as the node or the keychain fails, and with `NotEnoughFunds`
    /// where the lock address holds nothing. The trade changes only on
    /// success: it then holds the identifier of the refund transaction.
    fn buyer_refund<K: SwapKeychain>(
        &mut self,
        keychain: &K,
        context: &Context,
        swap: &mut Swap,
        refund_address: String,
        input_script: &Vec<u8>,
        fee_per_vb: Option<u64>,
    ) -> (r: Result<(), ErrorKind>)
        ensures
            refund_fault(old(swap), context) matches Some(code) ==> r is Err
                && r->Err_0.spec_code() == code,
            r is Ok ==> exists|txid: Txid| *final(swap) == with_refund_tx(*old(swap), txid),
            r is Err ==> *final(swap) == *old(swap),
    {
        let _refund = context.unwrap_buyer()?;
        let balance = self.btc_balance(swap, input_script, 0)?;
        let script = copy_bytes(input_script);
        let plan = spend_plan(
            refund_address,
            script,
            fee_per_vb,
            swap.network,
            swap.get_time_btc_lock(),
            balance,
        )?;
        let refund_tx = keychain.sign_refund_tx(context, swap, &plan)?;
        let BtcTransaction { txid, tx } = refund_tx;
        self.btc_node_client.post_tx(tx)?;
        store_refund_tx(swap, txid)
    }

    /// The confirmations of the transaction of `slate` under the tip
    /// `mwc_tip`: none for a slate that is not looked up; else what the node
    /// finds by the kernel, or by the outputs.
    fn get_slate_confirmation_number(&mut self, mwc_tip: u64, slate: &Slate, outputs_ok: bool) -> (r:
        Result<Option<u64>, ErrorKind>)
        ensures
            slate_lookup_spec(slate, outputs_ok) is Nothing ==> r is Ok,
            r is Ok ==> slate_confirmations_fit(slate, outputs_ok, mwc_tip, r->Ok_0),
    {
        match slate_lookup(slate, outputs_ok) {
            SlateLookup::Nothing => Ok(None),
            SlateLookup::ByKernel(excess, height) => {
                let found = self.node_client.get_kernel(&excess, Some(height), None)?;
                let conf = kernel_confirmations(mwc_tip, found);
                assert(conf == kernel_confirmations_spec(mwc_tip, found));
                Ok(conf)
            },
            SlateLookup::ByOutputs => {
                let found = self.node_client.get_outputs_from_node(&slate.outputs)?;
                let conf = outputs_confirmations(mwc_tip, &found);
                assert(conf == outputs_confirmations_spec(mwc_tip, found@));
                Ok(conf)
            },
        }
    }

    /// The confirmations of a secondary-chain transaction under the tip
    /// `btc_tip`: none without a transaction, else by what the node knows of it.
    pub fn get_btc_confirmation_number(&mut self, btc_tip: u64, tx_hash: Option<Txid>) -> (r: Result<
        Option<u64>,
        ErrorKind,
    >)
        ensures
            tx_hash is None ==> r is Ok,
            r is Ok ==> btc_confirmations_fit(tx_hash, btc_tip, r->Ok_0),
    {
        match tx_hash {
            None => Ok(None),
            Some(txid) => {
                let found = self.btc_node_client.transaction(&txid)?;
                let conf = btc_confirmations(btc_tip, found);
                assert(conf == btc_confirmations_spec(btc_tip, found));
                Ok(conf)
            },
        }
    }

    /// Default fee of a secondary-chain transaction, in satoshi per thousand bytes.
    fn get_default_fee_satoshi_per_byte(&self, network: Network) -> (fee: u64)
        ensures
            fee == spec_default_fee(network),
    {
        Currency::Btc.default_fee(network)
    }

    /// Posts the buyer's refund of the secondary asset. Fails with
    /// `UnexpectedRole` for the seller, with `Generic` without a refund
    /// address, with `InvalidAddress` for one that does not parse, as
    /// `script` fails, with `NotEnoughFunds` where the lock address holds
    /// nothing, and as
    /// the node or the keychain fails. The trade changes only on success: it
    /// then holds the identifier of the refund transaction.
    pub fn post_secondary_refund_tx<K: SwapKeychain>(
        &mut self,
        keychain: &K,
        context: &Context,
        swap: &mut Swap,
        refund_address: Option<String>,
        fee_per_vb: Option<u64>,
    ) -> (r: Result<(), ErrorKind>)
        ensures
            old(swap).role == Role::Seller ==> r matches Err(ErrorKind::UnexpectedRole(_)),
            old(swap).role != Role::Seller && refund_address is None ==> r matches Err(
                ErrorKind::Generic(_),
            ),
            old(swap).role != Role::Seller && refund_address is Some && !btc_address_valid(
                refund_address->0@,
            ) ==> r matches Err(ErrorKind::InvalidAddress(_)),
            old(swap).role != Role::Seller && refund_address is Some && btc_address_valid(
                refund_address->0@,
            ) && !old(swap).has_lock_script() ==> r is Err,
            old(swap).role != Role::Seller && refund_address is Some && btc_address_valid(
                refund_address->0@,
            ) && old(swap).has_lock_script() && !(context.role_context is Buyer) ==> r matches Err(
                ErrorKind::UnexpectedRole(_),
            ),
            r is Ok ==> exists|txid: Txid| *final(swap) == with_refund_tx(*old(swap), txid),
            r is Err ==> *final(swap) == *old(swap),
    {
        if swap.is_seller() {
            return Err(
                ErrorKind::UnexpectedRole("Fn post_secondary_refund_tx() needs the buyer".to_owned()),
            );
        }
        let address = match refund_address {
            Some(a) => a,
            None => {
                return Err(ErrorKind::Generic("Please define BTC refund address".to_owned()));
            },
        };
        if !is_valid_address(address.as_str()) {
            return Err(
                ErrorKind::InvalidAddress(
                    crate::text::join2("Unable to parse BTC address ", address.as_str()),
                ),
            );
        }
        let input_script = self.script(swap)?;
        self.buyer_refund(keychain, context, swap, address, &input_script, fee_per_vb)
    }

    /// Number of wallet keys that the private material of a trade takes;
    /// `UnexpectedCoinType` for another coin than BTC.
    pub fn context_key_count(&mut self, secondary_currency: Currency, _is_seller: bool) -> (r: Result<
        usize,
        ErrorKind,
    >)
        ensures
            secondary_currency == Currency::Btc ==> r == Ok::<usize, ErrorKind>(CONTEXT_KEY_COUNT),
            secondary_currency != Currency::Btc ==> r matches Err(ErrorKind::UnexpectedCoinType),
    {
        match secondary_currency {
            Currency::Btc => Ok(CONTEXT_KEY_COUNT),
            _ => Err(ErrorKind::UnexpectedCoinType),
        }
    }

    /// The private material of a trade, from four wallet keys and four
    /// fresh nonces. Fails as `context_fault` says, else with `Secp` where
    /// the signing context fails.
    pub fn create_context(
        &mut self,
        secondary_currency: Currency,
        is_seller: bool,
        inputs: Option<Vec<(KeyId, Option<u64>, u64)>>,
        change_amount: u64,
        keys: Vec<KeyId>,
    ) -> (r: Result<Context, ErrorKind>)
        ensures
            context_fault(secondary_currency, is_seller, inputs, keys@) matches Some(code) ==> r is Err
                && r->Err_0.spec_code() == code,
            context_fault(secondary_currency, is_seller, inputs, keys@) is None ==> match r {
                Ok(context) => context_is(&context, is_seller, inputs, change_amount, keys@),
                Err(e) => e.spec_code() == ErrorCode::Secp,
            },
    {
        match secondary_currency {
            Currency::Btc => {},
            _ => {
                return Err(ErrorKind::UnexpectedCoinType);
            },
        }
        if is_seller && inputs.is_none() {
            return Err(
                ErrorKind::UnexpectedRole(
                    "Fn create_context() for seller not found inputs".to_owned(),
                ),
            );
        }
        if keys.len() < CONTEXT_KEY_COUNT {
            return Err(
                ErrorKind::UnexpectedAction("Fn create_context() needs four wallet keys".to_owned()),
            );
        }
        let multisig_nonce = generate_nonce()?;
        let lock_nonce = generate_nonce()?;
        let refund_nonce = generate_nonce()?;
        let redeem_nonce = generate_nonce()?;
        Ok(
            assemble_context(
                is_seller,
                inputs,
                change_amount,
                &keys,
                multisig_nonce,
                lock_nonce,
                refund_nonce,
                redeem_nonce,
            ),
        )
    }

    /// The seller's new offer under the identifier `id`, started at `now`.
    /// Fails as `offer_fault` says before a collaborator is asked; after
    /// that as the node or the keychain fails, with `InvalidAmount` where
    /// the refund height does not fit, and with `Generic` where the slates
    /// of the keychain do not fit the offer.
    pub fn create_swap_offer<K: SwapKeychain>(
        &mut self,
        keychain: &K,
        context: &Context,
        id: String,
        network: Network,
        primary_amount: u64,
        secondary_amount: u64,
        secondary_currency: Currency,
        secondary_redeem_address: String,
        seller_lock_first: bool,
        mwc_confirmations: u64,
        secondary_confirmations: u64,
        message_exchange_time_sec: u64,
        redeem_time_sec: u64,
        now: i64,
    ) -> (r: Result<Swap, ErrorKind>)
        ensures
            offer_fault(
                context,
                primary_amount,
                secondary_amount,
                secondary_currency,
                secondary_redeem_address@,
                message_exchange_time_sec,
                redeem_time_sec,
            ) matches Some(code) ==> r is Err && r->Err_0.spec_code() == code,
            r is Ok ==> offer_is(
                &r->Ok_0,
                id,
                network,
                primary_amount,
                secondary_amount,
                secondary_redeem_address,
                seller_lock_first,
                mwc_confirmations,
                secondary_confirmations,
                message_exchange_time_sec,
                redeem_time_sec,
                now,
            ),
    {
        if !is_valid_address(secondary_redeem_address.as_str()) {
            return Err(
                ErrorKind::InvalidAddress(
                    crate::text::join2(
                        "Unable to parse BTC redeem address ",
                        secondary_redeem_address.as_str(),
                    ),
                ),
            );
        }
        match secondary_currency {
            Currency::Btc => {},
            _ => {
                return Err(ErrorKind::UnexpectedCoinType);
            },
        }
        if !are_terms_valid(
            primary_amount,
            secondary_amount,
            message_exchange_time_sec,
            redeem_time_sec,
        ) {
            return Err(
                ErrorKind::InvalidAmount("The terms are not those of a valid offer".to_owned()),
            );
        }
        let seller = context.unwrap_seller()?;
        let cosign_id = seller.unwrap_btc()?.cosign;
        let height = self.node_client.get_chain_tip()?.0;
        let refund_height = refund_height_of(height, message_exchange_time_sec, redeem_time_sec)?;
        let (lock_slate, refund_slate) = keychain.create_offer_slates(
            context,
            primary_amount,
            height,
            refund_height,
        )?;
        let cosign = keychain.public_key(&cosign_id)?;
        assemble_offer(
            id,
            network,
            primary_amount,
            secondary_amount,
            secondary_redeem_address,
            seller_lock_first,
            mwc_confirmations,
            secondary_confirmations,
            message_exchange_time_sec,
            redeem_time_sec,
            now,
            height,
            lock_slate,
            refund_slate,
            cosign,
        )
    }

    /// The secondary-chain part of the offer: the seller's key of the
    /// two-party branch.
    pub fn build_offer_message_secondary_update(&self, swap: &Swap) -> (r: SecondaryUpdate)
        requires
            swap.secondary_data is Btc,
        ensures
            r == SecondaryUpdate::BTC(BtcUpdate::Offer(swap.secondary_data->Btc_0.cosign)),
    {
        match swap.secondary_data {
            SecondaryData::Btc(d) => SecondaryUpdate::BTC(BtcUpdate::Offer(d.cosign)),
            SecondaryData::Empty => SecondaryUpdate::Empty,
        }
    }

    /// The secondary-chain part of the acceptance: the buyer's key of the
    /// refund branch.
    pub fn build_accept_offer_message_secondary_update(&self, swap: &Swap) -> (r: SecondaryUpdate)
        requires
            swap.secondary_data is Btc,
            swap.secondary_data->Btc_0.refund is Some,
        ensures
            r == SecondaryUpdate::BTC(BtcUpdate::AcceptOffer(swap.secondary_data->Btc_0.refund->0)),
    {
        match swap.secondary_data {
            SecondaryData::Btc(d) => match d.refund {
                Some(refund) => SecondaryUpdate::BTC(BtcUpdate::AcceptOffer(refund)),
                None => SecondaryUpdate::Empty,
            },
            SecondaryData::Empty => SecondaryUpdate::Empty,
        }
    }

    /// Builds, signs and posts the seller's redeem of the secondary asset
    /// and stores its identifier. Fails with `UnexpectedRole` for the buyer,
    /// as `script` fails, as `redeem_preflight` says, and as the node or the
    /// keychain fails. A trade that holds the identifier of a redeem
    /// transaction is not given another unless `retry` says so. The trade
    /// changes only on success: it then holds the identifier of the redeem
    /// transaction.
    pub fn publish_secondary_transaction<K: SwapKeychain>(
        &mut self,
        keychain: &K,
        swap: &mut Swap,
        context: &Context,
        fee_per_vb: Option<u64>,
        retry: bool,
    ) -> (r: Result<(), ErrorKind>)
        ensures
            old(swap).role != Role::Seller ==> r matches Err(ErrorKind::UnexpectedRole(_)),
            old(swap).role == Role::Seller && !old(swap).has_lock_script() ==> r is Err,
            old(swap).role == Role::Seller && old(swap).has_lock_script() ==> (
            redeem_preflight_fault(old(swap), context) matches Some(code) ==> r is Err
                && r->Err_0.spec_code() == code),
            !retry && old(swap).secondary_data is Btc && old(swap).secondary_data->Btc_0.redeem_tx
                is Some ==> r is Err,
            r is Ok ==> exists|txid: Txid| *final(swap) == with_redeem_tx(*old(swap), txid),
            r is Err ==> *final(swap) == *old(swap),
    {
        if !swap.is_seller() {
            return Err(
                ErrorKind::UnexpectedRole(
                    "Fn publish_secondary_transaction() needs the seller".to_owned(),
                ),
            );
        }
        let input_script = self.script(swap)?;
        let btc_tx = self.seller_build_redeem_tx(keychain, swap, context, &input_script, fee_per_vb)?;
        let BtcTransaction { txid, tx } = btc_tx;
        self.btc_node_client.post_tx(tx)?;
        let stored = match &swap.secondary_data {
            SecondaryData::Btc(d) => d.redeem_tx.is_some(),
            SecondaryData::Empty => false,
        };
        if !retry && stored {
            return Err(
                ErrorKind::UnexpectedAction(
                    "btc_data.redeem_confirmations is already defined at publish_secondary_transaction()".to_owned(),
                ),
            );
        }
        store_redeem_tx(swap, txid)
    }

    /// The confirmations of every transaction of the trade, as the two
    /// nodes see them now. A trade without BTC data gives
    /// `UnexpectedCoinType`, and then no node is asked. Else fails as a
    /// node fails. A transaction that the trade does not have yet has no
    /// confirmations.
    pub fn request_tx_confirmations(&mut self, swap: &Swap) -> (r: Result<
        SwapTransactionsConfirmations,
        ErrorKind,
    >)
        ensures
            !(swap.secondary_data is Btc) ==> (r matches Err(ErrorKind::UnexpectedCoinType))
                && *final(self) == *old(self),
            r is Ok ==> confirmations_fit(swap, &r->Ok_0),
    {
        let btc_data = swap.secondary_data.unwrap_btc()?;
        let mwc_tip = self.node_client.get_chain_tip()?.0;
        let is_seller = swap.is_seller();
        let mwc_lock_conf = self.get_slate_confirmation_number(mwc_tip, &swap.lock_slate, !is_seller)?;
        let mwc_redeem_conf = self.get_slate_confirmation_number(
            mwc_tip,
            &swap.redeem_slate,
            is_seller,
        )?;
        let mwc_refund_conf = self.get_slate_confirmation_number(
            mwc_tip,
            &swap.refund_slate,
            !is_seller,
        )?;
        let btc_tip = self.btc_node_client.height()?;
        let secondary_redeem_conf = self.get_btc_confirmation_number(btc_tip, btc_data.redeem_tx)?;
        let secondary_refund_conf = self.get_btc_confirmation_number(btc_tip, btc_data.refund_tx)?;
        let mut secondary_lock_amount: u64 = 0;
        let mut least_confirmations: Option<u64> = None;
        let mut seen: Ghost<Seq<Output>> = Ghost(Seq::empty());
        match swap.secondary_lock_address() {
            Ok(address) => {
                let outputs = self.btc_node_client.unspent(&address)?;
                let (amount, least) = lock_state(&outputs, btc_tip);
                secondary_lock_amount = amount;
                least_confirmations = least;
                seen = Ghost(outputs@);
            },
            Err(_) => {},
        }
        let conf = SwapTransactionsConfirmations {
            mwc_tip,
            mwc_lock_conf,
            mwc_redeem_conf,
            mwc_refund_conf,
            secondary_tip: btc_tip,
            secondary_lock_conf: least_confirmations,
            secondary_lock_amount,
            secondary_redeem_conf,
            secondary_refund_conf,
        };
        assert(swap.has_lock_script() ==> lock_state_is(&conf, seen@));
        Ok(conf)
    }

    /// The state machine of the party of the trade.
    pub fn get_fsm(&self, swap: &Swap) -> (m: StateMachine)
        ensures
            m.states@ == if swap.role == Role::Seller {
                seller_states()
            } else {
                buyer_states()
            },
    {
        if swap.is_seller() {
            seller_machine()
        } else {
            buyer_machine()
        }
    }
}

impl<C: NodeClient + Clone, B: BtcNodeClient + Clone> BtcSwapApi<C, B> {
    /// An adapter over clones of the two clients.
    pub fn clone(&self) -> (api: Self)
        ensures
            cloned(self.node_client, api.node_client),
            cloned(self.btc_node_client, api.btc_node_client),
    {
        BtcSwapApi {
            node_client: self.node_client.clone(),
            btc_node_client: self.btc_node_client.clone(),
        }
    }
}

/// A copy of a byte string.
pub fn copy_bytes(bytes: &Vec<u8>) -> (r: Vec<u8>)
    ensures
        r@ == bytes@,
{
    bytes.clone()
}

} // verus!
