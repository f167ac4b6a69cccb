//! Messages that the two parties exchange.

use vstd::prelude::*;
use crate::error::ErrorKind;
use crate::swap::{Slate, Swap};
use crate::types::{Currency, Network, PublicKey, Role, Signature};

verus! {

/// The seller's terms and the slates that the buyer is asked to sign.
#[derive(Debug, PartialEq, Eq)]
pub struct OfferUpdate {
    pub network: Network,
    pub primary_amount: u64,
    pub secondary_amount: u64,
    pub secondary_currency: Currency,
    pub seller_lock_first: bool,
    pub mwc_confirmations: u64,
    pub secondary_confirmations: u64,
    pub message_exchange_time_sec: u64,
    pub redeem_time_sec: u64,
    pub start_time: i64,
    pub lock_slate: Slate,
    pub refund_slate: Slate,
}

/// The buyer's answer to an offer.
#[derive(Clone, Copy, Debug, PartialEq, Eq)]
pub struct AcceptOfferUpdate {
    pub redeem_public: PublicKey,
    pub lock_signature: Signature,
    pub refund_signature: Signature,
}

/// The redeem slate with the buyer's partial signature.
#[derive(Debug, PartialEq, Eq)]
pub struct InitRedeemUpdate {
    pub redeem_slate: Slate,
}

/// The seller's adaptor signature on the redeem slate.
#[derive(Clone, Copy, Debug, PartialEq, Eq)]
pub struct RedeemUpdate {
    pub adaptor_signature: Signature,
}

/// Primary-chain part of a message.
#[derive(Debug, PartialEq, Eq)]
pub enum Update {
    /// Rejected or empty.
    Empty,
    Offer(OfferUpdate),
    AcceptOffer(AcceptOfferUpdate),
    InitRedeem(InitRedeemUpdate),
    Redeem(RedeemUpdate),
}

/// BTC part of a message.
#[derive(Clone, Copy, Debug, PartialEq, Eq)]
pub enum BtcUpdate {
    /// With an offer: the seller's key of the two-party branch.
    Offer(PublicKey),
    /// With an acceptance: the buyer's key of the refund branch.
    AcceptOffer(PublicKey),
}

/// Secondary-chain part of a message.
#[derive(Clone, Copy, Debug, PartialEq, Eq)]
pub enum SecondaryUpdate {
    Empty,
    BTC(BtcUpdate),
}

/// What kind of update a message carries.
#[derive(Clone, Copy, Debug, PartialEq, Eq, Structural)]
pub enum MessageKind {
    Empty,
    Offer,
    AcceptOffer,
    InitRedeem,
    Redeem,
}

/// Envelope of everything that goes from one party to the other.
#[derive(Debug, PartialEq, Eq)]
pub struct Message {
    /// The trade that the message belongs to.
    pub id: String,
    pub inner: Update,
    pub secondary_update: SecondaryUpdate,
}

impl Message {
    /// What kind of update the message carries.
    pub open spec fn spec_kind(&self) -> MessageKind {
        match self.inner {
            Update::Empty => MessageKind::Empty,
            Update::Offer(_) => MessageKind::Offer,
            Update::AcceptOffer(_) => MessageKind::AcceptOffer,
            Update::InitRedeem(_) => MessageKind::InitRedeem,
            Update::Redeem(_) => MessageKind::Redeem,
        }
    }

    /// What kind of update the message carries.
    #[verifier::when_used_as_spec(spec_kind)]
    pub fn kind(&self) -> (k: MessageKind)
        ensures
            k == self.spec_kind(),
    {
        match &self.inner {
            Update::Empty => MessageKind::Empty,
            Update::Offer(_) => MessageKind::Offer,
            Update::AcceptOffer(_) => MessageKind::AcceptOffer,
            Update::InitRedeem(_) => MessageKind::InitRedeem,
            Update::Redeem(_) => MessageKind::Redeem,
        }
    }

    /// Whether the two messages hold the same values.
    pub open spec fn same(&self, other: &Message) -> bool {
        &&& self.id == other.id
        &&& self.secondary_update == other.secondary_update
        &&& match (self.inner, other.inner) {
            (Update::Empty, Update::Empty) => true,
            (Update::Offer(a), Update::Offer(b)) => {
                &&& a.network == b.network
                &&& a.primary_amount == b.primary_amount
                &&& a.secondary_amount == b.secondary_amount
                &&& a.secondary_currency == b.secondary_currency
                &&& a.seller_lock_first == b.seller_lock_first
                &&& a.mwc_confirmations == b.mwc_confirmations
                &&& a.secondary_confirmations == b.secondary_confirmations
                &&& a.message_exchange_time_sec == b.message_exchange_time_sec
                &&& a.redeem_time_sec == b.redeem_time_sec
                &&& a.start_time == b.start_time
                &&& a.lock_slate.same(&b.lock_slate)
                &&& a.refund_slate.same(&b.refund_slate)
            },
            (Update::AcceptOffer(a), Update::AcceptOffer(b)) => a == b,
            (Update::InitRedeem(a), Update::InitRedeem(b)) => a.redeem_slate.same(&b.redeem_slate),
            (Update::Redeem(a), Update::Redeem(b)) => a == b,
            _ => false,
        }
    }

    /// The offer with its id and the seller's BTC key, or `UnexpectedMessageType`.
    pub fn unwrap_offer(self) -> (r: Result<(String, OfferUpdate, SecondaryUpdate), ErrorKind>)
        ensures
            match self.inner {
                Update::Offer(u) => r == Ok::<(String, OfferUpdate, SecondaryUpdate), ErrorKind>(
                    (self.id, u, self.secondary_update),
                ),
                _ => r matches Err(ErrorKind::UnexpectedMessageType(_)),
            },
    {
        match self.inner {
            Update::Offer(u) => Ok((self.id, u, self.secondary_update)),
            _ => Err(
                ErrorKind::UnexpectedMessageType("Fn unwrap_offer() expecting Update::Offer".to_owned()),
            ),
        }
    }
}

/// Whether `m` is the offer that the seller of `swap` sends.
pub open spec fn is_offer_message(m: &Message, swap: &Swap) -> bool {
    &&& m.id == swap.id
    &&& m.secondary_update == SecondaryUpdate::BTC(
        BtcUpdate::Offer(swap.secondary_data->Btc_0.cosign),
    )
    &&& m.inner matches Update::Offer(u)
    &&& u.network == swap.network
    &&& u.primary_amount == swap.primary_amount
    &&& u.secondary_amount == swap.secondary_amount
    &&& u.secondary_currency == swap.secondary_currency
    &&& u.seller_lock_first == swap.seller_lock_first
    &&& u.mwc_confirmations == swap.mwc_confirmations
    &&& u.secondary_confirmations == swap.secondary_confirmations
    &&& u.message_exchange_time_sec == swap.message_exchange_time_sec
    &&& u.redeem_time_sec == swap.redeem_time_sec
    &&& u.start_time == swap.started
    &&& u.lock_slate.same(&swap.lock_slate)
    &&& u.refund_slate.same(&swap.refund_slate)
}

/// Whether the seller of `swap` holds what an offer is made of.
pub open spec fn can_offer(swap: &Swap) -> bool {
    swap.role == Role::Seller && swap.secondary_data is Btc
}

/// The offer that the seller sends to the buyer. Fails with `UnexpectedRole`
/// for a buyer and with `UnexpectedCoinType` for a trade without BTC data.
pub fn offer_message(swap: &Swap) -> (r: Result<Message, ErrorKind>)
    ensures
        can_offer(swap) ==> r is Ok && is_offer_message(&r->Ok_0, swap),
        swap.role != Role::Seller ==> r matches Err(ErrorKind::UnexpectedRole(_)),
        swap.role == Role::Seller && !(swap.secondary_data is Btc) ==> r matches Err(
            ErrorKind::UnexpectedCoinType,
        ),
{
    if !swap.is_seller() {
        return Err(ErrorKind::UnexpectedRole("Fn offer_message() needs the seller".to_owned()));
    }
    let btc = swap.secondary_data.unwrap_btc()?;
    Ok(
        Message {
            id: swap.id.clone(),
            inner: Update::Offer(
                OfferUpdate {
                    network: swap.network,
                    primary_amount: swap.primary_amount,
                    secondary_amount: swap.secondary_amount,
                    secondary_currency: swap.secondary_currency,
                    seller_lock_first: swap.seller_lock_first,
                    mwc_confirmations: swap.mwc_confirmations,
                    secondary_confirmations: swap.secondary_confirmations,
                    message_exchange_time_sec: swap.message_exchange_time_sec,
                    redeem_time_sec: swap.redeem_time_sec,
                    start_time: swap.started,
                    lock_slate: swap.lock_slate.duplicate(),
                    refund_slate: swap.refund_slate.duplicate(),
                },
            ),
            secondary_update: SecondaryUpdate::BTC(BtcUpdate::Offer(btc.cosign)),
        },
    )
}

/// Whether the buyer of `swap` holds what an acceptance is made of: the
/// redeem point, both partial signatures and the refund key.
pub open spec fn can_accept(swap: &Swap) -> bool {
    &&& swap.role == Role::Buyer
    &&& swap.secondary_data is Btc
    &&& swap.secondary_data->Btc_0.refund is Some
    &&& swap.redeem_public is Some
    &&& swap.lock_slate.buyer_signature is Some
    &&& swap.refund_slate.buyer_signature is Some
}

/// Whether `m` is the acceptance that the buyer of `swap` sends.
pub open spec fn is_accept_offer_message(m: &Message, swap: &Swap) -> bool {
    &&& m.id == swap.id
    &&& m.secondary_update == SecondaryUpdate::BTC(
        BtcUpdate::AcceptOffer(swap.secondary_data->Btc_0.refund->0),
    )
    &&& m.inner == Update::AcceptOffer(
        AcceptOfferUpdate {
            redeem_public: swap.redeem_public->0,
            lock_signature: swap.lock_slate.buyer_signature->0,
            refund_signature: swap.refund_slate.buyer_signature->0,
        },
    )
}

/// The acceptance that the buyer sends to the seller. Fails with
/// `UnexpectedRole` for a seller, with `UnexpectedCoinType` for a trade
/// without BTC data and with `UnexpectedAction` where a piece is missing.
pub fn accept_offer_message(swap: &Swap) -> (r: Result<Message, ErrorKind>)
    ensures
        can_accept(swap) ==> r is Ok && is_accept_offer_message(&r->Ok_0, swap),
        swap.role != Role::Buyer ==> r matches Err(ErrorKind::UnexpectedRole(_)),
        swap.role == Role::Buyer && !(swap.secondary_data is Btc) ==> r matches Err(
            ErrorKind::UnexpectedCoinType,
        ),
        swap.role == Role::Buyer && swap.secondary_data is Btc && !can_accept(swap) ==> r matches Err(
            ErrorKind::UnexpectedAction(_),
        ),
{
    if swap.is_seller() {
        return Err(
            ErrorKind::UnexpectedRole("Fn accept_offer_message() needs the buyer".to_owned()),
        );
    }
    let btc = swap.secondary_data.unwrap_btc()?;
    match (&btc.refund, &swap.redeem_public, &swap.lock_slate.buyer_signature, &swap.refund_slate.buyer_signature) {
        (Some(refund), Some(redeem_public), Some(lock_signature), Some(refund_signature)) => Ok(
            Message {
                id: swap.id.clone(),
                inner: Update::AcceptOffer(
                    AcceptOfferUpdate {
                        redeem_public: *redeem_public,
                        lock_signature: *lock_signature,
                        refund_signature: *refund_signature,
                    },
                ),
                secondary_update: SecondaryUpdate::BTC(BtcUpdate::AcceptOffer(*refund)),
            },
        ),
        _ => Err(
            ErrorKind::UnexpectedAction(
                "Fn accept_offer_message(), the offer is not signed by the buyer".to_owned(),
            ),
        ),
    }
}

/// Whether the buyer of `swap` holds a redeem slate with its signature.
pub open spec fn can_init_redeem(swap: &Swap) -> bool {
    swap.role == Role::Buyer && swap.redeem_slate.buyer_signature is Some
}

/// Whether `m` is the message with which the buyer of `swap` opens the redeem.
pub open spec fn is_init_redeem_message(m: &Message, swap: &Swap) -> bool {
    &&& m.id == swap.id
    &&& m.secondary_update == SecondaryUpdate::Empty
    &&& m.inner matches Update::InitRedeem(u)
    &&& u.redeem_slate.same(&swap.redeem_slate)
}

/// The message with which the buyer opens the redeem. Fails with
/// `UnexpectedRole` for a seller and with `UnexpectedAction` where the
/// redeem slate is not signed by the buyer.
pub fn init_redeem_message(swap: &Swap) -> (r: Result<Message, ErrorKind>)
    ensures
        can_init_redeem(swap) ==> r is Ok && is_init_redeem_message(&r->Ok_0, swap),
        swap.role != Role::Buyer ==> r matches Err(ErrorKind::UnexpectedRole(_)),
        swap.role == Role::Buyer && !can_init_redeem(swap) ==> r matches Err(
            ErrorKind::UnexpectedAction(_),
        ),
{
    if swap.is_seller() {
        return Err(
            ErrorKind::UnexpectedRole("Fn init_redeem_message() needs the buyer".to_owned()),
        );
    }
    if swap.redeem_slate.buyer_signature.is_none() {
        return Err(
            ErrorKind::UnexpectedAction(
                "Fn init_redeem_message(), the redeem slate is not signed".to_owned(),
            ),
        );
    }
    Ok(
        Message {
            id: swap.id.clone(),
            inner: Update::InitRedeem(InitRedeemUpdate { redeem_slate: swap.redeem_slate.duplicate() }),
            secondary_update: SecondaryUpdate::Empty,
        },
    )
}

/// Whether the seller of `swap` holds its adaptor signature.
pub open spec fn can_redeem(swap: &Swap) -> bool {
    swap.role == Role::Seller && swap.adaptor_signature is Some
}

/// Whether `m` is the message with which the seller of `swap` answers the redeem.
pub open spec fn is_redeem_message(m: &Message, swap: &Swap) -> bool {
    &&& m.id == swap.id
    &&& m.secondary_update == SecondaryUpdate::Empty
    &&& m.inner == Update::Redeem(RedeemUpdate { adaptor_signature: swap.adaptor_signature->0 })
}

/// The message with which the seller hands over its adaptor signature.
/// Fails with `UnexpectedRole` for a buyer and with `UnexpectedAction`
/// where the signature is missing.
pub fn redeem_message(swap: &Swap) -> (r: Result<Message, ErrorKind>)
    ensures
        can_redeem(swap) ==> r is Ok && is_redeem_message(&r->Ok_0, swap),
        swap.role != Role::Seller ==> r matches Err(ErrorKind::UnexpectedRole(_)),
        swap.role == Role::Seller && !can_redeem(swap) ==> r matches Err(
            ErrorKind::UnexpectedAction(_),
        ),
{
    if !swap.is_seller() {
        return Err(ErrorKind::UnexpectedRole("Fn redeem_message() needs the seller".to_owned()));
    }
    match &swap.adaptor_signature {
        Some(signature) => Ok(
            Message {
                id: swap.id.clone(),
                inner: Update::Redeem(RedeemUpdate { adaptor_signature: *signature }),
                secondary_update: SecondaryUpdate::Empty,
            },
        ),
        None => Err(
            ErrorKind::UnexpectedAction(
                "Fn redeem_message(), the adaptor signature is not defined".to_owned(),
            ),
        ),
    }
}

} // verus!
