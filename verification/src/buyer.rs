//! How the buyer makes its trade from an offer.

use vstd::prelude::*;
use crate::btc::client::{BuyerShare, SwapKeychain};
use crate::error::{ErrorCode, ErrorKind};
use crate::fsm::state::StateId;
use crate::message::{BtcUpdate, OfferUpdate, SecondaryUpdate};
use crate::swap::{are_terms_valid, refund_blocks, terms_valid, BtcData, SecondaryData, Slate, Swap};
use crate::types::{Context, Currency, Role};

verus! {

/// Whether the refund slate of the offer is locked as far above the lock
/// slate as the terms of the offer ask.
pub open spec fn refund_height_fits(offer: &OfferUpdate) -> bool {
    offer.refund_slate.lock_height == offer.lock_slate.height + refund_blocks(
        offer.message_exchange_time_sec,
        offer.redeem_time_sec,
    )
}

/// What is wrong with an offer, whoever looks at it: `UnexpectedCoinType`
/// for another coin than BTC, `UnexpectedMessageType` where the seller's
/// BTC key is missing, `InvalidAmount` where the terms are not those of a
/// valid offer or the refund height does not fit them, `UnexpectedAction`
/// where the seller has not signed.
pub open spec fn offer_unfit(offer: &OfferUpdate, secondary_update: SecondaryUpdate) -> Option<
    ErrorCode,
> {
    if offer.secondary_currency != Currency::Btc {
        Some(ErrorCode::UnexpectedCoinType)
    } else if !(secondary_update matches SecondaryUpdate::BTC(BtcUpdate::Offer(_))) {
        Some(ErrorCode::UnexpectedMessageType)
    } else if !terms_valid(
        offer.primary_amount,
        offer.secondary_amount,
        offer.message_exchange_time_sec,
        offer.redeem_time_sec,
    ) || !refund_height_fits(offer) {
        Some(ErrorCode::InvalidAmount)
    } else if offer.lock_slate.seller_signature is None || offer.refund_slate.seller_signature
        is None {
        Some(ErrorCode::UnexpectedAction)
    } else {
        None
    }
}

/// What keeps the buyer from accepting an offer before the keychain is
/// asked: `UnexpectedRole` where the material is the seller's, else what
/// is wrong with the offer, as `offer_unfit` says.
pub open spec fn accept_fault(
    context: &Context,
    offer: &OfferUpdate,
    secondary_update: SecondaryUpdate,
) -> Option<ErrorCode> {
    if !(context.role_context is Buyer) {
        Some(ErrorCode::UnexpectedRole)
    } else {
        offer_unfit(offer, secondary_update)
    }
}

/// Whether `swap` is the trade that the buyer makes of the offer `offer`
/// under the identifier `id`, with `share` from its keychain.
pub open spec fn accepted_is(
    swap: &Swap,
    id: String,
    offer: OfferUpdate,
    secondary_update: SecondaryUpdate,
    share: BuyerShare,
) -> bool {
    &&& swap.id == id
    &&& swap.role == Role::Buyer
    &&& swap.state == StateId::BuyerOfferCreated
    &&& swap.network == offer.network
    &&& swap.primary_amount == offer.primary_amount
    &&& swap.secondary_amount == offer.secondary_amount
    &&& swap.secondary_currency == Currency::Btc
    &&& swap.mwc_confirmations == offer.mwc_confirmations
    &&& swap.secondary_confirmations == offer.secondary_confirmations
    &&& swap.message_exchange_time_sec == offer.message_exchange_time_sec
    &&& swap.redeem_time_sec == offer.redeem_time_sec
    &&& swap.seller_lock_first == offer.seller_lock_first
    &&& swap.started == offer.start_time
    &&& swap.secondary_redeem_address is None
    &&& swap.secondary_refund_address is None
    &&& swap.lock_slate == (Slate {
        buyer_signature: Some(share.lock_signature),
        ..offer.lock_slate
    })
    &&& swap.refund_slate == (Slate {
        buyer_signature: Some(share.refund_signature),
        ..offer.refund_slate
    })
    &&& swap.redeem_slate == share.redeem_slate
    &&& swap.secondary_data == SecondaryData::Btc(
        BtcData {
            cosign: secondary_update->BTC_0->Offer_0,
            refund: Some(share.refund),
            redeem_tx: None,
            refund_tx: None,
        },
    )
    &&& swap.redeem_public == Some(share.redeem_public)
    &&& swap.adaptor_signature is None
    &&& swap.last_check_error is None
    &&& swap.journal@ == Seq::<String>::empty()
    &&& swap.offer_valid()
}

/// The buyer's trade for the offer, once the keychain has given its share.
/// `Generic` where the redeem slate of the share is not signed by the
/// buyer.
pub(crate) fn assemble_accepted(
    id: String,
    offer: OfferUpdate,
    secondary_update: SecondaryUpdate,
    share: BuyerShare,
) -> (r: Result<Swap, ErrorKind>)
    requires
        secondary_update matches SecondaryUpdate::BTC(BtcUpdate::Offer(_)),
        terms_valid(
            offer.primary_amount,
            offer.secondary_amount,
            offer.message_exchange_time_sec,
            offer.redeem_time_sec,
        ),
    ensures
        share.redeem_slate.buyer_signature is Some ==> r is Ok && accepted_is(
            &r->Ok_0,
            id,
            offer,
            secondary_update,
            share,
        ),
        share.redeem_slate.buyer_signature is None ==> r matches Err(ErrorKind::Generic(_)),
{
    let cosign = match secondary_update {
        SecondaryUpdate::BTC(BtcUpdate::Offer(key)) => key,
        _ => {
            return Err(ErrorKind::Generic("The offer lacks the seller's key".to_owned()));
        },
    };
    if share.redeem_slate.buyer_signature.is_none() {
        return Err(ErrorKind::Generic("The redeem slate of the keychain is not signed".to_owned()));
    }
    let BuyerShare { redeem_public, refund, lock_signature, refund_signature, redeem_slate } =
        share;
    let OfferUpdate {
        network,
        primary_amount,
        secondary_amount,
        secondary_currency: _,
        seller_lock_first,
        mwc_confirmations,
        secondary_confirmations,
        message_exchange_time_sec,
        redeem_time_sec,
        start_time,
        lock_slate,
        refund_slate,
    } = offer;
    let mut lock_slate = lock_slate;
    let mut refund_slate = refund_slate;
    lock_slate.buyer_signature = Some(lock_signature);
    refund_slate.buyer_signature = Some(refund_signature);
    Ok(
        Swap {
            id,
            role: Role::Buyer,
            state: StateId::BuyerOfferCreated,
            network,
            primary_amount,
            secondary_amount,
            secondary_currency: Currency::Btc,
            mwc_confirmations,
            secondary_confirmations,
            message_exchange_time_sec,
            redeem_time_sec,
            seller_lock_first,
            started: start_time,
            secondary_redeem_address: None,
            secondary_refund_address: None,
            lock_slate,
            redeem_slate,
            refund_slate,
            secondary_data: SecondaryData::Btc(
                BtcData { cosign, refund: Some(refund), redeem_tx: None, refund_tx: None },
            ),
            redeem_public: Some(redeem_public),
            adaptor_signature: None,
            last_check_error: None,
            journal: Vec::new(),
        },
    )
}

/// Checks an offer by itself: fails as `offer_unfit` says, and only then.
pub fn check_offer_terms(offer: &OfferUpdate, secondary_update: &SecondaryUpdate) -> (r: Result<
    (),
    ErrorKind,
>)
    ensures
        match offer_unfit(offer, *secondary_update) {
            Some(code) => r is Err && r->Err_0.spec_code() == code,
            None => r is Ok,
        },
{
    match offer.secondary_currency {
        Currency::Btc => {},
        _ => {
            return Err(ErrorKind::UnexpectedCoinType);
        },
    }
    match secondary_update {
        SecondaryUpdate::BTC(BtcUpdate::Offer(_)) => {},
        _ => {
            return Err(
                ErrorKind::UnexpectedMessageType("The offer lacks the seller's key".to_owned()),
            );
        },
    }
    if !are_terms_valid(
        offer.primary_amount,
        offer.secondary_amount,
        offer.message_exchange_time_sec,
        offer.redeem_time_sec,
    ) {
        return Err(ErrorKind::InvalidAmount("The terms are not those of a valid offer".to_owned()));
    }
    let blocks = crate::swap::count_refund_blocks(
        offer.message_exchange_time_sec,
        offer.redeem_time_sec,
    );
    let fits = match offer.lock_slate.height.checked_add(blocks) {
        Some(h) => h == offer.refund_slate.lock_height,
        None => false,
    };
    if !fits {
        return Err(ErrorKind::InvalidAmount("The refund height does not fit the offer".to_owned()));
    }
    if offer.lock_slate.seller_signature.is_none() || offer.refund_slate.seller_signature.is_none() {
        return Err(ErrorKind::UnexpectedAction("The offer is not signed by the seller".to_owned()));
    }
    Ok(())
}

/// Checks an offer, as far as that shows without the keychain.
pub fn check_offer(context: &Context, offer: &OfferUpdate, secondary_update: &SecondaryUpdate) -> (r:
    Result<(), ErrorKind>)
    ensures
        match accept_fault(context, offer, *secondary_update) {
            Some(code) => r is Err && r->Err_0.spec_code() == code,
            None => r is Ok,
        },
{
    let _buyer = context.unwrap_buyer()?;
    check_offer_terms(offer, secondary_update)
}

/// The buyer's trade for an offer. Fails as `accept_fault` says before the
/// keychain is asked; after that as the keychain fails, and with `Generic`
/// where the redeem slate that it gives is not signed.
pub fn accept_swap_offer<K: SwapKeychain>(
    keychain: &K,
    context: &Context,
    id: String,
    offer: OfferUpdate,
    secondary_update: SecondaryUpdate,
) -> (r: Result<Swap, ErrorKind>)
    ensures
        accept_fault(context, &offer, secondary_update) matches Some(code) ==> r is Err
            && r->Err_0.spec_code() == code,
        r is Ok ==> exists|share: BuyerShare| #[trigger]
            accepted_is(&r->Ok_0, id, offer, secondary_update, share),
{
    check_offer(context, &offer, &secondary_update)?;
    let share = keychain.accept_offer(context, &offer)?;
    let ghost given = share;
    let swap = assemble_accepted(id, offer, secondary_update, share);
    proof {
        if swap is Ok {
            assert(accepted_is(&swap->Ok_0, id, offer, secondary_update, given));
        }
    }
    swap
}

} // verus!
