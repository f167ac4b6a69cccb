//! States, inputs and answers of the state machines.

use vstd::prelude::*;
use crate::error::ErrorKind;
use crate::message::{
    is_accept_offer_message, is_init_redeem_message, is_offer_message, is_redeem_message, Message,
};
use crate::swap::Swap;
use crate::text::{join2, str_eq};
use crate::types::{Currency, Role};

verus! {

/// Node of one of the two state machines.
#[derive(Clone, Copy, Debug, PartialEq, Eq, Structural)]
pub enum StateId {
    SellerOfferCreated,
    SellerSendingOffer,
    SellerWaitingForAcceptanceMessage,
    SellerWaitingForBuyerLock,
    SellerPostingLockMwcSlate,
    SellerWaitingForLockConfirmations,
    SellerWaitingForInitRedeemMessage,
    SellerSendingInitRedeemMessage,
    SellerWaitingForBuyerToRedeemMwc,
    SellerRedeemSecondaryCurrency,
    SellerWaitingForRedeemConfirmations,
    SellerSwapComplete,
    SellerWaitingForRefundHeight,
    SellerPostingRefundSlate,
    SellerWaitingForRefundConfirmations,
    SellerCancelledRefunded,
    SellerCancelled,
    BuyerOfferCreated,
    BuyerSendingAcceptOfferMessage,
    BuyerWaitingForSellerToLock,
    BuyerPostingSecondaryToMultisigAccount,
    BuyerWaitingForLockConfirmations,
    BuyerSendingInitRedeemMessage,
    BuyerWaitingForRespondRedeemMessage,
    BuyerRedeemMwc,
    BuyerWaitForRedeemMwcConfirmations,
    BuyerSwapComplete,
    BuyerWaitingForRefundTime,
    BuyerPostingRefundForSecondary,
    BuyerWaitingForRefundConfirmations,
    BuyerCancelledRefunded,
    BuyerCancelled,
}

impl StateId {
    /// The name of the state, as the operator writes it.
    pub open spec fn spec_name(self) -> Seq<char> {
        match self {
            StateId::SellerOfferCreated => "SellerOfferCreated"@,
            StateId::SellerSendingOffer => "SellerSendingOffer"@,
            StateId::SellerWaitingForAcceptanceMessage => "SellerWaitingForAcceptanceMessage"@,
            StateId::SellerWaitingForBuyerLock => "SellerWaitingForBuyerLock"@,
            StateId::SellerPostingLockMwcSlate => "SellerPostingLockMwcSlate"@,
            StateId::SellerWaitingForLockConfirmations => "SellerWaitingForLockConfirmations"@,
            StateId::SellerWaitingForInitRedeemMessage => "SellerWaitingForInitRedeemMessage"@,
            StateId::SellerSendingInitRedeemMessage => "SellerSendingInitRedeemMessage"@,
            StateId::SellerWaitingForBuyerToRedeemMwc => "SellerWaitingForBuyerToRedeemMwc"@,
            StateId::SellerRedeemSecondaryCurrency => "SellerRedeemSecondaryCurrency"@,
            StateId::SellerWaitingForRedeemConfirmations => "SellerWaitingForRedeemConfirmations"@,
            StateId::SellerSwapComplete => "SellerSwapComplete"@,
            StateId::SellerWaitingForRefundHeight => "SellerWaitingForRefundHeight"@,
            StateId::SellerPostingRefundSlate => "SellerPostingRefundSlate"@,
            StateId::SellerWaitingForRefundConfirmations => "SellerWaitingForRefundConfirmations"@,
            StateId::SellerCancelledRefunded => "SellerCancelledRefunded"@,
            StateId::SellerCancelled => "SellerCancelled"@,
            StateId::BuyerOfferCreated => "BuyerOfferCreated"@,
            StateId::BuyerSendingAcceptOfferMessage => "BuyerSendingAcceptOfferMessage"@,
            StateId::BuyerWaitingForSellerToLock => "BuyerWaitingForSellerToLock"@,
            StateId::BuyerPostingSecondaryToMultisigAccount => "BuyerPostingSecondaryToMultisigAccount"@,
            StateId::BuyerWaitingForLockConfirmations => "BuyerWaitingForLockConfirmations"@,
            StateId::BuyerSendingInitRedeemMessage => "BuyerSendingInitRedeemMessage"@,
            StateId::BuyerWaitingForRespondRedeemMessage => "BuyerWaitingForRespondRedeemMessage"@,
            StateId::BuyerRedeemMwc => "BuyerRedeemMwc"@,
            StateId::BuyerWaitForRedeemMwcConfirmations => "BuyerWaitForRedeemMwcConfirmations"@,
            StateId::BuyerSwapComplete => "BuyerSwapComplete"@,
            StateId::BuyerWaitingForRefundTime => "BuyerWaitingForRefundTime"@,
            StateId::BuyerPostingRefundForSecondary => "BuyerPostingRefundForSecondary"@,
            StateId::BuyerWaitingForRefundConfirmations => "BuyerWaitingForRefundConfirmations"@,
            StateId::BuyerCancelledRefunded => "BuyerCancelledRefunded"@,
            StateId::BuyerCancelled => "BuyerCancelled"@,
        }
    }

    /// The state that `name` is the name of, if any.
    pub open spec fn spec_from_name(name: Seq<char>) -> Option<StateId> {
        if name == "SellerOfferCreated"@ {
            Some(StateId::SellerOfferCreated)
        } else if name == "SellerSendingOffer"@ {
            Some(StateId::SellerSendingOffer)
        } else if name == "SellerWaitingForAcceptanceMessage"@ {
            Some(StateId::SellerWaitingForAcceptanceMessage)
        } else if name == "SellerWaitingForBuyerLock"@ {
            Some(StateId::SellerWaitingForBuyerLock)
        } else if name == "SellerPostingLockMwcSlate"@ {
            Some(StateId::SellerPostingLockMwcSlate)
        } else if name == "SellerWaitingForLockConfirmations"@ {
            Some(StateId::SellerWaitingForLockConfirmations)
        } else if name == "SellerWaitingForInitRedeemMessage"@ {
            Some(StateId::SellerWaitingForInitRedeemMessage)
        } else if name == "SellerSendingInitRedeemMessage"@ {
            Some(StateId::SellerSendingInitRedeemMessage)
        } else if name == "SellerWaitingForBuyerToRedeemMwc"@ {
            Some(StateId::SellerWaitingForBuyerToRedeemMwc)
        } else if name == "SellerRedeemSecondaryCurrency"@ {
            Some(StateId::SellerRedeemSecondaryCurrency)
        } else if name == "SellerWaitingForRedeemConfirmations"@ {
            Some(StateId::SellerWaitingForRedeemConfirmations)
        } else if name == "SellerSwapComplete"@ {
            Some(StateId::SellerSwapComplete)
        } else if name == "SellerWaitingForRefundHeight"@ {
            Some(StateId::SellerWaitingForRefundHeight)
        } else if name == "SellerPostingRefundSlate"@ {
            Some(StateId::SellerPostingRefundSlate)
        } else if name == "SellerWaitingForRefundConfirmations"@ {
            Some(StateId::SellerWaitingForRefundConfirmations)
        } else if name == "SellerCancelledRefunded"@ {
            Some(StateId::SellerCancelledRefunded)
        } else if name == "SellerCancelled"@ {
            Some(StateId::SellerCancelled)
        } else if name == "BuyerOfferCreated"@ {
            Some(StateId::BuyerOfferCreated)
        } else if name == "BuyerSendingAcceptOfferMessage"@ {
            Some(StateId::BuyerSendingAcceptOfferMessage)
        } else if name == "BuyerWaitingForSellerToLock"@ {
            Some(StateId::BuyerWaitingForSellerToLock)
        } else if name == "BuyerPostingSecondaryToMultisigAccount"@ {
            Some(StateId::BuyerPostingSecondaryToMultisigAccount)
        } else if name == "BuyerWaitingForLockConfirmations"@ {
            Some(StateId::BuyerWaitingForLockConfirmations)
        } else if name == "BuyerSendingInitRedeemMessage"@ {
            Some(StateId::BuyerSendingInitRedeemMessage)
        } else if name == "BuyerWaitingForRespondRedeemMessage"@ {
            Some(StateId::BuyerWaitingForRespondRedeemMessage)
        } else if name == "BuyerRedeemMwc"@ {
            Some(StateId::BuyerRedeemMwc)
        } else if name == "BuyerWaitForRedeemMwcConfirmations"@ {
            Some(StateId::BuyerWaitForRedeemMwcConfirmations)
        } else if name == "BuyerSwapComplete"@ {
            Some(StateId::BuyerSwapComplete)
        } else if name == "BuyerWaitingForRefundTime"@ {
            Some(StateId::BuyerWaitingForRefundTime)
        } else if name == "BuyerPostingRefundForSecondary"@ {
            Some(StateId::BuyerPostingRefundForSecondary)
        } else if name == "BuyerWaitingForRefundConfirmations"@ {
            Some(StateId::BuyerWaitingForRefundConfirmations)
        } else if name == "BuyerCancelledRefunded"@ {
            Some(StateId::BuyerCancelledRefunded)
        } else if name == "BuyerCancelled"@ {
            Some(StateId::BuyerCancelled)
        } else {
            None
        }
    }

    /// Whether the state belongs to the seller's machine.
    pub open spec fn spec_is_seller_state(self) -> bool {
        match self {
            StateId::SellerOfferCreated => true,
            StateId::SellerSendingOffer => true,
            StateId::SellerWaitingForAcceptanceMessage => true,
            StateId::SellerWaitingForBuyerLock => true,
            StateId::SellerPostingLockMwcSlate => true,
            StateId::SellerWaitingForLockConfirmations => true,
            StateId::SellerWaitingForInitRedeemMessage => true,
            StateId::SellerSendingInitRedeemMessage => true,
            StateId::SellerWaitingForBuyerToRedeemMwc => true,
            StateId::SellerRedeemSecondaryCurrency => true,
            StateId::SellerWaitingForRedeemConfirmations => true,
            StateId::SellerSwapComplete => true,
            StateId::SellerWaitingForRefundHeight => true,
            StateId::SellerPostingRefundSlate => true,
            StateId::SellerWaitingForRefundConfirmations => true,
            StateId::SellerCancelledRefunded => true,
            StateId::SellerCancelled => true,
            StateId::BuyerOfferCreated => false,
            StateId::BuyerSendingAcceptOfferMessage => false,
            StateId::BuyerWaitingForSellerToLock => false,
            StateId::BuyerPostingSecondaryToMultisigAccount => false,
            StateId::BuyerWaitingForLockConfirmations => false,
            StateId::BuyerSendingInitRedeemMessage => false,
            StateId::BuyerWaitingForRespondRedeemMessage => false,
            StateId::BuyerRedeemMwc => false,
            StateId::BuyerWaitForRedeemMwcConfirmations => false,
            StateId::BuyerSwapComplete => false,
            StateId::BuyerWaitingForRefundTime => false,
            StateId::BuyerPostingRefundForSecondary => false,
            StateId::BuyerWaitingForRefundConfirmations => false,
            StateId::BuyerCancelledRefunded => false,
            StateId::BuyerCancelled => false,
        }
    }

    /// The party whose machine holds the state.
    pub open spec fn spec_role(self) -> Role {
        if self.spec_is_seller_state() {
            Role::Seller
        } else {
            Role::Buyer
        }
    }

    /// Whether the trade has ended in this state.
    pub open spec fn spec_is_final(self) -> bool {
        match self {
            StateId::SellerOfferCreated => false,
            StateId::SellerSendingOffer => false,
            StateId::SellerWaitingForAcceptanceMessage => false,
            StateId::SellerWaitingForBuyerLock => false,
            StateId::SellerPostingLockMwcSlate => false,
            StateId::SellerWaitingForLockConfirmations => false,
            StateId::SellerWaitingForInitRedeemMessage => false,
            StateId::SellerSendingInitRedeemMessage => false,
            StateId::SellerWaitingForBuyerToRedeemMwc => false,
            StateId::SellerRedeemSecondaryCurrency => false,
            StateId::SellerWaitingForRedeemConfirmations => false,
            StateId::SellerSwapComplete => true,
            StateId::SellerWaitingForRefundHeight => false,
            StateId::SellerPostingRefundSlate => false,
            StateId::SellerWaitingForRefundConfirmations => false,
            StateId::SellerCancelledRefunded => true,
            StateId::SellerCancelled => true,
            StateId::BuyerOfferCreated => false,
            StateId::BuyerSendingAcceptOfferMessage => false,
            StateId::BuyerWaitingForSellerToLock => false,
            StateId::BuyerPostingSecondaryToMultisigAccount => false,
            StateId::BuyerWaitingForLockConfirmations => false,
            StateId::BuyerSendingInitRedeemMessage => false,
            StateId::BuyerWaitingForRespondRedeemMessage => false,
            StateId::BuyerRedeemMwc => false,
            StateId::BuyerWaitForRedeemMwcConfirmations => false,
            StateId::BuyerSwapComplete => true,
            StateId::BuyerWaitingForRefundTime => false,
            StateId::BuyerPostingRefundForSecondary => false,
            StateId::BuyerWaitingForRefundConfirmations => false,
            StateId::BuyerCancelledRefunded => true,
            StateId::BuyerCancelled => true,
        }
    }

    /// Whether the operator may cancel the trade in this state: no party has
    /// yet handed the other what lets it take funds for good. The seller can
    /// cancel until it has sent its redeem message, the buyer until the
    /// seller's redeem message has arrived.
    pub open spec fn spec_is_cancellable(self) -> bool {
        match self {
            StateId::SellerOfferCreated => true,
            StateId::SellerSendingOffer => true,
            StateId::SellerWaitingForAcceptanceMessage => true,
            StateId::SellerWaitingForBuyerLock => true,
            StateId::SellerPostingLockMwcSlate => true,
            StateId::SellerWaitingForLockConfirmations => true,
            StateId::SellerWaitingForInitRedeemMessage => true,
            StateId::SellerSendingInitRedeemMessage => true,
            StateId::SellerWaitingForBuyerToRedeemMwc => false,
            StateId::SellerRedeemSecondaryCurrency => false,
            StateId::SellerWaitingForRedeemConfirmations => false,
            StateId::SellerSwapComplete => false,
            StateId::SellerWaitingForRefundHeight => false,
            StateId::SellerPostingRefundSlate => false,
            StateId::SellerWaitingForRefundConfirmations => false,
            StateId::SellerCancelledRefunded => false,
            StateId::SellerCancelled => false,
            StateId::BuyerOfferCreated => true,
            StateId::BuyerSendingAcceptOfferMessage => true,
            StateId::BuyerWaitingForSellerToLock => true,
            StateId::BuyerPostingSecondaryToMultisigAccount => true,
            StateId::BuyerWaitingForLockConfirmations => true,
            StateId::BuyerSendingInitRedeemMessage => true,
            StateId::BuyerWaitingForRespondRedeemMessage => true,
            StateId::BuyerRedeemMwc => false,
            StateId::BuyerWaitForRedeemMwcConfirmations => false,
            StateId::BuyerSwapComplete => false,
            StateId::BuyerWaitingForRefundTime => false,
            StateId::BuyerPostingRefundForSecondary => false,
            StateId::BuyerWaitingForRefundConfirmations => false,
            StateId::BuyerCancelledRefunded => false,
            StateId::BuyerCancelled => false,
        }
    }

    /// The name of the state, as the operator writes it.
    pub fn to_string(&self) -> (s: String)
        ensures
            s@ == self.spec_name(),
    {
        match self {
            StateId::SellerOfferCreated => "SellerOfferCreated".to_owned(),
            StateId::SellerSendingOffer => "SellerSendingOffer".to_owned(),
            StateId::SellerWaitingForAcceptanceMessage => "SellerWaitingForAcceptanceMessage".to_owned(),
            StateId::SellerWaitingForBuyerLock => "SellerWaitingForBuyerLock".to_owned(),
            StateId::SellerPostingLockMwcSlate => "SellerPostingLockMwcSlate".to_owned(),
            StateId::SellerWaitingForLockConfirmations => "SellerWaitingForLockConfirmations".to_owned(),
            StateId::SellerWaitingForInitRedeemMessage => "SellerWaitingForInitRedeemMessage".to_owned(),
            StateId::SellerSendingInitRedeemMessage => "SellerSendingInitRedeemMessage".to_owned(),
            StateId::SellerWaitingForBuyerToRedeemMwc => "SellerWaitingForBuyerToRedeemMwc".to_owned(),
            StateId::SellerRedeemSecondaryCurrency => "SellerRedeemSecondaryCurrency".to_owned(),
            StateId::SellerWaitingForRedeemConfirmations => "SellerWaitingForRedeemConfirmations".to_owned(),
            StateId::SellerSwapComplete => "SellerSwapComplete".to_owned(),
            StateId::SellerWaitingForRefundHeight => "SellerWaitingForRefundHeight".to_owned(),
            StateId::SellerPostingRefundSlate => "SellerPostingRefundSlate".to_owned(),
            StateId::SellerWaitingForRefundConfirmations => "SellerWaitingForRefundConfirmations".to_owned(),
            StateId::SellerCancelledRefunded => "SellerCancelledRefunded".to_owned(),
            StateId::SellerCancelled => "SellerCancelled".to_owned(),
            StateId::BuyerOfferCreated => "BuyerOfferCreated".to_owned(),
            StateId::BuyerSendingAcceptOfferMessage => "BuyerSendingAcceptOfferMessage".to_owned(),
            StateId::BuyerWaitingForSellerToLock => "BuyerWaitingForSellerToLock".to_owned(),
            StateId::BuyerPostingSecondaryToMultisigAccount => "BuyerPostingSecondaryToMultisigAccount".to_owned(),
            StateId::BuyerWaitingForLockConfirmations => "BuyerWaitingForLockConfirmations".to_owned(),
            StateId::BuyerSendingInitRedeemMessage => "BuyerSendingInitRedeemMessage".to_owned(),
            StateId::BuyerWaitingForRespondRedeemMessage => "BuyerWaitingForRespondRedeemMessage".to_owned(),
            StateId::BuyerRedeemMwc => "BuyerRedeemMwc".to_owned(),
            StateId::BuyerWaitForRedeemMwcConfirmations => "BuyerWaitForRedeemMwcConfirmations".to_owned(),
            StateId::BuyerSwapComplete => "BuyerSwapComplete".to_owned(),
            StateId::BuyerWaitingForRefundTime => "BuyerWaitingForRefundTime".to_owned(),
            StateId::BuyerPostingRefundForSecondary => "BuyerPostingRefundForSecondary".to_owned(),
            StateId::BuyerWaitingForRefundConfirmations => "BuyerWaitingForRefundConfirmations".to_owned(),
            StateId::BuyerCancelledRefunded => "BuyerCancelledRefunded".to_owned(),
            StateId::BuyerCancelled => "BuyerCancelled".to_owned(),
        }
    }

    /// Parses the name of a state. An unknown name gives `Generic`.
    pub fn from_cmd_str(name: &str) -> (r: Result<StateId, ErrorKind>)
        ensures
            match StateId::spec_from_name(name@) {
                Some(s) => r == Ok::<StateId, ErrorKind>(s),
                None => r matches Err(ErrorKind::Generic(m)) && m@ == "Unknown state value "@ + name@,
            },
    {
        if str_eq(name, "SellerOfferCreated") {
            Ok(StateId::SellerOfferCreated)
        } else if str_eq(name, "SellerSendingOffer") {
            Ok(StateId::SellerSendingOffer)
        } else if str_eq(name, "SellerWaitingForAcceptanceMessage") {
            Ok(StateId::SellerWaitingForAcceptanceMessage)
        } else if str_eq(name, "SellerWaitingForBuyerLock") {
            Ok(StateId::SellerWaitingForBuyerLock)
        } else if str_eq(name, "SellerPostingLockMwcSlate") {
            Ok(StateId::SellerPostingLockMwcSlate)
        } else if str_eq(name, "SellerWaitingForLockConfirmations") {
            Ok(StateId::SellerWaitingForLockConfirmations)
        } else if str_eq(name, "SellerWaitingForInitRedeemMessage") {
            Ok(StateId::SellerWaitingForInitRedeemMessage)
        } else if str_eq(name, "SellerSendingInitRedeemMessage") {
            Ok(StateId::SellerSendingInitRedeemMessage)
        } else if str_eq(name, "SellerWaitingForBuyerToRedeemMwc") {
            Ok(StateId::SellerWaitingForBuyerToRedeemMwc)
        } else if str_eq(name, "SellerRedeemSecondaryCurrency") {
            Ok(StateId::SellerRedeemSecondaryCurrency)
        } else if str_eq(name, "SellerWaitingForRedeemConfirmations") {
            Ok(StateId::SellerWaitingForRedeemConfirmations)
        } else if str_eq(name, "SellerSwapComplete") {
            Ok(StateId::SellerSwapComplete)
        } else if str_eq(name, "SellerWaitingForRefundHeight") {
            Ok(StateId::SellerWaitingForRefundHeight)
        } else if str_eq(name, "SellerPostingRefundSlate") {
            Ok(StateId::SellerPostingRefundSlate)
        } else if str_eq(name, "SellerWaitingForRefundConfirmations") {
            Ok(StateId::SellerWaitingForRefundConfirmations)
        } else if str_eq(name, "SellerCancelledRefunded") {
            Ok(StateId::SellerCancelledRefunded)
        } else if str_eq(name, "SellerCancelled") {
            Ok(StateId::SellerCancelled)
        } else if str_eq(name, "BuyerOfferCreated") {
            Ok(StateId::BuyerOfferCreated)
        } else if str_eq(name, "BuyerSendingAcceptOfferMessage") {
            Ok(StateId::BuyerSendingAcceptOfferMessage)
        } else if str_eq(name, "BuyerWaitingForSellerToLock") {
            Ok(StateId::BuyerWaitingForSellerToLock)
        } else if str_eq(name, "BuyerPostingSecondaryToMultisigAccount") {
            Ok(StateId::BuyerPostingSecondaryToMultisigAccount)
        } else if str_eq(name, "BuyerWaitingForLockConfirmations") {
            Ok(StateId::BuyerWaitingForLockConfirmations)
        } else if str_eq(name, "BuyerSendingInitRedeemMessage") {
            Ok(StateId::BuyerSendingInitRedeemMessage)
        } else if str_eq(name, "BuyerWaitingForRespondRedeemMessage") {
            Ok(StateId::BuyerWaitingForRespondRedeemMessage)
        } else if str_eq(name, "BuyerRedeemMwc") {
            Ok(StateId::BuyerRedeemMwc)
        } else if str_eq(name, "BuyerWaitForRedeemMwcConfirmations") {
            Ok(StateId::BuyerWaitForRedeemMwcConfirmations)
        } else if str_eq(name, "BuyerSwapComplete") {
            Ok(StateId::BuyerSwapComplete)
        } else if str_eq(name, "BuyerWaitingForRefundTime") {
            Ok(StateId::BuyerWaitingForRefundTime)
        } else if str_eq(name, "BuyerPostingRefundForSecondary") {
            Ok(StateId::BuyerPostingRefundForSecondary)
        } else if str_eq(name, "BuyerWaitingForRefundConfirmations") {
            Ok(StateId::BuyerWaitingForRefundConfirmations)
        } else if str_eq(name, "BuyerCancelledRefunded") {
            Ok(StateId::BuyerCancelledRefunded)
        } else if str_eq(name, "BuyerCancelled") {
            Ok(StateId::BuyerCancelled)
        } else {
            Err(ErrorKind::Generic(join2("Unknown state value ", name)))
        }
    }

    /// Whether the state belongs to the seller's machine.
    #[verifier::when_used_as_spec(spec_is_seller_state)]
    pub fn is_seller_state(self) -> (r: bool)
        ensures
            r == self.spec_is_seller_state(),
    {
        match self {
            StateId::SellerOfferCreated => true,
            StateId::SellerSendingOffer => true,
            StateId::SellerWaitingForAcceptanceMessage => true,
            StateId::SellerWaitingForBuyerLock => true,
            StateId::SellerPostingLockMwcSlate => true,
            StateId::SellerWaitingForLockConfirmations => true,
            StateId::SellerWaitingForInitRedeemMessage => true,
            StateId::SellerSendingInitRedeemMessage => true,
            StateId::SellerWaitingForBuyerToRedeemMwc => true,
            StateId::SellerRedeemSecondaryCurrency => true,
            StateId::SellerWaitingForRedeemConfirmations => true,
            StateId::SellerSwapComplete => true,
            StateId::SellerWaitingForRefundHeight => true,
            StateId::SellerPostingRefundSlate => true,
            StateId::SellerWaitingForRefundConfirmations => true,
            StateId::SellerCancelledRefunded => true,
            StateId::SellerCancelled => true,
            StateId::BuyerOfferCreated => false,
            StateId::BuyerSendingAcceptOfferMessage => false,
            StateId::BuyerWaitingForSellerToLock => false,
            StateId::BuyerPostingSecondaryToMultisigAccount => false,
            StateId::BuyerWaitingForLockConfirmations => false,
            StateId::BuyerSendingInitRedeemMessage => false,
            StateId::BuyerWaitingForRespondRedeemMessage => false,
            StateId::BuyerRedeemMwc => false,
            StateId::BuyerWaitForRedeemMwcConfirmations => false,
            StateId::BuyerSwapComplete => false,
            StateId::BuyerWaitingForRefundTime => false,
            StateId::BuyerPostingRefundForSecondary => false,
            StateId::BuyerWaitingForRefundConfirmations => false,
            StateId::BuyerCancelledRefunded => false,
            StateId::BuyerCancelled => false,
        }
    }

    /// Whether the trade has ended in this state.
    #[verifier::when_used_as_spec(spec_is_final)]
    pub fn is_final(self) -> (r: bool)
        ensures
            r == self.spec_is_final(),
    {
        match self {
            StateId::SellerOfferCreated => false,
            StateId::SellerSendingOffer => false,
            StateId::SellerWaitingForAcceptanceMessage => false,
            StateId::SellerWaitingForBuyerLock => false,
            StateId::SellerPostingLockMwcSlate => false,
            StateId::SellerWaitingForLockConfirmations => false,
            StateId::SellerWaitingForInitRedeemMessage => false,
            StateId::SellerSendingInitRedeemMessage => false,
            StateId::SellerWaitingForBuyerToRedeemMwc => false,
            StateId::SellerRedeemSecondaryCurrency => false,
            StateId::SellerWaitingForRedeemConfirmations => false,
            StateId::SellerSwapComplete => true,
            StateId::SellerWaitingForRefundHeight => false,
            StateId::SellerPostingRefundSlate => false,
            StateId::SellerWaitingForRefundConfirmations => false,
            StateId::SellerCancelledRefunded => true,
            StateId::SellerCancelled => true,
            StateId::BuyerOfferCreated => false,
            StateId::BuyerSendingAcceptOfferMessage => false,
            StateId::BuyerWaitingForSellerToLock => false,
            StateId::BuyerPostingSecondaryToMultisigAccount => false,
            StateId::BuyerWaitingForLockConfirmations => false,
            StateId::BuyerSendingInitRedeemMessage => false,
            StateId::BuyerWaitingForRespondRedeemMessage => false,
            StateId::BuyerRedeemMwc => false,
            StateId::BuyerWaitForRedeemMwcConfirmations => false,
            StateId::BuyerSwapComplete => true,
            StateId::BuyerWaitingForRefundTime => false,
            StateId::BuyerPostingRefundForSecondary => false,
            StateId::BuyerWaitingForRefundConfirmations => false,
            StateId::BuyerCancelledRefunded => true,
            StateId::BuyerCancelled => true,
        }
    }

    /// Whether the operator may cancel the trade in this state.
    #[verifier::when_used_as_spec(spec_is_cancellable)]
    pub fn is_cancellable(self) -> (r: bool)
        ensures
            r == self.spec_is_cancellable(),
    {
        match self {
            StateId::SellerOfferCreated => true,
            StateId::SellerSendingOffer => true,
            StateId::SellerWaitingForAcceptanceMessage => true,
            StateId::SellerWaitingForBuyerLock => true,
            StateId::SellerPostingLockMwcSlate => true,
            StateId::SellerWaitingForLockConfirmations => true,
            StateId::SellerWaitingForInitRedeemMessage => true,
            StateId::SellerSendingInitRedeemMessage => true,
            StateId::SellerWaitingForBuyerToRedeemMwc => false,
            StateId::SellerRedeemSecondaryCurrency => false,
            StateId::SellerWaitingForRedeemConfirmations => false,
            StateId::SellerSwapComplete => false,
            StateId::SellerWaitingForRefundHeight => false,
            StateId::SellerPostingRefundSlate => false,
            StateId::SellerWaitingForRefundConfirmations => false,
            StateId::SellerCancelledRefunded => false,
            StateId::SellerCancelled => false,
            StateId::BuyerOfferCreated => true,
            StateId::BuyerSendingAcceptOfferMessage => true,
            StateId::BuyerWaitingForSellerToLock => true,
            StateId::BuyerPostingSecondaryToMultisigAccount => true,
            StateId::BuyerWaitingForLockConfirmations => true,
            StateId::BuyerSendingInitRedeemMessage => true,
            StateId::BuyerWaitingForRespondRedeemMessage => true,
            StateId::BuyerRedeemMwc => false,
            StateId::BuyerWaitForRedeemMwcConfirmations => false,
            StateId::BuyerSwapComplete => false,
            StateId::BuyerWaitingForRefundTime => false,
            StateId::BuyerPostingRefundForSecondary => false,
            StateId::BuyerWaitingForRefundConfirmations => false,
            StateId::BuyerCancelledRefunded => false,
            StateId::BuyerCancelled => false,
        }
    }
}

/// What the caller has to do next.
#[derive(Debug, PartialEq, Eq)]
pub enum Action {
    /// Nothing.
    Nothing,
    /// Send the offer to the buyer.
    SellerSendOfferMessage(Message),
    /// Send the acceptance to the seller.
    BuyerSendAcceptOfferMessage(Message),
    /// Send the message that opens the redeem to the seller.
    BuyerSendInitRedeemMessage(Message),
    /// Send the redeem message to the buyer.
    SellerSendRedeemMessage(Message),
    /// Hand in the buyer's acceptance.
    SellerWaitingForOfferMessage,
    /// Hand in the buyer's message that opens the redeem.
    SellerWaitingForInitRedeemMessage,
    /// Hand in the seller's redeem message.
    BuyerWaitingForRedeemMessage,
    /// Publish the primary lock transaction.
    SellerPublishMwcLockTx,
    /// Publish the secondary redeem transaction.
    SellerPublishTxSecondaryRedeem(Currency),
    /// Publish the primary redeem transaction.
    BuyerPublishMwcRedeemTx,
    /// Publish the primary refund transaction.
    SellerPublishMwcRefundTx,
    /// Publish the secondary refund transaction.
    BuyerPublishSecondaryRefundTx(Currency),
    /// Deposit the secondary asset on the lock address.
    DepositSecondary { currency: Currency, amount: u64, address: String },
    /// Wait until the transactions have the required confirmations.
    WaitForConfirmations {
        mwc_required: u64,
        mwc_actual: u64,
        secondary_required: u64,
        secondary_actual: u64,
    },
}

/// An action without the values that are copied from the trade.
#[derive(Clone, Copy, Debug, PartialEq, Eq, Structural)]
pub enum ActionCode {
    NoAction,
    SellerSendOfferMessage,
    BuyerSendAcceptOfferMessage,
    BuyerSendInitRedeemMessage,
    SellerSendRedeemMessage,
    SellerWaitingForOfferMessage,
    SellerWaitingForInitRedeemMessage,
    BuyerWaitingForRedeemMessage,
    SellerPublishMwcLockTx,
    SellerPublishTxSecondaryRedeem,
    BuyerPublishMwcRedeemTx,
    SellerPublishMwcRefundTx,
    BuyerPublishSecondaryRefundTx,
    DepositSecondary { amount: u64 },
    WaitForConfirmations {
        mwc_required: u64,
        mwc_actual: u64,
        secondary_required: u64,
        secondary_actual: u64,
    },
}

/// Whether `action` is what `code` stands for in the trade `swap`.
pub open spec fn action_is(action: Option<Action>, code: ActionCode, swap: &Swap) -> bool {
    match code {
        ActionCode::NoAction => action is None,
        ActionCode::SellerSendOfferMessage => action matches Some(
            Action::SellerSendOfferMessage(m),
        ) && is_offer_message(&m, swap),
        ActionCode::BuyerSendAcceptOfferMessage => action matches Some(
            Action::BuyerSendAcceptOfferMessage(m),
        ) && is_accept_offer_message(&m, swap),
        ActionCode::BuyerSendInitRedeemMessage => action matches Some(
            Action::BuyerSendInitRedeemMessage(m),
        ) && is_init_redeem_message(&m, swap),
        ActionCode::SellerSendRedeemMessage => action matches Some(
            Action::SellerSendRedeemMessage(m),
        ) && is_redeem_message(&m, swap),
        ActionCode::SellerWaitingForOfferMessage => action == Some(
            Action::SellerWaitingForOfferMessage,
        ),
        ActionCode::SellerWaitingForInitRedeemMessage => action == Some(
            Action::SellerWaitingForInitRedeemMessage,
        ),
        ActionCode::BuyerWaitingForRedeemMessage => action == Some(
            Action::BuyerWaitingForRedeemMessage,
        ),
        ActionCode::SellerPublishMwcLockTx => action == Some(Action::SellerPublishMwcLockTx),
        ActionCode::SellerPublishTxSecondaryRedeem => action == Some(
            Action::SellerPublishTxSecondaryRedeem(swap.secondary_currency),
        ),
        ActionCode::BuyerPublishMwcRedeemTx => action == Some(Action::BuyerPublishMwcRedeemTx),
        ActionCode::SellerPublishMwcRefundTx => action == Some(Action::SellerPublishMwcRefundTx),
        ActionCode::BuyerPublishSecondaryRefundTx => action == Some(
            Action::BuyerPublishSecondaryRefundTx(swap.secondary_currency),
        ),
        ActionCode::DepositSecondary { amount } => action matches Some(
            Action::DepositSecondary { currency, amount: a, address },
        ) && currency == swap.secondary_currency && a == amount && address@
            == swap.spec_lock_address(),
        ActionCode::WaitForConfirmations {
            mwc_required,
            mwc_actual,
            secondary_required,
            secondary_actual,
        } => action == Some(
            Action::WaitForConfirmations {
                mwc_required,
                mwc_actual,
                secondary_required,
                secondary_actual,
            },
        ),
    }
}

/// What drives a state machine.
#[derive(Debug, PartialEq, Eq)]
pub enum Input {
    /// Look at the chains and the clock and move on where that is due.
    Check,
    /// The pending action has been carried out.
    Execute,
    /// The pending action has been carried out with these values.
    ExecuteWith { refund_address: Option<String>, fee_per_vb: Option<u64> },
    /// The operator gives the trade up.
    Cancel,
    /// A message of the other party has arrived.
    IncomeMessage(Message),
}

/// Answer of a state machine.
#[derive(Debug, PartialEq, Eq)]
pub struct StateProcessRespond {
    /// The state in which the trade now is.
    pub next_state_id: StateId,
    /// What the caller has to do next, if anything.
    pub action: Option<Action>,
    /// When the state will be left for lack of progress.
    pub time_limit: Option<i64>,
    /// Note for the journal.
    pub journal_message: Option<String>,
}

/// Outcome of one step, without the values that are copied from the trade.
pub struct Step {
    pub next: StateId,
    pub action: ActionCode,
    pub time_limit: Option<i64>,
}

/// Whether `respond` is the answer that `step` stands for in the trade `swap`.
pub open spec fn respond_is(respond: &StateProcessRespond, step: Step, swap: &Swap) -> bool {
    &&& respond.next_state_id == step.next
    &&& action_is(respond.action, step.action, swap)
    &&& respond.time_limit == step.time_limit
}

impl StateProcessRespond {
    /// An answer without action or time limit.
    pub fn new(next_state_id: StateId) -> (r: StateProcessRespond)
        ensures
            r.next_state_id == next_state_id,
            r.action is None,
            r.time_limit is None,
            r.journal_message is None,
    {
        StateProcessRespond { next_state_id, action: None, time_limit: None, journal_message: None }
    }

    /// The same answer with `action`.
    pub fn action(self, action: Action) -> (r: StateProcessRespond)
        ensures
            r == (StateProcessRespond { action: Some(action), ..self }),
    {
        StateProcessRespond { action: Some(action), ..self }
    }

    /// The same answer with `time_limit`.
    pub fn time_limit(self, time_limit: i64) -> (r: StateProcessRespond)
        ensures
            r == (StateProcessRespond { time_limit: Some(time_limit), ..self }),
    {
        StateProcessRespond { time_limit: Some(time_limit), ..self }
    }
}

} // verus!
