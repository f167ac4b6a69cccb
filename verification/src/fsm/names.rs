//! The names of the states: each names one state alone.

use vstd::prelude::*;
use crate::fsm::state::StateId;

verus! {

/// The name of a state is the name of that state alone: read back, it
/// gives the state.
pub proof fn law_state_name_names_the_state(state: StateId)
    ensures
        StateId::spec_from_name(state.spec_name()) == Some(state),
{
    reveal_strlit("SellerOfferCreated");
    reveal_strlit("SellerSendingOffer");
    reveal_strlit("SellerWaitingForAcceptanceMessage");
    reveal_strlit("SellerWaitingForBuyerLock");
    reveal_strlit("SellerPostingLockMwcSlate");
    reveal_strlit("SellerWaitingForLockConfirmations");
    reveal_strlit("SellerWaitingForInitRedeemMessage");
    reveal_strlit("SellerSendingInitRedeemMessage");
    reveal_strlit("SellerWaitingForBuyerToRedeemMwc");
    reveal_strlit("SellerRedeemSecondaryCurrency");
    reveal_strlit("SellerWaitingForRedeemConfirmations");
    reveal_strlit("SellerSwapComplete");
    reveal_strlit("SellerWaitingForRefundHeight");
    reveal_strlit("SellerPostingRefundSlate");
    reveal_strlit("SellerWaitingForRefundConfirmations");
    reveal_strlit("SellerCancelledRefunded");
    reveal_strlit("SellerCancelled");
    reveal_strlit("BuyerOfferCreated");
    reveal_strlit("BuyerSendingAcceptOfferMessage");
    reveal_strlit("BuyerWaitingForSellerToLock");
    reveal_strlit("BuyerPostingSecondaryToMultisigAccount");
    reveal_strlit("BuyerWaitingForLockConfirmations");
    reveal_strlit("BuyerSendingInitRedeemMessage");
    reveal_strlit("BuyerWaitingForRespondRedeemMessage");
    reveal_strlit("BuyerRedeemMwc");
    reveal_strlit("BuyerWaitForRedeemMwcConfirmations");
    reveal_strlit("BuyerSwapComplete");
    reveal_strlit("BuyerWaitingForRefundTime");
    reveal_strlit("BuyerPostingRefundForSecondary");
    reveal_strlit("BuyerWaitingForRefundConfirmations");
    reveal_strlit("BuyerCancelledRefunded");
    reveal_strlit("BuyerCancelled");
    match state {
        StateId::SellerOfferCreated => {
            let n = "SellerOfferCreated"@;
        },
        StateId::SellerSendingOffer => {
            let n = "SellerSendingOffer"@;
            assert(n[6] != "SellerOfferCreated"@[6]);
        },
        StateId::SellerWaitingForAcceptanceMessage => {
            let n = "SellerWaitingForAcceptanceMessage"@;
            assert(n.len() != "SellerOfferCreated"@.len());
            assert(n.len() != "SellerSendingOffer"@.len());
        },
        StateId::SellerWaitingForBuyerLock => {
            let n = "SellerWaitingForBuyerLock"@;
            assert(n.len() != "SellerOfferCreated"@.len());
            assert(n.len() != "SellerSendingOffer"@.len());
            assert(n.len() != "SellerWaitingForAcceptanceMessage"@.len());
        },
        StateId::SellerPostingLockMwcSlate => {
            let n = "SellerPostingLockMwcSlate"@;
            assert(n.len() != "SellerOfferCreated"@.len());
            assert(n.len() != "SellerSendingOffer"@.len());
            assert(n.len() != "SellerWaitingForAcceptanceMessage"@.len());
            assert(n[6] != "SellerWaitingForBuyerLock"@[6]);
        },
        StateId::SellerWaitingForLockConfirmations => {
            let n = "SellerWaitingForLockConfirmations"@;
            assert(n.len() != "SellerOfferCreated"@.len());
            assert(n.len() != "SellerSendingOffer"@.len());
            assert(n[16] != "SellerWaitingForAcceptanceMessage"@[16]);
            assert(n.len() != "SellerWaitingForBuyerLock"@.len());
            assert(n.len() != "SellerPostingLockMwcSlate"@.len());
        },
        StateId::SellerWaitingForInitRedeemMessage => {
            let n = "SellerWaitingForInitRedeemMessage"@;
            assert(n.len() != "SellerOfferCreated"@.len());
            assert(n.len() != "SellerSendingOffer"@.len());
            assert(n[16] != "SellerWaitingForAcceptanceMessage"@[16]);
            assert(n.len() != "SellerWaitingForBuyerLock"@.len());
            assert(n.len() != "SellerPostingLockMwcSlate"@.len());
            assert(n[16] != "SellerWaitingForLockConfirmations"@[16]);
        },
        StateId::SellerSendingInitRedeemMessage => {
            let n = "SellerSendingInitRedeemMessage"@;
            assert(n.len() != "SellerOfferCreated"@.len());
            assert(n.len() != "SellerSendingOffer"@.len());
            assert(n.len() != "SellerWaitingForAcceptanceMessage"@.len());
            assert(n.len() != "SellerWaitingForBuyerLock"@.len());
            assert(n.len() != "SellerPostingLockMwcSlate"@.len());
            assert(n.len() != "SellerWaitingForLockConfirmations"@.len());
            assert(n.len() != "SellerWaitingForInitRedeemMessage"@.len());
        },
        StateId::SellerWaitingForBuyerToRedeemMwc => {
            let n = "SellerWaitingForBuyerToRedeemMwc"@;
            assert(n.len() != "SellerOfferCreated"@.len());
            assert(n.len() != "SellerSendingOffer"@.len());
            assert(n.len() != "SellerWaitingForAcceptanceMessage"@.len());
            assert(n.len() != "SellerWaitingForBuyerLock"@.len());
            assert(n.len() != "SellerPostingLockMwcSlate"@.len());
            assert(n.len() != "SellerWaitingForLockConfirmations"@.len());
            assert(n.len() != "SellerWaitingForInitRedeemMessage"@.len());
            assert(n.len() != "SellerSendingInitRedeemMessage"@.len());
        },
        StateId::SellerRedeemSecondaryCurrency => {
            let n = "SellerRedeemSecondaryCurrency"@;
            assert(n.len() != "SellerOfferCreated"@.len());
            assert(n.len() != "SellerSendingOffer"@.len());
            assert(n.len() != "SellerWaitingForAcceptanceMessage"@.len());
            assert(n.len() != "SellerWaitingForBuyerLock"@.len());
            assert(n.len() != "SellerPostingLockMwcSlate"@.len());
            assert(n.len() != "SellerWaitingForLockConfirmations"@.len());
            assert(n.len() != "SellerWaitingForInitRedeemMessage"@.len());
            assert(n.len() != "SellerSendingInitRedeemMessage"@.len());
            assert(n.len() != "SellerWaitingForBuyerToRedeemMwc"@.len());
        },
        StateId::SellerWaitingForRedeemConfirmations => {
            let n = "SellerWaitingForRedeemConfirmations"@;
            assert(n.len() != "SellerOfferCreated"@.len());
            assert(n.len() != "SellerSendingOffer"@.len());
            assert(n.len() != "SellerWaitingForAcceptanceMessage"@.len());
            assert(n.len() != "SellerWaitingForBuyerLock"@.len());
            assert(n.len() != "SellerPostingLockMwcSlate"@.len());
            assert(n.len() != "SellerWaitingForLockConfirmations"@.len());
            assert(n.len() != "SellerWaitingForInitRedeemMessage"@.len());
            assert(n.len() != "SellerSendingInitRedeemMessage"@.len());
            assert(n.len() != "SellerWaitingForBuyerToRedeemMwc"@.len());
            assert(n.len() != "SellerRedeemSecondaryCurrency"@.len());
        },
        StateId::SellerSwapComplete => {
            let n = "SellerSwapComplete"@;
            assert(n[6] != "SellerOfferCreated"@[6]);
            assert(n[7] != "SellerSendingOffer"@[7]);
            assert(n.len() != "SellerWaitingForAcceptanceMessage"@.len());
            assert(n.len() != "SellerWaitingForBuyerLock"@.len());
            assert(n.len() != "SellerPostingLockMwcSlate"@.len());
            assert(n.len() != "SellerWaitingForLockConfirmations"@.len());
            assert(n.len() != "SellerWaitingForInitRedeemMessage"@.len());
            assert(n.len() != "SellerSendingInitRedeemMessage"@.len());
            assert(n.len() != "SellerWaitingForBuyerToRedeemMwc"@.len());
            assert(n.len() != "SellerRedeemSecondaryCurrency"@.len());
            assert(n.len() != "SellerWaitingForRedeemConfirmations"@.len());
        },
        StateId::SellerWaitingForRefundHeight => {
            let n = "SellerWaitingForRefundHeight"@;
            assert(n.len() != "SellerOfferCreated"@.len());
            assert(n.len() != "SellerSendingOffer"@.len());
            assert(n.len() != "SellerWaitingForAcceptanceMessage"@.len());
            assert(n.len() != "SellerWaitingForBuyerLock"@.len());
            assert(n.len() != "SellerPostingLockMwcSlate"@.len());
            assert(n.len() != "SellerWaitingForLockConfirmations"@.len());
            assert(n.len() != "SellerWaitingForInitRedeemMessage"@.len());
            assert(n.len() != "SellerSendingInitRedeemMessage"@.len());
            assert(n.len() != "SellerWaitingForBuyerToRedeemMwc"@.len());
            assert(n.len() != "SellerRedeemSecondaryCurrency"@.len());
            assert(n.len() != "SellerWaitingForRedeemConfirmations"@.len());
            assert(n.len() != "SellerSwapComplete"@.len());
        },
        StateId::SellerPostingRefundSlate => {
            let n = "SellerPostingRefundSlate"@;
            assert(n.len() != "SellerOfferCreated"@.len());
            assert(n.len() != "SellerSendingOffer"@.len());
            assert(n.len() != "SellerWaitingForAcceptanceMessage"@.len());
            assert(n.len() != "SellerWaitingForBuyerLock"@.len());
            assert(n.len() != "SellerPostingLockMwcSlate"@.len());
            assert(n.len() != "SellerWaitingForLockConfirmations"@.len());
            assert(n.len() != "SellerWaitingForInitRedeemMessage"@.len());
            assert(n.len() != "SellerSendingInitRedeemMessage"@.len());
            assert(n.len() != "SellerWaitingForBuyerToRedeemMwc"@.len());
            assert(n.len() != "SellerRedeemSecondaryCurrency"@.len());
            assert(n.len() != "SellerWaitingForRedeemConfirmations"@.len());
            assert(n.len() != "SellerSwapComplete"@.len());
            assert(n.len() != "SellerWaitingForRefundHeight"@.len());
        },
        StateId::SellerWaitingForRefundConfirmations => {
            let n = "SellerWaitingForRefundConfirmations"@;
            assert(n.len() != "SellerOfferCreated"@.len());
            assert(n.len() != "SellerSendingOffer"@.len());
            assert(n.len() != "SellerWaitingForAcceptanceMessage"@.len());
            assert(n.len() != "SellerWaitingForBuyerLock"@.len());
            assert(n.len() != "SellerPostingLockMwcSlate"@.len());
            assert(n.len() != "SellerWaitingForLockConfirmations"@.len());
            assert(n.len() != "SellerWaitingForInitRedeemMessage"@.len());
            assert(n.len() != "SellerSendingInitRedeemMessage"@.len());
            assert(n.len() != "SellerWaitingForBuyerToRedeemMwc"@.len());
            assert(n.len() != "SellerRedeemSecondaryCurrency"@.len());
            assert(n[18] != "SellerWaitingForRedeemConfirmations"@[18]);
            assert(n.len() != "SellerSwapComplete"@.len());
            assert(n.len() != "SellerWaitingForRefundHeight"@.len());
            assert(n.len() != "SellerPostingRefundSlate"@.len());
        },
        StateId::SellerCancelledRefunded => {
            let n = "SellerCancelledRefunded"@;
            assert(n.len() != "SellerOfferCreated"@.len());
            assert(n.len() != "SellerSendingOffer"@.len());
            assert(n.len() != "SellerWaitingForAcceptanceMessage"@.len());
            assert(n.len() != "SellerWaitingForBuyerLock"@.len());
            assert(n.len() != "SellerPostingLockMwcSlate"@.len());
            assert(n.len() != "SellerWaitingForLockConfirmations"@.len());
            assert(n.len() != "SellerWaitingForInitRedeemMessage"@.len());
            assert(n.len() != "SellerSendingInitRedeemMessage"@.len());
            assert(n.len() != "SellerWaitingForBuyerToRedeemMwc"@.len());
            assert(n.len() != "SellerRedeemSecondaryCurrency"@.len());
            assert(n.len() != "SellerWaitingForRedeemConfirmations"@.len());
            assert(n.len() != "SellerSwapComplete"@.len());
            assert(n.len() != "SellerWaitingForRefundHeight"@.len());
            assert(n.len() != "SellerPostingRefundSlate"@.len());
            assert(n.len() != "SellerWaitingForRefundConfirmations"@.len());
        },
        StateId::SellerCancelled => {
            let n = "SellerCancelled"@;
            assert(n.len() != "SellerOfferCreated"@.len());
            assert(n.len() != "SellerSendingOffer"@.len());
            assert(n.len() != "SellerWaitingForAcceptanceMessage"@.len());
            assert(n.len() != "SellerWaitingForBuyerLock"@.len());
            assert(n.len() != "SellerPostingLockMwcSlate"@.len());
            assert(n.len() != "SellerWaitingForLockConfirmations"@.len());
            assert(n.len() != "SellerWaitingForInitRedeemMessage"@.len());
            assert(n.len() != "SellerSendingInitRedeemMessage"@.len());
            assert(n.len() != "SellerWaitingForBuyerToRedeemMwc"@.len());
            assert(n.len() != "SellerRedeemSecondaryCurrency"@.len());
            assert(n.len() != "SellerWaitingForRedeemConfirmations"@.len());
            assert(n.len() != "SellerSwapComplete"@.len());
            assert(n.len() != "SellerWaitingForRefundHeight"@.len());
            assert(n.len() != "SellerPostingRefundSlate"@.len());
            assert(n.len() != "SellerWaitingForRefundConfirmations"@.len());
            assert(n.len() != "SellerCancelledRefunded"@.len());
        },
        StateId::BuyerOfferCreated => {
            let n = "BuyerOfferCreated"@;
            assert(n.len() != "SellerOfferCreated"@.len());
            assert(n.len() != "SellerSendingOffer"@.len());
            assert(n.len() != "SellerWaitingForAcceptanceMessage"@.len());
            assert(n.len() != "SellerWaitingForBuyerLock"@.len());
            assert(n.len() != "SellerPostingLockMwcSlate"@.len());
            assert(n.len() != "SellerWaitingForLockConfirmations"@.len());
            assert(n.len() != "SellerWaitingForInitRedeemMessage"@.len());
            assert(n.len() != "SellerSendingInitRedeemMessage"@.len());
            assert(n.len() != "SellerWaitingForBuyerToRedeemMwc"@.len());
            assert(n.len() != "SellerRedeemSecondaryCurrency"@.len());
            assert(n.len() != "SellerWaitingForRedeemConfirmations"@.len());
            assert(n.len() != "SellerSwapComplete"@.len());
            assert(n.len() != "SellerWaitingForRefundHeight"@.len());
            assert(n.len() != "SellerPostingRefundSlate"@.len());
            assert(n.len() != "SellerWaitingForRefundConfirmations"@.len());
            assert(n.len() != "SellerCancelledRefunded"@.len());
            assert(n.len() != "SellerCancelled"@.len());
        },
        StateId::BuyerSendingAcceptOfferMessage => {
            let n = "BuyerSendingAcceptOfferMessage"@;
            assert(n.len() != "SellerOfferCreated"@.len());
            assert(n.len() != "SellerSendingOffer"@.len());
            assert(n.len() != "SellerWaitingForAcceptanceMessage"@.len());
            assert(n.len() != "SellerWaitingForBuyerLock"@.len());
            assert(n.len() != "SellerPostingLockMwcSlate"@.len());
            assert(n.len() != "SellerWaitingForLockConfirmations"@.len());
            assert(n.len() != "SellerWaitingForInitRedeemMessage"@.len());
            assert(n[0] != "SellerSendingInitRedeemMessage"@[0]);
            assert(n.len() != "SellerWaitingForBuyerToRedeemMwc"@.len());
            assert(n.len() != "SellerRedeemSecondaryCurrency"@.len());
            assert(n.len() != "SellerWaitingForRedeemConfirmations"@.len());
            assert(n.len() != "SellerSwapComplete"@.len());
            assert(n.len() != "SellerWaitingForRefundHeight"@.len());
            assert(n.len() != "SellerPostingRefundSlate"@.len());
            assert(n.len() != "SellerWaitingForRefundConfirmations"@.len());
            assert(n.len() != "SellerCancelledRefunded"@.len());
            assert(n.len() != "SellerCancelled"@.len());
            assert(n.len() != "BuyerOfferCreated"@.len());
        },
        StateId::BuyerWaitingForSellerToLock => {
            let n = "BuyerWaitingForSellerToLock"@;
            assert(n.len() != "SellerOfferCreated"@.len());
            assert(n.len() != "SellerSendingOffer"@.len());
            assert(n.len() != "SellerWaitingForAcceptanceMessage"@.len());
            assert(n.len() != "SellerWaitingForBuyerLock"@.len());
            assert(n.len() != "SellerPostingLockMwcSlate"@.len());
            assert(n.len() != "SellerWaitingForLockConfirmations"@.len());
            assert(n.len() != "SellerWaitingForInitRedeemMessage"@.len());
            assert(n.len() != "SellerSendingInitRedeemMessage"@.len());
            assert(n.len() != "SellerWaitingForBuyerToRedeemMwc"@.len());
            assert(n.len() != "SellerRedeemSecondaryCurrency"@.len());
            assert(n.len() != "SellerWaitingForRedeemConfirmations"@.len());
            assert(n.len() != "SellerSwapComplete"@.len());
            assert(n.len() != "SellerWaitingForRefundHeight"@.len());
            assert(n.len() != "SellerPostingRefundSlate"@.len());
            assert(n.len() != "SellerWaitingForRefundConfirmations"@.len());
            assert(n.len() != "SellerCancelledRefunded"@.len());
            assert(n.len() != "SellerCancelled"@.len());
            assert(n.len() != "BuyerOfferCreated"@.len());
            assert(n.len() != "BuyerSendingAcceptOfferMessage"@.len());
        },
        StateId::BuyerPostingSecondaryToMultisigAccount => {
            let n = "BuyerPostingSecondaryToMultisigAccount"@;
            assert(n.len() != "SellerOfferCreated"@.len());
            assert(n.len() != "SellerSendingOffer"@.len());
            assert(n.len() != "SellerWaitingForAcceptanceMessage"@.len());
            assert(n.len() != "SellerWaitingForBuyerLock"@.len());
            assert(n.len() != "SellerPostingLockMwcSlate"@.len());
            assert(n.len() != "SellerWaitingForLockConfirmations"@.len());
            assert(n.len() != "SellerWaitingForInitRedeemMessage"@.len());
            assert(n.len() != "SellerSendingInitRedeemMessage"@.len());
            assert(n.len() != "SellerWaitingForBuyerToRedeemMwc"@.len());
            assert(n.len() != "SellerRedeemSecondaryCurrency"@.len());
            assert(n.len() != "SellerWaitingForRedeemConfirmations"@.len());
            assert(n.len() != "SellerSwapComplete"@.len());
            assert(n.len() != "SellerWaitingForRefundHeight"@.len());
            assert(n.len() != "SellerPostingRefundSlate"@.len());
            assert(n.len() != "SellerWaitingForRefundConfirmations"@.len());
            assert(n.len() != "SellerCancelledRefunded"@.len());
            assert(n.len() != "SellerCancelled"@.len());
            assert(n.len() != "BuyerOfferCreated"@.len());
            assert(n.len() != "BuyerSendingAcceptOfferMessage"@.len());
            assert(n.len() != "BuyerWaitingForSellerToLock"@.len());
        },
        StateId::BuyerWaitingForLockConfirmations => {
            let n = "BuyerWaitingForLockConfirmations"@;
            assert(n.len() != "SellerOfferCreated"@.len());
            assert(n.len() != "SellerSendingOffer"@.len());
            assert(n.len() != "SellerWaitingForAcceptanceMessage"@.len());
            assert(n.len() != "SellerWaitingForBuyerLock"@.len());
            assert(n.len() != "SellerPostingLockMwcSlate"@.len());
            assert(n.len() != "SellerWaitingForLockConfirmations"@.len());
            assert(n.len() != "SellerWaitingForInitRedeemMessage"@.len());
            assert(n.len() != "SellerSendingInitRedeemMessage"@.len());
            assert(n[0] != "SellerWaitingForBuyerToRedeemMwc"@[0]);
            assert(n.len() != "SellerRedeemSecondaryCurrency"@.len());
            assert(n.len() != "SellerWaitingForRedeemConfirmations"@.len());
            assert(n.len() != "SellerSwapComplete"@.len());
            assert(n.len() != "SellerWaitingForRefundHeight"@.len());
            assert(n.len() != "SellerPostingRefundSlate"@.len());
            assert(n.len() != "SellerWaitingForRefundConfirmations"@.len());
            assert(n.len() != "SellerCancelledRefunded"@.len());
            assert(n.len() != "SellerCancelled"@.len());
            assert(n.len() != "BuyerOfferCreated"@.len());
            assert(n.len() != "BuyerSendingAcceptOfferMessage"@.len());
            assert(n.len() != "BuyerWaitingForSellerToLock"@.len());
            assert(n.len() != "BuyerPostingSecondaryToMultisigAccount"@.len());
        },
        StateId::BuyerSendingInitRedeemMessage => {
            let n = "BuyerSendingInitRedeemMessage"@;
            assert(n.len() != "SellerOfferCreated"@.len());
            assert(n.len() != "SellerSendingOffer"@.len());
            assert(n.len() != "SellerWaitingForAcceptanceMessage"@.len());
            assert(n.len() != "SellerWaitingForBuyerLock"@.len());
            assert(n.len() != "SellerPostingLockMwcSlate"@.len());
            assert(n.len() != "SellerWaitingForLockConfirmations"@.len());
            assert(n.len() != "SellerWaitingForInitRedeemMessage"@.len());
            assert(n.len() != "SellerSendingInitRedeemMessage"@.len());
            assert(n.len() != "SellerWaitingForBuyerToRedeemMwc"@.len());
            assert(n[0] != "SellerRedeemSecondaryCurrency"@[0]);
            assert(n.len() != "SellerWaitingForRedeemConfirmations"@.len());
            assert(n.len() != "SellerSwapComplete"@.len());
            assert(n.len() != "SellerWaitingForRefundHeight"@.len());
            assert(n.len() != "SellerPostingRefundSlate"@.len());
            assert(n.len() != "SellerWaitingForRefundConfirmations"@.len());
            assert(n.len() != "SellerCancelledRefunded"@.len());
            assert(n.len() != "SellerCancelled"@.len());
            assert(n.len() != "BuyerOfferCreated"@.len());
            assert(n.len() != "BuyerSendingAcceptOfferMessage"@.len());
            assert(n.len() != "BuyerWaitingForSellerToLock"@.len());
            assert(n.len() != "BuyerPostingSecondaryToMultisigAccount"@.len());
            assert(n.len() != "BuyerWaitingForLockConfirmations"@.len());
        },
        StateId::BuyerWaitingForRespondRedeemMessage => {
            let n = "BuyerWaitingForRespondRedeemMessage"@;
            assert(n.len() != "SellerOfferCreated"@.len());
            assert(n.len() != "SellerSendingOffer"@.len());
            assert(n.len() != "SellerWaitingForAcceptanceMessage"@.len());
            assert(n.len() != "SellerWaitingForBuyerLock"@.len());
            assert(n.len() != "SellerPostingLockMwcSlate"@.len());
            assert(n.len() != "SellerWaitingForLockConfirmations"@.len());
            assert(n.len() != "SellerWaitingForInitRedeemMessage"@.len());
            assert(n.len() != "SellerSendingInitRedeemMessage"@.len());
            assert(n.len() != "SellerWaitingForBuyerToRedeemMwc"@.len());
            assert(n.len() != "SellerRedeemSecondaryCurrency"@.len());
            assert(n[0] != "SellerWaitingForRedeemConfirmations"@[0]);
            assert(n.len() != "SellerSwapComplete"@.len());
            assert(n.len() != "SellerWaitingForRefundHeight"@.len());
            assert(n.len() != "SellerPostingRefundSlate"@.len());
            assert(n[0] != "SellerWaitingForRefundConfirmations"@[0]);
            assert(n.len() != "SellerCancelledRefunded"@.len());
            assert(n.len() != "SellerCancelled"@.len());
            assert(n.len() != "BuyerOfferCreated"@.len());
            assert(n.len() != "BuyerSendingAcceptOfferMessage"@.len());
            assert(n.len() != "BuyerWaitingForSellerToLock"@.len());
            assert(n.len() != "BuyerPostingSecondaryToMultisigAccount"@.len());
            assert(n.len() != "BuyerWaitingForLockConfirmations"@.len());
            assert(n.len() != "BuyerSendingInitRedeemMessage"@.len());
        },
        StateId::BuyerRedeemMwc => {
            let n = "BuyerRedeemMwc"@;
            assert(n.len() != "SellerOfferCreated"@.len());
            assert(n.len() != "SellerSendingOffer"@.len());
            assert(n.len() != "SellerWaitingForAcceptanceMessage"@.len());
            assert(n.len() != "SellerWaitingForBuyerLock"@.len());
            assert(n.len() != "SellerPostingLockMwcSlate"@.len());
            assert(n.len() != "SellerWaitingForLockConfirmations"@.len());
            assert(n.len() != "SellerWaitingForInitRedeemMessage"@.len());
            assert(n.len() != "SellerSendingInitRedeemMessage"@.len());
            assert(n.len() != "SellerWaitingForBuyerToRedeemMwc"@.len());
            assert(n.len() != "SellerRedeemSecondaryCurrency"@.len());
            assert(n.len() != "SellerWaitingForRedeemConfirmations"@.len());
            assert(n.len() != "SellerSwapComplete"@.len());
            assert(n.len() != "SellerWaitingForRefundHeight"@.len());
            assert(n.len() != "SellerPostingRefundSlate"@.len());
            assert(n.len() != "SellerWaitingForRefundConfirmations"@.len());
            assert(n.len() != "SellerCancelledRefunded"@.len());
            assert(n.len() != "SellerCancelled"@.len());
            assert(n.len() != "BuyerOfferCreated"@.len());
            assert(n.len() != "BuyerSendingAcceptOfferMessage"@.len());
            assert(n.len() != "BuyerWaitingForSellerToLock"@.len());
            assert(n.len() != "BuyerPostingSecondaryToMultisigAccount"@.len());
            assert(n.len() != "BuyerWaitingForLockConfirmations"@.len());
            assert(n.len() != "BuyerSendingInitRedeemMessage"@.len());
            assert(n.len() != "BuyerWaitingForRespondRedeemMessage"@.len());
        },
        StateId::BuyerWaitForRedeemMwcConfirmations => {
            let n = "BuyerWaitForRedeemMwcConfirmations"@;
            assert(n.len() != "SellerOfferCreated"@.len());
            assert(n.len() != "SellerSendingOffer"@.len());
            assert(n.len() != "SellerWaitingForAcceptanceMessage"@.len());
            assert(n.len() != "SellerWaitingForBuyerLock"@.len());
            assert(n.len() != "SellerPostingLockMwcSlate"@.len());
            assert(n.len() != "SellerWaitingForLockConfirmations"@.len());
            assert(n.len() != "SellerWaitingForInitRedeemMessage"@.len());
            assert(n.len() != "SellerSendingInitRedeemMessage"@.len());
            assert(n.len() != "SellerWaitingForBuyerToRedeemMwc"@.len());
            assert(n.len() != "SellerRedeemSecondaryCurrency"@.len());
            assert(n.len() != "SellerWaitingForRedeemConfirmations"@.len());
            assert(n.len() != "SellerSwapComplete"@.len());
            assert(n.len() != "SellerWaitingForRefundHeight"@.len());
            assert(n.len() != "SellerPostingRefundSlate"@.len());
            assert(n.len() != "SellerWaitingForRefundConfirmations"@.len());
            assert(n.len() != "SellerCancelledRefunded"@.len());
            assert(n.len() != "SellerCancelled"@.len());
            assert(n.len() != "BuyerOfferCreated"@.len());
            assert(n.len() != "BuyerSendingAcceptOfferMessage"@.len());
            assert(n.len() != "BuyerWaitingForSellerToLock"@.len());
            assert(n.len() != "BuyerPostingSecondaryToMultisigAccount"@.len());
            assert(n.len() != "BuyerWaitingForLockConfirmations"@.len());
            assert(n.len() != "BuyerSendingInitRedeemMessage"@.len());
            assert(n.len() != "BuyerWaitingForRespondRedeemMessage"@.len());
            assert(n.len() != "BuyerRedeemMwc"@.len());
        },
        StateId::BuyerSwapComplete => {
            let n = "BuyerSwapComplete"@;
            assert(n.len() != "SellerOfferCreated"@.len());
            assert(n.len() != "SellerSendingOffer"@.len());
            assert(n.len() != "SellerWaitingForAcceptanceMessage"@.len());
            assert(n.len() != "SellerWaitingForBuyerLock"@.len());
            assert(n.len() != "SellerPostingLockMwcSlate"@.len());
            assert(n.len() != "SellerWaitingForLockConfirmations"@.len());
            assert(n.len() != "SellerWaitingForInitRedeemMessage"@.len());
            assert(n.len() != "SellerSendingInitRedeemMessage"@.len());
            assert(n.len() != "SellerWaitingForBuyerToRedeemMwc"@.len());
            assert(n.len() != "SellerRedeemSecondaryCurrency"@.len());
            assert(n.len() != "SellerWaitingForRedeemConfirmations"@.len());
            assert(n.len() != "SellerSwapComplete"@.len());
            assert(n.len() != "SellerWaitingForRefundHeight"@.len());
            assert(n.len() != "SellerPostingRefundSlate"@.len());
            assert(n.len() != "SellerWaitingForRefundConfirmations"@.len());
            assert(n.len() != "SellerCancelledRefunded"@.len());
            assert(n.len() != "SellerCancelled"@.len());
            assert(n[5] != "BuyerOfferCreated"@[5]);
            assert(n.len() != "BuyerSendingAcceptOfferMessage"@.len());
            assert(n.len() != "BuyerWaitingForSellerToLock"@.len());
            assert(n.len() != "BuyerPostingSecondaryToMultisigAccount"@.len());
            assert(n.len() != "BuyerWaitingForLockConfirmations"@.len());
            assert(n.len() != "BuyerSendingInitRedeemMessage"@.len());
            assert(n.len() != "BuyerWaitingForRespondRedeemMessage"@.len());
            assert(n.len() != "BuyerRedeemMwc"@.len());
            assert(n.len() != "BuyerWaitForRedeemMwcConfirmations"@.len());
        },
        StateId::BuyerWaitingForRefundTime => {
            let n = "BuyerWaitingForRefundTime"@;
            assert(n.len() != "SellerOfferCreated"@.len());
            assert(n.len() != "SellerSendingOffer"@.len());
            assert(n.len() != "SellerWaitingForAcceptanceMessage"@.len());
            assert(n[0] != "SellerWaitingForBuyerLock"@[0]);
            assert(n[0] != "SellerPostingLockMwcSlate"@[0]);
            assert(n.len() != "SellerWaitingForLockConfirmations"@.len());
            assert(n.len() != "SellerWaitingForInitRedeemMessage"@.len());
            assert(n.len() != "SellerSendingInitRedeemMessage"@.len());
            assert(n.len() != "SellerWaitingForBuyerToRedeemMwc"@.len());
            assert(n.len() != "SellerRedeemSecondaryCurrency"@.len());
            assert(n.len() != "SellerWaitingForRedeemConfirmations"@.len());
            assert(n.len() != "SellerSwapComplete"@.len());
            assert(n.len() != "SellerWaitingForRefundHeight"@.len());
            assert(n.len() != "SellerPostingRefundSlate"@.len());
            assert(n.len() != "SellerWaitingForRefundConfirmations"@.len());
            assert(n.len() != "SellerCancelledRefunded"@.len());
            assert(n.len() != "SellerCancelled"@.len());
            assert(n.len() != "BuyerOfferCreated"@.len());
            assert(n.len() != "BuyerSendingAcceptOfferMessage"@.len());
            assert(n.len() != "BuyerWaitingForSellerToLock"@.len());
            assert(n.len() != "BuyerPostingSecondaryToMultisigAccount"@.len());
            assert(n.len() != "BuyerWaitingForLockConfirmations"@.len());
            assert(n.len() != "BuyerSendingInitRedeemMessage"@.len());
            assert(n.len() != "BuyerWaitingForRespondRedeemMessage"@.len());
            assert(n.len() != "BuyerRedeemMwc"@.len());
            assert(n.len() != "BuyerWaitForRedeemMwcConfirmations"@.len());
            assert(n.len() != "BuyerSwapComplete"@.len());
        },
        StateId::BuyerPostingRefundForSecondary => {
            let n = "BuyerPostingRefundForSecondary"@;
            assert(n.len() != "SellerOfferCreated"@.len());
            assert(n.len() != "SellerSendingOffer"@.len());
            assert(n.len() != "SellerWaitingForAcceptanceMessage"@.len());
            assert(n.len() != "SellerWaitingForBuyerLock"@.len());
            assert(n.len() != "SellerPostingLockMwcSlate"@.len());
            assert(n.len() != "SellerWaitingForLockConfirmations"@.len());
            assert(n.len() != "SellerWaitingForInitRedeemMessage"@.len());
            assert(n[0] != "SellerSendingInitRedeemMessage"@[0]);
            assert(n.len() != "SellerWaitingForBuyerToRedeemMwc"@.len());
            assert(n.len() != "SellerRedeemSecondaryCurrency"@.len());
            assert(n.len() != "SellerWaitingForRedeemConfirmations"@.len());
            assert(n.len() != "SellerSwapComplete"@.len());
            assert(n.len() != "SellerWaitingForRefundHeight"@.len());
            assert(n.len() != "SellerPostingRefundSlate"@.len());
            assert(n.len() != "SellerWaitingForRefundConfirmations"@.len());
            assert(n.len() != "SellerCancelledRefunded"@.len());
            assert(n.len() != "SellerCancelled"@.len());
            assert(n.len() != "BuyerOfferCreated"@.len());
            assert(n[5] != "BuyerSendingAcceptOfferMessage"@[5]);
            assert(n.len() != "BuyerWaitingForSellerToLock"@.len());
            assert(n.len() != "BuyerPostingSecondaryToMultisigAccount"@.len());
            assert(n.len() != "BuyerWaitingForLockConfirmations"@.len());
            assert(n.len() != "BuyerSendingInitRedeemMessage"@.len());
            assert(n.len() != "BuyerWaitingForRespondRedeemMessage"@.len());
            assert(n.len() != "BuyerRedeemMwc"@.len());
            assert(n.len() != "BuyerWaitForRedeemMwcConfirmations"@.len());
            assert(n.len() != "BuyerSwapComplete"@.len());
            assert(n.len() != "BuyerWaitingForRefundTime"@.len());
        },
        StateId::BuyerWaitingForRefundConfirmations => {
            let n = "BuyerWaitingForRefundConfirmations"@;
            assert(n.len() != "SellerOfferCreated"@.len());
            assert(n.len() != "SellerSendingOffer"@.len());
            assert(n.len() != "SellerWaitingForAcceptanceMessage"@.len());
            assert(n.len() != "SellerWaitingForBuyerLock"@.len());
            assert(n.len() != "SellerPostingLockMwcSlate"@.len());
            assert(n.len() != "SellerWaitingForLockConfirmations"@.len());
            assert(n.len() != "SellerWaitingForInitRedeemMessage"@.len());
            assert(n.len() != "SellerSendingInitRedeemMessage"@.len());
            assert(n.len() != "SellerWaitingForBuyerToRedeemMwc"@.len());
            assert(n.len() != "SellerRedeemSecondaryCurrency"@.len());
            assert(n.len() != "SellerWaitingForRedeemConfirmations"@.len());
            assert(n.len() != "SellerSwapComplete"@.len());
            assert(n.len() != "SellerWaitingForRefundHeight"@.len());
            assert(n.len() != "SellerPostingRefundSlate"@.len());
            assert(n.len() != "SellerWaitingForRefundConfirmations"@.len());
            assert(n.len() != "SellerCancelledRefunded"@.len());
            assert(n.len() != "SellerCancelled"@.len());
            assert(n.len() != "BuyerOfferCreated"@.len());
            assert(n.len() != "BuyerSendingAcceptOfferMessage"@.len());
            assert(n.len() != "BuyerWaitingForSellerToLock"@.len());
            assert(n.len() != "BuyerPostingSecondaryToMultisigAccount"@.len());
            assert(n.len() != "BuyerWaitingForLockConfirmations"@.len());
            assert(n.len() != "BuyerSendingInitRedeemMessage"@.len());
            assert(n.len() != "BuyerWaitingForRespondRedeemMessage"@.len());
            assert(n.len() != "BuyerRedeemMwc"@.len());
            assert(n[9] != "BuyerWaitForRedeemMwcConfirmations"@[9]);
            assert(n.len() != "BuyerSwapComplete"@.len());
            assert(n.len() != "BuyerWaitingForRefundTime"@.len());
            assert(n.len() != "BuyerPostingRefundForSecondary"@.len());
        },
        StateId::BuyerCancelledRefunded => {
            let n = "BuyerCancelledRefunded"@;
            assert(n.len() != "SellerOfferCreated"@.len());
            assert(n.len() != "SellerSendingOffer"@.len());
            assert(n.len() != "SellerWaitingForAcceptanceMessage"@.len());
            assert(n.len() != "SellerWaitingForBuyerLock"@.len());
            assert(n.len() != "SellerPostingLockMwcSlate"@.len());
            assert(n.len() != "SellerWaitingForLockConfirmations"@.len());
            assert(n.len() != "SellerWaitingForInitRedeemMessage"@.len());
            assert(n.len() != "SellerSendingInitRedeemMessage"@.len());
            assert(n.len() != "SellerWaitingForBuyerToRedeemMwc"@.len());
            assert(n.len() != "SellerRedeemSecondaryCurrency"@.len());
            assert(n.len() != "SellerWaitingForRedeemConfirmations"@.len());
            assert(n.len() != "SellerSwapComplete"@.len());
            assert(n.len() != "SellerWaitingForRefundHeight"@.len());
            assert(n.len() != "SellerPostingRefundSlate"@.len());
            assert(n.len() != "SellerWaitingForRefundConfirmations"@.len());
            assert(n.len() != "SellerCancelledRefunded"@.len());
            assert(n.len() != "SellerCancelled"@.len());
            assert(n.len() != "BuyerOfferCreated"@.len());
            assert(n.len() != "BuyerSendingAcceptOfferMessage"@.len());
            assert(n.len() != "BuyerWaitingForSellerToLock"@.len());
            assert(n.len() != "BuyerPostingSecondaryToMultisigAccount"@.len());
            assert(n.len() != "BuyerWaitingForLockConfirmations"@.len());
            assert(n.len() != "BuyerSendingInitRedeemMessage"@.len());
            assert(n.len() != "BuyerWaitingForRespondRedeemMessage"@.len());
            assert(n.len() != "BuyerRedeemMwc"@.len());
            assert(n.len() != "BuyerWaitForRedeemMwcConfirmations"@.len());
            assert(n.len() != "BuyerSwapComplete"@.len());
            assert(n.len() != "BuyerWaitingForRefundTime"@.len());
            assert(n.len() != "BuyerPostingRefundForSecondary"@.len());
            assert(n.len() != "BuyerWaitingForRefundConfirmations"@.len());
        },
        StateId::BuyerCancelled => {
            let n = "BuyerCancelled"@;
            assert(n.len() != "SellerOfferCreated"@.len());
            assert(n.len() != "SellerSendingOffer"@.len());
            assert(n.len() != "SellerWaitingForAcceptanceMessage"@.len());
            assert(n.len() != "SellerWaitingForBuyerLock"@.len());
            assert(n.len() != "SellerPostingLockMwcSlate"@.len());
            assert(n.len() != "SellerWaitingForLockConfirmations"@.len());
            assert(n.len() != "SellerWaitingForInitRedeemMessage"@.len());
            assert(n.len() != "SellerSendingInitRedeemMessage"@.len());
            assert(n.len() != "SellerWaitingForBuyerToRedeemMwc"@.len());
            assert(n.len() != "SellerRedeemSecondaryCurrency"@.len());
            assert(n.len() != "SellerWaitingForRedeemConfirmations"@.len());
            assert(n.len() != "SellerSwapComplete"@.len());
            assert(n.len() != "SellerWaitingForRefundHeight"@.len());
            assert(n.len() != "SellerPostingRefundSlate"@.len());
            assert(n.len() != "SellerWaitingForRefundConfirmations"@.len());
            assert(n.len() != "SellerCancelledRefunded"@.len());
            assert(n.len() != "SellerCancelled"@.len());
            assert(n.len() != "BuyerOfferCreated"@.len());
            assert(n.len() != "BuyerSendingAcceptOfferMessage"@.len());
            assert(n.len() != "BuyerWaitingForSellerToLock"@.len());
            assert(n.len() != "BuyerPostingSecondaryToMultisigAccount"@.len());
            assert(n.len() != "BuyerWaitingForLockConfirmations"@.len());
            assert(n.len() != "BuyerSendingInitRedeemMessage"@.len());
            assert(n.len() != "BuyerWaitingForRespondRedeemMessage"@.len());
            assert(n[5] != "BuyerRedeemMwc"@[5]);
            assert(n.len() != "BuyerWaitForRedeemMwcConfirmations"@.len());
            assert(n.len() != "BuyerSwapComplete"@.len());
            assert(n.len() != "BuyerWaitingForRefundTime"@.len());
            assert(n.len() != "BuyerPostingRefundForSecondary"@.len());
            assert(n.len() != "BuyerWaitingForRefundConfirmations"@.len());
            assert(n.len() != "BuyerCancelledRefunded"@.len());
        },
    }
}

} // verus!
