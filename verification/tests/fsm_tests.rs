use mwc_swap::error::{ErrorCode, ErrorKind};
use mwc_swap::fsm::machine::{
    buyer_machine, cancel, check, classify_message, execute, note_action, seller_machine,
    MessagePhase, StateMachine,
};
use mwc_swap::fsm::state::{Action, Input, StateId};
use mwc_swap::message::{
    accept_offer_message, init_redeem_message, offer_message, redeem_message, AcceptOfferUpdate,
    BtcUpdate, InitRedeemUpdate, Message, MessageKind, RedeemUpdate, SecondaryUpdate, Update,
};
use mwc_swap::swap::{are_terms_valid, BtcData, SecondaryData, Slate, Swap};
use mwc_swap::types::{
    BtcBuyerContext, BtcSellerContext, BuyerContext, Commitment, Context, Currency, KeyId,
    Network, PublicKey, Role, RoleContext, SecondaryBuyerContext, SecondarySellerContext,
    SecretNonce, SellerContext, Signature, SwapTransactionsConfirmations,
};

const START: i64 = 1_600_000_000;

fn slate(id: &str, kernel: u8) -> Slate {
    let mut bytes = [0u8; 33];
    bytes[0] = kernel;
    Slate {
        id: id.to_string(),
        amount: 1_000,
        fee: 1,
        height: 100,
        lock_height: 0,
        kernel: Some(Commitment { bytes }),
        outputs: vec![Commitment { bytes: [9; 33] }],
        seller_signature: Some(Signature { bytes: [1; 64] }),
        buyer_signature: None,
    }
}

fn trade(role: Role, state: StateId) -> Swap {
    let mut refund_slate = slate("refund", 2);
    refund_slate.lock_height = 220;
    Swap {
        id: "trade".to_string(),
        role,
        state,
        network: Network::Floonet,
        primary_amount: 1_000,
        secondary_amount: 500,
        secondary_currency: Currency::Btc,
        mwc_confirmations: 3,
        secondary_confirmations: 2,
        message_exchange_time_sec: 3600,
        redeem_time_sec: 3600,
        seller_lock_first: true,
        started: START,
        secondary_redeem_address: Some("132F25rTsvBdp9JzLLBHP5mvGY66i1xdiM".to_string()),
        secondary_refund_address: None,
        lock_slate: slate("lock", 1),
        redeem_slate: Slate::blank(),
        refund_slate,
        secondary_data: SecondaryData::Btc(BtcData {
            cosign: PublicKey { bytes: [2; 33] },
            refund: None,
            redeem_tx: None,
            refund_tx: None,
        }),
        redeem_public: None,
        adaptor_signature: None,
        last_check_error: None,
        journal: Vec::new(),
    }
}

fn key(n: u8) -> KeyId {
    KeyId { bytes: [n; 17] }
}

fn nonce(n: u8) -> SecretNonce {
    SecretNonce { bytes: [n; 32] }
}

fn context(role: Role) -> Context {
    Context {
        multisig_key: key(0),
        multisig_nonce: nonce(1),
        lock_nonce: nonce(2),
        refund_nonce: nonce(3),
        redeem_nonce: nonce(4),
        role_context: match role {
            Role::Seller => RoleContext::Seller(SellerContext {
                inputs: vec![(key(1), None, 2_000)],
                change_output: key(2),
                change_amount: 999,
                refund_output: key(3),
                secondary_context: SecondarySellerContext::Btc(BtcSellerContext { cosign: key(4) }),
            }),
            Role::Buyer => RoleContext::Buyer(BuyerContext {
                output: key(1),
                redeem: key(2),
                secondary_context: SecondaryBuyerContext::Btc(BtcBuyerContext { refund: key(3) }),
            }),
        },
    }
}

fn quiet() -> SwapTransactionsConfirmations {
    SwapTransactionsConfirmations {
        mwc_tip: 100,
        mwc_lock_conf: None,
        mwc_redeem_conf: None,
        mwc_refund_conf: None,
        secondary_tip: 500,
        secondary_lock_conf: None,
        secondary_lock_amount: 0,
        secondary_redeem_conf: None,
        secondary_refund_conf: None,
    }
}

fn locked() -> SwapTransactionsConfirmations {
    SwapTransactionsConfirmations {
        mwc_lock_conf: Some(3),
        secondary_lock_conf: Some(2),
        secondary_lock_amount: 500,
        ..quiet()
    }
}

fn accept_message() -> Message {
    Message {
        id: "trade".to_string(),
        inner: Update::AcceptOffer(AcceptOfferUpdate {
            redeem_public: PublicKey { bytes: [3; 33] },
            lock_signature: Signature { bytes: [4; 64] },
            refund_signature: Signature { bytes: [5; 64] },
        }),
        secondary_update: SecondaryUpdate::BTC(BtcUpdate::AcceptOffer(PublicKey {
            bytes: [6; 33],
        })),
    }
}

fn init_redeem() -> Message {
    let mut redeem = slate("redeem", 0);
    redeem.seller_signature = None;
    redeem.buyer_signature = Some(Signature { bytes: [7; 64] });
    Message {
        id: "trade".to_string(),
        inner: Update::InitRedeem(InitRedeemUpdate { redeem_slate: redeem }),
        secondary_update: SecondaryUpdate::Empty,
    }
}

fn redeem() -> Message {
    Message {
        id: "trade".to_string(),
        inner: Update::Redeem(RedeemUpdate { adaptor_signature: Signature { bytes: [8; 64] } }),
        secondary_update: SecondaryUpdate::Empty,
    }
}

#[test]
fn timing_rules_give_the_documented_deadlines() {
    let swap = trade(Role::Seller, StateId::SellerOfferCreated);
    assert_eq!(swap.get_time_message_offers(), (START + 3600) as i128);
    assert_eq!(swap.get_time_mwc_refund(), (START + 7200) as i128);
    assert_eq!(swap.get_time_btc_lock(), (START + 3600 + 2 * 3600 + 3600) as i128);
    assert_eq!(swap.get_time_buyer_redeem_limit(), (START + 3600) as i128);
    assert_eq!(swap.get_time_seller_redeem_limit(), (START + 10_800) as i128);
    let mut odd = trade(Role::Seller, StateId::SellerOfferCreated);
    odd.message_exchange_time_sec = 100;
    odd.redeem_time_sec = 150;
    // 250 seconds take five blocks of 60 seconds.
    assert_eq!(odd.get_time_mwc_refund(), (START + 300) as i128);
    assert_eq!(odd.get_time_btc_lock(), (START + 100 + 300 + 3600) as i128);
}

#[test]
fn secondary_lock_is_later_than_primary_refund_plus_margin_in_valid_offers() {
    for (mx, r) in [(3600u64, 3600u64), (100, 150), (30, 30), (60, 60), (1, 60), (59, 1000)] {
        let mut swap = trade(Role::Seller, StateId::SellerOfferCreated);
        swap.message_exchange_time_sec = mx;
        swap.redeem_time_sec = r;
        assert!(swap.is_offer_valid(), "{} {}", mx, r);
        assert!(swap.get_time_btc_lock() > swap.get_time_mwc_refund() + 3600);
    }
}

#[test]
fn offers_with_bad_terms_are_not_valid() {
    assert!(are_terms_valid(1, 1, 3600, 3600));
    assert!(are_terms_valid(1, 1, u64::MAX / 4, u64::MAX / 4));
    // A redeem span shorter than the message exchange.
    assert!(!are_terms_valid(1, 1, 3600, 3599));
    // Spans that the block of the refund height outlasts.
    assert!(!are_terms_valid(1, 1, 1, 1));
    assert!(!are_terms_valid(1, 1, 10, 20));
    assert!(!are_terms_valid(1, 1, 20, 20));
    assert!(are_terms_valid(1, 1, 21, 20 + 1));
    // No amount, or no time for the message exchange.
    assert!(!are_terms_valid(0, 1, 3600, 3600));
    assert!(!are_terms_valid(1, 0, 3600, 3600));
    assert!(!are_terms_valid(1, 1, 0, 3600));
}

#[test]
fn check_is_idempotent_once_the_trade_rests() {
    let fsm = seller_machine();
    let ctx = context(Role::Seller);
    let mut swap = trade(Role::Seller, StateId::SellerWaitingForAcceptanceMessage);
    swap.redeem_public = Some(PublicKey { bytes: [3; 33] });
    let conf = SwapTransactionsConfirmations { mwc_lock_conf: Some(1), ..quiet() };
    let first = fsm.process(Input::Check, &mut swap, &ctx, &conf, START + 5).unwrap();
    assert_eq!(first.next_state_id, StateId::SellerWaitingForLockConfirmations);
    let rested = swap.duplicate();
    for _ in 0..3 {
        let again = fsm.process(Input::Check, &mut swap, &ctx, &conf, START + 5).unwrap();
        assert_eq!(again, first);
        assert_eq!(swap, rested);
    }
}

#[test]
fn cancel_fails_in_states_that_are_not_cancellable() {
    let seller = seller_machine();
    for state in [
        StateId::SellerWaitingForBuyerToRedeemMwc,
        StateId::SellerRedeemSecondaryCurrency,
        StateId::SellerWaitingForRedeemConfirmations,
        StateId::SellerSwapComplete,
        StateId::SellerWaitingForRefundHeight,
        StateId::SellerPostingRefundSlate,
        StateId::SellerWaitingForRefundConfirmations,
        StateId::SellerCancelledRefunded,
        StateId::SellerCancelled,
    ] {
        assert!(!state.is_cancellable());
        let mut swap = trade(Role::Seller, state);
        let before = swap.duplicate();
        let r = seller.process(Input::Cancel, &mut swap, &context(Role::Seller), &locked(), START);
        assert!(matches!(r, Err(ErrorKind::NotCancellable)), "{:?}", state);
        assert_eq!(swap, before);
    }
    let buyer = buyer_machine();
    for state in [
        StateId::BuyerRedeemMwc,
        StateId::BuyerWaitForRedeemMwcConfirmations,
        StateId::BuyerSwapComplete,
        StateId::BuyerWaitingForRefundTime,
        StateId::BuyerPostingRefundForSecondary,
        StateId::BuyerWaitingForRefundConfirmations,
        StateId::BuyerCancelledRefunded,
        StateId::BuyerCancelled,
    ] {
        let mut swap = trade(Role::Buyer, state);
        let before = swap.duplicate();
        let r = buyer.process(Input::Cancel, &mut swap, &context(Role::Buyer), &locked(), START);
        assert!(matches!(r, Err(ErrorKind::NotCancellable)), "{:?}", state);
        assert_eq!(swap, before);
    }
}

#[test]
fn cancel_leads_to_the_plain_end_or_to_the_refund_path() {
    assert_eq!(cancel(StateId::SellerSendingOffer).unwrap(), StateId::SellerCancelled);
    assert_eq!(cancel(StateId::SellerPostingLockMwcSlate).unwrap(), StateId::SellerCancelled);
    assert_eq!(
        cancel(StateId::SellerWaitingForLockConfirmations).unwrap(),
        StateId::SellerWaitingForRefundHeight
    );
    assert_eq!(
        cancel(StateId::SellerSendingInitRedeemMessage).unwrap(),
        StateId::SellerWaitingForRefundHeight
    );
    assert_eq!(cancel(StateId::BuyerWaitingForSellerToLock).unwrap(), StateId::BuyerCancelled);
    assert_eq!(
        cancel(StateId::BuyerWaitingForRespondRedeemMessage).unwrap(),
        StateId::BuyerWaitingForRefundTime
    );
    // A cancelled seller whose lock is on chain waits for the refund height.
    let fsm = seller_machine();
    let mut swap = trade(Role::Seller, StateId::SellerWaitingForInitRedeemMessage);
    let r = fsm.process(Input::Cancel, &mut swap, &context(Role::Seller), &locked(), START).unwrap();
    assert_eq!(r.next_state_id, StateId::SellerWaitingForRefundHeight);
    assert_eq!(r.action, None);
    assert_eq!(r.time_limit, Some(START + 7200));
    assert_eq!(swap.state, StateId::SellerWaitingForRefundHeight);
}

#[test]
fn duplicate_message_is_ignored() {
    let fsm = seller_machine();
    let ctx = context(Role::Seller);
    let mut swap = trade(Role::Seller, StateId::SellerWaitingForAcceptanceMessage);
    let r = fsm
        .process(Input::IncomeMessage(accept_message()), &mut swap, &ctx, &quiet(), START + 1)
        .unwrap();
    assert_eq!(r.next_state_id, StateId::SellerPostingLockMwcSlate);
    assert_eq!(r.action, Some(Action::SellerPublishMwcLockTx));
    assert_eq!(r.journal_message, None);
    assert_eq!(swap.redeem_public, Some(PublicKey { bytes: [3; 33] }));
    assert_eq!(swap.lock_slate.buyer_signature, Some(Signature { bytes: [4; 64] }));
    assert_eq!(swap.refund_slate.buyer_signature, Some(Signature { bytes: [5; 64] }));
    match swap.secondary_data {
        SecondaryData::Btc(d) => assert_eq!(d.refund, Some(PublicKey { bytes: [6; 33] })),
        SecondaryData::Empty => panic!("no BTC data"),
    }
    let consumed = swap.duplicate();
    assert_eq!(classify_message(&swap, MessageKind::AcceptOffer), MessagePhase::Duplicate);
    let r = fsm
        .process(Input::IncomeMessage(accept_message()), &mut swap, &ctx, &quiet(), START + 2)
        .unwrap();
    assert_eq!(r.next_state_id, StateId::SellerPostingLockMwcSlate);
    assert_eq!(r.action, None);
    assert_eq!(r.journal_message, Some("duplicate message".to_string()));
    assert_eq!(swap, consumed);
}

#[test]
fn message_out_of_order_or_too_late_is_refused() {
    let fsm = seller_machine();
    let ctx = context(Role::Seller);
    let mut swap = trade(Role::Seller, StateId::SellerWaitingForAcceptanceMessage);
    let before = swap.duplicate();
    let r = fsm.process(Input::IncomeMessage(init_redeem()), &mut swap, &ctx, &quiet(), START);
    assert!(matches!(r, Err(ErrorKind::UnexpectedMessageType(_))));
    assert_eq!(swap, before);
    let r = fsm.process(Input::IncomeMessage(redeem()), &mut swap, &ctx, &quiet(), START);
    assert!(matches!(r, Err(ErrorKind::UnexpectedMessageType(_))));
    assert_eq!(swap, before);
    let mut early = trade(Role::Seller, StateId::SellerSendingOffer);
    let r = fsm.process(Input::IncomeMessage(accept_message()), &mut early, &ctx, &quiet(), START);
    assert!(matches!(r, Err(ErrorKind::UnexpectedMessageType(_))));
    assert_eq!(early.state, StateId::SellerSendingOffer);
    let mut done = trade(Role::Seller, StateId::SellerSwapComplete);
    let r = fsm.process(Input::IncomeMessage(accept_message()), &mut done, &ctx, &quiet(), START);
    assert!(matches!(r, Err(ErrorKind::StateMismatch(_))));
    let mut other = accept_message();
    other.id = "another trade".to_string();
    let r = fsm.process(Input::IncomeMessage(other), &mut swap, &ctx, &quiet(), START);
    assert!(matches!(r, Err(ErrorKind::Generic(_))));
    // An acceptance without the buyer's refund key.
    let mut bare = accept_message();
    bare.secondary_update = SecondaryUpdate::Empty;
    let r = fsm.process(Input::IncomeMessage(bare), &mut swap, &ctx, &quiet(), START);
    assert!(matches!(r, Err(ErrorKind::UnexpectedMessageType(_))));
    assert_eq!(swap, before);
}

#[test]
fn failed_settling_leaves_the_trade_as_it_was() {
    // The seller has no adaptor signature, so it cannot answer the message that opens the redeem.
    let fsm = seller_machine();
    let ctx = context(Role::Seller);
    let mut swap = trade(Role::Seller, StateId::SellerWaitingForInitRedeemMessage);
    let before = swap.duplicate();
    let r = fsm.process(Input::IncomeMessage(init_redeem()), &mut swap, &ctx, &locked(), START);
    assert!(matches!(r, Err(ErrorKind::UnexpectedAction(_))));
    assert_eq!(swap, before);
    swap.adaptor_signature = Some(Signature { bytes: [8; 64] });
    let r = fsm
        .process(Input::IncomeMessage(init_redeem()), &mut swap, &ctx, &locked(), START)
        .unwrap();
    assert_eq!(r.next_state_id, StateId::SellerSendingInitRedeemMessage);
    assert_eq!(swap.redeem_slate.id, "redeem");
    match r.action {
        Some(Action::SellerSendRedeemMessage(m)) => {
            assert_eq!(m.id, "trade");
            assert_eq!(
                m.inner,
                Update::Redeem(RedeemUpdate { adaptor_signature: Signature { bytes: [8; 64] } })
            );
        }
        other => panic!("unexpected action {:?}", other),
    }
}

#[test]
fn buyer_takes_in_the_redeem_message() {
    let fsm = buyer_machine();
    let ctx = context(Role::Buyer);
    let mut swap = trade(Role::Buyer, StateId::BuyerWaitingForRespondRedeemMessage);
    let r = fsm.process(Input::IncomeMessage(redeem()), &mut swap, &ctx, &locked(), START).unwrap();
    assert_eq!(r.next_state_id, StateId::BuyerRedeemMwc);
    assert_eq!(r.action, Some(Action::BuyerPublishMwcRedeemTx));
    assert_eq!(r.time_limit, Some(START + 3600));
    assert_eq!(swap.adaptor_signature, Some(Signature { bytes: [8; 64] }));
    // At the redeem limit the buyer must not redeem any more.
    let r = fsm.process(Input::Check, &mut swap, &ctx, &locked(), START + 3600).unwrap();
    assert_eq!(r.next_state_id, StateId::BuyerWaitingForRefundTime);
}

#[test]
fn execute_moves_on_only_before_the_deadline() {
    let swap = trade(Role::Seller, StateId::SellerSendingOffer);
    assert_eq!(
        execute(StateId::SellerSendingOffer, &swap, START + 3599).unwrap(),
        StateId::SellerWaitingForAcceptanceMessage
    );
    assert!(matches!(
        execute(StateId::SellerSendingOffer, &swap, START + 3600),
        Err(ErrorKind::DeadlinePassed(_))
    ));
    assert_eq!(
        execute(StateId::SellerRedeemSecondaryCurrency, &swap, START + 10_799).unwrap(),
        StateId::SellerWaitingForRedeemConfirmations
    );
    assert!(matches!(
        execute(StateId::SellerRedeemSecondaryCurrency, &swap, START + 10_800),
        Err(ErrorKind::DeadlinePassed(_))
    ));
    assert!(matches!(
        execute(StateId::BuyerRedeemMwc, &swap, START + 3600),
        Err(ErrorKind::DeadlinePassed(_))
    ));
    assert_eq!(
        execute(StateId::SellerPostingRefundSlate, &swap, i64::MAX).unwrap(),
        StateId::SellerWaitingForRefundConfirmations
    );
    assert!(matches!(
        execute(StateId::SellerWaitingForAcceptanceMessage, &swap, START),
        Err(ErrorKind::InvalidSwapStateInput(_))
    ));
}

#[test]
fn machine_refuses_states_and_material_of_the_other_party() {
    let seller = seller_machine();
    let mut swap = trade(Role::Seller, StateId::BuyerOfferCreated);
    let r = seller.process(Input::Check, &mut swap, &context(Role::Seller), &quiet(), START);
    assert!(matches!(r, Err(ErrorKind::SwapStateMachineError(_))));
    assert!(matches!(seller.is_cancellable(&swap), Err(ErrorKind::SwapStateMachineError(_))));
    let mut swap = trade(Role::Seller, StateId::SellerOfferCreated);
    let r = seller.process(Input::Check, &mut swap, &context(Role::Buyer), &quiet(), START);
    assert!(matches!(r, Err(ErrorKind::UnexpectedRole(_))));
    assert_eq!(seller.is_cancellable(&swap).unwrap(), true);
    assert!(seller.has_state(&StateId::SellerCancelled));
    assert!(!seller.has_state(&StateId::BuyerCancelled));
    assert_eq!(seller.states.len(), 17);
    assert_eq!(buyer_machine().states.len(), 15);
    let small = StateMachine::new(vec![StateId::SellerOfferCreated]);
    let r = small.process(Input::Check, &mut swap, &context(Role::Seller), &quiet(), START);
    assert!(matches!(r, Err(ErrorKind::SwapStateMachineError(_))));
    assert_eq!(swap.state, StateId::SellerOfferCreated);
    assert!(matches!(
        check(StateId::BuyerOfferCreated, &swap, &quiet(), START)
            .map(|r| r.next_state_id),
        Ok(StateId::BuyerSendingAcceptOfferMessage)
    ));
}

#[test]
fn seller_offer_answer_carries_the_terms() {
    let fsm = seller_machine();
    let mut swap = trade(Role::Seller, StateId::SellerOfferCreated);
    let r = fsm.process(Input::Check, &mut swap, &context(Role::Seller), &quiet(), START).unwrap();
    assert_eq!(r.next_state_id, StateId::SellerSendingOffer);
    assert_eq!(r.time_limit, Some(START + 3600));
    match r.action {
        Some(Action::SellerSendOfferMessage(m)) => {
            assert_eq!(m.id, "trade");
            assert_eq!(
                m.secondary_update,
                SecondaryUpdate::BTC(BtcUpdate::Offer(PublicKey { bytes: [2; 33] }))
            );
            match m.inner {
                Update::Offer(o) => {
                    assert_eq!(o.primary_amount, 1_000);
                    assert_eq!(o.secondary_amount, 500);
                    assert_eq!(o.start_time, START);
                    assert_eq!(o.lock_slate, swap.lock_slate);
                    assert_eq!(o.refund_slate, swap.refund_slate);
                }
                other => panic!("unexpected update {:?}", other),
            }
        }
        other => panic!("unexpected action {:?}", other),
    }
    // At the deadline nothing is sent any more.
    let mut late = trade(Role::Seller, StateId::SellerOfferCreated);
    let r = fsm
        .process(Input::Check, &mut late, &context(Role::Seller), &quiet(), START + 3600)
        .unwrap();
    assert_eq!(r.next_state_id, StateId::SellerCancelled);
    assert_eq!(r.action, None);
}

#[test]
fn message_builders_fail_where_a_piece_is_missing() {
    let seller = trade(Role::Seller, StateId::SellerOfferCreated);
    let buyer = trade(Role::Buyer, StateId::BuyerOfferCreated);
    assert!(matches!(offer_message(&buyer), Err(ErrorKind::UnexpectedRole(_))));
    let mut bare = trade(Role::Seller, StateId::SellerOfferCreated);
    bare.secondary_data = SecondaryData::Empty;
    assert!(matches!(offer_message(&bare), Err(ErrorKind::UnexpectedCoinType)));
    assert!(matches!(accept_offer_message(&seller), Err(ErrorKind::UnexpectedRole(_))));
    assert!(matches!(accept_offer_message(&buyer), Err(ErrorKind::UnexpectedAction(_))));
    assert!(matches!(init_redeem_message(&seller), Err(ErrorKind::UnexpectedRole(_))));
    assert!(matches!(init_redeem_message(&buyer), Err(ErrorKind::UnexpectedAction(_))));
    assert!(matches!(redeem_message(&buyer), Err(ErrorKind::UnexpectedRole(_))));
    assert!(matches!(redeem_message(&seller), Err(ErrorKind::UnexpectedAction(_))));
    assert_eq!(ErrorKind::OneShot("x".to_string()).code(), ErrorCode::OneShot);
    assert_eq!(ErrorKind::NotCancellable.code(), ErrorCode::NotCancellable);
}

#[test]
fn signatures_that_are_there_are_never_replaced() {
    let fsm = seller_machine();
    let ctx = context(Role::Seller);
    let mut swap = trade(Role::Seller, StateId::SellerWaitingForAcceptanceMessage);
    swap.lock_slate.buyer_signature = Some(Signature { bytes: [0x44; 64] });
    fsm.process(Input::IncomeMessage(accept_message()), &mut swap, &ctx, &quiet(), START).unwrap();
    assert_eq!(swap.lock_slate.buyer_signature, Some(Signature { bytes: [0x44; 64] }));
    assert_eq!(swap.lock_slate.seller_signature, Some(Signature { bytes: [1; 64] }));
    assert_eq!(swap.refund_slate.buyer_signature, Some(Signature { bytes: [5; 64] }));
    assert!(swap.lock_slate.is_signed());
    assert!(!swap.redeem_slate.is_signed());
    // A second message that opens the redeem does not replace the redeem slate.
    let mut swap = trade(Role::Seller, StateId::SellerWaitingForInitRedeemMessage);
    swap.adaptor_signature = Some(Signature { bytes: [8; 64] });
    fsm.process(Input::IncomeMessage(init_redeem()), &mut swap, &ctx, &locked(), START).unwrap();
    let held = swap.redeem_slate.duplicate();
    let mut other = init_redeem();
    if let Update::InitRedeem(u) = &mut other.inner {
        u.redeem_slate.id = "another redeem".to_string();
    }
    let r = fsm.process(Input::IncomeMessage(other), &mut swap, &ctx, &locked(), START).unwrap();
    assert_eq!(r.journal_message, Some("duplicate message".to_string()));
    assert_eq!(swap.redeem_slate, held);
}

#[test]
fn errors_have_their_texts() {
    assert_eq!(
        ErrorKind::TradeIoError("abc".to_string(), "gone".to_string()).to_string(),
        "Swap trade abc IO error, gone"
    );
    assert_eq!(ErrorKind::UnexpectedRole("x".to_string()).to_string(), "Unexpected role, x");
    assert_eq!(ErrorKind::UnexpectedCoinType.to_string(), "Unexpected coin type");
    assert_eq!(
        ErrorKind::UnexpectedMessageType("x".to_string()).to_string(),
        "Unexpected message type, x"
    );
    assert_eq!(ErrorKind::UnexpectedAction("x".to_string()).to_string(), "Unexpected action, x");
    assert_eq!(
        ErrorKind::OneShot("x".to_string()).to_string(),
        "This function should only be called once, x"
    );
    assert_eq!(ErrorKind::InvalidAddress("x".to_string()).to_string(), "Invalid address, x");
    assert_eq!(ErrorKind::InvalidAmount("x".to_string()).to_string(), "Invalid amount, x");
    assert_eq!(ErrorKind::NotEnoughFunds("x".to_string()).to_string(), "Not enough funds, x");
    assert_eq!(
        ErrorKind::NodeError("btc".to_string(), "down".to_string()).to_string(),
        "btc node error, down"
    );
    assert_eq!(ErrorKind::InvalidCurrency("xyz".to_string()).to_string(), "Unknown currency xyz");
    assert_eq!(
        ErrorKind::InvalidSwapStateInput("x".to_string()).to_string(),
        "Invalid input for the state, x"
    );
    assert_eq!(
        ErrorKind::SwapStateMachineError("x".to_string()).to_string(),
        "Swap state machine error, x"
    );
    assert_eq!(ErrorKind::StateMismatch("x".to_string()).to_string(), "State mismatch, x");
    assert_eq!(ErrorKind::NotCancellable.to_string(), "The trade is not cancellable");
    assert_eq!(ErrorKind::DeadlinePassed("x".to_string()).to_string(), "Deadline passed, x");
    assert_eq!(ErrorKind::Secp("x".to_string()).to_string(), "Secp error, x");
    assert_eq!(ErrorKind::Generic("just this".to_string()).to_string(), "just this");
}

#[test]
fn amounts_are_written_in_coins() {
    let btc = Currency::Btc;
    assert_eq!(btc.amount_to_hr_string(100_000, true), "0.001");
    assert_eq!(btc.amount_to_hr_string(100_000, false), "0.00100000");
    assert_eq!(btc.amount_to_hr_string(100_000_000, true), "1.0");
    assert_eq!(btc.amount_to_hr_string(100_000_000, false), "1.00000000");
    assert_eq!(btc.amount_to_hr_string(0, true), "0.0");
    assert_eq!(btc.amount_to_hr_string(1, true), "0.00000001");
    assert_eq!(btc.amount_to_hr_string(123_456_789_012, true), "1234.56789012");
    assert_eq!(btc.amount_to_hr_string(2_050_000_000, true), "20.5");
    assert_eq!(btc.amount_to_hr_string(u64::MAX, false), "184467440737.09551615");
}

#[test]
fn state_names_round_trip() {
    let all = [
        StateId::SellerOfferCreated,
        StateId::SellerSendingOffer,
        StateId::SellerWaitingForAcceptanceMessage,
        StateId::SellerWaitingForBuyerLock,
        StateId::SellerPostingLockMwcSlate,
        StateId::SellerWaitingForLockConfirmations,
        StateId::SellerWaitingForInitRedeemMessage,
        StateId::SellerSendingInitRedeemMessage,
        StateId::SellerWaitingForBuyerToRedeemMwc,
        StateId::SellerRedeemSecondaryCurrency,
        StateId::SellerWaitingForRedeemConfirmations,
        StateId::SellerSwapComplete,
        StateId::SellerWaitingForRefundHeight,
        StateId::SellerPostingRefundSlate,
        StateId::SellerWaitingForRefundConfirmations,
        StateId::SellerCancelledRefunded,
        StateId::SellerCancelled,
        StateId::BuyerOfferCreated,
        StateId::BuyerSendingAcceptOfferMessage,
        StateId::BuyerWaitingForSellerToLock,
        StateId::BuyerPostingSecondaryToMultisigAccount,
        StateId::BuyerWaitingForLockConfirmations,
        StateId::BuyerSendingInitRedeemMessage,
        StateId::BuyerWaitingForRespondRedeemMessage,
        StateId::BuyerRedeemMwc,
        StateId::BuyerWaitForRedeemMwcConfirmations,
        StateId::BuyerSwapComplete,
        StateId::BuyerWaitingForRefundTime,
        StateId::BuyerPostingRefundForSecondary,
        StateId::BuyerWaitingForRefundConfirmations,
        StateId::BuyerCancelledRefunded,
        StateId::BuyerCancelled,
    ];
    for state in all {
        assert_eq!(StateId::from_cmd_str(&state.to_string()).unwrap(), state);
        assert_eq!(state.is_seller_state(), state.to_string().starts_with("Seller"));
    }
    assert_eq!(StateId::BuyerRedeemMwc.to_string(), "BuyerRedeemMwc");
    match StateId::from_cmd_str("cancel") {
        Err(ErrorKind::Generic(m)) => assert_eq!(m, "Unknown state value cancel"),
        other => panic!("unexpected result {:?}", other),
    }
    assert!(StateId::SellerSwapComplete.is_final());
    assert!(!StateId::SellerWaitingForRefundHeight.is_final());
    assert!(StateId::SellerSendingInitRedeemMessage.is_cancellable());
    assert!(StateId::BuyerWaitingForRespondRedeemMessage.is_cancellable());
}

#[test]
fn currency_tickers() {
    assert_eq!(Currency::try_from_str("btc").unwrap(), Currency::Btc);
    assert_eq!(Currency::try_from_str("zcash").unwrap(), Currency::ZCash);
    assert_eq!(Currency::Doge.ticker(), "doge");
    match Currency::try_from_str("BTC ") {
        Err(ErrorKind::InvalidCurrency(name)) => assert_eq!(name, "BTC "),
        other => panic!("unexpected result {:?}", other),
    }
    assert_eq!(Currency::Btc.default_fee(Network::Floonet), 1_400);
    assert_eq!(Currency::Btc.default_fee(Network::Mainnet), 26_000);
    assert_eq!(Currency::Btc.exponent(), 8);
}

#[test]
fn cancel_goes_through_in_every_cancellable_state() {
    let way_out = [
        StateId::SellerRedeemSecondaryCurrency,
        StateId::SellerWaitingForRedeemConfirmations,
        StateId::SellerSwapComplete,
        StateId::SellerWaitingForRefundHeight,
        StateId::SellerPostingRefundSlate,
        StateId::SellerWaitingForRefundConfirmations,
        StateId::SellerCancelledRefunded,
        StateId::SellerCancelled,
        StateId::BuyerWaitingForRefundTime,
        StateId::BuyerPostingRefundForSecondary,
        StateId::BuyerWaitingForRefundConfirmations,
        StateId::BuyerCancelledRefunded,
        StateId::BuyerCancelled,
    ];
    let confs = [
        quiet(),
        locked(),
        SwapTransactionsConfirmations { mwc_tip: 500, mwc_refund_conf: Some(9), ..locked() },
        SwapTransactionsConfirmations {
            mwc_redeem_conf: Some(1),
            secondary_redeem_conf: Some(0),
            secondary_refund_conf: Some(7),
            ..locked()
        },
    ];
    for now in [START, START + 3600, START + 20_000] {
        for conf in confs.iter() {
            for state in seller_machine().states {
                if !state.is_cancellable() {
                    continue;
                }
                let mut swap = trade(Role::Seller, state);
                let r = seller_machine()
                    .process(Input::Cancel, &mut swap, &context(Role::Seller), conf, now)
                    .unwrap();
                assert!(way_out.contains(&r.next_state_id), "{:?}", state);
                assert_eq!(swap.state, r.next_state_id);
            }
            for state in buyer_machine().states {
                if !state.is_cancellable() {
                    continue;
                }
                let mut swap = trade(Role::Buyer, state);
                let r = buyer_machine()
                    .process(Input::Cancel, &mut swap, &context(Role::Buyer), conf, now)
                    .unwrap();
                assert!(way_out.contains(&r.next_state_id), "{:?}", state);
            }
        }
    }
}

#[test]
fn deadlines_follow_one_another() {
    for (mx, r) in [(3600u64, 3600u64), (1, 1), (59, 1), (61, 7), (1_000_000, 5)] {
        let mut swap = trade(Role::Seller, StateId::SellerOfferCreated);
        swap.message_exchange_time_sec = mx;
        swap.redeem_time_sec = r;
        assert!(swap.get_time_message_offers() <= swap.get_time_buyer_redeem_limit());
        assert!(swap.get_time_buyer_redeem_limit() < swap.get_time_mwc_refund());
        assert!(swap.get_time_mwc_refund() < swap.get_time_seller_redeem_limit());
        assert!(swap.get_time_seller_redeem_limit() < swap.get_time_btc_lock());
    }
}

#[test]
fn posted_transaction_is_waited_for() {
    // What has just been posted counts as under way, whatever else is seen.
    let seen = note_action(StateId::SellerPostingLockMwcSlate, &quiet());
    assert_eq!(seen, SwapTransactionsConfirmations { mwc_lock_conf: Some(0), ..quiet() });
    let seen = note_action(StateId::SellerPostingLockMwcSlate, &locked());
    assert_eq!(seen, locked());
    let seen = note_action(StateId::BuyerRedeemMwc, &locked());
    assert_eq!(seen, SwapTransactionsConfirmations { mwc_redeem_conf: Some(0), ..locked() });
    let seen = note_action(StateId::SellerRedeemSecondaryCurrency, &quiet());
    assert_eq!(seen, SwapTransactionsConfirmations { secondary_redeem_conf: Some(0), ..quiet() });
    let seen = note_action(StateId::SellerPostingRefundSlate, &quiet());
    assert_eq!(seen, SwapTransactionsConfirmations { mwc_refund_conf: Some(0), ..quiet() });
    let seen = note_action(StateId::BuyerPostingRefundForSecondary, &quiet());
    assert_eq!(seen, SwapTransactionsConfirmations { secondary_refund_conf: Some(0), ..quiet() });
    assert_eq!(note_action(StateId::SellerSendingOffer, &quiet()), quiet());

    // The seller has posted its lock: it waits, and a later check that
    // does not find the lock asks for it again.
    let fsm = seller_machine();
    let mut swap = trade(Role::Seller, StateId::SellerPostingLockMwcSlate);
    let r = fsm.process(Input::Execute, &mut swap, &context(Role::Seller), &quiet(), START + 10).unwrap();
    assert_eq!(r.next_state_id, StateId::SellerWaitingForLockConfirmations);
    assert_eq!(swap.state, StateId::SellerWaitingForLockConfirmations);
    assert_eq!(
        r.action,
        Some(Action::WaitForConfirmations {
            mwc_required: 3,
            mwc_actual: 0,
            secondary_required: 2,
            secondary_actual: 0,
        })
    );
    let r = fsm.process(Input::Check, &mut swap, &context(Role::Seller), &quiet(), START + 11).unwrap();
    assert_eq!(r.next_state_id, StateId::SellerPostingLockMwcSlate);
    assert_eq!(r.action, Some(Action::SellerPublishMwcLockTx));

    // The seller has posted its refund.
    let mut swap = trade(Role::Seller, StateId::SellerPostingRefundSlate);
    let r = fsm.process(Input::Execute, &mut swap, &context(Role::Seller), &locked(), START + 9000).unwrap();
    assert_eq!(r.next_state_id, StateId::SellerWaitingForRefundConfirmations);

    // The buyer has posted its refund, to the address and at the fee given.
    let fsm = buyer_machine();
    let mut swap = trade(Role::Buyer, StateId::BuyerPostingRefundForSecondary);
    let input = Input::ExecuteWith {
        refund_address: Some("33iFwdLuRpW1uK1RTRqsoi8rR4NpDzk66k".to_string()),
        fee_per_vb: Some(2_000),
    };
    let r = fsm.process(input, &mut swap, &context(Role::Buyer), &locked(), START + 20_000).unwrap();
    assert_eq!(r.next_state_id, StateId::BuyerWaitingForRefundConfirmations);
}

#[test]
fn machine_admits_only_the_message_that_fits() {
    let fsm = seller_machine();
    let seller = context(Role::Seller);
    let waiting = trade(Role::Seller, StateId::SellerWaitingForAcceptanceMessage);
    assert!(fsm.admit_message(&accept_message(), &waiting, &seller).is_ok());
    assert!(matches!(
        fsm.admit_message(&init_redeem(), &waiting, &seller),
        Err(ErrorKind::UnexpectedMessageType(_))
    ));
    assert!(matches!(
        fsm.admit_message(&accept_message(), &waiting, &context(Role::Buyer)),
        Err(ErrorKind::UnexpectedRole(_))
    ));
    let mut other = accept_message();
    other.id = "another".to_string();
    assert!(matches!(fsm.admit_message(&other, &waiting, &seller), Err(ErrorKind::Generic(_))));
    let mut bare = accept_message();
    bare.secondary_update = SecondaryUpdate::Empty;
    assert!(matches!(
        fsm.admit_message(&bare, &waiting, &seller),
        Err(ErrorKind::UnexpectedMessageType(_))
    ));
    let early = trade(Role::Seller, StateId::SellerSendingOffer);
    assert!(matches!(
        fsm.admit_message(&accept_message(), &early, &seller),
        Err(ErrorKind::UnexpectedMessageType(_))
    ));
    let ended = trade(Role::Seller, StateId::SellerCancelled);
    assert!(matches!(
        fsm.admit_message(&accept_message(), &ended, &seller),
        Err(ErrorKind::StateMismatch(_))
    ));
    let stranger = trade(Role::Seller, StateId::BuyerRedeemMwc);
    assert!(matches!(
        fsm.admit_message(&accept_message(), &stranger, &seller),
        Err(ErrorKind::SwapStateMachineError(_))
    ));
    // A message that was taken in before is admitted as a repeat.
    let mut taken = trade(Role::Seller, StateId::SellerWaitingForBuyerLock);
    taken.redeem_public = Some(PublicKey { bytes: [3; 33] });
    assert!(fsm.admit_message(&accept_message(), &taken, &seller).is_ok());
    // The buyer does not take the redeem message before it has asked for it.
    let buyer = buyer_machine();
    let early = trade(Role::Buyer, StateId::BuyerWaitingForLockConfirmations);
    assert!(matches!(
        buyer.admit_message(&redeem(), &early, &context(Role::Buyer)),
        Err(ErrorKind::UnexpectedMessageType(_))
    ));
}

#[test]
fn seller_posts_its_lock_only_after_the_buyers_lock_is_mined() {
    let mut swap = trade(Role::Seller, StateId::SellerWaitingForBuyerLock);
    swap.seller_lock_first = false;
    // The whole amount, not mined yet.
    let unmined = SwapTransactionsConfirmations {
        secondary_lock_amount: 500,
        secondary_lock_conf: Some(0),
        ..quiet()
    };
    let r = check(StateId::SellerWaitingForBuyerLock, &swap, &unmined, START + 10).unwrap();
    assert_eq!(r.next_state_id, StateId::SellerWaitingForBuyerLock);
    assert_eq!(
        r.action,
        Some(Action::WaitForConfirmations {
            mwc_required: 0,
            mwc_actual: 0,
            secondary_required: 1,
            secondary_actual: 0,
        })
    );
    assert_eq!(r.time_limit, Some(START + 3600));
    // Less than the amount, however well confirmed, counts for nothing.
    let short = SwapTransactionsConfirmations {
        secondary_lock_amount: 499,
        secondary_lock_conf: Some(6),
        ..quiet()
    };
    let r = check(StateId::SellerWaitingForBuyerLock, &swap, &short, START + 10).unwrap();
    assert_eq!(r.next_state_id, StateId::SellerWaitingForBuyerLock);
    assert_eq!(
        r.action,
        Some(Action::WaitForConfirmations {
            mwc_required: 0,
            mwc_actual: 0,
            secondary_required: 1,
            secondary_actual: 0,
        })
    );
    // The whole amount with one confirmation.
    let mined = SwapTransactionsConfirmations {
        secondary_lock_amount: 500,
        secondary_lock_conf: Some(1),
        ..quiet()
    };
    let r = check(StateId::SellerWaitingForBuyerLock, &swap, &mined, START + 10).unwrap();
    assert_eq!(r.next_state_id, StateId::SellerPostingLockMwcSlate);
    // Without the buyer's lock the seller gives up at the deadline.
    let r = check(StateId::SellerWaitingForBuyerLock, &swap, &unmined, START + 3600).unwrap();
    assert_eq!(r.next_state_id, StateId::SellerCancelled);
    // A seller that locks first does not wait.
    swap.seller_lock_first = true;
    let r = check(StateId::SellerWaitingForBuyerLock, &swap, &quiet(), START + 10).unwrap();
    assert_eq!(r.next_state_id, StateId::SellerPostingLockMwcSlate);
}

#[test]
fn seller_whose_lock_may_be_under_way_does_not_end_before_the_refund_height() {
    let swap = trade(Role::Seller, StateId::SellerPostingLockMwcSlate);
    // The deadline of the locking has passed and the lock is not seen.
    let r = check(StateId::SellerPostingLockMwcSlate, &swap, &quiet(), START + 3600).unwrap();
    assert_eq!(r.next_state_id, StateId::SellerWaitingForRefundHeight);
    // Below the refund height the seller waits, seen or not.
    let r = check(StateId::SellerWaitingForRefundHeight, &swap, &quiet(), START + 3601).unwrap();
    assert_eq!(r.next_state_id, StateId::SellerWaitingForRefundHeight);
    assert_eq!(r.action, None);
    assert_eq!(r.time_limit, Some(START + 7200));
    // The lock has been mined after all: the refund is driven.
    let late = SwapTransactionsConfirmations { mwc_tip: 220, mwc_lock_conf: Some(50), ..quiet() };
    let r = check(StateId::SellerWaitingForRefundHeight, &swap, &late, START + 7300).unwrap();
    assert_eq!(r.next_state_id, StateId::SellerPostingRefundSlate);
    // The chain does not show the lock at the refund height: nothing to refund.
    let never = SwapTransactionsConfirmations { mwc_tip: 220, ..quiet() };
    let r = check(StateId::SellerWaitingForRefundHeight, &swap, &never, START + 7300).unwrap();
    assert_eq!(r.next_state_id, StateId::SellerCancelled);
    // The whole way in one step of the machine.
    let fsm = seller_machine();
    let mut swap = trade(Role::Seller, StateId::SellerPostingLockMwcSlate);
    let r = fsm.process(Input::Check, &mut swap, &context(Role::Seller), &quiet(), START + 3600).unwrap();
    assert_eq!(r.next_state_id, StateId::SellerWaitingForRefundHeight);
    let r = fsm.process(Input::Check, &mut swap, &context(Role::Seller), &never, START + 7300).unwrap();
    assert_eq!(r.next_state_id, StateId::SellerCancelled);
}
