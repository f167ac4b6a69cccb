use mwc_swap::error::ErrorKind;
use mwc_swap::fsm::state::{Action, Input, StateId};
use mwc_swap::owner_swap::{process_trade, swap_delete, swap_dump, swap_get, swap_list};
use mwc_swap::swap::{BtcData, SecondaryData, Slate, Swap};
use mwc_swap::trades::TradeStore;
use mwc_swap::types::{
    BtcBuyerContext, BuyerContext, Context, Currency, KeyId, Network, PublicKey, Role, RoleContext,
    SecondaryBuyerContext, SecretNonce, SwapTransactionsConfirmations,
};

fn context(tag: u8) -> Context {
    Context {
        multisig_key: KeyId { bytes: [tag; 17] },
        multisig_nonce: SecretNonce { bytes: [1; 32] },
        lock_nonce: SecretNonce { bytes: [2; 32] },
        refund_nonce: SecretNonce { bytes: [3; 32] },
        redeem_nonce: SecretNonce { bytes: [4; 32] },
        role_context: RoleContext::Buyer(BuyerContext {
            output: KeyId { bytes: [5; 17] },
            redeem: KeyId { bytes: [6; 17] },
            secondary_context: SecondaryBuyerContext::Btc(BtcBuyerContext {
                refund: KeyId { bytes: [7; 17] },
            }),
        }),
    }
}

fn trade(id: &str, amount: u64) -> Swap {
    Swap {
        id: id.to_string(),
        role: Role::Buyer,
        state: StateId::BuyerOfferCreated,
        network: Network::Mainnet,
        primary_amount: amount,
        secondary_amount: 77,
        secondary_currency: Currency::Btc,
        mwc_confirmations: 10,
        secondary_confirmations: 6,
        message_exchange_time_sec: 3600,
        redeem_time_sec: 3600,
        seller_lock_first: false,
        started: 1_600_000_000,
        secondary_redeem_address: None,
        secondary_refund_address: Some("refund".to_string()),
        lock_slate: Slate::blank(),
        redeem_slate: Slate::blank(),
        refund_slate: Slate::blank(),
        secondary_data: SecondaryData::Btc(BtcData {
            cosign: PublicKey { bytes: [2; 33] },
            refund: Some(PublicKey { bytes: [3; 33] }),
            redeem_tx: None,
            refund_tx: None,
        }),
        redeem_public: Some(PublicKey { bytes: [4; 33] }),
        adaptor_signature: None,
        last_check_error: Some("node is down".to_string()),
        journal: vec!["created".to_string(), "checked".to_string()],
    }
}

#[test]
fn stored_trade_is_found_again() {
    let mut store = TradeStore::new();
    store.store_swap_trade(context(1), trade("a", 10));
    store.store_swap_trade(context(2), trade("b", 20));
    assert_eq!(store.len(), 2);
    let (ctx, swap) = store.get_swap_trade("b").unwrap();
    assert_eq!(ctx, context(2));
    assert_eq!(swap, trade("b", 20));
    let (ctx, swap) = store.get_swap_trade("a").unwrap();
    assert_eq!(ctx, context(1));
    assert_eq!(swap, trade("a", 10));
    assert_eq!(swap_get(&store, "a").unwrap(), trade("a", 10));
    assert_eq!(store.find("b"), Some(1));
    assert_eq!(store.find("c"), None);
}

#[test]
fn storing_again_overwrites_in_place() {
    let mut store = TradeStore::new();
    store.store_swap_trade(context(1), trade("a", 10));
    store.store_swap_trade(context(2), trade("b", 20));
    store.store_swap_trade(context(3), trade("a", 30));
    assert_eq!(store.list_swap_trades(), vec!["a".to_string(), "b".to_string()]);
    let (ctx, swap) = store.get_swap_trade("a").unwrap();
    assert_eq!(ctx, context(3));
    assert_eq!(swap.primary_amount, 30);
}

#[test]
fn missing_trade_gives_trade_io_error() {
    let mut store = TradeStore::new();
    store.store_swap_trade(context(1), trade("a", 10));
    match store.get_swap_trade("zz") {
        Err(ErrorKind::TradeIoError(id, _)) => assert_eq!(id, "zz"),
        other => panic!("unexpected result {:?}", other),
    }
    assert!(matches!(swap_get(&store, "zz"), Err(ErrorKind::TradeIoError(_, _))));
    assert!(matches!(swap_dump(&store, "zz"), Err(ErrorKind::TradeIoError(_, _))));
    assert!(matches!(swap_delete(&mut store, "zz"), Err(ErrorKind::TradeIoError(_, _))));
    assert_eq!(store.len(), 1);
    let conf = SwapTransactionsConfirmations {
        mwc_tip: 1,
        mwc_lock_conf: None,
        mwc_redeem_conf: None,
        mwc_refund_conf: None,
        secondary_tip: 1,
        secondary_lock_conf: None,
        secondary_lock_amount: 0,
        secondary_redeem_conf: None,
        secondary_refund_conf: None,
    };
    let r = process_trade(&mut store, "zz", Input::Check, &conf, 1_600_000_000);
    assert!(matches!(r, Err(ErrorKind::TradeIoError(_, _))));
}

#[test]
fn deleted_trade_is_gone() {
    let mut store = TradeStore::new();
    store.store_swap_trade(context(1), trade("a", 10));
    store.store_swap_trade(context(2), trade("b", 20));
    store.store_swap_trade(context(3), trade("c", 30));
    swap_delete(&mut store, "b").unwrap();
    assert_eq!(store.list_swap_trades(), vec!["a".to_string(), "c".to_string()]);
    assert!(store.get_swap_trade("b").is_err());
    assert_eq!(
        swap_list(&store).unwrap(),
        vec![
            ("a".to_string(), "BuyerOfferCreated".to_string()),
            ("c".to_string(), "BuyerOfferCreated".to_string())
        ]
    );
}

#[test]
fn dump_describes_the_trade() {
    let mut store = TradeStore::new();
    store.store_swap_trade(context(1), trade("a-b-c", 1_000_000_000));
    assert_eq!(
        swap_dump(&store, "a-b-c").unwrap(),
        "Swap a-b-c\nrole: Buyer\nstate: BuyerOfferCreated\nprimary amount: 1000000000\nsecondary amount: 77 btc\n"
    );
    let mut zero = trade("z", 0);
    zero.secondary_amount = u64::MAX;
    store.store_swap_trade(context(1), zero);
    assert_eq!(
        store.dump_swap_trade("z").unwrap(),
        "Swap z\nrole: Buyer\nstate: BuyerOfferCreated\nprimary amount: 0\nsecondary amount: 18446744073709551615 btc\n"
    );
}

#[test]
fn processing_a_trade_keeps_the_others() {
    let mut store = TradeStore::new();
    store.store_swap_trade(context(1), trade("a", 10));
    store.store_swap_trade(context(2), trade("b", 20));
    let conf = SwapTransactionsConfirmations {
        mwc_tip: 1,
        mwc_lock_conf: None,
        mwc_redeem_conf: None,
        mwc_refund_conf: None,
        secondary_tip: 1,
        secondary_lock_conf: None,
        secondary_lock_amount: 0,
        secondary_redeem_conf: None,
        secondary_refund_conf: None,
    };
    // The buyer's trade lacks its signatures, so the acceptance cannot be made.
    let r = process_trade(&mut store, "b", Input::Check, &conf, 1_600_000_000);
    assert!(matches!(r, Err(ErrorKind::UnexpectedAction(_))));
    // The failed check is recorded on the trade, which is as it was in all else.
    let text = "Unexpected action, Fn accept_offer_message(), the offer is not signed by the buyer";
    let mut expected = trade("b", 20);
    expected.last_check_error = Some(text.to_string());
    expected.journal.push(format!("Processing error: {}", text));
    assert_eq!(store.get_swap_trade("b").unwrap().1, expected);
    // Another input that fails leaves no trace.
    let r = process_trade(&mut store, "b", Input::Execute, &conf, 1_600_000_000);
    assert!(matches!(r, Err(ErrorKind::InvalidSwapStateInput(_))));
    assert_eq!(store.get_swap_trade("b").unwrap().1, expected);
    // After the deadline the check ends the trade, and no check error is left.
    let r = process_trade(&mut store, "b", Input::Check, &conf, 1_600_003_600).unwrap();
    assert_eq!(r.next_state_id, StateId::BuyerCancelled);
    assert_eq!(r.action, None::<Action>);
    expected.state = StateId::BuyerCancelled;
    expected.last_check_error = None;
    assert_eq!(store.get_swap_trade("b").unwrap().1, expected);
    assert_eq!(store.get_swap_trade("b").unwrap().0, context(2));
    assert_eq!(store.get_swap_trade("a").unwrap().1, trade("a", 10));
}
