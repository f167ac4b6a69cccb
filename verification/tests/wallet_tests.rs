use grin_keychain::ExtKeychainPath;
use mwc_swap::error::ErrorKind;
use mwc_swap::keychain::generate_nonce;
use mwc_swap::owner_swap::{change_of, funding_inputs};
use mwc_swap::swap::Slate;
use mwc_swap::types::{
    Commitment, KeyId, OutputData, OutputStatus, Signature, TxLogEntry, TxLogEntryType,
};
use mwc_swap::wallet::{commitment_bytes, receive_records, tx_log_has_kernel};

fn key(depth: u8, d0: u32, d1: u32, d2: u32, d3: u32) -> KeyId {
    KeyId { bytes: ExtKeychainPath::new(depth, d0, d1, d2, d3).to_identifier().to_bytes() }
}

fn slate() -> Slate {
    let mut out = [0u8; 33];
    out[0] = 9;
    out[1] = 0xab;
    out[32] = 0xf0;
    Slate {
        id: "slate".to_string(),
        amount: 5_000,
        fee: 7,
        height: 120,
        lock_height: 300,
        kernel: Some(Commitment { bytes: [8; 33] }),
        outputs: vec![Commitment { bytes: out }],
        seller_signature: Some(Signature { bytes: [1; 64] }),
        buyer_signature: Some(Signature { bytes: [2; 64] }),
    }
}

#[test]
fn key_path_gives_its_last_element() {
    assert_eq!(key(0, 7, 8, 9, 10).last_path_index(), Some(0));
    assert_eq!(key(1, 7, 8, 9, 10).last_path_index(), Some(7));
    assert_eq!(key(3, 7, 8, 0x0102_0304, 10).last_path_index(), Some(0x0102_0304));
    assert_eq!(key(4, 7, 8, 9, 0x8000_0001).last_path_index(), Some(0x8000_0001));
    assert_eq!(KeyId { bytes: [5; 17] }.last_path_index(), None);
    for depth in 0..=4u8 {
        let path = ExtKeychainPath::new(depth, 11, 22, 33, 44);
        assert_eq!(
            key(depth, 11, 22, 33, 44).last_path_index(),
            Some(path.last_path_index())
        );
    }
}

#[test]
fn received_transaction_is_recorded_with_its_output() {
    let parent = key(2, 0, 0, 0, 0);
    let out_key = key(3, 0, 0, 42, 0);
    let (entry, output) =
        receive_records(parent, 17, &slate(), "Swap abc".to_string(), &out_key).unwrap();
    assert_eq!(
        entry,
        TxLogEntry {
            parent_key_id: parent,
            id: 17,
            tx_slate_id: Some("slate".to_string()),
            tx_type: TxLogEntryType::TxReceived,
            address: Some("Swap abc".to_string()),
            amount_credited: 5_000,
            amount_debited: 0,
            num_inputs: 0,
            num_outputs: 1,
            output_commits: slate().outputs,
            kernel_excess: Some(Commitment { bytes: [8; 33] }),
            kernel_lookup_min_height: Some(120),
            ttl_cutoff_height: None,
            confirmed: false,
        }
    );
    let mut hex = String::from("09ab");
    for _ in 0..30 {
        hex.push_str("00");
    }
    hex.push_str("f0");
    assert_eq!(
        output,
        OutputData {
            root_key_id: parent,
            key_id: out_key,
            n_child: 42,
            mmr_index: None,
            commit: Some(hex),
            value: 5_000,
            status: OutputStatus::Unconfirmed,
            height: 120,
            lock_height: 300,
            is_coinbase: false,
            tx_log_entry: Some(17),
        }
    );
}

#[test]
fn slate_without_one_kernel_and_one_output_is_not_recorded() {
    let parent = key(2, 0, 0, 0, 0);
    let out_key = key(3, 0, 0, 42, 0);
    let mut s = slate();
    s.kernel = None;
    let r = receive_records(parent, 1, &s, "x".to_string(), &out_key);
    assert!(matches!(r, Err(ErrorKind::Generic(_))));
    let mut s = slate();
    s.outputs.push(Commitment { bytes: [1; 33] });
    let r = receive_records(parent, 1, &s, "x".to_string(), &out_key);
    assert!(matches!(r, Err(ErrorKind::Generic(_))));
    let mut s = slate();
    s.outputs.clear();
    let r = receive_records(parent, 1, &s, "x".to_string(), &out_key);
    assert!(matches!(r, Err(ErrorKind::Generic(_))));
    let r = receive_records(parent, 1, &slate(), "x".to_string(), &KeyId { bytes: [9; 17] });
    assert!(matches!(r, Err(ErrorKind::Generic(_))));
}

#[test]
fn log_is_searched_by_kernel() {
    let parent = key(2, 0, 0, 0, 0);
    let out_key = key(3, 0, 0, 42, 0);
    let (entry, _) = receive_records(parent, 1, &slate(), "x".to_string(), &out_key).unwrap();
    let log = vec![entry];
    assert!(tx_log_has_kernel(&log, &Commitment { bytes: [8; 33] }));
    assert!(!tx_log_has_kernel(&log, &Commitment { bytes: [7; 33] }));
    assert!(!tx_log_has_kernel(&Vec::new(), &Commitment { bytes: [8; 33] }));
    assert_eq!(commitment_bytes(&Commitment { bytes: [8; 33] }), vec![8u8; 33]);
}

#[test]
fn fresh_nonces_differ() {
    let a = generate_nonce().unwrap();
    let b = generate_nonce().unwrap();
    assert_ne!(a, b);
    assert_ne!(a.bytes, [0u8; 32]);
}

#[test]
fn change_is_what_is_left_of_the_picked_outputs() {
    assert_eq!(change_of(100, 60, 10), Some(30));
    assert_eq!(change_of(70, 60, 10), Some(0));
    assert_eq!(change_of(69, 60, 10), None);
    assert_eq!(change_of(10, 60, 0), None);
    assert_eq!(change_of(u64::MAX, u64::MAX, 1), None);
    let parent = key(2, 0, 0, 0, 0);
    let outputs = vec![OutputData {
        root_key_id: parent,
        key_id: key(3, 0, 0, 1, 0),
        n_child: 1,
        mmr_index: Some(9),
        commit: None,
        value: 55,
        status: OutputStatus::Unspent,
        height: 1,
        lock_height: 0,
        is_coinbase: false,
        tx_log_entry: None,
    }];
    assert_eq!(funding_inputs(&outputs), vec![(key(3, 0, 0, 1, 0), Some(9), 55)]);
}

#[test]
fn nonce_is_what_the_signing_context_hands_out() {
    assert_eq!(
        mwc_swap::keychain::nonce_of(Ok([7u8; 32])).unwrap(),
        mwc_swap::types::SecretNonce { bytes: [7; 32] }
    );
    let failed = mwc_swap::keychain::nonce_of(Err(grin_util::secp::Error::CannotExportNonce));
    assert!(matches!(failed, Err(ErrorKind::Secp(_))));
}

#[test]
fn records_of_a_trade_carry_its_name() {
    assert_eq!(mwc_swap::wallet::lock_record_name("abc"), "Swap abc Lock");
    assert_eq!(mwc_swap::wallet::redeem_record_name("abc"), "Swap abc");
    assert_eq!(mwc_swap::wallet::refund_record_name("abc"), "Swap abc Refund");
    assert_eq!(mwc_swap::wallet::lock_record_name(""), "Swap  Lock");
}
