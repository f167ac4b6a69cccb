use std::str::FromStr;

use bitcoin::blockdata::opcodes::all::{
    OP_CHECKMULTISIG, OP_CHECKSIG, OP_CLTV, OP_DROP, OP_ELSE, OP_ENDIF, OP_IF, OP_PUSHNUM_2,
};
use bitcoin::blockdata::script::{Builder, Script};
use bitcoin::network::constants::Network as BtcNetwork;
use bitcoin::util::address::Address;
use mwc_swap::error::ErrorKind;
use mwc_swap::fsm::state::StateId;
use mwc_swap::script::{build_lock_script, is_valid_address, lock_address};
use mwc_swap::swap::{BtcData, SecondaryData, Slate, Swap};
use mwc_swap::types::{Currency, Network, PublicKey, Role};

fn keys() -> ([u8; 33], [u8; 33], [u8; 33]) {
    let mut refund = [0x11u8; 33];
    refund[0] = 2;
    let mut cosign = [0x22u8; 33];
    cosign[0] = 3;
    let mut redeem = [0x33u8; 33];
    redeem[0] = 2;
    (refund, cosign, redeem)
}

#[test]
fn lock_script_has_the_two_branches() {
    let (refund, cosign, redeem) = keys();
    let script = build_lock_script(&refund, &cosign, &redeem, 1_600_014_400);
    let mut expected = vec![0x63, 0x04, 0x40, 0x48, 0x5e, 0x5f, 0xb1, 0x75, 0x21];
    expected.extend_from_slice(&refund);
    expected.extend_from_slice(&[0xac, 0x67, 0x52, 0x21]);
    expected.extend_from_slice(&cosign);
    expected.push(0x21);
    expected.extend_from_slice(&redeem);
    expected.extend_from_slice(&[0x52, 0xae, 0x68]);
    assert_eq!(script, expected);
}

#[test]
fn lock_script_is_what_the_script_builder_makes() {
    let (refund, cosign, redeem) = keys();
    for lock_time in
        [0i64, 1, 16, 17, 127, 128, 255, 65_535, 1_600_014_400, 4_294_967_295, -1, -5, -4_294_967_295]
    {
        let built = Builder::new()
            .push_opcode(OP_IF)
            .push_int(lock_time)
            .push_opcode(OP_CLTV)
            .push_opcode(OP_DROP)
            .push_slice(&refund)
            .push_opcode(OP_CHECKSIG)
            .push_opcode(OP_ELSE)
            .push_opcode(OP_PUSHNUM_2)
            .push_slice(&cosign)
            .push_slice(&redeem)
            .push_opcode(OP_PUSHNUM_2)
            .push_opcode(OP_CHECKMULTISIG)
            .push_opcode(OP_ENDIF)
            .into_script();
        assert_eq!(
            build_lock_script(&refund, &cosign, &redeem, lock_time),
            built.into_bytes(),
            "{}",
            lock_time
        );
    }
}

#[test]
fn addresses_are_checked_by_their_encoding() {
    assert!(is_valid_address("132F25rTsvBdp9JzLLBHP5mvGY66i1xdiM"));
    assert!(is_valid_address("33iFwdLuRpW1uK1RTRqsoi8rR4NpDzk66k"));
    assert!(is_valid_address("tb1qrp33g0q5c5txsp9arysrx4k6zdkfs4nce4xj0gdcccefvpysxf3q0sl5k7"));
    assert!(!is_valid_address(""));
    assert!(!is_valid_address("132F25rTsvBdp9JzLLBHP5mvGY66i1xdiN"));
    assert!(!is_valid_address("not an address"));
}

#[test]
fn lock_address_is_the_script_hash_address() {
    let (refund, cosign, redeem) = keys();
    let script = build_lock_script(&refund, &cosign, &redeem, 1_600_014_400);
    let main = lock_address(&script, Network::Mainnet);
    let test = lock_address(&script, Network::Floonet);
    assert_eq!(main, Address::p2sh(&Script::from(script.clone()), BtcNetwork::Bitcoin).to_string());
    assert_eq!(test, Address::p2sh(&Script::from(script.clone()), BtcNetwork::Testnet).to_string());
    assert!(main.starts_with('3'));
    assert!(test.starts_with('2'));
    assert_ne!(main, String::from_utf8_lossy(&script));
    assert_eq!(Address::from_str(&main).unwrap().network, BtcNetwork::Bitcoin);
    assert!(is_valid_address(&test));
}

fn trade() -> Swap {
    let (refund, cosign, redeem) = keys();
    Swap {
        id: "trade".to_string(),
        role: Role::Buyer,
        state: StateId::BuyerPostingSecondaryToMultisigAccount,
        network: Network::Floonet,
        primary_amount: 1,
        secondary_amount: 2,
        secondary_currency: Currency::Btc,
        mwc_confirmations: 1,
        secondary_confirmations: 1,
        message_exchange_time_sec: 3600,
        redeem_time_sec: 3600,
        seller_lock_first: true,
        started: 1_600_000_000,
        secondary_redeem_address: None,
        secondary_refund_address: None,
        lock_slate: Slate::blank(),
        redeem_slate: Slate::blank(),
        refund_slate: Slate::blank(),
        secondary_data: SecondaryData::Btc(BtcData {
            cosign: PublicKey { bytes: cosign },
            refund: Some(PublicKey { bytes: refund }),
            redeem_tx: None,
            refund_tx: None,
        }),
        redeem_public: Some(PublicKey { bytes: redeem }),
        adaptor_signature: None,
        last_check_error: None,
        journal: Vec::new(),
    }
}

#[test]
fn trade_gives_its_lock_script_and_address() {
    let (refund, cosign, redeem) = keys();
    let swap = trade();
    let script = swap.lock_script().unwrap();
    assert_eq!(script, build_lock_script(&refund, &cosign, &redeem, 1_600_014_400));
    assert_eq!(swap.secondary_lock_address().unwrap(), lock_address(&script, Network::Floonet));
    let mut main = trade();
    main.network = Network::Mainnet;
    assert_eq!(main.secondary_lock_address().unwrap(), lock_address(&script, Network::Mainnet));
}

#[test]
fn lock_script_needs_all_its_pieces() {
    let mut swap = trade();
    swap.redeem_public = None;
    assert!(matches!(swap.lock_script(), Err(ErrorKind::UnexpectedAction(_))));
    let mut swap = trade();
    swap.secondary_data = SecondaryData::Empty;
    assert!(matches!(swap.lock_script(), Err(ErrorKind::UnexpectedCoinType)));
    assert!(matches!(swap.secondary_lock_address(), Err(ErrorKind::UnexpectedCoinType)));
    let mut swap = trade();
    if let SecondaryData::Btc(d) = &mut swap.secondary_data {
        d.refund = None;
    }
    assert!(matches!(swap.lock_script(), Err(ErrorKind::UnexpectedAction(_))));
    // A lock time beyond the range of the script.
    let mut swap = trade();
    swap.started = i64::MAX;
    assert!(matches!(swap.lock_script(), Err(ErrorKind::UnexpectedAction(_))));
}

#[test]
fn numbers_are_pushed_in_the_format_of_the_script() {
    let (refund, cosign, redeem) = keys();
    let cases: Vec<(i64, Vec<u8>)> = vec![
        (0, vec![0]),
        (1, vec![81]),
        (16, vec![96]),
        (17, vec![1, 17]),
        (-1, vec![79]),
        (-2, vec![1, 130]),
        (127, vec![1, 127]),
        (128, vec![2, 128, 0]),
        (255, vec![2, 255, 0]),
        (256, vec![2, 0, 1]),
        (-128, vec![2, 128, 128]),
        (-255, vec![2, 255, 128]),
        (32767, vec![2, 255, 127]),
        (32768, vec![3, 0, 128, 0]),
        (1600014400, vec![4, 64, 72, 94, 95]),
        (4294967295, vec![5, 255, 255, 255, 255, 0]),
        (-4294967295, vec![5, 255, 255, 255, 255, 128]),
    ];
    for (lock_time, push) in cases {
        let script = build_lock_script(&refund, &cosign, &redeem, lock_time);
        assert_eq!(script[0], 0x63);
        assert_eq!(&script[1..1 + push.len()], &push[..], "{}", lock_time);
        assert_eq!(script[1 + push.len()], 0xb1);
        assert_eq!(script.len(), 1 + push.len() + 2 + 34 + 3 + 34 + 34 + 3);
    }
}
