use mwc_swap::btc::api::{slate_lookup, spend_plan, SlateLookup};
use mwc_swap::btc::balance::{
    btc_confirmations, classify_outputs, kernel_confirmations, lock_state, outputs_confirmations,
    sort_outputs,
};
use mwc_swap::error::ErrorKind;
use mwc_swap::swap::Slate;
use mwc_swap::types::{confirmations, Commitment, Network, Output, OutPoint, Txid};

fn output(tag: u8, value: u64, height: u64) -> Output {
    let mut bytes = [0u8; 32];
    bytes[0] = tag;
    Output { out_point: OutPoint { txid: Txid { bytes }, vout: 0 }, value, height }
}

#[test]
fn confirmations_count_from_one() {
    assert_eq!(confirmations(100, 100), 1);
    assert_eq!(confirmations(105, 100), 6);
    // An output above the tip counts as just mined.
    assert_eq!(confirmations(99, 100), 1);
    assert_eq!(confirmations(u64::MAX, 0), u64::MAX);
    assert_eq!(confirmations(u64::MAX, 1), u64::MAX);
}

#[test]
fn outputs_are_sorted_into_pending_and_confirmed() {
    let outputs = vec![output(1, 10, 0), output(2, 20, 100), output(3, 30, 104)];
    let b = classify_outputs(&outputs, 105, 3);
    assert_eq!(b.pending, 40);
    assert_eq!(b.confirmed, 20);
    assert_eq!(b.least_confirmations, 0);
    assert_eq!(b.outputs, vec![output(2, 20, 100), output(3, 30, 104)]);

    let outputs = vec![output(2, 20, 100), output(3, 30, 104), output(4, 5, 105)];
    let b = classify_outputs(&outputs, 105, 3);
    assert_eq!(b.pending, 35);
    assert_eq!(b.confirmed, 20);
    assert_eq!(b.least_confirmations, 1);
    assert_eq!(b.outputs.len(), 3);

    let b = classify_outputs(&vec![output(2, 20, 100)], 105, 0);
    assert_eq!((b.pending, b.confirmed, b.least_confirmations), (0, 20, 0));
    let b = classify_outputs(&Vec::new(), 105, 3);
    assert_eq!((b.pending, b.confirmed, b.least_confirmations), (0, 0, 0));
    assert!(b.outputs.is_empty());
    // Sums stay at the maximum.
    let b = classify_outputs(&vec![output(1, u64::MAX, 1), output(2, 5, 1)], 105, 3);
    assert_eq!(b.confirmed, u64::MAX);
}

#[test]
fn mined_outputs_come_back_sorted() {
    let outputs = vec![output(9, 1, 100), output(1, 2, 0), output(4, 3, 101), output(2, 4, 99)];
    let b = classify_outputs(&outputs, 105, 3);
    assert_eq!(b.outputs, vec![output(2, 4, 99), output(4, 3, 101), output(9, 1, 100)]);
    let turned = vec![output(2, 4, 99), output(4, 3, 101), output(1, 2, 0), output(9, 1, 100)];
    assert_eq!(classify_outputs(&turned, 105, 3), b);
}

#[test]
fn lock_state_takes_the_least_confirmed_output() {
    let outputs = vec![output(2, 20, 100), output(3, 30, 104)];
    assert_eq!(lock_state(&outputs, 105), (50, Some(2)));
    let outputs = vec![output(2, 20, 100), output(1, 10, 0), output(3, 30, 104)];
    assert_eq!(lock_state(&outputs, 105), (60, Some(0)));
    assert_eq!(lock_state(&Vec::new(), 105), (0, None));
    // An output with 2147483647 confirmations or more does not count.
    assert_eq!(lock_state(&vec![output(2, 20, 1)], 2147483647), (20, None));
    assert_eq!(lock_state(&vec![output(2, 20, 2)], 2147483647), (20, Some(2147483646)));
}

#[test]
fn outputs_are_sorted_by_the_identifier_of_their_transaction() {
    let mut high = output(0, 1, 1);
    high.out_point.txid.bytes[31] = 9;
    let outputs = vec![output(7, 1, 1), output(2, 2, 1), high, output(200, 3, 1), output(2, 4, 1)];
    let sorted = sort_outputs(&outputs);
    let tags: Vec<(u8, u64)> =
        sorted.iter().map(|o| (o.out_point.txid.bytes[0], o.value)).collect();
    assert_eq!(tags, vec![(0, 1), (2, 2), (2, 4), (7, 1), (200, 3)]);
    assert!(Txid { bytes: [1; 32] }.less(&Txid { bytes: [2; 32] }));
    assert!(!Txid { bytes: [2; 32] }.less(&Txid { bytes: [2; 32] }));
    assert!(!Txid { bytes: [3; 32] }.less(&Txid { bytes: [2; 32] }));
}

#[test]
fn spend_plan_takes_everything_or_fails() {
    let outputs = vec![output(7, 10, 1), output(2, 20, 1)];
    let plan = spend_plan(
        "address".to_string(),
        vec![1, 2, 3],
        None,
        Network::Mainnet,
        77,
        (0, 30, 0, outputs),
    )
    .unwrap();
    assert_eq!(plan.address, "address");
    assert_eq!(plan.script, vec![1, 2, 3]);
    assert_eq!(plan.fee, 26_000);
    assert_eq!(plan.lock_time, 77);
    assert_eq!(plan.outputs, vec![output(2, 20, 1), output(7, 10, 1)]);
    let plan = spend_plan(
        "address".to_string(),
        Vec::new(),
        Some(5),
        Network::Floonet,
        0,
        (1, 0, 0, Vec::new()),
    )
    .unwrap();
    assert_eq!(plan.fee, 5);
    let r = spend_plan(
        "address".to_string(),
        Vec::new(),
        None,
        Network::Floonet,
        0,
        (0, 0, 0, Vec::new()),
    );
    assert!(matches!(r, Err(ErrorKind::NotEnoughFunds(_))));
}

#[test]
fn confirmations_of_transactions() {
    assert_eq!(btc_confirmations(10, None), None);
    assert_eq!(btc_confirmations(10, Some(None)), Some(0));
    assert_eq!(btc_confirmations(10, Some(Some(8))), Some(3));
    assert_eq!(kernel_confirmations(10, None), None);
    assert_eq!(kernel_confirmations(10, Some((10, 5))), Some(1));
    let c = Commitment { bytes: [1; 33] };
    assert_eq!(outputs_confirmations(10, &Vec::new()), None);
    assert_eq!(outputs_confirmations(10, &vec![(c, 4, 0), (c, 9, 0), (c, 6, 0)]), Some(2));
}

#[test]
fn slate_is_looked_up_by_kernel_or_by_outputs() {
    let mut slate = Slate::blank();
    assert_eq!(slate_lookup(&slate, true), SlateLookup::Nothing);
    slate.height = 55;
    slate.kernel = Some(Commitment { bytes: [0; 33] });
    assert_eq!(slate_lookup(&slate, true), SlateLookup::ByOutputs);
    assert_eq!(slate_lookup(&slate, false), SlateLookup::Nothing);
    let mut bytes = [0u8; 33];
    bytes[32] = 1;
    slate.kernel = Some(Commitment { bytes });
    assert_eq!(slate_lookup(&slate, false), SlateLookup::ByKernel(Commitment { bytes }, 55));
    assert!(Commitment { bytes: [0; 33] }.is_zero());
    assert!(!Commitment { bytes }.is_zero());
}
