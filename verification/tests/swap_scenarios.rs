use std::cell::RefCell;
use std::rc::Rc;

use mwc_swap::btc::api::BtcSwapApi;
use mwc_swap::btc::client::{BtcNodeClient, BuyerShare, NodeClient, SpendPlan, SwapKeychain};
use mwc_swap::error::ErrorKind;
use mwc_swap::fsm::state::{Action, StateId, StateProcessRespond};
use mwc_swap::message::{Message, OfferUpdate};
use mwc_swap::owner_swap::{
    get_swap_status_action, swap_adjust, swap_get, swap_income_message, swap_list, swap_process,
    swap_start,
};
use mwc_swap::script::lock_address;
use mwc_swap::swap::{Slate, Swap};
use mwc_swap::trades::TradeStore;
use mwc_swap::types::{
    BtcTransaction, Commitment, Context, KeyId, Network, Output, OutPoint, OutputData,
    OutputStatus, PublicKey, Signature, SwapStartArgs, TxLogEntry, TxLogEntryType, Txid,
};
use mwc_swap::wallet::{CoinSelection, WalletBackend};

const START: i64 = 1_600_000_000;
const MWC_AMOUNT: u64 = 1_000_000_000;
const BTC_AMOUNT: u64 = 100_000;
const REDEEM_ADDRESS: &str = "132F25rTsvBdp9JzLLBHP5mvGY66i1xdiM";
const REFUND_ADDRESS: &str = "33iFwdLuRpW1uK1RTRqsoi8rR4NpDzk66k";

#[derive(Default)]
struct Chain {
    mwc_height: u64,
    mwc_pending: Vec<(Option<Commitment>, Vec<Commitment>)>,
    mwc_kernels: Vec<(Commitment, u64)>,
    mwc_outputs: Vec<(Commitment, u64)>,
    btc_height: u64,
    btc_utxos: Vec<(String, Output)>,
    btc_pending: Vec<(Txid, String)>,
    btc_txs: Vec<(Txid, u64)>,
    nodes_down: bool,
    posting_down: bool,
}

impl Chain {
    fn mine_mwc(&mut self, blocks: u64) {
        for _ in 0..blocks {
            self.mwc_height += 1;
            let pending: Vec<(Option<Commitment>, Vec<Commitment>)> =
                self.mwc_pending.drain(..).collect();
            for (kernel, outputs) in pending {
                if let Some(k) = kernel {
                    if !self.mwc_kernels.iter().any(|(c, _)| *c == k) {
                        self.mwc_kernels.push((k, self.mwc_height));
                    }
                }
                for o in outputs {
                    if !self.mwc_outputs.iter().any(|(c, _)| *c == o) {
                        self.mwc_outputs.push((o, self.mwc_height));
                    }
                }
            }
        }
    }

    fn mine_btc(&mut self, blocks: u64) {
        for _ in 0..blocks {
            self.btc_height += 1;
            let height = self.btc_height;
            for (_, output) in self.btc_utxos.iter_mut() {
                if output.height == 0 {
                    output.height = height;
                }
            }
            let pending: Vec<(Txid, String)> = self.btc_pending.drain(..).collect();
            for (txid, address) in pending {
                self.btc_utxos.retain(|(a, _)| *a != address);
                self.btc_txs.push((txid, height));
            }
        }
    }

    fn deposit(&mut self, address: &str, value: u64, tag: u8) {
        self.btc_utxos.push((
            address.to_string(),
            Output {
                out_point: OutPoint { txid: Txid { bytes: [tag; 32] }, vout: 0 },
                value,
                height: 0,
            },
        ));
    }

    fn reorg_mwc_kernel(&mut self, kernel: &Commitment, height: u64) {
        for (c, h) in self.mwc_kernels.iter_mut() {
            if c == kernel {
                *h = height;
            }
        }
    }
}

#[derive(Clone)]
struct MockNode(Rc<RefCell<Chain>>);

impl NodeClient for MockNode {
    fn get_chain_tip(&mut self) -> Result<(u64, String), ErrorKind> {
        if self.0.borrow().nodes_down {
            return Err(ErrorKind::NodeError("mwc".to_string(), "the node is down".to_string()));
        }
        Ok((self.0.borrow().mwc_height, "tip".to_string()))
    }

    fn get_kernel(
        &mut self,
        excess: &Commitment,
        min_height: Option<u64>,
        _max_height: Option<u64>,
    ) -> Result<Option<(u64, u64)>, ErrorKind> {
        let chain = self.0.borrow();
        for (c, h) in chain.mwc_kernels.iter() {
            if c == excess && *h >= min_height.unwrap_or(0) {
                return Ok(Some((*h, 1)));
            }
        }
        Ok(None)
    }

    fn get_outputs_from_node(
        &mut self,
        commits: &Vec<Commitment>,
    ) -> Result<Vec<(Commitment, u64, u64)>, ErrorKind> {
        let chain = self.0.borrow();
        let mut found = Vec::new();
        for (c, h) in chain.mwc_outputs.iter() {
            if commits.contains(c) {
                found.push((*c, *h, 1));
            }
        }
        Ok(found)
    }

    fn post_tx(&mut self, slate: &Slate) -> Result<(), ErrorKind> {
        if self.0.borrow().posting_down {
            return Err(ErrorKind::NodeError("mwc".to_string(), "posting failed".to_string()));
        }
        self.0.borrow_mut().mwc_pending.push((slate.kernel, slate.outputs.clone()));
        Ok(())
    }
}

#[derive(Clone)]
struct MockBtc(Rc<RefCell<Chain>>);

impl BtcNodeClient for MockBtc {
    fn name(&self) -> String {
        "BTC test client".to_string()
    }

    fn height(&mut self) -> Result<u64, ErrorKind> {
        Ok(self.0.borrow().btc_height)
    }

    fn unspent(&mut self, address: &String) -> Result<Vec<Output>, ErrorKind> {
        Ok(self
            .0
            .borrow()
            .btc_utxos
            .iter()
            .filter(|(a, _)| a == address)
            .map(|(_, o)| *o)
            .collect())
    }

    fn post_tx(&mut self, tx: Vec<u8>) -> Result<(), ErrorKind> {
        let mut bytes = [0u8; 32];
        bytes.copy_from_slice(&tx[..32]);
        let address = String::from_utf8(tx[32..].to_vec()).unwrap();
        self.0.borrow_mut().btc_pending.push((Txid { bytes }, address));
        Ok(())
    }

    fn transaction(&mut self, tx_hash: &Txid) -> Result<Option<Option<u64>>, ErrorKind> {
        let chain = self.0.borrow();
        if chain.btc_pending.iter().any(|(t, _)| t == tx_hash) {
            return Ok(Some(None));
        }
        for (t, h) in chain.btc_txs.iter() {
            if t == tx_hash {
                return Ok(Some(Some(*h)));
            }
        }
        Ok(None)
    }
}

fn commitment(tag: u8) -> Commitment {
    let mut bytes = [0u8; 33];
    bytes[0] = 8;
    bytes[1] = tag;
    Commitment { bytes }
}

struct MockKeychain {
    tag: u8,
    plans: RefCell<Vec<(String, u64, u64, i128)>>,
}

impl MockKeychain {
    fn spend(&self, plan: &SpendPlan, txid: u8) -> BtcTransaction {
        let total: u64 = plan.outputs.iter().map(|o| o.value).sum();
        self.plans.borrow_mut().push((plan.address.clone(), total, plan.fee, plan.lock_time));
        let locked_on = lock_address(&plan.script, Network::Floonet);
        let mut tx = vec![txid; 32];
        tx.extend_from_slice(locked_on.as_bytes());
        BtcTransaction { txid: Txid { bytes: [txid; 32] }, tx }
    }
}

impl SwapKeychain for MockKeychain {
    fn public_key(&self, key_id: &KeyId) -> Result<PublicKey, ErrorKind> {
        let mut bytes = [0u8; 33];
        bytes[0] = 2;
        bytes[1] = self.tag;
        bytes[2..19].copy_from_slice(&key_id.bytes);
        Ok(PublicKey { bytes })
    }

    fn create_offer_slates(
        &self,
        _context: &Context,
        primary_amount: u64,
        height: u64,
        refund_lock_height: u64,
    ) -> Result<(Slate, Slate), ErrorKind> {
        let lock = Slate {
            id: "lock".to_string(),
            amount: primary_amount,
            fee: 0,
            height,
            lock_height: 0,
            kernel: Some(commitment(1)),
            outputs: vec![commitment(11), commitment(12)],
            seller_signature: Some(Signature { bytes: [1; 64] }),
            buyer_signature: None,
        };
        let refund = Slate {
            id: "refund".to_string(),
            amount: primary_amount,
            fee: 0,
            height,
            lock_height: refund_lock_height,
            kernel: Some(commitment(2)),
            outputs: vec![commitment(21)],
            seller_signature: Some(Signature { bytes: [2; 64] }),
            buyer_signature: None,
        };
        Ok((lock, refund))
    }

    fn accept_offer(&self, context: &Context, offer: &OfferUpdate) -> Result<BuyerShare, ErrorKind> {
        let refund_key = context.unwrap_buyer()?.unwrap_btc()?.refund;
        Ok(BuyerShare {
            redeem_public: PublicKey { bytes: [3; 33] },
            refund: self.public_key(&refund_key)?,
            lock_signature: Signature { bytes: [4; 64] },
            refund_signature: Signature { bytes: [5; 64] },
            redeem_slate: Slate {
                id: "redeem".to_string(),
                amount: offer.primary_amount,
                fee: 0,
                height: offer.lock_slate.height,
                lock_height: 0,
                kernel: Some(Commitment { bytes: [0; 33] }),
                outputs: vec![commitment(31)],
                seller_signature: None,
                buyer_signature: Some(Signature { bytes: [6; 64] }),
            },
        })
    }

    fn adaptor_signature(
        &self,
        _context: &Context,
        _swap: &Swap,
        _redeem_slate: &Slate,
    ) -> Result<Signature, ErrorKind> {
        Ok(Signature { bytes: [7; 64] })
    }

    fn finalize_redeem_slate(&self, _context: &Context, swap: &Swap) -> Result<Slate, ErrorKind> {
        let mut slate = swap.redeem_slate.duplicate();
        slate.kernel = Some(commitment(3));
        slate.seller_signature = swap.adaptor_signature;
        Ok(slate)
    }

    fn sign_redeem_tx(
        &self,
        _context: &Context,
        _swap: &Swap,
        plan: &SpendPlan,
    ) -> Result<BtcTransaction, ErrorKind> {
        Ok(self.spend(plan, 0x11))
    }

    fn sign_refund_tx(
        &self,
        _context: &Context,
        _swap: &Swap,
        plan: &SpendPlan,
    ) -> Result<BtcTransaction, ErrorKind> {
        Ok(self.spend(plan, 0x22))
    }
}

struct MockWallet {
    next_key: u8,
    log: Vec<TxLogEntry>,
    outputs: Vec<OutputData>,
    locked: Vec<String>,
    next_log_id: u32,
    commit_fails: bool,
}

fn key_id(n: u8) -> KeyId {
    let mut bytes = [0u8; 17];
    bytes[0] = 3;
    bytes[12] = n;
    KeyId { bytes }
}

impl WalletBackend for MockWallet {
    fn parent_key_id(&mut self) -> KeyId {
        let mut bytes = [0u8; 17];
        bytes[0] = 2;
        KeyId { bytes }
    }

    fn next_child(&mut self) -> Result<KeyId, ErrorKind> {
        self.next_key += 1;
        Ok(key_id(self.next_key))
    }

    fn select_coins_and_fee(
        &mut self,
        amount: u64,
        _height: u64,
        _minimum_confirmations: u64,
    ) -> Result<CoinSelection, ErrorKind> {
        let fee = 8_000_000;
        let total = amount + fee + 500;
        let root_key_id = self.parent_key_id();
        Ok(CoinSelection {
            outputs: vec![OutputData {
                root_key_id,
                key_id: key_id(200),
                n_child: 200,
                mmr_index: Some(5),
                commit: None,
                value: total,
                status: OutputStatus::Unspent,
                height: 1,
                lock_height: 0,
                is_coinbase: false,
                tx_log_entry: None,
            }],
            total,
            amount,
            fee,
        })
    }

    fn tx_log_iter(&mut self) -> Vec<TxLogEntry> {
        self.log.clone()
    }

    fn lock_tx_context(
        &mut self,
        slate: &Slate,
        _context: &Context,
        name: String,
    ) -> Result<(), ErrorKind> {
        self.locked.push(name.clone());
        let id = self.next_log_id;
        self.next_log_id += 1;
        let parent_key_id = self.parent_key_id();
        self.log.push(TxLogEntry {
            parent_key_id,
            id,
            tx_slate_id: Some(slate.id.clone()),
            tx_type: TxLogEntryType::TxSent,
            address: Some(name),
            amount_credited: 0,
            amount_debited: slate.amount,
            num_inputs: 1,
            num_outputs: 1,
            output_commits: slate.outputs.clone(),
            kernel_excess: slate.kernel,
            kernel_lookup_min_height: Some(slate.height),
            ttl_cutoff_height: None,
            confirmed: false,
        });
        Ok(())
    }

    fn next_tx_log_id(&mut self, _parent_key_id: &KeyId) -> Result<u32, ErrorKind> {
        let id = self.next_log_id;
        self.next_log_id += 1;
        Ok(id)
    }

    fn save_tx_log_entry(
        &mut self,
        entry: TxLogEntry,
        _parent_key_id: &KeyId,
    ) -> Result<(), ErrorKind> {
        self.log.push(entry);
        Ok(())
    }

    fn save(&mut self, output: OutputData) -> Result<(), ErrorKind> {
        self.outputs.push(output);
        Ok(())
    }

    fn commit(&mut self) -> Result<(), ErrorKind> {
        if self.commit_fails {
            return Err(ErrorKind::Generic("the wallet does not commit".to_string()));
        }
        Ok(())
    }
}

struct Party {
    wallet: MockWallet,
    keychain: MockKeychain,
    api: BtcSwapApi<MockNode, MockBtc>,
    store: TradeStore,
    outbox: Rc<RefCell<Vec<Message>>>,
}

impl Party {
    fn new(chain: &Rc<RefCell<Chain>>, tag: u8) -> Party {
        Party {
            wallet: MockWallet {
                next_key: 0,
                log: Vec::new(),
                outputs: Vec::new(),
                locked: Vec::new(),
                next_log_id: 0,
                commit_fails: false,
            },
            keychain: MockKeychain { tag, plans: RefCell::new(Vec::new()) },
            api: BtcSwapApi::new(MockNode(chain.clone()), MockBtc(chain.clone())),
            store: TradeStore::new(),
            outbox: Rc::new(RefCell::new(Vec::new())),
        }
    }

    fn process(
        &mut self,
        id: &str,
        inbox: Option<Message>,
        destination: Option<String>,
        now: i64,
    ) -> Result<StateProcessRespond, ErrorKind> {
        let outbox = self.outbox.clone();
        let sender = move |m: Message| -> Result<(), ErrorKind> {
            outbox.borrow_mut().push(m);
            Ok(())
        };
        let reader = move |_path: String| -> Result<Message, ErrorKind> {
            inbox.ok_or(ErrorKind::Generic("no message at the destination".to_string()))
        };
        swap_process(
            &mut self.wallet,
            &self.keychain,
            &mut self.api,
            &mut self.store,
            id,
            sender,
            reader,
            destination,
            None,
            now,
        )
    }

    fn state(&self, id: &str) -> StateId {
        swap_get(&self.store, id).unwrap().state
    }

    fn sent(&self) -> Message {
        self.outbox.borrow_mut().pop().expect("a message was sent")
    }
}

fn start_args(seller_lock_first: bool) -> SwapStartArgs {
    SwapStartArgs {
        mwc_amount: MWC_AMOUNT,
        minimum_confirmations: None,
        secondary_currency: "btc".to_string(),
        secondary_amount: BTC_AMOUNT,
        secondary_redeem_address: REDEEM_ADDRESS.to_string(),
        seller_lock_first,
        mwc_confirmations: 3,
        secondary_confirmations: 2,
        message_exchange_time_sec: 3600,
        redeem_time_sec: 3600,
    }
}

fn start(seller: &mut Party, id: &str, seller_lock_first: bool) {
    let got = swap_start(
        &mut seller.wallet,
        &seller.keychain,
        &mut seller.api,
        &mut seller.store,
        &start_args(seller_lock_first),
        id.to_string(),
        Network::Floonet,
        START,
    )
    .unwrap();
    assert_eq!(got, id);
    assert_eq!(seller.state(id), StateId::SellerOfferCreated);
}

/// Both parties exchange offer and acceptance; the seller has taken the acceptance in.
fn exchange_offer(seller: &mut Party, buyer: &mut Party, id: &str, seller_lock_first: bool) {
    start(seller, id, seller_lock_first);
    seller.process(id, None, None, START + 1).unwrap();
    assert_eq!(seller.state(id), StateId::SellerWaitingForAcceptanceMessage);
    let offer = seller.sent();
    swap_income_message(
        &mut buyer.wallet,
        &buyer.keychain,
        &mut buyer.api,
        &mut buyer.store,
        offer,
        START + 2,
    )
    .unwrap();
    assert_eq!(buyer.state(id), StateId::BuyerOfferCreated);
    buyer.process(id, None, None, START + 3).unwrap();
    let accept = buyer.sent();
    seller.process(id, Some(accept), Some("accept.json".to_string()), START + 4).unwrap();
}

/// Drives both parties until both locks are on chain and confirmed.
fn lock_both(chain: &Rc<RefCell<Chain>>, seller: &mut Party, buyer: &mut Party, id: &str) {
    let seller_lock_first = swap_get(&seller.store, id).unwrap().seller_lock_first;
    if seller_lock_first {
        assert_eq!(seller.state(id), StateId::SellerPostingLockMwcSlate);
        assert_eq!(buyer.state(id), StateId::BuyerWaitingForSellerToLock);
        let respond = seller.process(id, None, None, START + 10).unwrap();
        assert_eq!(respond.next_state_id, StateId::SellerWaitingForLockConfirmations);
        assert_eq!(seller.state(id), StateId::SellerWaitingForLockConfirmations);
        chain.borrow_mut().mine_mwc(1);
        seller.process(id, None, None, START + 11).unwrap();
        assert_eq!(seller.state(id), StateId::SellerWaitingForLockConfirmations);
    } else {
        assert_eq!(seller.state(id), StateId::SellerWaitingForBuyerLock);
    }
    let respond = buyer.process(id, None, None, START + 12).unwrap();
    assert_eq!(respond.next_state_id, StateId::BuyerPostingSecondaryToMultisigAccount);
    let address = match respond.action {
        Some(Action::DepositSecondary { currency: _, amount, address }) => {
            assert_eq!(amount, BTC_AMOUNT);
            address
        }
        other => panic!("unexpected action {:?}", other),
    };
    chain.borrow_mut().deposit(&address, BTC_AMOUNT, 0x51);
    if !seller_lock_first {
        // The deposit is not mined yet: the seller waits and posts nothing.
        let respond = seller.process(id, None, None, START + 13).unwrap();
        assert_eq!(respond.next_state_id, StateId::SellerWaitingForBuyerLock);
        assert_eq!(
            respond.action,
            Some(Action::WaitForConfirmations {
                mwc_required: 0,
                mwc_actual: 0,
                secondary_required: 1,
                secondary_actual: 0,
            })
        );
        assert!(chain.borrow().mwc_pending.is_empty());
        assert!(seller.wallet.locked.is_empty());
        // With its first confirmation the seller posts its lock in the same step.
        chain.borrow_mut().mine_btc(1);
        let respond = seller.process(id, None, None, START + 14).unwrap();
        assert_eq!(respond.next_state_id, StateId::SellerWaitingForLockConfirmations);
        assert_eq!(seller.state(id), StateId::SellerWaitingForLockConfirmations);
        assert_eq!(chain.borrow().mwc_pending.len(), 1);
        chain.borrow_mut().mine_mwc(1);
        chain.borrow_mut().mine_btc(1);
    } else {
        chain.borrow_mut().mine_btc(2);
    }
    chain.borrow_mut().mine_mwc(2);
}

/// Both parties exchange the redeem messages; the buyer holds the seller's signature.
fn exchange_redeem(seller: &mut Party, buyer: &mut Party, id: &str) {
    buyer.process(id, None, None, START + 20).unwrap();
    assert_eq!(buyer.state(id), StateId::BuyerWaitingForRespondRedeemMessage);
    let init = buyer.sent();
    seller.process(id, Some(init), Some("init.json".to_string()), START + 21).unwrap();
    assert_eq!(seller.state(id), StateId::SellerSendingInitRedeemMessage);
    seller.process(id, None, None, START + 22).unwrap();
    assert_eq!(seller.state(id), StateId::SellerWaitingForBuyerToRedeemMwc);
    let redeem = seller.sent();
    buyer.process(id, Some(redeem), Some("redeem.json".to_string()), START + 23).unwrap();
    assert_eq!(buyer.state(id), StateId::BuyerRedeemMwc);
}

/// Both parties redeem and see their redeems confirmed.
fn redeem_both(chain: &Rc<RefCell<Chain>>, seller: &mut Party, buyer: &mut Party, id: &str) {
    buyer.process(id, None, None, START + 30).unwrap();
    chain.borrow_mut().mine_mwc(3);
    buyer.process(id, None, None, START + 31).unwrap();
    assert_eq!(buyer.state(id), StateId::BuyerSwapComplete);
    seller.process(id, None, None, START + 32).unwrap();
    seller.process(id, None, None, START + 33).unwrap();
    assert_eq!(seller.state(id), StateId::SellerWaitingForRedeemConfirmations);
    chain.borrow_mut().mine_btc(2);
    seller.process(id, None, None, START + 34).unwrap();
    assert_eq!(seller.state(id), StateId::SellerSwapComplete);
}

fn new_chain() -> Rc<RefCell<Chain>> {
    let chain = Rc::new(RefCell::new(Chain::default()));
    chain.borrow_mut().mwc_height = 100;
    chain.borrow_mut().btc_height = 500;
    chain
}

#[test]
fn happy_path_seller_locks_first() {
    let chain = new_chain();
    let mut seller = Party::new(&chain, 1);
    let mut buyer = Party::new(&chain, 2);
    let id = "4e3bb3f1-0d3c-4f4a-9c8e-1f2f3f4f5f60";
    exchange_offer(&mut seller, &mut buyer, id, true);
    lock_both(&chain, &mut seller, &mut buyer, id);
    exchange_redeem(&mut seller, &mut buyer, id);
    redeem_both(&chain, &mut seller, &mut buyer, id);

    // The buyer's wallet has recorded the primary asset that it received.
    assert_eq!(buyer.wallet.outputs.len(), 1);
    assert_eq!(buyer.wallet.outputs[0].value, MWC_AMOUNT);
    assert_eq!(buyer.wallet.outputs[0].status, OutputStatus::Unconfirmed);
    // The seller has spent the whole deposit to its redeem address.
    let plans = seller.keychain.plans.borrow();
    assert_eq!(plans.len(), 1);
    assert_eq!(plans[0].0, REDEEM_ADDRESS);
    assert_eq!(plans[0].1, BTC_AMOUNT);
    assert_eq!(plans[0].2, 1_400);
    // The lock of the primary asset was logged once in the seller's wallet.
    assert_eq!(seller.wallet.locked, vec![format!("Swap {} Lock", id)]);
    assert!(chain.borrow().btc_utxos.is_empty());
}

#[test]
fn happy_path_buyer_locks_first() {
    let chain = new_chain();
    let mut seller = Party::new(&chain, 1);
    let mut buyer = Party::new(&chain, 2);
    let id = "8a6c6a0e-6c5b-4a0b-8a39-0f0e0d0c0b0a";
    exchange_offer(&mut seller, &mut buyer, id, false);
    // The seller has not published anything before the buyer's deposit.
    assert!(chain.borrow().mwc_pending.is_empty());
    assert!(chain.borrow().mwc_kernels.is_empty());
    lock_both(&chain, &mut seller, &mut buyer, id);
    exchange_redeem(&mut seller, &mut buyer, id);
    redeem_both(&chain, &mut seller, &mut buyer, id);
    assert_eq!(seller.state(id), StateId::SellerSwapComplete);
    assert_eq!(buyer.state(id), StateId::BuyerSwapComplete);
}

#[test]
fn buyer_vanishes_before_lock() {
    let chain = new_chain();
    let mut seller = Party::new(&chain, 1);
    let id = "11111111-2222-3333-4444-555555555555";
    start(&mut seller, id, true);
    seller.process(id, None, None, START + 1).unwrap();
    assert_eq!(seller.state(id), StateId::SellerWaitingForAcceptanceMessage);
    // The message exchange time elapses without an answer; the operator cancels.
    let (state, action) =
        swap_adjust(&mut seller.api, &mut seller.store, id, "cancel", START + 3600).unwrap();
    assert_eq!(state, StateId::SellerCancelled);
    assert_eq!(action, Action::Nothing);
    assert_eq!(seller.state(id), StateId::SellerCancelled);
    assert!(chain.borrow().mwc_pending.is_empty());
    assert!(chain.borrow().btc_pending.is_empty());
    assert!(seller.wallet.locked.is_empty());
}

#[test]
fn seller_waiting_for_acceptance_gives_up_at_the_deadline() {
    let chain = new_chain();
    let mut seller = Party::new(&chain, 1);
    let id = "aaaaaaaa-2222-3333-4444-555555555555";
    start(&mut seller, id, true);
    seller.process(id, None, None, START + 1).unwrap();
    let (state, action) =
        get_swap_status_action(&mut seller.api, &mut seller.store, id, START + 3599).unwrap();
    assert_eq!(state, StateId::SellerWaitingForAcceptanceMessage);
    assert_eq!(action, Action::SellerWaitingForOfferMessage);
    let (state, _) =
        get_swap_status_action(&mut seller.api, &mut seller.store, id, START + 3600).unwrap();
    assert_eq!(state, StateId::SellerCancelled);
}

#[test]
fn seller_vanishes_after_lock() {
    let chain = new_chain();
    let mut seller = Party::new(&chain, 1);
    let mut buyer = Party::new(&chain, 2);
    let id = "22222222-3333-4444-5555-666666666666";
    exchange_offer(&mut seller, &mut buyer, id, true);
    lock_both(&chain, &mut seller, &mut buyer, id);
    buyer.process(id, None, None, START + 20).unwrap();
    assert_eq!(buyer.state(id), StateId::BuyerWaitingForRespondRedeemMessage);
    // The seller never answers. At the redeem limit the buyer turns to the refund.
    let respond = buyer.process(id, None, None, START + 3600).unwrap();
    assert_eq!(respond.next_state_id, StateId::BuyerWaitingForRefundTime);
    assert_eq!(respond.time_limit, Some(START + 3600 + 2 * 3600 + 3600));
    let respond = buyer.process(id, None, None, START + 3600 + 2 * 3600 + 3599).unwrap();
    assert_eq!(respond.next_state_id, StateId::BuyerWaitingForRefundTime);
    // The secondary lock expires.
    let lock_time = START + 3600 + 2 * 3600 + 3600;
    let missing = buyer.process(id, None, None, lock_time);
    assert!(matches!(missing, Err(ErrorKind::Generic(_))));
    assert_eq!(buyer.state(id), StateId::BuyerPostingRefundForSecondary);
    buyer.process(id, None, Some(REFUND_ADDRESS.to_string()), lock_time + 1).unwrap();
    chain.borrow_mut().mine_btc(2);
    buyer.process(id, None, None, lock_time + 2).unwrap();
    assert_eq!(buyer.state(id), StateId::BuyerCancelledRefunded);
    let plans = buyer.keychain.plans.borrow();
    assert_eq!(plans.len(), 1);
    assert_eq!(plans[0].0, REFUND_ADDRESS);
    assert_eq!(plans[0].1, BTC_AMOUNT);
    assert_eq!(plans[0].3, lock_time as i128);
    assert!(chain.borrow().btc_utxos.is_empty());
}

#[test]
fn seller_refunds_when_buyer_never_locks() {
    let chain = new_chain();
    let mut seller = Party::new(&chain, 1);
    let mut buyer = Party::new(&chain, 2);
    let id = "33333333-4444-5555-6666-777777777777";
    exchange_offer(&mut seller, &mut buyer, id, true);
    seller.process(id, None, None, START + 10).unwrap();
    chain.borrow_mut().mine_mwc(3);
    seller.process(id, None, None, START + 11).unwrap();
    assert_eq!(seller.state(id), StateId::SellerWaitingForLockConfirmations);
    // The buyer never deposits. At the deadline of the locking the seller waits for the refund height.
    let respond = seller.process(id, None, None, START + 3600).unwrap();
    assert_eq!(respond.next_state_id, StateId::SellerWaitingForRefundHeight);
    assert_eq!(respond.action, None);
    assert_eq!(respond.time_limit, Some(START + 7200));
    // The offer was made at height 100 and covers 7200 seconds: 120 blocks.
    let refund_height = swap_get(&seller.store, id).unwrap().refund_slate.lock_height;
    assert_eq!(refund_height, 220);
    let tip = chain.borrow().mwc_height;
    chain.borrow_mut().mine_mwc(refund_height - tip - 1);
    seller.process(id, None, None, START + 7100).unwrap();
    assert_eq!(seller.state(id), StateId::SellerWaitingForRefundHeight);
    chain.borrow_mut().mine_mwc(1);
    // At the refund height the refund is asked for, posted and waited for.
    let (state, action) =
        get_swap_status_action(&mut seller.api, &mut seller.store, id, START + 7200).unwrap();
    assert_eq!(state, StateId::SellerPostingRefundSlate);
    assert_eq!(action, Action::SellerPublishMwcRefundTx);
    let posted = chain.borrow().mwc_pending.len();
    let respond = seller.process(id, None, None, START + 7201).unwrap();
    assert_eq!(respond.next_state_id, StateId::SellerWaitingForRefundConfirmations);
    assert_eq!(seller.state(id), StateId::SellerWaitingForRefundConfirmations);
    assert_eq!(chain.borrow().mwc_pending.len(), posted + 1);
    chain.borrow_mut().mine_mwc(3);
    seller.process(id, None, None, START + 7202).unwrap();
    assert_eq!(seller.state(id), StateId::SellerCancelledRefunded);
    // The refund is recorded in the seller's wallet as a received transaction.
    assert_eq!(seller.wallet.outputs.len(), 1);
    assert_eq!(seller.wallet.outputs[0].value, MWC_AMOUNT);
    assert_eq!(seller.wallet.outputs[0].lock_height, refund_height);
}

#[test]
fn reorg_regression() {
    let chain = new_chain();
    let mut seller = Party::new(&chain, 1);
    let mut buyer = Party::new(&chain, 2);
    let id = "44444444-5555-6666-7777-888888888888";
    exchange_offer(&mut seller, &mut buyer, id, true);
    lock_both(&chain, &mut seller, &mut buyer, id);
    // The lock has three confirmations, which is the threshold.
    let (state, action) =
        get_swap_status_action(&mut seller.api, &mut seller.store, id, START + 15).unwrap();
    assert_eq!(state, StateId::SellerWaitingForInitRedeemMessage);
    assert_eq!(action, Action::SellerWaitingForInitRedeemMessage);
    // A reorganisation leaves the lock with one confirmation.
    let tip = chain.borrow().mwc_height;
    chain.borrow_mut().reorg_mwc_kernel(&commitment(1), tip);
    let respond = seller.process(id, None, None, START + 16).unwrap();
    assert_eq!(respond.next_state_id, StateId::SellerWaitingForLockConfirmations);
    assert_eq!(
        respond.action,
        Some(Action::WaitForConfirmations {
            mwc_required: 3,
            mwc_actual: 1,
            secondary_required: 2,
            secondary_actual: 2,
        })
    );
    let respond = seller.process(id, None, None, START + 17).unwrap();
    assert_eq!(respond.next_state_id, StateId::SellerWaitingForLockConfirmations);
    chain.borrow_mut().mine_mwc(2);
    let (state, _) =
        get_swap_status_action(&mut seller.api, &mut seller.store, id, START + 18).unwrap();
    assert_eq!(state, StateId::SellerWaitingForInitRedeemMessage);
    exchange_redeem(&mut seller, &mut buyer, id);
    redeem_both(&chain, &mut seller, &mut buyer, id);
    assert_eq!(seller.state(id), StateId::SellerSwapComplete);
    assert_eq!(buyer.state(id), StateId::BuyerSwapComplete);
}

#[test]
fn second_trade_with_the_same_id_is_refused() {
    let chain = new_chain();
    let mut seller = Party::new(&chain, 1);
    let mut buyer = Party::new(&chain, 2);
    let id = "55555555-6666-7777-8888-999999999999";
    start(&mut seller, id, true);
    let again = swap_start(
        &mut seller.wallet,
        &seller.keychain,
        &mut seller.api,
        &mut seller.store,
        &start_args(true),
        id.to_string(),
        Network::Floonet,
        START,
    );
    match again {
        Err(ErrorKind::TradeIoError(trade, _)) => assert_eq!(trade, id),
        other => panic!("unexpected result {:?}", other),
    }
    assert_eq!(swap_list(&seller.store).unwrap().len(), 1);

    seller.process(id, None, None, START + 1).unwrap();
    let offer = seller.sent();
    swap_income_message(
        &mut buyer.wallet,
        &buyer.keychain,
        &mut buyer.api,
        &mut buyer.store,
        offer,
        START + 2,
    )
    .unwrap();
    swap_adjust(&mut seller.api, &mut seller.store, id, "SellerSendingOffer", START + 3).unwrap();
    seller.process(id, None, None, START + 3).unwrap();
    let offer_again = seller.sent();
    let again = swap_income_message(
        &mut buyer.wallet,
        &buyer.keychain,
        &mut buyer.api,
        &mut buyer.store,
        offer_again,
        START + 4,
    );
    assert!(matches!(again, Err(ErrorKind::TradeIoError(_, _))));
    assert_eq!(swap_list(&buyer.store).unwrap().len(), 1);
}

#[test]
fn swap_list_names_the_states() {
    let chain = new_chain();
    let mut seller = Party::new(&chain, 1);
    start(&mut seller, "first", true);
    start(&mut seller, "second", false);
    seller.process("second", None, None, START + 1).unwrap();
    let list = swap_list(&seller.store).unwrap();
    assert_eq!(
        list,
        vec![
            ("first".to_string(), "SellerOfferCreated".to_string()),
            ("second".to_string(), "SellerWaitingForAcceptanceMessage".to_string()),
        ]
    );
}

#[test]
fn swap_start_refuses_unknown_coins_and_bad_terms() {
    let chain = new_chain();
    let mut seller = Party::new(&chain, 1);
    let mut args = start_args(true);
    args.secondary_currency = "xyz".to_string();
    let r = swap_start(
        &mut seller.wallet,
        &seller.keychain,
        &mut seller.api,
        &mut seller.store,
        &args,
        "a".to_string(),
        Network::Floonet,
        START,
    );
    assert!(matches!(r, Err(ErrorKind::InvalidCurrency(_))));
    let mut args = start_args(true);
    args.secondary_currency = "ltc".to_string();
    let r = swap_start(
        &mut seller.wallet,
        &seller.keychain,
        &mut seller.api,
        &mut seller.store,
        &args,
        "a".to_string(),
        Network::Floonet,
        START,
    );
    assert!(matches!(r, Err(ErrorKind::UnexpectedCoinType)));
    let mut args = start_args(true);
    args.secondary_redeem_address = "not an address".to_string();
    let r = swap_start(
        &mut seller.wallet,
        &seller.keychain,
        &mut seller.api,
        &mut seller.store,
        &args,
        "a".to_string(),
        Network::Floonet,
        START,
    );
    assert!(matches!(r, Err(ErrorKind::InvalidAddress(_))));
    // A redeem span of one second cannot cover the block of the refund height.
    let mut args = start_args(true);
    args.message_exchange_time_sec = 1;
    args.redeem_time_sec = 1;
    let r = swap_start(
        &mut seller.wallet,
        &seller.keychain,
        &mut seller.api,
        &mut seller.store,
        &args,
        "a".to_string(),
        Network::Floonet,
        START,
    );
    assert!(matches!(r, Err(ErrorKind::InvalidAmount(_))));
    assert!(swap_list(&seller.store).unwrap().is_empty());
    // None of these reached the wallet.
    assert_eq!(seller.wallet.next_key, 0);
}

#[test]
fn swap_adjust_moves_only_to_states_of_the_party() {
    let chain = new_chain();
    let mut seller = Party::new(&chain, 1);
    let id = "66666666-7777-8888-9999-000000000000";
    start(&mut seller, id, true);
    let r = swap_adjust(&mut seller.api, &mut seller.store, id, "BuyerRedeemMwc", START + 1);
    assert!(matches!(r, Err(ErrorKind::Generic(_))));
    let r = swap_adjust(&mut seller.api, &mut seller.store, id, "NoSuchState", START + 1);
    assert!(matches!(r, Err(ErrorKind::Generic(_))));
    assert_eq!(seller.state(id), StateId::SellerOfferCreated);
    let (state, action) = swap_adjust(
        &mut seller.api,
        &mut seller.store,
        id,
        "SellerWaitingForBuyerToRedeemMwc",
        START + 1,
    )
    .unwrap();
    assert_eq!(state, StateId::SellerWaitingForBuyerToRedeemMwc);
    assert!(matches!(action, Action::WaitForConfirmations { .. }));
    // That state is not cancellable.
    let before = swap_get(&seller.store, id).unwrap();
    let r = swap_adjust(&mut seller.api, &mut seller.store, id, "cancel", START + 2);
    assert!(matches!(r, Err(ErrorKind::NotCancellable)));
    assert_eq!(swap_get(&seller.store, id).unwrap(), before);
    let r = swap_adjust(&mut seller.api, &mut seller.store, "missing", "cancel", START + 2);
    assert!(matches!(r, Err(ErrorKind::TradeIoError(_, _))));
}

#[test]
fn message_of_another_trade_is_refused() {
    let chain = new_chain();
    let mut seller = Party::new(&chain, 1);
    let mut other_seller = Party::new(&chain, 3);
    let mut buyer = Party::new(&chain, 2);
    let id = "77777777-8888-9999-0000-111111111111";
    let other = "88888888-9999-0000-1111-222222222222";
    exchange_offer(&mut other_seller, &mut buyer, other, true);
    start(&mut seller, id, true);
    seller.process(id, None, None, START + 1).unwrap();
    seller.sent();
    // Without a destination there is nothing to read the message from.
    let r = seller.process(id, None, None, START + 2);
    assert!(matches!(r, Err(ErrorKind::Generic(_))));
    // The acceptance of the other trade does not fit this one.
    swap_adjust(&mut buyer.api, &mut buyer.store, other, "BuyerSendingAcceptOfferMessage", START + 2)
        .unwrap();
    buyer.process(other, None, None, START + 3).unwrap();
    let accept = buyer.sent();
    let r = seller.process(id, Some(accept), Some("accept.json".to_string()), START + 4);
    match r {
        Err(ErrorKind::Generic(m)) => {
            assert_eq!(m, format!("Message id {} doesn't match selected trade id", other))
        }
        other => panic!("unexpected result {:?}", other),
    }
    assert_eq!(seller.state(id), StateId::SellerWaitingForAcceptanceMessage);
    let r = seller.process("unknown", None, None, START + 5);
    assert!(matches!(r, Err(ErrorKind::TradeIoError(_, _))));
}

#[test]
fn trade_record_survives_copying() {
    let chain = new_chain();
    let mut seller = Party::new(&chain, 1);
    let id = "99999999-0000-1111-2222-333333333333";
    start(&mut seller, id, true);
    let (context, swap) = seller.store.get_swap_trade(id).unwrap();
    assert_eq!(swap.duplicate(), swap);
    assert_eq!(context.duplicate(), context);
    assert_eq!(swap.unwrap_seller().unwrap(), REDEEM_ADDRESS);
    assert!(swap.is_seller());
    assert_eq!(swap.primary_amount, MWC_AMOUNT);
    assert_eq!(swap.started, START);
    assert_eq!(swap.refund_slate.lock_height, 100 + 120);
    // The change is what the picked outputs leave after amount and fee.
    let seller_context = context.unwrap_seller().unwrap();
    assert_eq!(seller_context.change_amount, 500);
    assert_eq!(seller_context.inputs, vec![(key_id(200), Some(5), MWC_AMOUNT + 8_000_000 + 500)]);
    assert!(context.unwrap_buyer().is_err());
}

#[test]
fn failed_sending_leaves_the_trade_as_checked() {
    let chain = new_chain();
    let mut seller = Party::new(&chain, 1);
    let id = "0a0a0a0a-1111-2222-3333-444444444444";
    start(&mut seller, id, true);
    let sender = |_m: Message| -> Result<(), ErrorKind> {
        Err(ErrorKind::Generic("the line is down".to_string()))
    };
    let reader = |_p: String| -> Result<Message, ErrorKind> {
        Err(ErrorKind::Generic("nothing to read".to_string()))
    };
    let r = swap_process(
        &mut seller.wallet,
        &seller.keychain,
        &mut seller.api,
        &mut seller.store,
        id,
        sender,
        reader,
        None,
        None,
        START + 1,
    );
    match r {
        Err(ErrorKind::Generic(m)) => assert_eq!(m, "the line is down"),
        other => panic!("unexpected result {:?}", other),
    }
    // The check has moved the trade on; the failed sending has not.
    let kept = swap_get(&seller.store, id).unwrap();
    assert_eq!(kept.state, StateId::SellerSendingOffer);
    assert_eq!(kept.last_check_error, None);
    assert!(kept.journal.is_empty());
    // Nothing to carry out: the answer is that of the check.
    swap_adjust(&mut seller.api, &mut seller.store, id, "SellerWaitingForBuyerToRedeemMwc", START)
        .unwrap();
    let r = seller.process(id, None, None, START + 2).unwrap();
    assert_eq!(r.next_state_id, StateId::SellerWaitingForBuyerToRedeemMwc);
    assert_eq!(
        r.action,
        Some(Action::WaitForConfirmations {
            mwc_required: 1,
            mwc_actual: 0,
            secondary_required: 0,
            secondary_actual: 0,
        })
    );
    assert_eq!(r.time_limit, Some(START + 7200));
}

fn income(party: &mut Party, message: Message, now: i64) -> Result<(), ErrorKind> {
    swap_income_message(
        &mut party.wallet,
        &party.keychain,
        &mut party.api,
        &mut party.store,
        message,
        now,
    )
}

/// The buyer sends its acceptance once more.
fn acceptance_again(buyer: &mut Party, id: &str, now: i64) -> Message {
    swap_adjust(&mut buyer.api, &mut buyer.store, id, "BuyerSendingAcceptOfferMessage", now)
        .unwrap();
    buyer.process(id, None, None, now).unwrap();
    buyer.sent()
}

#[test]
fn repeated_message_changes_nothing_but_the_journal() {
    let chain = new_chain();
    let mut seller = Party::new(&chain, 1);
    let mut buyer = Party::new(&chain, 2);
    let id = "1b1b1b1b-1111-2222-3333-444444444444";
    exchange_offer(&mut seller, &mut buyer, id, true);
    let before = swap_get(&seller.store, id).unwrap();
    let again = acceptance_again(&mut buyer, id, START + 5);
    income(&mut seller, again, START + 6).unwrap();
    let after = swap_get(&seller.store, id).unwrap();
    assert_eq!(after.state, before.state);
    assert_eq!(after.redeem_public, before.redeem_public);
    assert_eq!(after.lock_slate, before.lock_slate);
    assert_eq!(after.refund_slate, before.refund_slate);
    assert_eq!(after.secondary_data, before.secondary_data);
    assert_eq!(after.journal.len(), before.journal.len() + 1);
    assert_eq!(after.journal.last().unwrap(), "duplicate message");
    assert_eq!(seller.wallet.next_key, 4);
}

#[test]
fn message_out_of_order_is_refused_before_the_nodes_are_asked() {
    let chain = new_chain();
    let mut seller = Party::new(&chain, 1);
    let mut buyer = Party::new(&chain, 2);
    let id = "2c2c2c2c-1111-2222-3333-444444444444";
    start(&mut seller, id, true);
    seller.process(id, None, None, START + 1).unwrap();
    let offer = seller.sent();
    income(&mut buyer, offer, START + 2).unwrap();
    buyer.process(id, None, None, START + 3).unwrap();
    let accept = buyer.sent();
    // The seller is back where it has not sent its offer yet.
    swap_adjust(&mut seller.api, &mut seller.store, id, "SellerOfferCreated", START + 3).unwrap();
    assert_eq!(seller.state(id), StateId::SellerSendingOffer);
    let before = swap_get(&seller.store, id).unwrap();
    chain.borrow_mut().nodes_down = true;
    let r = income(&mut seller, accept, START + 4);
    assert!(matches!(r, Err(ErrorKind::UnexpectedMessageType(_))));
    assert_eq!(swap_get(&seller.store, id).unwrap(), before);
    // A message that the trade waits for does ask the nodes.
    chain.borrow_mut().nodes_down = false;
    seller.process(id, None, None, START + 5).unwrap();
    seller.sent();
    let accept = acceptance_again(&mut buyer, id, START + 6);
    chain.borrow_mut().nodes_down = true;
    let r = income(&mut seller, accept, START + 7);
    assert!(matches!(r, Err(ErrorKind::NodeError(_, _))));
    assert_eq!(seller.state(id), StateId::SellerWaitingForAcceptanceMessage);
    // The trade that has ended takes no message at all.
    chain.borrow_mut().nodes_down = false;
    swap_adjust(&mut seller.api, &mut seller.store, id, "cancel", START + 8).unwrap();
    assert_eq!(seller.state(id), StateId::SellerCancelled);
    let accept = acceptance_again(&mut buyer, id, START + 9);
    let r = income(&mut seller, accept, START + 10);
    assert!(matches!(r, Err(ErrorKind::StateMismatch(_))));
    assert_eq!(seller.state(id), StateId::SellerCancelled);
}

#[test]
fn offer_that_is_not_in_order_leaves_the_wallet_alone() {
    let chain = new_chain();
    let mut seller = Party::new(&chain, 1);
    let mut buyer = Party::new(&chain, 2);
    let id = "3d3d3d3d-1111-2222-3333-444444444444";
    start(&mut seller, id, true);
    seller.process(id, None, None, START + 1).unwrap();
    let mut offer = seller.sent();
    match &mut offer.inner {
        mwc_swap::message::Update::Offer(o) => o.refund_slate.lock_height += 1,
        other => panic!("unexpected message {:?}", other),
    }
    let r = income(&mut buyer, offer, START + 2);
    assert!(matches!(r, Err(ErrorKind::InvalidAmount(_))));
    assert_eq!(buyer.wallet.next_key, 0);
    assert!(swap_list(&buyer.store).unwrap().is_empty());
    // An empty message is refused as well.
    let empty = Message {
        id: id.to_string(),
        inner: mwc_swap::message::Update::Empty,
        secondary_update: mwc_swap::message::SecondaryUpdate::Empty,
    };
    let r = income(&mut buyer, empty, START + 3);
    assert!(matches!(r, Err(ErrorKind::Generic(_))));
    assert_eq!(buyer.wallet.next_key, 0);
}

#[test]
fn balance_gives_the_outputs_in_the_order_of_their_transactions() {
    let chain = new_chain();
    let mut seller = Party::new(&chain, 1);
    let mut buyer = Party::new(&chain, 2);
    let id = "4e4e4e4e-1111-2222-3333-444444444444";
    exchange_offer(&mut seller, &mut buyer, id, true);
    let swap = swap_get(&buyer.store, id).unwrap();
    let script = buyer.api.script(&swap).unwrap();
    let address = lock_address(&script, Network::Floonet);
    chain.borrow_mut().deposit(&address, 300, 0x51);
    chain.borrow_mut().deposit(&address, 100, 0x20);
    chain.borrow_mut().deposit(&address, 200, 0x33);
    chain.borrow_mut().mine_btc(1);
    chain.borrow_mut().deposit(&address, 50, 0x01);
    let (pending, confirmed, least, outputs) = buyer.api.btc_balance(&swap, &script, 1).unwrap();
    assert_eq!((pending, confirmed, least), (50, 600, 0));
    let tags: Vec<u8> = outputs.iter().map(|o| o.out_point.txid.bytes[0]).collect();
    assert_eq!(tags, vec![0x20, 0x33, 0x51]);
    // The same outputs in another order give the same list.
    chain.borrow_mut().btc_utxos.reverse();
    let again = buyer.api.btc_balance(&swap, &script, 1).unwrap();
    assert_eq!(again.3, outputs);
}

#[test]
fn status_check_records_the_failure_of_the_nodes() {
    let chain = new_chain();
    let mut seller = Party::new(&chain, 1);
    let id = "5f5f5f5f-1111-2222-3333-444444444444";
    start(&mut seller, id, true);
    chain.borrow_mut().nodes_down = true;
    let r = get_swap_status_action(&mut seller.api, &mut seller.store, id, START + 1);
    assert!(matches!(r, Err(ErrorKind::NodeError(_, _))));
    let kept = swap_get(&seller.store, id).unwrap();
    assert_eq!(kept.state, StateId::SellerOfferCreated);
    assert!(kept.last_check_error.is_some());
    assert!(kept.journal.last().unwrap().starts_with("Processing error: "));
    chain.borrow_mut().nodes_down = false;
    let (state, action) =
        get_swap_status_action(&mut seller.api, &mut seller.store, id, START + 2).unwrap();
    assert_eq!(state, StateId::SellerSendingOffer);
    assert!(matches!(action, Action::SellerSendOfferMessage(_)));
    assert_eq!(swap_get(&seller.store, id).unwrap().last_check_error, None);
}

#[test]
fn refund_of_the_secondary_asset_needs_an_address_that_parses() {
    let chain = new_chain();
    let mut seller = Party::new(&chain, 1);
    let mut buyer = Party::new(&chain, 2);
    let id = "6a6a6a6a-1111-2222-3333-444444444444";
    exchange_offer(&mut seller, &mut buyer, id, true);
    lock_both(&chain, &mut seller, &mut buyer, id);
    swap_adjust(&mut buyer.api, &mut buyer.store, id, "BuyerPostingRefundForSecondary", START + 20)
        .unwrap();
    let before = swap_get(&buyer.store, id).unwrap();
    let r = buyer.process(id, None, None, START + 21);
    assert!(matches!(r, Err(ErrorKind::Generic(_))));
    let r = buyer.process(id, None, Some("not an address".to_string()), START + 22);
    assert!(matches!(r, Err(ErrorKind::InvalidAddress(_))));
    let kept = swap_get(&buyer.store, id).unwrap();
    assert_eq!(kept.state, before.state);
    assert_eq!(kept.secondary_data, before.secondary_data);
    assert!(buyer.keychain.plans.borrow().is_empty());
}

#[test]
fn lock_that_is_not_posted_leaves_the_trade_as_checked() {
    let chain = new_chain();
    let mut seller = Party::new(&chain, 1);
    let mut buyer = Party::new(&chain, 2);
    let id = "7b7b7b7b-1111-2222-3333-444444444444";
    exchange_offer(&mut seller, &mut buyer, id, true);
    assert_eq!(seller.state(id), StateId::SellerPostingLockMwcSlate);
    chain.borrow_mut().posting_down = true;
    let r = seller.process(id, None, None, START + 10);
    assert!(matches!(r, Err(ErrorKind::NodeError(_, _))));
    assert_eq!(seller.state(id), StateId::SellerPostingLockMwcSlate);
    assert!(chain.borrow().mwc_pending.is_empty());
    // The next attempt posts the lock; the wallet has taken note of it once.
    chain.borrow_mut().posting_down = false;
    let respond = seller.process(id, None, None, START + 11).unwrap();
    assert_eq!(respond.next_state_id, StateId::SellerWaitingForLockConfirmations);
    assert_eq!(seller.state(id), StateId::SellerWaitingForLockConfirmations);
    assert_eq!(chain.borrow().mwc_pending.len(), 1);
    assert_eq!(seller.wallet.locked, vec![format!("Swap {} Lock", id)]);
    assert_eq!(seller.wallet.log.len(), 1);
}

#[test]
fn redeem_is_told_to_the_machine_before_the_wallet_records_it() {
    let chain = new_chain();
    let mut seller = Party::new(&chain, 1);
    let mut buyer = Party::new(&chain, 2);
    let id = "8c8c8c8c-1111-2222-3333-444444444444";
    exchange_offer(&mut seller, &mut buyer, id, true);
    lock_both(&chain, &mut seller, &mut buyer, id);
    exchange_redeem(&mut seller, &mut buyer, id);
    buyer.wallet.commit_fails = true;
    let r = buyer.process(id, None, None, START + 30);
    assert!(matches!(r, Err(ErrorKind::Generic(_))));
    // The redeem is posted and the trade has moved on all the same.
    assert_eq!(chain.borrow().mwc_pending.len(), 1);
    assert_eq!(buyer.state(id), StateId::BuyerWaitForRedeemMwcConfirmations);
    let kept = swap_get(&buyer.store, id).unwrap();
    assert!(kept.redeem_slate.kernel.is_some() && kept.redeem_slate.is_signed());
}
