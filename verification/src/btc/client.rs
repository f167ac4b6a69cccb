//! The collaborators of the adapter: the nodes of both chains and the keychain.

use vstd::prelude::*;
use crate::error::ErrorKind;
use crate::message::OfferUpdate;
use crate::swap::{Slate, Swap};
use crate::types::{
    BtcTransaction, Commitment, Context, KeyId, Output, PublicKey, Signature, Txid,
};

verus! {

/// Node of the primary chain.
pub trait NodeClient {
    /// Height of the chain and the hash of its tip.
    fn get_chain_tip(&mut self) -> Result<(u64, String), ErrorKind>;

    /// Height and position of the kernel with this excess, if the chain
    /// holds it between the two heights.
    fn get_kernel(
        &mut self,
        excess: &Commitment,
        min_height: Option<u64>,
        max_height: Option<u64>,
    ) -> Result<Option<(u64, u64)>, ErrorKind>;

    /// For each of these outputs that the chain holds: its commitment, its
    /// height and its position. A node answers with a map from commitments;
    /// here its entries come as a list, in whatever order, and what is
    /// made of them does not depend on the order nor on an entry named twice.
    fn get_outputs_from_node(&mut self, commits: &Vec<Commitment>) -> Result<
        Vec<(Commitment, u64, u64)>,
        ErrorKind,
    >;

    /// Publishes the transaction of the slate.
    fn post_tx(&mut self, slate: &Slate) -> Result<(), ErrorKind>;
}

/// Node of the secondary chain.
pub trait BtcNodeClient {
    /// Name of the client, as a rule its address.
    fn name(&self) -> String;

    /// Height of the chain.
    fn height(&mut self) -> Result<u64, ErrorKind>;

    /// The unspent outputs on the address.
    fn unspent(&mut self, address: &String) -> Result<Vec<Output>, ErrorKind>;

    /// Publishes a transaction.
    fn post_tx(&mut self, tx: Vec<u8>) -> Result<(), ErrorKind>;

    /// Whether the node knows the transaction, and if so the height at which
    /// it is mined, if it is.
    fn transaction(&mut self, tx_hash: &Txid) -> Result<Option<Option<u64>>, ErrorKind>;
}

/// What the buyer adds to an offer when it accepts it.
#[derive(Debug, PartialEq, Eq)]
pub struct BuyerShare {
    /// The public point whose discrete log is the redeem secret.
    pub redeem_public: PublicKey,
    /// The buyer's key of the refund branch of the lock script.
    pub refund: PublicKey,
    /// The buyer's partial signature on the lock slate.
    pub lock_signature: Signature,
    /// The buyer's partial signature on the refund slate.
    pub refund_signature: Signature,
    /// The redeem slate with the buyer's partial signature.
    pub redeem_slate: Slate,
}

/// What a secondary-chain transaction that empties the lock address is made of.
#[derive(Debug, PartialEq, Eq)]
pub struct SpendPlan {
    /// Where the funds go.
    pub address: String,
    /// The lock script that the inputs are held under.
    pub script: Vec<u8>,
    /// Fee in satoshi per thousand bytes.
    pub fee: u64,
    /// The lock time of the transaction.
    pub lock_time: i128,
    /// The outputs to spend, in the order of their transactions' identifiers.
    pub outputs: Vec<Output>,
}

/// The keychain of the wallet, as far as a trade needs it.
pub trait SwapKeychain {
    /// The public key of a key of the wallet.
    fn public_key(&self, key_id: &KeyId) -> Result<PublicKey, ErrorKind>;

    /// The lock and the refund slate of a new offer, signed by the seller.
    fn create_offer_slates(
        &self,
        context: &Context,
        primary_amount: u64,
        height: u64,
        refund_lock_height: u64,
    ) -> Result<(Slate, Slate), ErrorKind>;

    /// What the buyer adds to the offer.
    fn accept_offer(&self, context: &Context, offer: &OfferUpdate) -> Result<
        BuyerShare,
        ErrorKind,
    >;

    /// The seller's adaptor signature on the redeem slate.
    fn adaptor_signature(&self, context: &Context, swap: &Swap, redeem_slate: &Slate) -> Result<
        Signature,
        ErrorKind,
    >;

    /// The redeem slate, completed by the buyer with the seller's adaptor signature.
    fn finalize_redeem_slate(&self, context: &Context, swap: &Swap) -> Result<Slate, ErrorKind>;

    /// The signed transaction with which the seller redeems the secondary asset.
    fn sign_redeem_tx(&self, context: &Context, swap: &Swap, plan: &SpendPlan) -> Result<
        BtcTransaction,
        ErrorKind,
    >;

    /// The signed transaction with which the buyer takes the secondary asset back.
    fn sign_refund_tx(&self, context: &Context, swap: &Swap, plan: &SpendPlan) -> Result<
        BtcTransaction,
        ErrorKind,
    >;
}

} // verus!
