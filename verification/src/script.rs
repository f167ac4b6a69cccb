//! Secondary-chain lock script and addresses, built with the `bitcoin` crate.

use vstd::prelude::*;
use bitcoin::blockdata::opcodes::All;
use bitcoin::blockdata::script::{Builder, Script};
use bitcoin::network::constants::Network as BtcNetwork;
use bitcoin::util::address::Address;
use std::str::FromStr;
use crate::types::Network;

verus! {

/// Branch opcode that opens the refund path.
pub const OP_IF: u8 = 0x63;

/// Branch opcode that opens the redeem path.
pub const OP_ELSE: u8 = 0x67;

/// Closes the two branches.
pub const OP_ENDIF: u8 = 0x68;

/// Drops the lock time left on the stack by the lock-time check.
pub const OP_DROP: u8 = 0x75;

/// Single signature check.
pub const OP_CHECKSIG: u8 = 0xac;

/// Multi-signature check.
pub const OP_CHECKMULTISIG: u8 = 0xae;

/// Fails unless the spending transaction's lock time has reached the operand.
pub const OP_CLTV: u8 = 0xb1;

/// Pushes the number two.
pub const OP_PUSHNUM_2: u8 = 0x52;

/// The largest magnitude of a number that the script builder is handed.
/// The builder computes in the pointer-sized integer of the machine, which
/// holds 32 bits at least; a lock time of the secondary chain has 32 bits.
pub const SCRIPT_INT_LIMIT: i64 = 0xffff_ffff;

/// Pushes the number minus one.
pub const OP_PUSHNUM_NEG1: u8 = 0x4f;

/// Pushes an empty byte string, the number zero.
pub const OP_FALSE: u8 = 0x00;

/// The number `abs` in the script's number format: its bytes, least
/// significant first, with the sign in the highest bit of the last byte;
/// where the number itself fills that bit, the sign has a byte of its own.
pub open spec fn sign_magnitude(abs: nat, negative: bool) -> Seq<u8>
    decreases abs,
{
    if abs > 0xff {
        seq![(abs % 0x100) as u8] + sign_magnitude(abs / 0x100, negative)
    } else if abs >= 0x80 {
        seq![abs as u8, if negative { 0x80u8 } else { 0u8 }]
    } else if negative {
        seq![(abs + 0x80) as u8]
    } else {
        seq![abs as u8]
    }
}

/// The instruction bytes with which the script builder pushes the
/// integer `n`: the opcode of its own that minus one, zero and the numbers
/// from one to sixteen have, else the length of the number in the script's
/// number format and then that number.
pub open spec fn script_int_push(n: int) -> Seq<u8> {
    if n == -1 {
        seq![OP_PUSHNUM_NEG1]
    } else if n == 0 {
        seq![OP_FALSE]
    } else if 1 <= n <= 16 {
        seq![(0x50 + n) as u8]
    } else if n < 0 {
        seq![sign_magnitude((-n) as nat, true).len() as u8] + sign_magnitude((-n) as nat, true)
    } else {
        seq![sign_magnitude(n as nat, false).len() as u8] + sign_magnitude(n as nat, false)
    }
}

/// Whether the `bitcoin` crate parses `text` as an address.
pub uninterp spec fn btc_address_valid(text: Seq<char>) -> bool;

/// Text of the pay-to-script-hash address of `script` on the main network
/// (`mainnet`) or the test network, as the `bitcoin` crate renders it.
pub uninterp spec fn p2sh_address_text(script: Seq<u8>, mainnet: bool) -> Seq<char>;

/// Calls `Builder::push_opcode` on an empty builder and takes the bytes of
/// the script: the one byte of the opcode.
#[verifier::external_body]
fn opcode_script(opcode: u8) -> (r: Vec<u8>)
    ensures
        r@ == seq![opcode],
{
    Builder::new().push_opcode(All::from(opcode)).into_script().into_bytes()
}

/// Calls `Builder::push_int` on an empty builder and takes the bytes of the
/// script: the instruction that pushes `n`, as `script_int_push` states it
/// after the builder's source. The builder negates a negative `n` and goes
/// through the pointer-sized integer, so numbers beyond `SCRIPT_INT_LIMIT`
/// are left out.
#[verifier::external_body]
fn int_script(n: i64) -> (r: Vec<u8>)
    requires
        -SCRIPT_INT_LIMIT <= n <= SCRIPT_INT_LIMIT,
    ensures
        r@ == script_int_push(n as int),
{
    Builder::new().push_int(n).into_script().into_bytes()
}

/// Calls `Builder::push_slice` on an empty builder and takes the bytes of
/// the script: for data shorter than 76 bytes the length byte and then the
/// data.
#[verifier::external_body]
fn key_script(data: &[u8; 33]) -> (r: Vec<u8>)
    ensures
        r@ == seq![33u8] + data@,
{
    Builder::new().push_slice(&data[..]).into_script().into_bytes()
}

/// Calls `Address::from_str` and tells whether it returned an address.
#[verifier::external_body]
fn address_parses(text: &str) -> (r: bool)
    ensures
        r == btc_address_valid(text@),
{
    Address::from_str(text).is_ok()
}

/// Calls `Address::p2sh` on `script` and renders the address as text.
#[verifier::external_body]
fn p2sh_address(script: &Vec<u8>, mainnet: bool) -> (r: String)
    ensures
        r@ == p2sh_address_text(script@, mainnet),
{
    let network = if mainnet { BtcNetwork::Bitcoin } else { BtcNetwork::Testnet };
    Address::p2sh(&Script::from(script.clone()), network).to_string()
}

/// Bytes of the lock script: the refund key may spend alone once the
/// spending transaction's lock time has reached `lock_time`; before that
/// the cosign and the redeem key spend together.
pub open spec fn lock_script_bytes(
    refund: Seq<u8>,
    cosign: Seq<u8>,
    redeem: Seq<u8>,
    lock_time: int,
) -> Seq<u8> {
    seq![OP_IF] + script_int_push(lock_time) + seq![OP_CLTV, OP_DROP, 33u8] + refund
        + seq![OP_CHECKSIG, OP_ELSE, OP_PUSHNUM_2, 33u8] + cosign + seq![33u8] + redeem
        + seq![OP_PUSHNUM_2, OP_CHECKMULTISIG, OP_ENDIF]
}

/// Builds the lock script of a trade.
pub fn build_lock_script(
    refund: &[u8; 33],
    cosign: &[u8; 33],
    redeem: &[u8; 33],
    lock_time: i64,
) -> (script: Vec<u8>)
    requires
        -SCRIPT_INT_LIMIT <= lock_time <= SCRIPT_INT_LIMIT,
    ensures
        script@ == lock_script_bytes(refund@, cosign@, redeem@, lock_time as int),
{
    let mut script: Vec<u8> = Vec::new();
    let mut part = opcode_script(OP_IF);
    script.append(&mut part);
    let mut part = int_script(lock_time);
    script.append(&mut part);
    let mut part = opcode_script(OP_CLTV);
    script.append(&mut part);
    let mut part = opcode_script(OP_DROP);
    script.append(&mut part);
    let mut part = key_script(refund);
    script.append(&mut part);
    let mut part = opcode_script(OP_CHECKSIG);
    script.append(&mut part);
    let mut part = opcode_script(OP_ELSE);
    script.append(&mut part);
    let mut part = opcode_script(OP_PUSHNUM_2);
    script.append(&mut part);
    let mut part = key_script(cosign);
    script.append(&mut part);
    let mut part = key_script(redeem);
    script.append(&mut part);
    let mut part = opcode_script(OP_PUSHNUM_2);
    script.append(&mut part);
    let mut part = opcode_script(OP_CHECKMULTISIG);
    script.append(&mut part);
    let mut part = opcode_script(OP_ENDIF);
    script.append(&mut part);
    assert(script@ =~= lock_script_bytes(refund@, cosign@, redeem@, lock_time as int));
    script
}

/// Whether `text` is an address of the secondary chain.
pub fn is_valid_address(text: &str) -> (r: bool)
    ensures
        r == btc_address_valid(text@),
{
    address_parses(text)
}

/// Text of the pay-to-script-hash address that locks funds under `script`
/// on `network`.
pub fn lock_address(script: &Vec<u8>, network: Network) -> (r: String)
    ensures
        r@ == p2sh_address_text(script@, network == Network::Mainnet),
{
    match network {
        Network::Mainnet => p2sh_address(script, true),
        Network::Floonet => p2sh_address(script, false),
    }
}

} // verus!
