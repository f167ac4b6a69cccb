//! Key paths of identifiers, and the fresh nonces of the signing context.

use vstd::prelude::*;
use crate::error::ErrorKind;
use crate::types::{KeyId, SecretNonce};
use grin_util::secp::aggsig::export_secnonce_single;
use grin_util::static_secp_instance;

verus! {

/// Error of the signing context.
#[verifier::external_type_specification]
#[verifier::external_body]
pub struct ExSecpError(grin_util::secp::Error);

/// Deepest key path that an identifier can hold.
pub const MAX_PATH_DEPTH: u8 = 4;

/// The number that four bytes from `at` on stand for, most significant byte first.
pub open spec fn be_u32(bytes: Seq<u8>, at: int) -> u32 {
    (bytes[at] * 0x100_0000 + bytes[at + 1] * 0x1_0000 + bytes[at + 2] * 0x100 + bytes[at
        + 3]) as u32
}

/// The last element of the key path that an identifier holds: zero for
/// the root, else the element at the depth that the first byte gives.
pub open spec fn spec_last_path_index(bytes: Seq<u8>) -> u32 {
    if bytes[0] == 0 {
        0
    } else {
        be_u32(bytes, 1 + 4 * (bytes[0] - 1))
    }
}

/// Calls `aggsig::export_secnonce_single` with the shared signing context
/// and hands out the bytes of the nonce. The nonce is random, so nothing
/// is promised of it.
#[verifier::external_body]
fn export_secnonce() -> (r: Result<[u8; 32], grin_util::secp::Error>) {
    let secp = static_secp_instance();
    let secp = secp.lock();
    export_secnonce_single(&secp).map(|key| key.0)
}

impl KeyId {
    /// The last element of the key path, as the keychain reads it from an
    /// identifier, or `None` where the depth is beyond what an identifier
    /// can hold.
    pub fn last_path_index(&self) -> (r: Option<u32>)
        ensures
            self.bytes@[0] <= MAX_PATH_DEPTH ==> r == Some(spec_last_path_index(self.bytes@)),
            self.bytes@[0] > MAX_PATH_DEPTH ==> r is None,
    {
        let depth = self.bytes[0];
        if depth > MAX_PATH_DEPTH {
            None
        } else if depth == 0 {
            Some(0)
        } else {
            let at: usize = 1 + 4 * (depth as usize - 1);
            let n: u32 = self.bytes[at] as u32 * 0x100_0000 + self.bytes[at + 1] as u32 * 0x1_0000
                + self.bytes[at + 2] as u32 * 0x100 + self.bytes[at + 3] as u32;
            Some(n)
        }
    }
}

/// The nonce that the signing context handed out, or `Secp` where it failed.
pub fn nonce_of(exported: Result<[u8; 32], grin_util::secp::Error>) -> (r: Result<
    SecretNonce,
    ErrorKind,
>)
    ensures
        match exported {
            Ok(bytes) => r == Ok::<SecretNonce, ErrorKind>(SecretNonce { bytes }),
            Err(_) => r matches Err(ErrorKind::Secp(_)),
        },
{
    match exported {
        Ok(bytes) => Ok(SecretNonce { bytes }),
        Err(_) => Err(ErrorKind::Secp("Unable to generate a nonce".to_owned())),
    }
}

/// A fresh secret nonce; `Secp` where the signing context fails.
pub fn generate_nonce() -> (r: Result<SecretNonce, ErrorKind>)
    ensures
        r is Err ==> r->Err_0 matches ErrorKind::Secp(_),
{
    nonce_of(export_secnonce())
}

} // verus!
