//! The cryptographic primitives the library takes from outside: SHA-256,
//! secp256k1 key validation and public-key derivation, and the node's key
//! manager. Each is reached through one small function whose contract is
//! believed, not proved.

use lightning::sign::EntropySource;
use lightning::sign::KeysManager;
use sha2::Digest;
use std::sync::Arc;
use vstd::prelude::*;

verus! {

/// The value of a byte string read as a big-endian number.
pub open spec fn be_value(bytes: Seq<u8>) -> nat
    decreases bytes.len(),
{
    if bytes.len() == 0 {
        0
    } else {
        be_value(bytes.drop_last()) * 256 + bytes.last() as nat
    }
}

/// The order of the secp256k1 group.
pub open spec fn curve_order() -> nat {
    0xFFFFFFFFFFFFFFFFFFFFFFFFFFFFFFFEBAAEDCE6AF48A03BBFD25E8CD0364141nat
}

/// Whether 32 bytes are a usable secret scalar: non-zero and below the
/// group order when read most significant byte first.
pub open spec fn valid_secret_scalar(bytes: Seq<u8>) -> bool {
    &&& bytes.len() == 32
    &&& 0 < be_value(bytes)
    &&& be_value(bytes) < curve_order()
}

/// The SHA-256 digest of a message, as `sha2` computes it.
pub uninterp spec fn sha256(data: Seq<u8>) -> Seq<u8>;

/// The SHA-256 digest of a message, as `bitcoin::hashes` computes it.
pub uninterp spec fn bitcoin_sha256(data: Seq<u8>) -> Seq<u8>;

/// The compressed encoding of the curve point that belongs to a secret
/// scalar.
pub uninterp spec fn secp256k1_public_key(secret: Seq<u8>) -> Seq<u8>;

/// Calls `sha2::Sha256::digest`. Trusted: the 32 bytes returned are the
/// digest of `data`, a function of `data` alone.
#[verifier::external_body]
pub(crate) fn sha256_digest(data: &[u8]) -> (res: [u8; 32])
    ensures
        res@ == sha256(data@),
{
    sha2::Sha256::digest(data).into()
}

/// Calls `bitcoin::hashes::sha256::Hash::hash`. Trusted: the 32 bytes
/// returned are the digest of `data`, a function of `data` alone.
#[verifier::external_body]
pub(crate) fn bitcoin_sha256_digest(data: &[u8; 32]) -> (res: [u8; 32])
    ensures
        res@ == bitcoin_sha256(data@),
{
    let digest = <bitcoin::hashes::sha256::Hash as bitcoin::hashes::Hash>::hash(data);
    <bitcoin::hashes::sha256::Hash as bitcoin::hashes::Hash>::to_byte_array(digest)
}

/// Calls `secp256k1::SecretKey::from_slice` and reports whether it
/// accepted the bytes. Trusted: it accepts exactly the 32-byte strings
/// that are non-zero and below the group order.
#[verifier::external_body]
pub(crate) fn secret_key_accepted(bytes: &[u8; 32]) -> (res: bool)
    ensures
        res == valid_secret_scalar(bytes@),
{
    bitcoin::secp256k1::SecretKey::from_slice(bytes).is_ok()
}

/// Calls `secp256k1::PublicKey::from_secret_key` and serializes the point
/// in compressed form. Trusted: the 33 bytes returned are a function of
/// the secret alone.
#[verifier::external_body]
pub(crate) fn public_key_of_secret(secret: &[u8; 32]) -> (res: [u8; 33])
    requires
        valid_secret_scalar(secret@),
    ensures
        res@ == secp256k1_public_key(secret@),
{
    let ctx = bitcoin::secp256k1::Secp256k1::new();
    let key = bitcoin::secp256k1::SecretKey::from_slice(secret).unwrap();
    bitcoin::secp256k1::PublicKey::from_secret_key(&ctx, &key).serialize()
}

/// The HMAC-SHA256 tag of a message under a key, as `hmac` computes it.
pub uninterp spec fn hmac_sha256(key: Seq<u8>, data: Seq<u8>) -> Seq<u8>;

/// Calls `hmac::Hmac::<Sha256>`: `new_from_slice`, `update`, `finalize`.
/// Trusted: the 32 bytes returned are the tag of `data` under `key`, a
/// function of the two alone. Every key length is accepted.
#[verifier::external_body]
pub(crate) fn hmac_sha256_tag(key: &[u8], data: &[u8]) -> (res: [u8; 32])
    ensures
        res@ == hmac_sha256(key@, data@),
{
    let mut mac = <hmac::Hmac<sha2::Sha256> as hmac::Mac>::new_from_slice(key).unwrap();
    hmac::Mac::update(&mut mac, data);
    hmac::Mac::finalize(mac).into_bytes().into()
}

/// Calls `hex::encode`. Trusted: the text returned has two lower-case
/// hexadecimal digits for each byte, the high nibble first.
#[verifier::external_body]
pub(crate) fn hex_text(data: &[u8]) -> (res: String)
    ensures
        res@ == crate::types::hex_encode(data@),
{
    hex::encode(data)
}

/// The key manager of the underlying node.
#[verifier::external_type_specification]
#[verifier::external_body]
pub struct ExKeysManager(KeysManager);

/// Calls `KeysManager::get_node_secret_key`. Nothing is claimed of the
/// bytes returned.
#[verifier::external_body]
pub(crate) fn node_secret_bytes(keys: &Arc<KeysManager>) -> (res: [u8; 32]) {
    keys.get_node_secret_key().secret_bytes()
}

/// Calls `KeysManager::get_secure_random_bytes`. Nothing is claimed of
/// the bytes returned: every call may give another value.
#[verifier::external_body]
pub(crate) fn secure_random_bytes(keys: &Arc<KeysManager>) -> (res: [u8; 32]) {
    keys.get_secure_random_bytes()
}

/// The `len` low-order bytes of `v`, most significant first.
pub open spec fn be_bytes(v: nat, len: nat) -> Seq<u8>
    decreases len,
{
    if len == 0 {
        Seq::<u8>::empty()
    } else {
        be_bytes(v / 256, (len - 1) as nat).push((v % 256) as u8)
    }
}

/// The eight bytes of `value`, most significant first.
pub fn u64_to_be_bytes(value: u64) -> (res: [u8; 8])
    ensures
        res@ == be_bytes(value as nat, 8),
        be_value(res@) == value,
{
    let q7: u64 = value / 256;
    let q6: u64 = q7 / 256;
    let q5: u64 = q6 / 256;
    let q4: u64 = q5 / 256;
    let q3: u64 = q4 / 256;
    let q2: u64 = q3 / 256;
    let q1: u64 = q2 / 256;
    assert(q1 < 256);
    let b7: u8 = (value % 256) as u8;
    let b6: u8 = (q7 % 256) as u8;
    let b5: u8 = (q6 % 256) as u8;
    let b4: u8 = (q5 % 256) as u8;
    let b3: u8 = (q4 % 256) as u8;
    let b2: u8 = (q3 % 256) as u8;
    let b1: u8 = (q2 % 256) as u8;
    let b0: u8 = q1 as u8;
    let res = [b0, b1, b2, b3, b4, b5, b6, b7];
    proof {
        let s = res@;
        let s7 = s.drop_last();
        let s6 = s7.drop_last();
        let s5 = s6.drop_last();
        let s4 = s5.drop_last();
        let s3 = s4.drop_last();
        let s2 = s3.drop_last();
        let s1 = s2.drop_last();
        let s0 = s1.drop_last();
        assert(s0.len() == 0);
        assert(be_value(s0) == 0);
        assert(s1.last() == b0);
        assert(be_value(s1) == q1);
        assert(s2.last() == b1);
        assert(be_value(s2) == q2);
        assert(s3.last() == b2);
        assert(be_value(s3) == q3);
        assert(s4.last() == b3);
        assert(be_value(s4) == q4);
        assert(s5.last() == b4);
        assert(be_value(s5) == q5);
        assert(s6.last() == b5);
        assert(be_value(s6) == q6);
        assert(s7.last() == b6);
        assert(be_value(s7) == q7);
        assert(s.last() == b7);
        assert(be_value(s) == value);
        assert(be_bytes((q1 / 256) as nat, 0) =~= s0);
        assert(be_bytes(q1 as nat, 1) =~= s1);
        assert(be_bytes(q2 as nat, 2) =~= s2);
        assert(be_bytes(q3 as nat, 3) =~= s3);
        assert(be_bytes(q4 as nat, 4) =~= s4);
        assert(be_bytes(q5 as nat, 5) =~= s5);
        assert(be_bytes(q6 as nat, 6) =~= s6);
        assert(be_bytes(q7 as nat, 7) =~= s7);
        assert(be_bytes(value as nat, 8) =~= s);
    }
    res
}

} // verus!
