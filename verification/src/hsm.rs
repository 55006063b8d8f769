//! Deterministic per-tenant key derivation from one master secret.
//!
//! A key is the SHA-256 digest of the master secret, a domain tag and the
//! tenant's identifier. A digest that is not a usable scalar is never
//! returned: the derivation is repeated with the attempt number folded
//! into the tag until a usable scalar comes out.

use crate::crypto::be_bytes;
use crate::crypto::node_secret_bytes;
use crate::crypto::public_key_of_secret;
use crate::crypto::secp256k1_public_key;
use crate::crypto::secret_key_accepted;
use crate::crypto::sha256;
use crate::crypto::sha256_digest;
use crate::crypto::u64_to_be_bytes;
use crate::crypto::valid_secret_scalar;
use crate::hsm_provider::HsmError;
use crate::types::PublicKey;
use lightning::sign::KeysManager;
use std::sync::Arc;
use vstd::prelude::*;
use vstd::utf8::encode_utf8;

verus! {

/// The bytes of `virtual_node_`, the domain tag of node keys.
pub const NODE_TAG: [u8; 13] = [
    0x76, 0x69, 0x72, 0x74, 0x75, 0x61, 0x6c, 0x5f, 0x6e, 0x6f, 0x64, 0x65, 0x5f,
];

/// The bytes of `channel_`, the domain tag of channel keys.
pub const CHANNEL_TAG: [u8; 8] = [0x63, 0x68, 0x61, 0x6e, 0x6e, 0x65, 0x6c, 0x5f];

/// How many attempts a derivation makes before it gives up.
pub const MAX_ATTEMPTS: u16 = 256;

/// What the attempt number adds to the tag: nothing for the first
/// attempt, one byte holding the number for the later ones.
pub open spec fn attempt_suffix(attempt: nat) -> Seq<u8> {
    if attempt == 0 {
        Seq::<u8>::empty()
    } else {
        seq![attempt as u8]
    }
}

/// The message that is hashed at one attempt.
pub open spec fn key_material(
    secret: Seq<u8>,
    tag: Seq<u8>,
    attempt: nat,
    payload: Seq<u8>,
) -> Seq<u8> {
    secret + tag + attempt_suffix(attempt) + payload
}

/// The digest that one attempt yields.
pub open spec fn key_candidate(
    secret: Seq<u8>,
    tag: Seq<u8>,
    attempt: nat,
    payload: Seq<u8>,
) -> Seq<u8> {
    sha256(key_material(secret, tag, attempt, payload))
}

/// The first usable candidate at or after attempt `from`, if one of the
/// attempts below `MAX_ATTEMPTS` yields one.
pub open spec fn derive_from(
    secret: Seq<u8>,
    tag: Seq<u8>,
    payload: Seq<u8>,
    from: nat,
) -> Option<Seq<u8>>
    decreases MAX_ATTEMPTS - from,
{
    if from >= MAX_ATTEMPTS {
        None
    } else if valid_secret_scalar(key_candidate(secret, tag, from, payload)) {
        Some(key_candidate(secret, tag, from, payload))
    } else {
        derive_from(secret, tag, payload, from + 1)
    }
}

/// The scalar derived from a secret, a tag and a payload.
pub open spec fn derived_scalar(secret: Seq<u8>, tag: Seq<u8>, payload: Seq<u8>) -> Option<
    Seq<u8>,
> {
    derive_from(secret, tag, payload, 0)
}

/// The secret scalar of the tenant `user_id` under a master secret.
pub open spec fn node_secret_of(master: Seq<u8>, user_id: Seq<char>) -> Option<Seq<u8>> {
    derived_scalar(master, NODE_TAG@, encode_utf8(user_id))
}

/// The identity of the tenant `user_id` under a master secret.
pub open spec fn node_id_of(master: Seq<u8>, user_id: Seq<char>) -> Option<Seq<u8>> {
    match node_secret_of(master, user_id) {
        Some(secret) => Some(secp256k1_public_key(secret)),
        None => None,
    }
}

/// The payload of a channel key: the channel's value, most significant
/// byte first, then the 32 context bytes.
pub open spec fn channel_payload(value_bytes: Seq<u8>, params: Seq<u8>) -> Seq<u8> {
    value_bytes + params
}

/// A derived scalar is always a usable one.
pub proof fn lemma_derived_scalar_valid(
    secret: Seq<u8>,
    tag: Seq<u8>,
    payload: Seq<u8>,
    from: nat,
)
    ensures
        derive_from(secret, tag, payload, from) matches Some(s) ==> valid_secret_scalar(s),
    decreases MAX_ATTEMPTS - from,
{
    if from < MAX_ATTEMPTS && !valid_secret_scalar(key_candidate(secret, tag, from, payload)) {
        lemma_derived_scalar_valid(secret, tag, payload, from + 1);
    }
}

/// Derivation is a function of the master secret and the tenant alone:
/// equal inputs give equal identities, whichever service derives them.
pub proof fn lemma_derivation_deterministic(a: HsmService, b: HsmService, user_id: Seq<char>)
    requires
        a.master_secret() == b.master_secret(),
    ensures
        node_secret_of(a.master_secret(), user_id) == node_secret_of(b.master_secret(), user_id),
        node_id_of(a.master_secret(), user_id) == node_id_of(b.master_secret(), user_id),
{
}

/// A secret scalar of the signing curve.
#[derive(Clone, Copy, Debug)]
pub struct SecretKey {
    bytes: [u8; 32],
}

impl View for SecretKey {
    type V = Seq<u8>;

    closed spec fn view(&self) -> Seq<u8> {
        self.bytes@
    }
}

impl SecretKey {
    /// A secret key holds a usable scalar.
    pub open spec fn wf(&self) -> bool {
        valid_secret_scalar(self@)
    }

    /// The key that holds `bytes`, if they are a usable scalar.
    pub fn from_bytes(bytes: [u8; 32]) -> (res: Option<SecretKey>)
        ensures
            res is Some <==> valid_secret_scalar(bytes@),
            res matches Some(key) ==> key@ == bytes@ && key.wf(),
    {
        if secret_key_accepted(&bytes) {
            Some(SecretKey { bytes })
        } else {
            None
        }
    }

    /// The 32 bytes of the scalar.
    pub fn secret_bytes(&self) -> (res: [u8; 32])
        ensures
            res@ == self@,
    {
        self.bytes
    }

    /// The public key that belongs to this secret.
    pub fn public_key(&self) -> (res: PublicKey)
        requires
            self.wf(),
        ensures
            res@ == secp256k1_public_key(self@),
    {
        PublicKey(public_key_of_secret(&self.bytes))
    }
}

/// Appends `part` to `buf`.
fn append_bytes(buf: &mut Vec<u8>, part: &[u8])
    ensures
        final(buf)@ == old(buf)@ + part@,
{
    let ghost before = buf@;
    let mut i: usize = 0;
    while i < part.len()
        invariant
            i <= part@.len(),
            buf@ == before + part@.subrange(0, i as int),
        decreases part@.len() - i,
    {
        buf.push(part[i]);
        assert(buf@ =~= before + part@.subrange(0, i as int + 1));
        i += 1;
    }
    assert(part@.subrange(0, i as int) =~= part@);
}

/// Derives a scalar from `secret`, `tag` and `payload`: the digest of
/// the first attempt that yields a usable scalar.
pub fn derive_scalar(secret: &[u8], tag: &[u8], payload: &[u8]) -> (res: Option<SecretKey>)
    ensures
        res is Some <==> derived_scalar(secret@, tag@, payload@) is Some,
        res matches Some(key) ==> derived_scalar(secret@, tag@, payload@) == Some(key@)
            && key.wf(),
{
    let mut attempt: u16 = 0;
    while attempt < MAX_ATTEMPTS
        invariant
            attempt <= MAX_ATTEMPTS,
            derived_scalar(secret@, tag@, payload@) == derive_from(
                secret@,
                tag@,
                payload@,
                attempt as nat,
            ),
        decreases MAX_ATTEMPTS - attempt,
    {
        let mut material: Vec<u8> = Vec::new();
        append_bytes(&mut material, secret);
        append_bytes(&mut material, tag);
        if attempt > 0 {
            material.push(attempt as u8);
        }
        append_bytes(&mut material, payload);
        assert(material@ =~= key_material(secret@, tag@, attempt as nat, payload@));
        let digest = sha256_digest(material.as_slice());
        match SecretKey::from_bytes(digest) {
            Some(key) => {
                return Some(key);
            },
            None => {},
        }
        attempt += 1;
    }
    None
}

/// The key-derivation service: holds the master secret and derives the
/// identity of each tenant from it.
pub struct HsmService {
    master_secret: [u8; 32],
}

impl HsmService {
    /// The master secret that every derivation starts from.
    pub closed spec fn master_secret(&self) -> Seq<u8> {
        self.master_secret@
    }

    /// A service whose master secret is the node secret of `master_keys`.
    pub fn new(master_keys: Arc<KeysManager>) -> (res: HsmService) {
        HsmService::from_master_secret(node_secret_bytes(&master_keys))
    }

    /// A service over the given master secret.
    pub fn from_master_secret(master_secret: [u8; 32]) -> (res: HsmService)
        ensures
            res.master_secret() == master_secret@,
    {
        HsmService { master_secret }
    }

    /// The secret scalar of the tenant `user_id`.
    fn derive_virtual_secret_key(&self, user_id: &str) -> (res: Option<SecretKey>)
        ensures
            res is Some <==> node_secret_of(self.master_secret(), user_id@) is Some,
            res matches Some(key) ==> node_secret_of(self.master_secret(), user_id@) == Some(key@)
                && key.wf(),
    {
        derive_scalar(self.master_secret.as_slice(), NODE_TAG.as_slice(), user_id.as_bytes())
    }

    /// The identity of the tenant `user_id`: the public key of its
    /// derived secret. Fails with `KeyDerivation` only where no attempt
    /// yields a usable scalar.
    pub fn derive_virtual_node_id(&self, user_id: &str) -> (res: Result<PublicKey, HsmError>)
        ensures
            res is Ok <==> node_id_of(self.master_secret(), user_id@) is Some,
            res matches Ok(id) ==> node_id_of(self.master_secret(), user_id@) == Some(id@),
            res matches Err(e) ==> e is KeyDerivation,
    {
        match self.derive_virtual_secret_key(user_id) {
            Some(key) => Ok(key.public_key()),
            None => Err(HsmError::KeyDerivation(String::from_str("no usable scalar"))),
        }
    }

    /// The key manager of the tenant `user_id`, which holds its derived
    /// secret. Fails with `KeyDerivation` only where no attempt yields a
    /// usable scalar.
    pub fn get_virtual_keys_manager(&self, user_id: &str) -> (res: Result<
        VirtualKeysManager,
        HsmError,
    >)
        ensures
            res is Ok <==> node_secret_of(self.master_secret(), user_id@) is Some,
            res matches Ok(keys) ==> {
                &&& keys.wf()
                &&& keys.user_id() == user_id@
                &&& node_secret_of(self.master_secret(), user_id@) == Some(keys.node_secret())
            },
            res matches Err(e) ==> e is KeyDerivation,
    {
        match self.derive_virtual_secret_key(user_id) {
            Some(key) => Ok(VirtualKeysManager::new(key, String::from_str(user_id))),
            None => Err(HsmError::KeyDerivation(String::from_str("no usable scalar"))),
        }
    }
}

/// The keys of one tenant: its derived node secret and its identifier.
#[derive(Clone)]
pub struct VirtualKeysManager {
    virtual_node_secret: SecretKey,
    user_id: String,
}

impl VirtualKeysManager {
    /// The tenant's node secret.
    pub closed spec fn node_secret(&self) -> Seq<u8> {
        self.virtual_node_secret@
    }

    /// The tenant's identifier.
    pub closed spec fn user_id(&self) -> Seq<char> {
        self.user_id@
    }

    /// The node secret is a usable scalar.
    pub open spec fn wf(&self) -> bool {
        valid_secret_scalar(self.node_secret())
    }

    /// The tenant's identity.
    pub open spec fn node_id(&self) -> Seq<u8> {
        secp256k1_public_key(self.node_secret())
    }

    /// The secret of the channel with the given value and context.
    pub open spec fn channel_secret(&self, channel_value_satoshis: u64, params: Seq<u8>) -> Option<
        Seq<u8>,
    > {
        derived_scalar(
            self.node_secret(),
            CHANNEL_TAG@,
            channel_payload(be_bytes(channel_value_satoshis as nat, 8), params),
        )
    }

    fn new(virtual_node_secret: SecretKey, user_id: String) -> (res: VirtualKeysManager)
        requires
            virtual_node_secret.wf(),
        ensures
            res.wf(),
            res.node_secret() == virtual_node_secret@,
            res.user_id() == user_id@,
    {
        VirtualKeysManager { virtual_node_secret, user_id }
    }

    /// The tenant's identity.
    pub fn get_virtual_node_id(&self) -> (res: PublicKey)
        requires
            self.wf(),
        ensures
            res@ == self.node_id(),
    {
        self.virtual_node_secret.public_key()
    }

    /// The tenant's node secret.
    pub fn get_virtual_node_secret(&self) -> (res: SecretKey)
        ensures
            res@ == self.node_secret(),
    {
        self.virtual_node_secret
    }

    /// The tenant's identifier.
    pub fn get_user_id(&self) -> (res: &str)
        ensures
            res@ == self.user_id(),
    {
        self.user_id.as_str()
    }

    /// The secret of one channel of this tenant, derived from the node
    /// secret, the channel's value and 32 context bytes. Fails with
    /// `KeyDerivation` only where no attempt yields a usable scalar.
    pub fn derive_channel_keys(&self, channel_value_satoshis: u64, params: &[u8; 32]) -> (res:
        Result<SecretKey, HsmError>)
        ensures
            res is Ok <==> self.channel_secret(channel_value_satoshis, params@) is Some,
            res matches Ok(key) ==> key.wf() && self.channel_secret(
                channel_value_satoshis,
                params@,
            ) == Some(key@),
            res matches Err(e) ==> e is KeyDerivation,
    {
        let value_bytes = u64_to_be_bytes(channel_value_satoshis);
        let mut payload: Vec<u8> = Vec::new();
        append_bytes(&mut payload, value_bytes.as_slice());
        append_bytes(&mut payload, params.as_slice());
        let secret = self.virtual_node_secret.secret_bytes();
        let derived = derive_scalar(secret.as_slice(), CHANNEL_TAG.as_slice(), payload.as_slice());
        assert(payload@ =~= channel_payload(value_bytes@, params@));
        match derived {
            Some(key) => Ok(key),
            None => Err(HsmError::KeyDerivation(String::from_str("no usable scalar"))),
        }
    }
}

} // verus!
