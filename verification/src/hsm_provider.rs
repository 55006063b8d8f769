//! The key-derivation backends behind one contract: the local one, which
//! derives from a master secret held in memory, and two that are not
//! available yet and say so.

use crate::crypto::secp256k1_public_key;
use crate::hsm::node_secret_of;
use crate::hsm::HsmService;
use crate::types::PublicKey;
use lightning::sign::KeysManager;
use std::sync::Arc;
use vstd::prelude::*;

pub use crate::hsm::VirtualKeysManager;

verus! {

/// Why a key-derivation backend failed.
#[derive(Debug)]
pub enum HsmError {
    /// No usable key could be derived.
    KeyDerivation(String),
    /// The backend could not be reached.
    Connection(String),
    /// The tenant identifier is not acceptable.
    InvalidUserId(String),
    /// The backend is not available in this build.
    BackendUnavailable(String),
}

impl HsmError {
    /// The error in words.
    pub open spec fn spec_message(&self) -> Seq<char> {
        match self {
            HsmError::KeyDerivation(detail) => "Key derivation failed: "@ + detail@,
            HsmError::Connection(detail) => "HSM connection failed: "@ + detail@,
            HsmError::InvalidUserId(detail) => "Invalid user ID: "@ + detail@,
            HsmError::BackendUnavailable(detail) => "HSM backend not available: "@ + detail@,
        }
    }

    /// The error in words.
    pub fn message(&self) -> (res: String)
        ensures
            res@ == self.spec_message(),
    {
        match self {
            HsmError::KeyDerivation(detail) => String::from_str("Key derivation failed: ").concat(
                detail.as_str(),
            ),
            HsmError::Connection(detail) => String::from_str("HSM connection failed: ").concat(
                detail.as_str(),
            ),
            HsmError::InvalidUserId(detail) => String::from_str("Invalid user ID: ").concat(
                detail.as_str(),
            ),
            HsmError::BackendUnavailable(detail) => String::from_str(
                "HSM backend not available: ",
            ).concat(detail.as_str()),
        }
    }
}

/// A backend that derives the keys of tenants.
pub trait HsmProvider {
    /// The node secret that this backend derives for a tenant, where it
    /// derives one.
    spec fn node_secret(&self, user_id: Seq<char>) -> Option<Seq<u8>>;

    /// Whether this backend exists in this build.
    spec fn available(&self) -> bool;

    /// The identity of the tenant `user_id`. Fails with
    /// `BackendUnavailable` where the backend does not exist, and
    /// otherwise only where the backend derives no secret.
    fn derive_virtual_node_id(&self, user_id: &str) -> (res: Result<PublicKey, HsmError>)
        ensures
            res is Ok <==> self.node_secret(user_id@) is Some,
            res matches Ok(id) ==> id@ == secp256k1_public_key(self.node_secret(user_id@)->0),
            res matches Err(e) ==> (e is BackendUnavailable <==> !self.available()),
    ;

    /// The keys of the tenant `user_id`. Fails as
    /// `derive_virtual_node_id` does.
    fn get_virtual_keys_manager(&self, user_id: &str) -> (res: Result<VirtualKeysManager, HsmError>)
        ensures
            res is Ok <==> self.node_secret(user_id@) is Some,
            res matches Ok(keys) ==> {
                &&& keys.wf()
                &&& keys.user_id() == user_id@
                &&& self.node_secret(user_id@) == Some(keys.node_secret())
            },
            res matches Err(e) ==> (e is BackendUnavailable <==> !self.available()),
    ;
}

/// The backend that derives from a master secret held in memory.
pub struct LocalHsmProvider {
    service: HsmService,
}

impl LocalHsmProvider {
    /// The master secret that the backend derives from.
    pub closed spec fn master_secret(&self) -> Seq<u8> {
        self.service.master_secret()
    }

    /// A backend whose master secret is the node secret of
    /// `master_keys`.
    pub fn new(master_keys: Arc<KeysManager>) -> (res: LocalHsmProvider) {
        LocalHsmProvider { service: HsmService::new(master_keys) }
    }

    /// A backend over the given master secret.
    pub fn from_master_secret(master_secret: [u8; 32]) -> (res: LocalHsmProvider)
        ensures
            res.master_secret() == master_secret@,
    {
        LocalHsmProvider { service: HsmService::from_master_secret(master_secret) }
    }
}

impl HsmProvider for LocalHsmProvider {
    open spec fn node_secret(&self, user_id: Seq<char>) -> Option<Seq<u8>> {
        node_secret_of(self.master_secret(), user_id)
    }

    open spec fn available(&self) -> bool {
        true
    }

    fn derive_virtual_node_id(&self, user_id: &str) -> (res: Result<PublicKey, HsmError>) {
        self.service.derive_virtual_node_id(user_id)
    }

    fn get_virtual_keys_manager(&self, user_id: &str) -> (res: Result<
        VirtualKeysManager,
        HsmError,
    >) {
        self.service.get_virtual_keys_manager(user_id)
    }
}

/// The backend for keys held by a remote custody service. It is not
/// available yet.
pub struct CloudHsmProvider {
    endpoint: String,
    credentials: String,
}

impl CloudHsmProvider {
    /// The address of the service.
    pub closed spec fn endpoint(&self) -> Seq<char> {
        self.endpoint@
    }

    /// A backend for the service at `endpoint`.
    pub fn new(endpoint: String, credentials: String) -> (res: CloudHsmProvider)
        ensures
            res.endpoint() == endpoint@,
    {
        CloudHsmProvider { endpoint, credentials }
    }
}

impl HsmProvider for CloudHsmProvider {
    open spec fn node_secret(&self, user_id: Seq<char>) -> Option<Seq<u8>> {
        None
    }

    open spec fn available(&self) -> bool {
        false
    }

    fn derive_virtual_node_id(&self, user_id: &str) -> (res: Result<PublicKey, HsmError>) {
        Err(HsmError::BackendUnavailable(String::from_str("Cloud HSM not implemented")))
    }

    fn get_virtual_keys_manager(&self, user_id: &str) -> (res: Result<
        VirtualKeysManager,
        HsmError,
    >) {
        Err(HsmError::BackendUnavailable(String::from_str("Cloud HSM not implemented")))
    }
}

/// The backend for keys held by a hardware device. It is not available
/// yet.
pub struct HardwareHsmProvider {
    device_path: String,
}

impl HardwareHsmProvider {
    /// The path of the device.
    pub closed spec fn device_path(&self) -> Seq<char> {
        self.device_path@
    }

    /// A backend for the device at `device_path`.
    pub fn new(device_path: String) -> (res: HardwareHsmProvider)
        ensures
            res.device_path() == device_path@,
    {
        HardwareHsmProvider { device_path }
    }
}

impl HsmProvider for HardwareHsmProvider {
    open spec fn node_secret(&self, user_id: Seq<char>) -> Option<Seq<u8>> {
        None
    }

    open spec fn available(&self) -> bool {
        false
    }

    fn derive_virtual_node_id(&self, user_id: &str) -> (res: Result<PublicKey, HsmError>) {
        Err(HsmError::BackendUnavailable(String::from_str("Hardware HSM not implemented")))
    }

    fn get_virtual_keys_manager(&self, user_id: &str) -> (res: Result<
        VirtualKeysManager,
        HsmError,
    >) {
        Err(HsmError::BackendUnavailable(String::from_str("Hardware HSM not implemented")))
    }
}

/// The backend that was selected when the node started.
pub enum HsmBackend {
    /// Keys are derived from a master secret held in memory.
    Local(LocalHsmProvider),
    /// Keys are held by a remote custody service.
    Cloud(CloudHsmProvider),
    /// Keys are held by a hardware device.
    Hardware(HardwareHsmProvider),
}

impl HsmProvider for HsmBackend {
    open spec fn node_secret(&self, user_id: Seq<char>) -> Option<Seq<u8>> {
        match self {
            HsmBackend::Local(provider) => provider.node_secret(user_id),
            HsmBackend::Cloud(provider) => provider.node_secret(user_id),
            HsmBackend::Hardware(provider) => provider.node_secret(user_id),
        }
    }

    open spec fn available(&self) -> bool {
        match self {
            HsmBackend::Local(provider) => provider.available(),
            HsmBackend::Cloud(provider) => provider.available(),
            HsmBackend::Hardware(provider) => provider.available(),
        }
    }

    fn derive_virtual_node_id(&self, user_id: &str) -> (res: Result<PublicKey, HsmError>) {
        match self {
            HsmBackend::Local(provider) => provider.derive_virtual_node_id(user_id),
            HsmBackend::Cloud(provider) => provider.derive_virtual_node_id(user_id),
            HsmBackend::Hardware(provider) => provider.derive_virtual_node_id(user_id),
        }
    }

    fn get_virtual_keys_manager(&self, user_id: &str) -> (res: Result<
        VirtualKeysManager,
        HsmError,
    >) {
        match self {
            HsmBackend::Local(provider) => provider.get_virtual_keys_manager(user_id),
            HsmBackend::Cloud(provider) => provider.get_virtual_keys_manager(user_id),
            HsmBackend::Hardware(provider) => provider.get_virtual_keys_manager(user_id),
        }
    }
}

} // verus!
