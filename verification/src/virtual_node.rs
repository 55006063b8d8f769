//! The identity directory: which identity each tenant has.
//!
//! The directory remembers the identity that a tenant was first given, so
//! that it stays the same for as long as the directory lives, and derives
//! it from the key backend where the tenant is not known yet.

use crate::crypto::secp256k1_public_key;
use crate::hsm_provider::HsmError;
use crate::hsm_provider::HsmProvider;
use crate::hsm_provider::VirtualKeysManager;
use crate::table::has_key;
use crate::table::lemma_absent;
use crate::table::lemma_index_of;
use crate::table::lemma_put;
use crate::table::lemma_put_appends;
use crate::table::lemma_put_replaces;
use crate::table::lookup;
use crate::table::put;
use crate::table::row_at;
use crate::table::unique_keys;
use crate::table::Keyed;
use crate::types::PublicKey;
use vstd::prelude::*;

verus! {

/// A tenant and its identity.
#[derive(Clone, Debug)]
pub struct VirtualIdentity {
    pub user_id: String,
    pub virtual_node_id: PublicKey,
}

/// What a directory entry says.
pub struct IdentityRow {
    pub user_id: Seq<char>,
    pub virtual_node_id: Seq<u8>,
}

impl View for VirtualIdentity {
    type V = IdentityRow;

    open spec fn view(&self) -> IdentityRow {
        IdentityRow { user_id: self.user_id@, virtual_node_id: self.virtual_node_id@ }
    }
}

impl Keyed for IdentityRow {
    type Key = Seq<char>;

    open spec fn key(&self) -> Seq<char> {
        self.user_id
    }
}

/// The identity that the directory has for `user_id`, if it has one.
pub open spec fn known_identity(rows: Seq<IdentityRow>, user_id: Seq<char>) -> Option<Seq<u8>> {
    match lookup(rows, user_id) {
        Some(row) => Some(row.virtual_node_id),
        None => None,
    }
}

/// The directory after `user_id` was seen with the identity `node_id`:
/// a tenant that is known keeps the identity it has, a new one is added.
pub open spec fn remember(rows: Seq<IdentityRow>, user_id: Seq<char>, node_id: Seq<u8>) -> Seq<
    IdentityRow,
> {
    if has_key(rows, user_id) {
        rows
    } else {
        rows.push(IdentityRow { user_id, virtual_node_id: node_id })
    }
}

/// Remembering is idempotent, and never changes what was known.
pub proof fn lemma_remember(rows: Seq<IdentityRow>, user_id: Seq<char>, node_id: Seq<u8>)
    requires
        unique_keys(rows),
    ensures
        unique_keys(remember(rows, user_id, node_id)),
        has_key(remember(rows, user_id, node_id), user_id),
        has_key(rows, user_id) ==> known_identity(remember(rows, user_id, node_id), user_id)
            == known_identity(rows, user_id),
        !has_key(rows, user_id) ==> known_identity(remember(rows, user_id, node_id), user_id)
            == Some(node_id),
        forall|other: Seq<char>|
            other != user_id ==> known_identity(remember(rows, user_id, node_id), other)
                == known_identity(rows, other),
        forall|again: Seq<u8>|
            remember(remember(rows, user_id, node_id), user_id, again) == remember(
                rows,
                user_id,
                node_id,
            ),
{
    let row = IdentityRow { user_id, virtual_node_id: node_id };
    if !has_key(rows, user_id) {
        lemma_put(rows, row);
        assert(put(rows, row) == rows.push(row));
    }
}

/// The identity directory over a key backend.
pub struct VirtualNodeManager<P: HsmProvider> {
    hsm_provider: P,
    identities: Vec<VirtualIdentity>,
}

impl<P: HsmProvider> VirtualNodeManager<P> {
    /// The key backend.
    pub closed spec fn provider(&self) -> P {
        self.hsm_provider
    }

    /// The entries, oldest first.
    pub closed spec fn identities(&self) -> Seq<IdentityRow> {
        self.identities@.map_values(|r: VirtualIdentity| r@)
    }

    /// Every tenant has one entry.
    pub open spec fn wf(&self) -> bool {
        unique_keys(self.identities())
    }

    /// The identity that resolving `user_id` gives: the one the
    /// directory has, else the one the backend derives.
    pub open spec fn resolved(&self, user_id: Seq<char>) -> Option<Seq<u8>> {
        match known_identity(self.identities(), user_id) {
            Some(id) => Some(id),
            None => match self.provider().node_secret(user_id) {
                Some(secret) => Some(secp256k1_public_key(secret)),
                None => None,
            },
        }
    }

    /// An empty directory over `hsm_provider`.
    pub fn new(hsm_provider: P) -> (res: VirtualNodeManager<P>)
        ensures
            res.wf(),
            res.provider() == hsm_provider,
            res.identities() == Seq::<IdentityRow>::empty(),
    {
        let res = VirtualNodeManager { hsm_provider, identities: Vec::new() };
        assert(res.identities() =~= Seq::<IdentityRow>::empty());
        res
    }

    fn find(&self, user_id: &String) -> (res: Option<usize>)
        ensures
            match res {
                Some(i) => row_at(self.identities(), user_id@, i as int),
                None => forall|j: int|
                    0 <= j < self.identities().len() ==> (#[trigger] self.identities()[j]).key()
                        != user_id@,
            },
    {
        let mut i: usize = 0;
        while i < self.identities.len()
            invariant
                i <= self.identities@.len(),
                forall|j: int| 0 <= j < i ==> (#[trigger] self.identities()[j]).key() != user_id@,
            decreases self.identities@.len() - i,
        {
            if self.identities[i].user_id == *user_id {
                return Some(i);
            }
            i += 1;
        }
        None
    }

    /// Stores the identity of `user_id` as the durable store has it,
    /// in the place of what the directory held for that tenant.
    pub fn record_identity(&mut self, user_id: &str, virtual_node_id: PublicKey)
        requires
            old(self).wf(),
        ensures
            final(self).wf(),
            final(self).provider() == old(self).provider(),
            final(self).identities() == put(
                old(self).identities(),
                (IdentityRow { user_id: user_id@, virtual_node_id: virtual_node_id@ }),
            ),
            known_identity(final(self).identities(), user_id@) == Some(virtual_node_id@),
    {
        let row = VirtualIdentity { user_id: String::from_str(user_id), virtual_node_id };
        let ghost before = self.identities();
        proof {
            lemma_put(before, row@);
        }
        match self.find(&row.user_id) {
            Some(i) => {
                proof {
                    lemma_put_replaces(before, row@, i as int);
                }
                self.identities.set(i, row);
                assert(self.identities() =~= before.update(i as int, row@));
            },
            None => {
                proof {
                    lemma_put_appends(before, row@);
                }
                self.identities.push(row);
                assert(self.identities() =~= before.push(row@));
            },
        }
    }

    /// The keys of the tenant `user_id`, derived by the backend. Where
    /// the directory does not know the tenant yet, its identity is
    /// remembered. Fails as the backend does, and then changes nothing.
    pub fn get_virtual_node(&mut self, user_id: &str) -> (res: Result<VirtualKeysManager, HsmError>)
        requires
            old(self).wf(),
        ensures
            final(self).wf(),
            final(self).provider() == old(self).provider(),
            res is Ok <==> old(self).provider().node_secret(user_id@) is Some,
            res matches Ok(keys) ==> {
                &&& keys.wf()
                &&& keys.user_id() == user_id@
                &&& old(self).provider().node_secret(user_id@) == Some(keys.node_secret())
                &&& final(self).identities() == remember(
                    old(self).identities(),
                    user_id@,
                    keys.node_id(),
                )
            },
            res matches Err(e) ==> {
                &&& final(self).identities() == old(self).identities()
                &&& (e is BackendUnavailable <==> !old(self).provider().available())
            },
    {
        let keys = match self.hsm_provider.get_virtual_keys_manager(user_id) {
            Ok(keys) => keys,
            Err(e) => {
                return Err(e);
            },
        };
        let virtual_node_id = keys.get_virtual_node_id();
        let row = VirtualIdentity { user_id: String::from_str(user_id), virtual_node_id };
        let ghost before = self.identities();
        match self.find(&row.user_id) {
            Some(i) => {
                assert(row_at(before, user_id@, i as int));
            },
            None => {
                proof {
                    lemma_absent(before, user_id@);
                    lemma_put_appends(before, row@);
                    lemma_put(before, row@);
                }
                self.identities.push(row);
                assert(self.identities() =~= before.push(row@));
            },
        }
        Ok(keys)
    }

    /// The identity of the tenant `user_id`: the one the directory
    /// holds, else the one the backend derives, which the directory then
    /// remembers. Fails only where the directory does not know the
    /// tenant and the backend fails, and then changes nothing.
    pub fn get_or_create(&mut self, user_id: &str) -> (res: Result<VirtualIdentity, HsmError>)
        requires
            old(self).wf(),
        ensures
            final(self).wf(),
            final(self).provider() == old(self).provider(),
            res is Ok <==> old(self).resolved(user_id@) is Some,
            res matches Ok(identity) ==> {
                &&& identity.user_id@ == user_id@
                &&& old(self).resolved(user_id@) == Some(identity.virtual_node_id@)
                &&& final(self).identities() == remember(
                    old(self).identities(),
                    user_id@,
                    identity.virtual_node_id@,
                )
                &&& known_identity(final(self).identities(), user_id@) == Some(
                    identity.virtual_node_id@,
                )
            },
            res matches Err(e) ==> {
                &&& final(self).identities() == old(self).identities()
                &&& (e is BackendUnavailable <==> !old(self).provider().available())
            },
    {
        let virtual_node_id = match self.get_virtual_node_id(user_id) {
            Ok(id) => id,
            Err(e) => {
                return Err(e);
            },
        };
        let row = VirtualIdentity { user_id: String::from_str(user_id), virtual_node_id };
        let ghost before = self.identities();
        proof {
            lemma_remember(before, user_id@, virtual_node_id@);
        }
        match self.find(&row.user_id) {
            Some(i) => {
                assert(row_at(before, user_id@, i as int));
            },
            None => {
                proof {
                    lemma_absent(before, user_id@);
                }
                self.identities.push(row);
                assert(self.identities() =~= before.push(row@));
            },
        }
        Ok(VirtualIdentity { user_id: String::from_str(user_id), virtual_node_id })
    }

    /// The identity of the tenant `user_id`: the one the directory
    /// holds, else the one the backend derives. Fails only where the
    /// directory does not know the tenant and the backend fails.
    pub fn get_virtual_node_id(&self, user_id: &str) -> (res: Result<PublicKey, HsmError>)
        requires
            self.wf(),
        ensures
            res is Ok <==> self.resolved(user_id@) is Some,
            res matches Ok(id) ==> self.resolved(user_id@) == Some(id@),
            res matches Err(e) ==> (e is BackendUnavailable <==> !self.provider().available()),
    {
        let key = String::from_str(user_id);
        match self.find(&key) {
            Some(i) => {
                proof {
                    lemma_index_of(self.identities(), user_id@, i as int);
                }
                Ok(self.identities[i].virtual_node_id)
            },
            None => {
                proof {
                    lemma_absent(self.identities(), user_id@);
                }
                self.hsm_provider.derive_virtual_node_id(user_id)
            },
        }
    }
}

} // verus!
