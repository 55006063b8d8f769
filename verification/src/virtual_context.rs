//! The request context: the tenant that a request names, its identity,
//! and its view of the ownership registry.

use crate::hsm_provider::HsmProvider;
use crate::hsm_provider::VirtualKeysManager;
use crate::types::PublicKey;
use crate::user_manager::request_user_id;
use crate::user_manager::UserManager;
use crate::virtual_channel::owned_channels;
use crate::virtual_channel::owned_payments;
use crate::virtual_channel::texts;
use crate::virtual_channel::VirtualChannelManager;
use crate::virtual_node::remember;
use crate::virtual_node::VirtualNodeManager;
use axum::http::HeaderMap;
use axum::http::HeaderValue;
use serde_json::Value;
use vstd::prelude::*;

verus! {

/// A tenant, its identity and keys, and the registry it looks into.
pub struct VirtualNodeContext<'a> {
    pub user_id: String,
    pub virtual_node_id: PublicKey,
    pub virtual_keys: VirtualKeysManager,
    pub channel_manager: Option<&'a VirtualChannelManager>,
}

impl<'a> VirtualNodeContext<'a> {
    /// The identity as the registry knows it.
    pub open spec fn identity_text(&self) -> Seq<char> {
        self.virtual_node_id.spec_text()
    }

    /// The context of the tenant `user_id`, where one is named and the
    /// key backend derives its keys. The tenant's identity is
    /// remembered by the directory.
    pub fn for_user<P: HsmProvider>(
        user_id: Option<String>,
        virtual_mgr: &mut VirtualNodeManager<P>,
        channel_manager: Option<&'a VirtualChannelManager>,
    ) -> (res: Option<VirtualNodeContext<'a>>)
        requires
            old(virtual_mgr).wf(),
        ensures
            final(virtual_mgr).wf(),
            final(virtual_mgr).provider() == old(virtual_mgr).provider(),
            res is Some <==> (user_id matches Some(id) && old(virtual_mgr).provider().node_secret(
                id@,
            ) is Some),
            res matches Some(context) ==> {
                &&& context.user_id@ == user_id->0@
                &&& context.virtual_keys.wf()
                &&& context.virtual_keys.user_id() == user_id->0@
                &&& Some(context.virtual_keys.node_secret()) == old(
                    virtual_mgr,
                ).provider().node_secret(user_id->0@)
                &&& context.virtual_node_id@ == context.virtual_keys.node_id()
                &&& context.channel_manager == channel_manager
                &&& final(virtual_mgr).identities() == remember(
                    old(virtual_mgr).identities(),
                    user_id->0@,
                    context.virtual_node_id@,
                )
            },
            res is None ==> final(virtual_mgr).identities() == old(virtual_mgr).identities(),
    {
        let user_id = match user_id {
            Some(user_id) => user_id,
            None => {
                return None;
            },
        };
        let virtual_keys = match virtual_mgr.get_virtual_node(user_id.as_str()) {
            Ok(keys) => keys,
            Err(_) => {
                return None;
            },
        };
        let virtual_node_id = virtual_keys.get_virtual_node_id();
        Some(VirtualNodeContext { user_id, virtual_node_id, virtual_keys, channel_manager })
    }

    /// The context of the tenant that a request names in the text field
    /// `user_id` of its body or, failing that, in its header
    /// `x-user-id`, where the key backend derives that tenant's keys. A
    /// request that names no tenant gets no context. The tenant's
    /// identity is remembered by the directory.
    pub fn from_request<P: HsmProvider>(
        payload: &Value,
        headers: &HeaderMap<HeaderValue>,
        virtual_mgr: &mut VirtualNodeManager<P>,
        channel_manager: Option<&'a VirtualChannelManager>,
    ) -> (res: Option<VirtualNodeContext<'a>>)
        requires
            old(virtual_mgr).wf(),
        ensures
            final(virtual_mgr).wf(),
            final(virtual_mgr).provider() == old(virtual_mgr).provider(),
            res is Some <==> (request_user_id(*payload, *headers) matches Some(id) && old(
                virtual_mgr,
            ).provider().node_secret(id) is Some),
            res matches Some(context) ==> {
                &&& Some(context.user_id@) == request_user_id(*payload, *headers)
                &&& context.virtual_keys.wf()
                &&& context.virtual_keys.user_id() == context.user_id@
                &&& Some(context.virtual_keys.node_secret()) == old(
                    virtual_mgr,
                ).provider().node_secret(context.user_id@)
                &&& context.virtual_node_id@ == context.virtual_keys.node_id()
                &&& context.channel_manager == channel_manager
                &&& final(virtual_mgr).identities() == remember(
                    old(virtual_mgr).identities(),
                    context.user_id@,
                    context.virtual_node_id@,
                )
            },
            res is None ==> final(virtual_mgr).identities() == old(virtual_mgr).identities(),
    {
        let user_id = UserManager::extract_user_id(payload, headers);
        VirtualNodeContext::for_user(user_id, virtual_mgr, channel_manager)
    }

    /// Whether the registry gives `channel_id` to this tenant's
    /// identity. Without a registry no channel is owned.
    pub fn owns_channel(&self, channel_id: &str) -> (res: bool)
        requires
            self.channel_manager matches Some(registry) ==> registry.wf(),
        ensures
            res == (self.channel_manager matches Some(registry) && registry.owner_of(channel_id@)
                == Some(self.identity_text())),
    {
        match self.channel_manager {
            Some(registry) => {
                match registry.get_virtual_node_for_channel(channel_id) {
                    Some(owner) => owner == self.virtual_node_id.to_hex(),
                    None => false,
                }
            },
            None => false,
        }
    }

    /// The channels that the registry gives to this tenant's identity,
    /// oldest first. Without a registry there are none.
    pub fn get_owned_channels(&self) -> (res: Vec<String>)
        ensures
            texts(res@) == match self.channel_manager {
                Some(registry) => owned_channels(registry.channels(), self.identity_text()),
                None => Seq::<Seq<char>>::empty(),
            },
    {
        match self.channel_manager {
            Some(registry) => {
                let identity = self.virtual_node_id.to_hex();
                registry.get_channels_for_virtual_node(identity.as_str())
            },
            None => {
                let out: Vec<String> = Vec::new();
                assert(texts(out@) =~= Seq::<Seq<char>>::empty());
                out
            },
        }
    }

    /// The payments that this tenant's identity has a row for, oldest
    /// first. Without a registry there are none.
    pub fn get_owned_payments(&self) -> (res: Vec<String>)
        ensures
            texts(res@) == match self.channel_manager {
                Some(registry) => owned_payments(registry.payments(), self.identity_text()),
                None => Seq::<Seq<char>>::empty(),
            },
    {
        match self.channel_manager {
            Some(registry) => {
                let identity = self.virtual_node_id.to_hex();
                registry.get_payments_for_virtual_node(identity.as_str())
            },
            None => {
                let out: Vec<String> = Vec::new();
                assert(texts(out@) =~= Seq::<Seq<char>>::empty());
                out
            },
        }
    }
}

} // verus!
