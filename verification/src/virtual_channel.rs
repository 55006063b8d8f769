//! The ownership registry: which identity owns each shared channel and
//! each payment, so that every tenant sees only its own.

use crate::table::lemma_absent;
use crate::table::lemma_index_of;
use crate::table::lemma_put;
use crate::table::lemma_put_appends;
use crate::table::lemma_put_replaces;
use crate::table::lookup;
use crate::table::put;
use crate::table::row_at;
use crate::table::unique_keys;
use crate::table::Keyed;
use vstd::prelude::*;

verus! {

/// Whether a payment reaches its owner or leaves it.
#[derive(Clone, Copy, Debug, PartialEq, Eq, Structural)]
pub enum PaymentDirection {
    Inbound,
    Outbound,
}

/// The direction that the flag `inbound` stands for.
pub open spec fn direction_of(inbound: bool) -> PaymentDirection {
    if inbound {
        PaymentDirection::Inbound
    } else {
        PaymentDirection::Outbound
    }
}

/// One channel and the identity that owns it.
#[derive(Clone, Debug)]
pub struct ChannelOwnership {
    pub channel_id: String,
    pub owner_identity: String,
    pub tenant_id: String,
}

/// What a channel row says.
pub struct ChannelRow {
    pub channel_id: Seq<char>,
    pub owner_identity: Seq<char>,
    pub tenant_id: Seq<char>,
}

impl View for ChannelOwnership {
    type V = ChannelRow;

    open spec fn view(&self) -> ChannelRow {
        ChannelRow {
            channel_id: self.channel_id@,
            owner_identity: self.owner_identity@,
            tenant_id: self.tenant_id@,
        }
    }
}

impl Keyed for ChannelRow {
    type Key = Seq<char>;

    open spec fn key(&self) -> Seq<char> {
        self.channel_id
    }
}

/// One payment as seen from one of the identities it touches.
#[derive(Clone, Debug)]
pub struct PaymentOwnership {
    pub payment_hash: String,
    pub owner_identity: String,
    pub tenant_id: String,
    pub direction: PaymentDirection,
}

/// What a payment row says.
pub struct PaymentRow {
    pub payment_hash: Seq<char>,
    pub owner_identity: Seq<char>,
    pub tenant_id: Seq<char>,
    pub direction: PaymentDirection,
}

impl View for PaymentOwnership {
    type V = PaymentRow;

    open spec fn view(&self) -> PaymentRow {
        PaymentRow {
            payment_hash: self.payment_hash@,
            owner_identity: self.owner_identity@,
            tenant_id: self.tenant_id@,
            direction: self.direction,
        }
    }
}

impl Keyed for PaymentRow {
    type Key = (Seq<char>, Seq<char>);

    /// A payment has one row for each identity it touches.
    open spec fn key(&self) -> (Seq<char>, Seq<char>) {
        (self.payment_hash, self.owner_identity)
    }
}

/// The texts that a list of strings holds.
pub open spec fn texts(list: Seq<String>) -> Seq<Seq<char>> {
    list.map_values(|s: String| s@)
}

/// The channels that `identity` owns, in the order of their rows.
pub open spec fn owned_channels(rows: Seq<ChannelRow>, identity: Seq<char>) -> Seq<Seq<char>>
    decreases rows.len(),
{
    if rows.len() == 0 {
        Seq::empty()
    } else if rows.last().owner_identity == identity {
        owned_channels(rows.drop_last(), identity).push(rows.last().channel_id)
    } else {
        owned_channels(rows.drop_last(), identity)
    }
}

/// The payments that `identity` has a row for, in the order of the rows.
pub open spec fn owned_payments(rows: Seq<PaymentRow>, identity: Seq<char>) -> Seq<Seq<char>>
    decreases rows.len(),
{
    if rows.len() == 0 {
        Seq::empty()
    } else if rows.last().owner_identity == identity {
        owned_payments(rows.drop_last(), identity).push(rows.last().payment_hash)
    } else {
        owned_payments(rows.drop_last(), identity)
    }
}

/// Some row speaks of the payment `payment_hash`.
pub open spec fn mentions_payment(rows: Seq<PaymentRow>, payment_hash: Seq<char>) -> bool {
    exists|i: int| 0 <= i < rows.len() && (#[trigger] rows[i]).payment_hash == payment_hash
}

/// A channel is listed for an identity exactly where a row gives the
/// channel to that identity.
pub proof fn lemma_owned_channels_contains(
    rows: Seq<ChannelRow>,
    identity: Seq<char>,
    channel_id: Seq<char>,
)
    ensures
        owned_channels(rows, identity).contains(channel_id) <==> exists|i: int|
            0 <= i < rows.len() && (#[trigger] rows[i]).owner_identity == identity
                && rows[i].channel_id == channel_id,
    decreases rows.len(),
{
    if rows.len() > 0 {
        let rest = rows.drop_last();
        let last = rows.last();
        lemma_owned_channels_contains(rest, identity, channel_id);
        let listed = owned_channels(rows, identity);
        let listed_rest = owned_channels(rest, identity);
        if listed.contains(channel_id) {
            let j = choose|j: int| 0 <= j < listed.len() && listed[j] == channel_id;
            if last.owner_identity == identity && j == listed_rest.len() {
                assert(rows[rows.len() - 1] == last);
            } else {
                assert(listed_rest[j] == channel_id);
                assert(listed_rest.contains(channel_id));
                let i = choose|i: int|
                    0 <= i < rest.len() && (#[trigger] rest[i]).owner_identity == identity
                        && rest[i].channel_id == channel_id;
                assert(rows[i] == rest[i]);
            }
        }
        if exists|i: int|
            0 <= i < rows.len() && (#[trigger] rows[i]).owner_identity == identity
                && rows[i].channel_id == channel_id {
            let i = choose|i: int|
                0 <= i < rows.len() && (#[trigger] rows[i]).owner_identity == identity
                    && rows[i].channel_id == channel_id;
            if i == rows.len() - 1 {
                assert(listed[listed_rest.len() as int] == channel_id);
            } else {
                assert(rest[i] == rows[i]);
                assert(listed_rest.contains(channel_id));
                let j = choose|j: int| 0 <= j < listed_rest.len() && listed_rest[j] == channel_id;
                assert(listed[j] == channel_id);
            }
        }
    }
}

/// A payment is listed for an identity exactly where a row of that
/// identity speaks of the payment.
pub proof fn lemma_owned_payments_contains(
    rows: Seq<PaymentRow>,
    identity: Seq<char>,
    payment_hash: Seq<char>,
)
    ensures
        owned_payments(rows, identity).contains(payment_hash) <==> exists|i: int|
            0 <= i < rows.len() && (#[trigger] rows[i]).owner_identity == identity
                && rows[i].payment_hash == payment_hash,
    decreases rows.len(),
{
    if rows.len() > 0 {
        let rest = rows.drop_last();
        let last = rows.last();
        lemma_owned_payments_contains(rest, identity, payment_hash);
        let listed = owned_payments(rows, identity);
        let listed_rest = owned_payments(rest, identity);
        if listed.contains(payment_hash) {
            let j = choose|j: int| 0 <= j < listed.len() && listed[j] == payment_hash;
            if last.owner_identity == identity && j == listed_rest.len() {
                assert(rows[rows.len() - 1] == last);
            } else {
                assert(listed_rest[j] == payment_hash);
                assert(listed_rest.contains(payment_hash));
                let i = choose|i: int|
                    0 <= i < rest.len() && (#[trigger] rest[i]).owner_identity == identity
                        && rest[i].payment_hash == payment_hash;
                assert(rows[i] == rest[i]);
            }
        }
        if exists|i: int|
            0 <= i < rows.len() && (#[trigger] rows[i]).owner_identity == identity
                && rows[i].payment_hash == payment_hash {
            let i = choose|i: int|
                0 <= i < rows.len() && (#[trigger] rows[i]).owner_identity == identity
                    && rows[i].payment_hash == payment_hash;
            if i == rows.len() - 1 {
                assert(listed[listed_rest.len() as int] == payment_hash);
            } else {
                assert(rest[i] == rows[i]);
                assert(listed_rest.contains(payment_hash));
                let j = choose|j: int|
                    0 <= j < listed_rest.len() && listed_rest[j] == payment_hash;
                assert(listed[j] == payment_hash);
            }
        }
    }
}

/// Isolation of channels: two different identities never both list the
/// same channel.
pub proof fn lemma_channel_isolation(
    registry: VirtualChannelManager,
    a: Seq<char>,
    b: Seq<char>,
    channel_id: Seq<char>,
)
    requires
        registry.wf(),
        a != b,
    ensures
        !(owned_channels(registry.channels(), a).contains(channel_id) && owned_channels(
            registry.channels(),
            b,
        ).contains(channel_id)),
{
    let rows = registry.channels();
    lemma_owned_channels_contains(rows, a, channel_id);
    lemma_owned_channels_contains(rows, b, channel_id);
    if owned_channels(rows, a).contains(channel_id) && owned_channels(rows, b).contains(
        channel_id,
    ) {
        let i = choose|i: int|
            0 <= i < rows.len() && (#[trigger] rows[i]).owner_identity == a && rows[i].channel_id
                == channel_id;
        let j = choose|j: int|
            0 <= j < rows.len() && (#[trigger] rows[j]).owner_identity == b && rows[j].channel_id
                == channel_id;
        assert(rows[i].key() == rows[j].key());
    }
}

/// Isolation of payments: an identity lists a payment only where one of
/// its own rows speaks of it, so a payment whose rows all belong to
/// other identities is never listed for it.
pub proof fn lemma_payment_isolation(
    registry: VirtualChannelManager,
    identity: Seq<char>,
    payment_hash: Seq<char>,
)
    requires
        forall|i: int|
            0 <= i < registry.payments().len() && (#[trigger] registry.payments()[i]).payment_hash
                == payment_hash ==> registry.payments()[i].owner_identity != identity,
    ensures
        !owned_payments(registry.payments(), identity).contains(payment_hash),
{
    lemma_owned_payments_contains(registry.payments(), identity, payment_hash);
}

/// The registry of channel and payment ownership.
#[derive(Clone)]
pub struct VirtualChannelManager {
    channels: Vec<ChannelOwnership>,
    payments: Vec<PaymentOwnership>,
}

impl VirtualChannelManager {
    /// The channel rows, oldest first.
    pub closed spec fn channels(&self) -> Seq<ChannelRow> {
        self.channels@.map_values(|r: ChannelOwnership| r@)
    }

    /// The payment rows, oldest first.
    pub closed spec fn payments(&self) -> Seq<PaymentRow> {
        self.payments@.map_values(|r: PaymentOwnership| r@)
    }

    /// Every channel has one row, and every payment one row for each
    /// identity.
    pub open spec fn wf(&self) -> bool {
        &&& unique_keys(self.channels())
        &&& unique_keys(self.payments())
    }

    /// The owner of a channel, if the channel is registered.
    pub open spec fn owner_of(&self, channel_id: Seq<char>) -> Option<Seq<char>> {
        match lookup(self.channels(), channel_id) {
            Some(row) => Some(row.owner_identity),
            None => None,
        }
    }

    /// An empty registry.
    pub fn new() -> (res: VirtualChannelManager)
        ensures
            res.wf(),
            res.channels() == Seq::<ChannelRow>::empty(),
            res.payments() == Seq::<PaymentRow>::empty(),
    {
        let res = VirtualChannelManager { channels: Vec::new(), payments: Vec::new() };
        assert(res.channels() =~= Seq::<ChannelRow>::empty());
        assert(res.payments() =~= Seq::<PaymentRow>::empty());
        res
    }

    fn find_channel(&self, channel_id: &String) -> (res: Option<usize>)
        ensures
            match res {
                Some(i) => row_at(self.channels(), channel_id@, i as int),
                None => forall|j: int|
                    0 <= j < self.channels().len() ==> (#[trigger] self.channels()[j]).key()
                        != channel_id@,
            },
    {
        let mut i: usize = 0;
        while i < self.channels.len()
            invariant
                i <= self.channels@.len(),
                forall|j: int| 0 <= j < i ==> (#[trigger] self.channels()[j]).key() != channel_id@,
            decreases self.channels@.len() - i,
        {
            if self.channels[i].channel_id == *channel_id {
                return Some(i);
            }
            i += 1;
        }
        None
    }

    fn find_payment(&self, payment_hash: &String, owner: &String) -> (res: Option<usize>)
        ensures
            match res {
                Some(i) => row_at(self.payments(), (payment_hash@, owner@), i as int),
                None => forall|j: int|
                    0 <= j < self.payments().len() ==> (#[trigger] self.payments()[j]).key() != (
                        payment_hash@,
                        owner@,
                    ),
            },
    {
        let mut i: usize = 0;
        while i < self.payments.len()
            invariant
                i <= self.payments@.len(),
                forall|j: int|
                    0 <= j < i ==> (#[trigger] self.payments()[j]).key() != (
                        payment_hash@,
                        owner@,
                    ),
            decreases self.payments@.len() - i,
        {
            if self.payments[i].payment_hash == *payment_hash && self.payments[i].owner_identity
                == *owner {
                return Some(i);
            }
            i += 1;
        }
        None
    }

    /// Registers `virtual_node_id` as the owner of `channel_id`. A
    /// channel that is registered already gets the new owner.
    pub fn map_channel_to_virtual_node(
        &mut self,
        channel_id: &str,
        virtual_node_id: &str,
        user_id: &str,
    )
        requires
            old(self).wf(),
        ensures
            final(self).wf(),
            final(self).channels() == put(
                old(self).channels(),
                (ChannelRow {
                    channel_id: channel_id@,
                    owner_identity: virtual_node_id@,
                    tenant_id: user_id@,
                }),
            ),
            final(self).payments() == old(self).payments(),
            final(self).owner_of(channel_id@) == Some(virtual_node_id@),
            forall|other: Seq<char>|
                other != channel_id@ ==> final(self).owner_of(other) == old(self).owner_of(other),
    {
        let row = ChannelOwnership {
            channel_id: String::from_str(channel_id),
            owner_identity: String::from_str(virtual_node_id),
            tenant_id: String::from_str(user_id),
        };
        let ghost before = self.channels();
        proof {
            lemma_put(before, row@);
        }
        match self.find_channel(&row.channel_id) {
            Some(i) => {
                proof {
                    lemma_put_replaces(before, row@, i as int);
                }
                self.channels.set(i, row);
                assert(self.channels() =~= before.update(i as int, row@));
            },
            None => {
                proof {
                    lemma_put_appends(before, row@);
                }
                self.channels.push(row);
                assert(self.channels() =~= before.push(row@));
            },
        }
    }

    /// The channels that `virtual_node_id` owns, oldest first.
    pub fn get_channels_for_virtual_node(&self, virtual_node_id: &str) -> (res: Vec<String>)
        ensures
            texts(res@) == owned_channels(self.channels(), virtual_node_id@),
    {
        let owner = String::from_str(virtual_node_id);
        let mut out: Vec<String> = Vec::new();
        let mut i: usize = 0;
        assert(self.channels().subrange(0, 0) =~= Seq::<ChannelRow>::empty());
        assert(texts(out@) =~= Seq::<Seq<char>>::empty());
        while i < self.channels.len()
            invariant
                i <= self.channels@.len(),
                owner@ == virtual_node_id@,
                texts(out@) == owned_channels(
                    self.channels().subrange(0, i as int),
                    virtual_node_id@,
                ),
            decreases self.channels@.len() - i,
        {
            let ghost prefix = self.channels().subrange(0, i as int);
            let ghost next = self.channels().subrange(0, i as int + 1);
            let ghost listed = texts(out@);
            assert(next.drop_last() =~= prefix);
            assert(next.last() == self.channels()[i as int]);
            if self.channels[i].owner_identity == owner {
                out.push(self.channels[i].channel_id.clone());
                assert(texts(out@) =~= listed.push(self.channels()[i as int].channel_id));
            }
            i += 1;
        }
        assert(self.channels().subrange(0, i as int) =~= self.channels());
        out
    }

    /// The identity that owns `channel_id`, if the channel is registered.
    pub fn get_virtual_node_for_channel(&self, channel_id: &str) -> (res: Option<String>)
        requires
            self.wf(),
        ensures
            res is Some <==> self.owner_of(channel_id@) is Some,
            res matches Some(owner) ==> self.owner_of(channel_id@) == Some(owner@),
    {
        let key = String::from_str(channel_id);
        match self.find_channel(&key) {
            Some(i) => {
                proof {
                    lemma_index_of(self.channels(), channel_id@, i as int);
                }
                Some(self.channels[i].owner_identity.clone())
            },
            None => {
                proof {
                    lemma_absent(self.channels(), channel_id@);
                }
                None
            },
        }
    }

    /// Registers `virtual_node_id` as an owner of the payment
    /// `payment_hash`, receiving it where `inbound` holds and sending it
    /// otherwise. A row that the identity has for the payment already is
    /// replaced.
    pub fn map_payment_to_virtual_node(
        &mut self,
        payment_hash: &str,
        virtual_node_id: &str,
        user_id: &str,
        inbound: bool,
    )
        requires
            old(self).wf(),
        ensures
            final(self).wf(),
            final(self).payments() == put(
                old(self).payments(),
                (PaymentRow {
                    payment_hash: payment_hash@,
                    owner_identity: virtual_node_id@,
                    tenant_id: user_id@,
                    direction: direction_of(inbound),
                }),
            ),
            final(self).channels() == old(self).channels(),
    {
        let direction = if inbound {
            PaymentDirection::Inbound
        } else {
            PaymentDirection::Outbound
        };
        let row = PaymentOwnership {
            payment_hash: String::from_str(payment_hash),
            owner_identity: String::from_str(virtual_node_id),
            tenant_id: String::from_str(user_id),
            direction,
        };
        let ghost before = self.payments();
        proof {
            lemma_put(before, row@);
        }
        match self.find_payment(&row.payment_hash, &row.owner_identity) {
            Some(i) => {
                proof {
                    lemma_put_replaces(before, row@, i as int);
                }
                self.payments.set(i, row);
                assert(self.payments() =~= before.update(i as int, row@));
            },
            None => {
                proof {
                    lemma_put_appends(before, row@);
                }
                self.payments.push(row);
                assert(self.payments() =~= before.push(row@));
            },
        }
    }

    /// The payments that `virtual_node_id` has a row for, oldest first.
    pub fn get_payments_for_virtual_node(&self, virtual_node_id: &str) -> (res: Vec<String>)
        ensures
            texts(res@) == owned_payments(self.payments(), virtual_node_id@),
    {
        let owner = String::from_str(virtual_node_id);
        let mut out: Vec<String> = Vec::new();
        let mut i: usize = 0;
        assert(self.payments().subrange(0, 0) =~= Seq::<PaymentRow>::empty());
        assert(texts(out@) =~= Seq::<Seq<char>>::empty());
        while i < self.payments.len()
            invariant
                i <= self.payments@.len(),
                owner@ == virtual_node_id@,
                texts(out@) == owned_payments(
                    self.payments().subrange(0, i as int),
                    virtual_node_id@,
                ),
            decreases self.payments@.len() - i,
        {
            let ghost prefix = self.payments().subrange(0, i as int);
            let ghost next = self.payments().subrange(0, i as int + 1);
            let ghost listed = texts(out@);
            assert(next.drop_last() =~= prefix);
            assert(next.last() == self.payments()[i as int]);
            if self.payments[i].owner_identity == owner {
                out.push(self.payments[i].payment_hash.clone());
                assert(texts(out@) =~= listed.push(self.payments()[i as int].payment_hash));
            }
            i += 1;
        }
        assert(self.payments().subrange(0, i as int) =~= self.payments());
        out
    }
}

} // verus!
