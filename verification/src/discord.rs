//! Routing of the voice transport's events to the speakers' sessions: who
//! has a session, which one it is, and when it ends.
//!
//! A session is known by a handle, a number that is given out once and
//! never again. The caller keeps the channel that belongs to each handle.

use std::collections::HashMap;
use vstd::prelude::*;
use crate::resampler::ListenerEvent;

verus! {

broadcast use vstd::std_specs::hash::group_hash_axioms;

/// An event on its way to the session with the handle `session`.
#[derive(Debug)]
pub struct Delivery {
    /// The handle of the session that receives the event.
    pub session: u64,
    /// The event.
    pub event: ListenerEvent,
}

/// What a [`ListenerEvent`] is, as a mathematical value.
pub enum EventView {
    AudioPacket(Seq<i16>),
    Disconnect,
}

/// What a [`Delivery`] is, as a mathematical value.
pub struct DeliveryView {
    pub session: u64,
    pub event: EventView,
}

impl View for Delivery {
    type V = DeliveryView;

    open spec fn view(&self) -> DeliveryView {
        DeliveryView {
            session: self.session,
            event: match self.event {
                ListenerEvent::AudioPacket(samples) => EventView::AudioPacket(samples@),
                ListenerEvent::Disconnect => EventView::Disconnect,
            },
        }
    }
}

/// The samples that one speaker has sent within a voice tick.
#[derive(Debug)]
pub struct SpeakerPacket {
    /// The speaker's source id.
    pub ssrc: u32,
    /// Interleaved stereo samples, left first.
    pub samples: Vec<i16>,
}

/// The deliveries of a list, as mathematical values.
pub open spec fn delivery_views(deliveries: Seq<Delivery>) -> Seq<DeliveryView> {
    Seq::new(deliveries.len(), |i: int| deliveries[i]@)
}

/// The deliveries that a voice tick gives rise to: one audio packet for
/// each speaker whose source id has a session, in the tick's order.
pub open spec fn tick_deliveries(users: Map<u32, u64>, speaking: Seq<SpeakerPacket>) -> Seq<DeliveryView>
    decreases speaking.len(),
{
    if speaking.len() == 0 {
        Seq::empty()
    } else {
        let earlier = tick_deliveries(users, speaking.drop_last());
        let last = speaking.last();
        if users.contains_key(last.ssrc) {
            earlier.push(
                DeliveryView { session: users[last.ssrc], event: EventView::AudioPacket(last.samples@) },
            )
        } else {
            earlier
        }
    }
}

/// A voice channel and the users that are in it.
#[derive(Debug)]
pub struct ChannelMembers {
    /// The channel's id.
    pub channel: u64,
    /// The ids of the users in the channel.
    pub members: Vec<u64>,
}

/// Whether the channel at `index` has `user` among its members.
pub open spec fn is_member(channels: Seq<ChannelMembers>, index: int, user: u64) -> bool {
    0 <= index < channels.len() && channels[index].members@.contains(user)
}

/// The first channel that `user` is in.
pub fn find_channel_from_user(user: u64, channels: &Vec<ChannelMembers>) -> (found: Option<u64>)
    ensures
        match found {
            Some(channel) => exists|index: int|
                {
                    &&& #[trigger] is_member(channels@, index, user)
                    &&& channels@[index].channel == channel
                    &&& forall|earlier: int| 0 <= earlier < index ==> !is_member(channels@, earlier, user)
                },
            None => forall|index: int| !is_member(channels@, index, user),
        },
{
    let mut i: usize = 0;
    while i < channels.len()
        invariant
            i <= channels.len(),
            forall|earlier: int| 0 <= earlier < i ==> !is_member(channels@, earlier, user),
        decreases channels.len() - i,
    {
        let members = &channels[i].members;
        let mut j: usize = 0;
        while j < members.len()
            invariant
                i < channels.len(),
                members@ == channels@[i as int].members@,
                j <= members.len(),
                forall|k: int| 0 <= k < j ==> members@[k] != user,
                forall|earlier: int| 0 <= earlier < i ==> !is_member(channels@, earlier, user),
            decreases members.len() - j,
        {
            if members[j] == user {
                assert(members@[j as int] == user);
                assert(is_member(channels@, i as int, user));
                return Some(channels[i].channel);
            }
            j += 1;
        }
        assert(!members@.contains(user));
        i += 1;
    }
    None
}

/// What a [`SharedState`] is, as a mathematical value.
pub struct SharedStateView {
    /// The handle of the session of each source id that is routed.
    pub users: Map<u32, u64>,
    /// The source id under which each user was first seen speaking.
    pub id_to_ssrc: Map<u64, u32>,
    /// The handle that the next session gets.
    pub next_handle: u64,
}

impl SharedStateView {
    /// Whether the routes are sound: every handle has been given out, no
    /// two source ids share a session, every user's source id is routed,
    /// and no two users share a source id.
    pub open spec fn wf(self) -> bool {
        &&& forall|ssrc: u32| #[trigger]
            self.users.contains_key(ssrc) ==> self.users[ssrc] < self.next_handle
        &&& forall|a: u32, b: u32|
            #![trigger self.users[a], self.users[b]]
            self.users.contains_key(a) && self.users.contains_key(b) && a != b ==> self.users[a]
                != self.users[b]
        &&& forall|user: u64| #[trigger]
            self.id_to_ssrc.contains_key(user) ==> self.users.contains_key(self.id_to_ssrc[user])
        &&& forall|a: u64, b: u64|
            #![trigger self.id_to_ssrc[a], self.id_to_ssrc[b]]
            self.id_to_ssrc.contains_key(a) && self.id_to_ssrc.contains_key(b) && a != b
                ==> self.id_to_ssrc[a] != self.id_to_ssrc[b]
    }

    /// Whether a session with this handle is routed.
    pub open spec fn has_session(self, handle: u64) -> bool {
        exists|ssrc: u32| #[trigger] self.users.contains_key(ssrc) && self.users[ssrc] == handle
    }
}

impl SharedStateView {
    /// The routes after a new source id got the next handle.
    pub open spec fn spawned(self, ssrc: u32, user_id: u64) -> SharedStateView {
        SharedStateView {
            users: self.users.insert(ssrc, self.next_handle),
            id_to_ssrc: self.id_to_ssrc.insert(user_id, ssrc),
            next_handle: (self.next_handle + 1) as u64,
        }
    }

    /// Whether a user has left whose source id has a session.
    pub open spec fn leaves(self, user_id: u64) -> bool {
        self.id_to_ssrc.contains_key(user_id) && self.users.contains_key(self.id_to_ssrc[user_id])
    }

    /// The routes after a user has left.
    pub open spec fn disconnected(self, user_id: u64) -> SharedStateView {
        SharedStateView {
            users: self.users.remove(self.id_to_ssrc[user_id]),
            id_to_ssrc: self.id_to_ssrc.remove(user_id),
            next_handle: self.next_handle,
        }
    }
}

/// A new session keeps the routes sound, and its handle is one that no
/// session has.
pub proof fn lemma_spawn_keeps_routes_sound(before: SharedStateView, ssrc: u32, user_id: u64)
    requires
        before.wf(),
        !before.users.contains_key(ssrc),
        before.next_handle < u64::MAX,
    ensures
        before.spawned(ssrc, user_id).wf(),
        !before.has_session(before.next_handle),
{
}

/// A user's leaving keeps the routes sound, and no route leads to the
/// session that ends: what comes later under its source id cannot reach
/// it.
pub proof fn lemma_disconnect_keeps_routes_sound(before: SharedStateView, user_id: u64)
    requires
        before.wf(),
        before.id_to_ssrc.contains_key(user_id),
    ensures
        before.leaves(user_id),
        before.disconnected(user_id).wf(),
        !before.disconnected(user_id).has_session(before.users[before.id_to_ssrc[user_id]]),
{
}

/// A session that has ended stays ended: its handle is not given out
/// again, whoever speaks or leaves afterwards.
pub proof fn lemma_ended_session_stays_ended(before: SharedStateView, handle: u64, ssrc: u32, user_id: u64)
    requires
        handle < before.next_handle,
        !before.has_session(handle),
    ensures
        !before.spawned(ssrc, user_id).has_session(handle),
        before.next_handle < u64::MAX ==> handle < before.spawned(ssrc, user_id).next_handle,
        !before.disconnected(user_id).has_session(handle),
{
}

/// The routes of one voice connection.
pub struct SharedState {
    users: HashMap<u32, u64>,
    id_to_ssrc: HashMap<u64, u32>,
    next_handle: u64,
}

impl View for SharedState {
    type V = SharedStateView;

    closed spec fn view(&self) -> SharedStateView {
        SharedStateView {
            users: self.users@,
            id_to_ssrc: self.id_to_ssrc@,
            next_handle: self.next_handle,
        }
    }
}

impl SharedState {
    /// No routes, and the first handle still to give.
    pub fn new() -> (state: SharedState)
        ensures
            state@ == (SharedStateView { users: Map::empty(), id_to_ssrc: Map::empty(), next_handle: 0 }),
            state@.wf(),
    {
        SharedState { users: HashMap::new(), id_to_ssrc: HashMap::new(), next_handle: 0 }
    }

    /// The number of sessions that are routed.
    pub fn session_count(&self) -> (count: usize)
        ensures
            count == self@.users.len(),
    {
        self.users.len()
    }

    /// Handles the news that `user_id` speaks under `ssrc`. The first time
    /// a source id is seen it gets a route to a new session, whose fresh
    /// handle is the answer: the caller opens the session's channel and
    /// starts it. A source id that is routed already changes nothing, and
    /// neither does one that comes when no handle is left to give. Sound
    /// routes stay sound.
    pub fn speaking_state_update(&mut self, ssrc: u32, user_id: u64) -> (spawned: Option<u64>)
        ensures
            spawned.is_some() == (!old(self)@.users.contains_key(ssrc) && old(self)@.next_handle
                < u64::MAX),
            spawned matches Some(handle) ==> handle == old(self)@.next_handle,
            final(self)@ == if spawned.is_some() {
                old(self)@.spawned(ssrc, user_id)
            } else {
                old(self)@
            },
            old(self)@.wf() ==> final(self)@.wf(),
    {
        if self.users.contains_key(&ssrc) {
            return None;
        }
        if self.next_handle == u64::MAX {
            return None;
        }
        let handle: u64 = self.next_handle;
        self.id_to_ssrc.insert(user_id, ssrc);
        self.users.insert(ssrc, handle);
        self.next_handle = handle + 1;
        proof {
            if old(self)@.wf() {
                lemma_spawn_keeps_routes_sound(old(self)@, ssrc, user_id);
            }
        }
        Some(handle)
    }

    /// The handle of the session that `ssrc` is routed to, if any.
    pub fn route(&self, ssrc: u32) -> (session: Option<u64>)
        ensures
            session == if self@.users.contains_key(ssrc) {
                Some(self@.users[ssrc])
            } else {
                None
            },
    {
        match self.users.get(&ssrc) {
            Some(handle) => Some(*handle),
            None => None,
        }
    }

    /// Routes one speaker's samples of a voice tick: to the session of
    /// `ssrc` as an audio packet, or nowhere if the source id has no
    /// session.
    pub fn route_packet(&self, ssrc: u32, samples: Vec<i16>) -> (delivery: Option<Delivery>)
        ensures
            delivery.is_some() == self@.users.contains_key(ssrc),
            delivery matches Some(d) ==> d@ == (DeliveryView {
                session: self@.users[ssrc],
                event: EventView::AudioPacket(samples@),
            }),
    {
        match self.route(ssrc) {
            Some(session) => Some(Delivery { session, event: ListenerEvent::AudioPacket(samples) }),
            None => None,
        }
    }

    /// Routes a voice tick: every speaker's samples go to the session of
    /// the speaker's source id as an audio packet, in the tick's order, and
    /// the samples of a source id without a session are dropped.
    pub fn route_tick(&self, speaking: Vec<SpeakerPacket>) -> (deliveries: Vec<Delivery>)
        ensures
            delivery_views(deliveries@) == tick_deliveries(self@.users, speaking@),
    {
        let mut deliveries: Vec<Delivery> = Vec::new();
        let ghost all = speaking@;
        for packet in it: speaking
            invariant
                it.seq() == all,
                delivery_views(deliveries@) == tick_deliveries(self@.users, all.take(it.index() as int)),
        {
            proof {
                assert(all.take(it.index() + 1).drop_last() == all.take(it.index() as int));
            }
            match self.route_packet(packet.ssrc, packet.samples) {
                Some(delivery) => {
                    deliveries.push(delivery);
                },
                None => {},
            }
        }
        proof {
            assert(all.take(all.len() as int) == all);
        }
        deliveries
    }

    /// Handles the news that `user_id` has left. If the user's source id
    /// has a session, the session gets a disconnect and both routes are
    /// removed, so that nothing sent under that source id later reaches the
    /// session that ends. Otherwise nothing changes. Sound routes stay
    /// sound.
    pub fn client_disconnect(&mut self, user_id: u64) -> (delivery: Option<Delivery>)
        ensures
            delivery.is_some() == old(self)@.leaves(user_id),
            delivery matches Some(d) ==> d@ == (DeliveryView {
                session: old(self)@.users[old(self)@.id_to_ssrc[user_id]],
                event: EventView::Disconnect,
            }),
            final(self)@ == if delivery.is_some() {
                old(self)@.disconnected(user_id)
            } else {
                old(self)@
            },
            old(self)@.wf() ==> final(self)@.wf(),
    {
        let ssrc: u32 = match self.id_to_ssrc.get(&user_id) {
            Some(ssrc) => *ssrc,
            None => {
                return None;
            },
        };
        let session: u64 = match self.users.get(&ssrc) {
            Some(handle) => *handle,
            None => {
                return None;
            },
        };
        self.users.remove(&ssrc);
        self.id_to_ssrc.remove(&user_id);
        proof {
            if old(self)@.wf() {
                lemma_disconnect_keeps_routes_sound(old(self)@, user_id);
            }
        }
        Some(Delivery { session, event: ListenerEvent::Disconnect })
    }
}

} // verus!
