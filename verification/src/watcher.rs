//! The watcher itself: its configuration, its transport, the callback slot,
//! the queue of messages that wait to be published, and its life cycle.
//!
//! A watcher is created, becomes ready when its subscription stands, and is
//! closed at the end. It does no input or output of its own: the two
//! workers that it hands out say what is to be done, and the program that
//! runs them does it.

use crate::error::WatcherError;
use crate::message::{
    blank_message, event_data_to_message, event_message, EventData, Message, MessageView,
    RuleView, UpdateType,
};
use crate::options::WatcherOptions;
use crate::publish::{PublishPhase, PublishWorker, PublisherView};
use crate::queue::{queue_len, queue_open, queue_send, queue_take, queued, OutboundQueue};
use crate::subscribe::{
    inbound_of, shutdown_sentinel, Inbound, SubscribePhase, SubscriberView, SubscriptionWorker,
};
use crate::wire::{
    decode_message, encode_message, lemma_read_back_round_trip, lemma_wire_form_opens_with_brace,
    reads_back,
};
use crate::transport::{cluster_refusal, made_for, pinned_node_of, Transport};
use vstd::prelude::*;

verus! {

/// Where a watcher stands in its life.
#[derive(Debug, Clone, Copy, PartialEq, Eq, Structural)]
pub enum WatcherState {
    /// Made; the subscription is being set up.
    Created,
    /// The subscription stands. Payloads arrive already, and are dropped
    /// for want of a callback.
    Ready,
    /// The subscription stands and a callback is registered.
    Active,
    /// Closed for good.
    Closed,
}

/// The state of a watcher, as contracts see it.
pub struct WatcherView {
    pub channel: Seq<char>,
    pub ignore_self: bool,
    pub local_id: Seq<char>,
    /// The address of the server or of the pinned node.
    pub target: Seq<char>,
    /// Whether the transport is a pinned cluster node.
    pub cluster: bool,
    pub has_callback: bool,
    /// The messages that wait to be published, the oldest first.
    pub outbound: Seq<MessageView>,
    pub closed: bool,
    pub ready: bool,
}

/// The state of a watcher that was just made.
pub open spec fn created(options: WatcherOptions, target: Seq<char>, cluster: bool) -> WatcherView {
    WatcherView {
        channel: options.channel@,
        ignore_self: options.ignore_self,
        local_id: options.local_id@,
        target,
        cluster,
        has_callback: false,
        outbound: Seq::empty(),
        closed: false,
        ready: false,
    }
}

/// Where a watcher in this state stands in its life.
pub open spec fn state_of(watcher: WatcherView) -> WatcherState {
    if watcher.closed {
        WatcherState::Closed
    } else if !watcher.ready {
        WatcherState::Created
    } else if watcher.has_callback {
        WatcherState::Active
    } else {
        WatcherState::Ready
    }
}

/// The state after `message` was handed in for publishing: an open watcher
/// puts it at the end of its queue, a closed one takes nothing.
pub open spec fn enqueued(watcher: WatcherView, message: MessageView) -> WatcherView {
    if watcher.closed {
        watcher
    } else {
        WatcherView { outbound: watcher.outbound.push(message), ..watcher }
    }
}

/// The state after `event` was reported.
pub open spec fn updated(watcher: WatcherView, event: EventData) -> WatcherView {
    enqueued(watcher, event_message(event, watcher.local_id))
}

/// The message that announces a filtered removal on behalf of `local_id`:
/// the place of the first filtered field and the values filtered by.
pub open spec fn filtered_removal(
    local_id: Seq<char>,
    sec: Seq<char>,
    ptype: Seq<char>,
    field_index: int,
    field_values: RuleView,
) -> MessageView {
    MessageView {
        sec,
        ptype,
        field_index,
        field_values,
        ..blank_message(UpdateType::UpdateForRemoveFilteredPolicy, local_id)
    }
}

/// The message that the publishing side gets next: the oldest in the
/// queue, and nothing once the watcher is closed.
pub open spec fn next_of(watcher: WatcherView) -> Option<MessageView> {
    if watcher.closed || watcher.outbound.len() == 0 {
        None
    } else {
        Some(watcher.outbound[0])
    }
}

/// The state after the publishing side took its next message.
pub open spec fn taken(watcher: WatcherView) -> WatcherView {
    if watcher.closed || watcher.outbound.len() == 0 {
        watcher
    } else {
        WatcherView { outbound: watcher.outbound.skip(1), ..watcher }
    }
}

/// The state after closing.
pub open spec fn closed_down(watcher: WatcherView) -> WatcherView {
    WatcherView { closed: true, ..watcher }
}

/// The views of the messages in a queue.
pub open spec fn queue_view(queue: Seq<Message>) -> Seq<MessageView> {
    Seq::new(queue.len(), |i: int| queue[i]@)
}

/// The watcher of one instance. `C` is the type of the callback that takes
/// the payloads of the other instances.
pub struct RedisWatcher<C> {
    client: Transport,
    options: WatcherOptions,
    callback: Option<C>,
    outbound: OutboundQueue,
    closed: bool,
    ready: bool,
}

impl<C> View for RedisWatcher<C> {
    type V = WatcherView;

    closed spec fn view(&self) -> WatcherView {
        WatcherView {
            channel: self.options.channel@,
            ignore_self: self.options.ignore_self,
            local_id: self.options.local_id@,
            target: self.client.target_of(),
            cluster: self.client is ClusterPubSub,
            has_callback: self.callback is Some,
            outbound: queue_view(queued(self.outbound)),
            closed: self.closed,
            ready: self.ready,
        }
    }
}

impl<C> RedisWatcher<C> {
    /// The callback that is registered, if any.
    pub closed spec fn callback_of(&self) -> Option<C> {
        self.callback
    }

    /// The transport of this watcher.
    pub closed spec fn transport_of(&self) -> Transport {
        self.client
    }

    /// A watcher over `client`, just made.
    pub fn with_transport(client: Transport, options: WatcherOptions) -> (watcher: RedisWatcher<C>)
        ensures
            watcher@ == created(options, client.target_of(), client is ClusterPubSub),
            watcher.callback_of() is None,
            watcher.transport_of() == client,
    {
        let watcher = RedisWatcher {
            client,
            options,
            callback: None,
            outbound: queue_open(),
            closed: false,
            ready: false,
        };
        assert(queue_view(queued(watcher.outbound)) =~= Seq::empty());
        watcher
    }

    /// A watcher for the standalone server at `redis_url`. It is made
    /// without waiting for the subscription; where the driver refuses the
    /// address, the error is a connection error.
    pub fn new(redis_url: &str, options: WatcherOptions) -> (result: Result<
        RedisWatcher<C>,
        WatcherError,
    >)
        ensures
            result matches Ok(watcher) ==> (watcher@ == created(options, redis_url@, false)
                && watcher.callback_of() is None && made_for(
                watcher.transport_of().client_of(),
                redis_url@,
            )),
            result matches Err(error) ==> error is RedisConnection,
    {
        match Transport::standalone(redis_url) {
            Ok(client) => Ok(RedisWatcher::with_transport(client, options)),
            Err(error) => Err(error),
        }
    }

    /// A watcher for a Redis cluster, pinned to the first of the
    /// comma-separated addresses in `cluster_urls`: the fixed node, on which
    /// this watcher both publishes and subscribes. Every instance that is
    /// to hear this one must be given the same first address. A list that
    /// names no node, or an address that the driver refuses, is a
    /// configuration error.
    pub fn new_cluster(cluster_urls: &str, options: WatcherOptions) -> (result: Result<
        RedisWatcher<C>,
        WatcherError,
    >)
        ensures
            result matches Ok(watcher) ==> (watcher@ == created(
                options,
                pinned_node_of(cluster_urls@),
                true,
            ) && watcher.callback_of() is None && pinned_node_of(cluster_urls@).len() > 0
                && made_for(
                watcher.transport_of().client_of(),
                pinned_node_of(cluster_urls@),
            )),
            result matches Err(error) ==> cluster_refusal(pinned_node_of(cluster_urls@), error),
            pinned_node_of(cluster_urls@).len() == 0 ==> result is Err,
    {
        match Transport::cluster(cluster_urls) {
            Ok(client) => Ok(RedisWatcher::with_transport(client, options)),
            Err(error) => Err(error),
        }
    }

    /// The configuration of this watcher.
    pub fn options(&self) -> (options: &WatcherOptions)
        ensures
            options.channel@ == self@.channel,
            options.ignore_self == self@.ignore_self,
            options.local_id@ == self@.local_id,
    {
        &self.options
    }

    /// The transport of this watcher.
    pub fn transport(&self) -> (client: &Transport)
        ensures
            *client == self.transport_of(),
            client.target_of() == self@.target,
            (client is ClusterPubSub) == self@.cluster,
    {
        &self.client
    }

    /// Whether the watcher has been closed.
    pub fn is_closed(&self) -> (closed: bool)
        ensures
            closed == self@.closed,
    {
        self.closed
    }

    /// Whether the subscription stands.
    pub fn is_ready(&self) -> (ready: bool)
        ensures
            ready == self@.ready,
    {
        self.ready
    }

    /// Whether a callback is registered.
    pub fn has_update_callback(&self) -> (registered: bool)
        ensures
            registered == self@.has_callback,
    {
        self.callback.is_some()
    }

    /// Where the watcher stands in its life.
    pub fn state(&self) -> (state: WatcherState)
        ensures
            state == state_of(self@),
    {
        if self.closed {
            WatcherState::Closed
        } else if !self.ready {
            WatcherState::Created
        } else if self.callback.is_some() {
            WatcherState::Active
        } else {
            WatcherState::Ready
        }
    }

    /// How many messages wait to be published.
    pub fn pending(&self) -> (count: usize)
        ensures
            count == self@.outbound.len(),
    {
        queue_len(&self.outbound)
    }

    /// Records that the subscription stands. The answer says whether the
    /// readiness signal is to be fired: once, and not for a closed watcher.
    pub fn mark_ready(&mut self) -> (fire: bool)
        ensures
            fire == (!old(self)@.closed && !old(self)@.ready),
            final(self)@ == (WatcherView { ready: old(self)@.ready || fire, ..old(self)@ }),
            final(self).callback_of() == old(self).callback_of(),
            final(self).transport_of() == old(self).transport_of(),
    {
        if self.closed || self.ready {
            false
        } else {
            self.ready = true;
            true
        }
    }

    /// Registers `cb` in place of the callback that was there. A closed
    /// watcher takes none.
    pub fn set_update_callback(&mut self, cb: C) -> (result: Result<(), WatcherError>)
        ensures
            old(self)@.closed ==> (result matches Err(WatcherError::AlreadyClosed) && final(self)@
                == old(self)@ && final(self).callback_of() == old(self).callback_of()),
            !old(self)@.closed ==> (result is Ok && final(self)@ == (WatcherView {
                has_callback: true,
                ..old(self)@
            }) && final(self).callback_of() == Some(cb)),
            final(self).transport_of() == old(self).transport_of(),
    {
        if self.closed {
            return Err(WatcherError::AlreadyClosed);
        }
        self.callback = Some(cb);
        Ok(())
    }

    /// The registered callback, to be called with a payload that is to be
    /// delivered. A closed watcher hands none out.
    pub fn callback_mut(&mut self) -> (callback: Option<&mut C>)
        ensures
            callback is Some <==> (!old(self)@.closed && old(self)@.has_callback),
            callback matches Some(cb) ==> old(self).callback_of() == Some(*cb),
            final(self)@ == old(self)@,
            final(self).transport_of() == old(self).transport_of(),
    {
        if self.closed {
            return None;
        }
        match &mut self.callback {
            Some(cb) => Some(cb),
            None => None,
        }
    }

    /// Puts `message` at the end of the queue of messages to be published.
    /// Nothing is sent here. A closed watcher takes none.
    pub fn publish_message(&mut self, message: Message) -> (result: Result<(), WatcherError>)
        ensures
            final(self)@ == enqueued(old(self)@, message@),
            final(self).callback_of() == old(self).callback_of(),
            final(self).transport_of() == old(self).transport_of(),
            old(self)@.closed ==> result matches Err(WatcherError::AlreadyClosed),
            !old(self)@.closed ==> result is Ok,
    {
        if self.closed {
            return Err(WatcherError::AlreadyClosed);
        }
        if !queue_send(&mut self.outbound, message) {
            return Err(WatcherError::Runtime(String::from_str("Publish channel closed")));
        }
        assert(queue_view(queued(self.outbound)) =~= queue_view(queued(old(self).outbound)).push(message@));
        Ok(())
    }

    /// Reports a change of the policy: the message that announces it, signed
    /// with this instance's identifier, is queued for publishing. A closed
    /// watcher takes none.
    pub fn update(&mut self, d: EventData) -> (result: Result<(), WatcherError>)
        ensures
            final(self)@ == updated(old(self)@, d),
            final(self).callback_of() == old(self).callback_of(),
            final(self).transport_of() == old(self).transport_of(),
            old(self)@.closed ==> result matches Err(WatcherError::AlreadyClosed),
            !old(self)@.closed ==> result is Ok,
    {
        let message = event_data_to_message(&d, self.options.local_id.as_str());
        self.publish_message(message)
    }

    /// Reports that `rule` was added.
    pub fn update_for_add_policy(&mut self, sec: String, ptype: String, rule: Vec<String>) -> (result:
        Result<(), WatcherError>)
        ensures
            final(self)@ == updated(old(self)@, EventData::AddPolicy(sec, ptype, rule)),
            final(self).callback_of() == old(self).callback_of(),
            final(self).transport_of() == old(self).transport_of(),
            old(self)@.closed ==> result matches Err(WatcherError::AlreadyClosed),
            !old(self)@.closed ==> result is Ok,
    {
        self.update(EventData::AddPolicy(sec, ptype, rule))
    }

    /// Reports that `rule` was removed.
    pub fn update_for_remove_policy(&mut self, sec: String, ptype: String, rule: Vec<String>) -> (result:
        Result<(), WatcherError>)
        ensures
            final(self)@ == updated(old(self)@, EventData::RemovePolicy(sec, ptype, rule)),
            final(self).callback_of() == old(self).callback_of(),
            final(self).transport_of() == old(self).transport_of(),
            old(self)@.closed ==> result matches Err(WatcherError::AlreadyClosed),
            !old(self)@.closed ==> result is Ok,
    {
        self.update(EventData::RemovePolicy(sec, ptype, rule))
    }

    /// Reports that the rules were removed whose fields from place
    /// `field_index` on have the values `field_values`.
    pub fn update_for_remove_filtered_policy(
        &mut self,
        sec: String,
        ptype: String,
        field_index: i32,
        field_values: Vec<String>,
    ) -> (result: Result<(), WatcherError>)
        ensures
            final(self)@ == enqueued(
                old(self)@,
                filtered_removal(
                    old(self)@.local_id,
                    sec@,
                    ptype@,
                    field_index as int,
                    field_values.deep_view(),
                ),
            ),
            final(self).callback_of() == old(self).callback_of(),
            final(self).transport_of() == old(self).transport_of(),
            old(self)@.closed ==> result matches Err(WatcherError::AlreadyClosed),
            !old(self)@.closed ==> result is Ok,
    {
        let mut message = Message::new(
            UpdateType::UpdateForRemoveFilteredPolicy,
            self.options.local_id.clone(),
        );
        message.sec = sec;
        message.ptype = ptype;
        message.field_index = field_index;
        message.field_values = field_values;
        self.publish_message(message)
    }

    /// Reports that the whole policy was saved.
    pub fn update_for_save_policy(&mut self) -> (result: Result<(), WatcherError>)
        ensures
            final(self)@ == enqueued(
                old(self)@,
                blank_message(UpdateType::UpdateForSavePolicy, old(self)@.local_id),
            ),
            final(self).callback_of() == old(self).callback_of(),
            final(self).transport_of() == old(self).transport_of(),
            old(self)@.closed ==> result matches Err(WatcherError::AlreadyClosed),
            !old(self)@.closed ==> result is Ok,
    {
        self.update(EventData::SavePolicy(Vec::new()))
    }

    /// Reports that `rules` were added.
    pub fn update_for_add_policies(&mut self, sec: String, ptype: String, rules: Vec<Vec<String>>) -> (result:
        Result<(), WatcherError>)
        ensures
            final(self)@ == updated(old(self)@, EventData::AddPolicies(sec, ptype, rules)),
            final(self).callback_of() == old(self).callback_of(),
            final(self).transport_of() == old(self).transport_of(),
            old(self)@.closed ==> result matches Err(WatcherError::AlreadyClosed),
            !old(self)@.closed ==> result is Ok,
    {
        self.update(EventData::AddPolicies(sec, ptype, rules))
    }

    /// Reports that `rules` were removed.
    pub fn update_for_remove_policies(
        &mut self,
        sec: String,
        ptype: String,
        rules: Vec<Vec<String>>,
    ) -> (result: Result<(), WatcherError>)
        ensures
            final(self)@ == updated(old(self)@, EventData::RemovePolicies(sec, ptype, rules)),
            final(self).callback_of() == old(self).callback_of(),
            final(self).transport_of() == old(self).transport_of(),
            old(self)@.closed ==> result matches Err(WatcherError::AlreadyClosed),
            !old(self)@.closed ==> result is Ok,
    {
        self.update(EventData::RemovePolicies(sec, ptype, rules))
    }

    /// Reports that `old_rule` was replaced by `new_rule`.
    pub fn update_for_update_policy(
        &mut self,
        sec: String,
        ptype: String,
        old_rule: Vec<String>,
        new_rule: Vec<String>,
    ) -> (result: Result<(), WatcherError>)
        ensures
            final(self)@ == updated(
                old(self)@,
                EventData::UpdatePolicy(sec, ptype, old_rule, new_rule),
            ),
            final(self).callback_of() == old(self).callback_of(),
            final(self).transport_of() == old(self).transport_of(),
            old(self)@.closed ==> result matches Err(WatcherError::AlreadyClosed),
            !old(self)@.closed ==> result is Ok,
    {
        self.update(EventData::UpdatePolicy(sec, ptype, old_rule, new_rule))
    }

    /// Reports that `old_rules` were replaced by `new_rules`.
    pub fn update_for_update_policies(
        &mut self,
        sec: String,
        ptype: String,
        old_rules: Vec<Vec<String>>,
        new_rules: Vec<Vec<String>>,
    ) -> (result: Result<(), WatcherError>)
        ensures
            final(self)@ == updated(
                old(self)@,
                EventData::UpdatePolicies(sec, ptype, old_rules, new_rules),
            ),
            final(self).callback_of() == old(self).callback_of(),
            final(self).transport_of() == old(self).transport_of(),
            old(self)@.closed ==> result matches Err(WatcherError::AlreadyClosed),
            !old(self)@.closed ==> result is Ok,
    {
        self.update(EventData::UpdatePolicies(sec, ptype, old_rules, new_rules))
    }

    /// Takes the oldest waiting message out of the queue for the publishing
    /// side. A closed watcher hands none out.
    pub fn next_outbound(&mut self) -> (entry: Option<Message>)
        ensures
            final(self)@ == taken(old(self)@),
            final(self).callback_of() == old(self).callback_of(),
            final(self).transport_of() == old(self).transport_of(),
            match next_of(old(self)@) {
                Some(message) => entry is Some && entry->Some_0@ == message,
                None => entry is None,
            },
    {
        if self.closed {
            return None;
        }
        let entry = queue_take(&mut self.outbound);
        proof {
            if queued(old(self).outbound).len() > 0 {
                assert(queue_view(queued(self.outbound)) =~= queue_view(queued(old(self).outbound)).skip(1));
            }
        }
        entry
    }

    /// Closes the watcher. Closing again changes nothing. Messages that
    /// still wait in the queue are not published.
    pub fn close(&mut self)
        ensures
            final(self)@ == closed_down(old(self)@),
            final(self).callback_of() == old(self).callback_of(),
            final(self).transport_of() == old(self).transport_of(),
    {
        self.closed = true;
    }

    /// The receiving side for this watcher: a worker about to make its
    /// first connection attempt, for this watcher's channel, identifier and
    /// self-filtering. A closed watcher starts none.
    pub fn start_subscription(&self) -> (result: Result<SubscriptionWorker, WatcherError>)
        ensures
            self@.closed ==> result matches Err(WatcherError::AlreadyClosed),
            !self@.closed ==> (result matches Ok(worker) && worker@ == (SubscriberView {
                channel: self@.channel,
                local_id: self@.local_id,
                ignore_self: self@.ignore_self,
                phase: SubscribePhase::Connecting,
                failures: 0,
                stop_reason: None,
            })),
    {
        if self.closed {
            return Err(WatcherError::AlreadyClosed);
        }
        Ok(
            SubscriptionWorker::new(
                self.options.channel.clone(),
                self.options.local_id.clone(),
                self.options.ignore_self,
            ),
        )
    }

    /// The sending side for this watcher: an idle worker for this watcher's
    /// channel.
    pub fn start_publisher(&self) -> (worker: PublishWorker)
        ensures
            worker@ == (PublisherView {
                channel: self@.channel,
                phase: PublishPhase::Idle,
                payload: Seq::empty(),
                failures: 0,
                dropped: 0,
            }),
    {
        PublishWorker::new(self.options.channel.clone())
    }
}

/// The state after the publishing side took `count` messages, one by one.
pub open spec fn drained(watcher: WatcherView, count: nat) -> WatcherView
    decreases count,
{
    if count == 0 {
        watcher
    } else {
        taken(drained(watcher, (count - 1) as nat))
    }
}

/// The publishing side gets the messages in the order of the queue: after
/// `count` of them were taken, the next one is the one at place `count`.
pub proof fn lemma_queue_is_first_in_first_out(watcher: WatcherView, count: nat)
    requires
        !watcher.closed,
        count <= watcher.outbound.len(),
    ensures
        drained(watcher, count) == (WatcherView {
            outbound: watcher.outbound.skip(count as int),
            ..watcher
        }),
        count < watcher.outbound.len() ==> next_of(drained(watcher, count)) == Some(
            watcher.outbound[count as int],
        ),
    decreases count,
{
    if count == 0 {
        assert(watcher.outbound.skip(0) =~= watcher.outbound);
    } else {
        lemma_queue_is_first_in_first_out(watcher, (count - 1) as nat);
        assert(watcher.outbound.skip(count - 1).skip(1) =~= watcher.outbound.skip(count as int));
    }
}

/// Per-instance ordering: two changes reported one after the other to an
/// open watcher wait in the queue in that order, behind what waited
/// before, and are handed to the publishing side in that order, each
/// signed with this instance's identifier.
pub proof fn lemma_updates_keep_their_order(watcher: WatcherView, first: EventData, second: EventData)
    requires
        !watcher.closed,
    ensures
        ({
            let after = updated(updated(watcher, first), second);
            let before = watcher.outbound.len();
            &&& after.outbound == watcher.outbound.push(
                event_message(first, watcher.local_id),
            ).push(event_message(second, watcher.local_id))
            &&& next_of(drained(after, before)) == Some(event_message(first, watcher.local_id))
            &&& next_of(drained(after, before + 1)) == Some(
                event_message(second, watcher.local_id),
            )
        }),
{
    let after = updated(updated(watcher, first), second);
    let before = watcher.outbound.len();
    lemma_queue_is_first_in_first_out(after, before);
    lemma_queue_is_first_in_first_out(after, before + 1);
}

/// Close semantics: closing is final. A closed watcher stays closed when it
/// is closed again, takes no further change and queues nothing, hands no
/// message to the publishing side, and delivers no payload, whatever
/// arrives and whether or not a callback is registered.
pub proof fn lemma_close_is_final(
    watcher: WatcherView,
    event: EventData,
    message: MessageView,
    payload: Option<Seq<char>>,
)
    ensures
        ({
            let closed = closed_down(watcher);
            &&& state_of(closed) == WatcherState::Closed
            &&& closed_down(closed) == closed
            &&& updated(closed, event) == closed
            &&& enqueued(closed, message) == closed
            &&& next_of(closed) is None
            &&& taken(closed) == closed
            &&& inbound_of(
                closed.ignore_self,
                closed.local_id,
                closed.closed,
                payload,
                closed.has_callback,
            ) == Inbound::StopClosed
        }),
{
}

/// Pinning: two cluster watchers whose lists begin with the same address
/// are pinned to the same node. Each publishes and subscribes with one
/// client, and both clients were made for that node.
pub proof fn lemma_same_first_address_same_node(
    first_list: Seq<char>,
    second_list: Seq<char>,
    first: Transport,
    second: Transport,
)
    requires
        pinned_node_of(first_list) == pinned_node_of(second_list),
        first.target_of() == pinned_node_of(first_list),
        second.target_of() == pinned_node_of(second_list),
        made_for(first.client_of(), first.target_of()),
        made_for(second.client_of(), second.target_of()),
    ensures
        first.target_of() == second.target_of(),
        made_for(first.client_of(), pinned_node_of(first_list)),
        made_for(second.client_of(), pinned_node_of(first_list)),
{
}

/// Exchange: the message by which one instance announces a change is
/// delivered by every other open instance that has a callback, and by the
/// instance itself where it does not ignore its own messages. It arrives as
/// it was sent, where the parser reads the wire form back with the written
/// value under every key.
pub proof fn lemma_update_reaches_the_others(
    sender: WatcherView,
    receiver: WatcherView,
    event: EventData,
)
    requires
        !sender.closed,
        !receiver.closed,
        receiver.has_callback,
        !receiver.ignore_self || sender.local_id != receiver.local_id,
        reads_back(event_message(event, sender.local_id)),
    ensures
        ({
            let message = event_message(event, sender.local_id);
            let payload = encode_message(message);
            &&& updated(sender, event).outbound.last() == message
            &&& decode_message(payload) == Some(message)
            &&& inbound_of(
                receiver.ignore_self,
                receiver.local_id,
                receiver.closed,
                Some(payload),
                receiver.has_callback,
            ) == Inbound::Deliver
        }),
{
    let message = event_message(event, sender.local_id);
    lemma_read_back_round_trip(message);
    lemma_wire_form_opens_with_brace(message);
    reveal_strlit("Close");
    assert(shutdown_sentinel()[0] == 'C');
}

} // verus!
