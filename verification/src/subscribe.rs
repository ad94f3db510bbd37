//! The receiving side of a watcher: setting the subscription up with
//! bounded retries, and deciding what happens to each payload that arrives.
//!
//! The worker is a state machine. The program that drives it performs the
//! action it is given (connect, subscribe, sleep, wait for the next
//! payload) and reports back what happened.

use crate::error::WatcherError;
use crate::message::{Message, MessageView};
use crate::wire::{decode_message, decoded_as};
use vstd::prelude::*;

verus! {

/// Failures after which setting the connection up, or subscribing, is
/// retried; one failure more ends the receiving side for good.
pub const MAX_SETUP_RETRIES: u32 = 5;

/// Pause after a failed connection attempt, for each failure so far.
pub const CONNECT_BACKOFF_MILLIS: u64 = 1000;

/// Pause after a failed subscription attempt, for each failure so far.
pub const SUBSCRIBE_BACKOFF_MILLIS: u64 = 500;

/// Longest wait for a payload before the closed flag is looked at again.
pub const IDLE_WAKE_MILLIS: u64 = 100;

/// The payload by which a peer says that it is shutting down. It is no
/// message: a message is a JSON object.
pub open spec fn shutdown_sentinel() -> Seq<char> {
    "Close"@
}

/// Where the receiving side stands.
#[derive(Debug, Clone, Copy, PartialEq, Eq, Structural)]
pub enum SubscribePhase {
    /// A connection attempt is due or under way.
    Connecting,
    /// Pausing after a failed connection attempt.
    ConnectBackoff,
    /// Connected; a subscription attempt is due or under way.
    Subscribing,
    /// Pausing after a failed subscription attempt.
    SubscribeBackoff,
    /// Subscribed; payloads are received.
    Listening,
    /// The receiving side has ended and does not start again.
    Stopped,
}

/// Why the receiving side ended.
#[derive(Debug, Clone, Copy, PartialEq, Eq, Structural)]
pub enum StopReason {
    /// The watcher was closed.
    Closed,
    /// Every connection attempt failed.
    ConnectFailed,
    /// Every subscription attempt failed.
    SubscribeFailed,
    /// The stream of payloads ended.
    StreamEnded,
    /// A peer announced its shutdown.
    PeerShutdown,
}

/// What happened to the step that the worker asked for.
#[derive(Debug, Clone, Copy, PartialEq, Eq, Structural)]
pub enum SubscribeEvent {
    /// The worker was started.
    Start,
    /// The connection attempt succeeded.
    Connected,
    /// The connection attempt failed.
    ConnectFailed,
    /// The subscription attempt succeeded.
    Subscribed,
    /// The subscription attempt failed.
    SubscribeFailed,
    /// A pause is over, or the idle wait passed without a payload.
    Woke,
}

/// What the driving program does next.
#[derive(Debug, Clone, Copy, PartialEq, Eq, Structural)]
pub enum SubscribeAction {
    /// Open the connection for the subscription.
    Connect,
    /// Subscribe to the channel.
    Subscribe,
    /// Pause for so many milliseconds.
    Sleep(u64),
    /// Fire the readiness signal; the subscription stands.
    Ready,
    /// Wait for the next payload, for so many milliseconds at most, and report
    /// the payload, the end of the stream, or that the wait is over.
    Listen(u64),
    /// End the task.
    Stop,
}

/// What becomes of a payload, or of the end of the stream.
#[derive(Debug, Clone, Copy, PartialEq, Eq, Structural)]
pub enum Inbound {
    /// Hand the payload to the registered callback.
    Deliver,
    /// The payload is no message; it is passed over.
    SkipMalformed,
    /// The message is this instance's own; it is passed over.
    SkipOwn,
    /// No callback is registered; the message is dropped.
    SkipNoCallback,
    /// The watcher is closed; the receiving side ends.
    StopClosed,
    /// The stream ended; the receiving side ends.
    StopStreamEnded,
    /// A peer announced its shutdown; the receiving side ends.
    StopPeerShutdown,
}

impl Inbound {
    /// The error that names why nothing was delivered, where the cause is
    /// the watcher's own state: a missing callback or a closed watcher.
    /// Neither is a failure; the payload is passed over all the same.
    pub fn notice(&self) -> (notice: Option<WatcherError>)
        ensures
            *self == Inbound::SkipNoCallback ==> notice == Some(WatcherError::CallbackNotSet),
            *self == Inbound::StopClosed ==> notice == Some(WatcherError::AlreadyClosed),
            *self != Inbound::SkipNoCallback && *self != Inbound::StopClosed ==> notice is None,
    {
        match self {
            Inbound::SkipNoCallback => Some(WatcherError::CallbackNotSet),
            Inbound::StopClosed => Some(WatcherError::AlreadyClosed),
            _ => None,
        }
    }
}

/// The state of a subscription worker, as contracts see it.
pub struct SubscriberView {
    pub channel: Seq<char>,
    pub local_id: Seq<char>,
    pub ignore_self: bool,
    pub phase: SubscribePhase,
    /// Failed attempts of the set-up step at hand.
    pub failures: nat,
    pub stop_reason: Option<StopReason>,
}

/// The pause after the `failures`-th failed attempt, `unit` for each.
pub open spec fn backoff_millis(unit: u64, failures: nat) -> u64 {
    (unit * failures) as u64
}

/// The action that a worker in this state waits to have performed.
pub open spec fn pending_action(state: SubscriberView) -> SubscribeAction {
    match state.phase {
        SubscribePhase::Connecting => SubscribeAction::Connect,
        SubscribePhase::ConnectBackoff => SubscribeAction::Sleep(
            backoff_millis(CONNECT_BACKOFF_MILLIS, state.failures),
        ),
        SubscribePhase::Subscribing => SubscribeAction::Subscribe,
        SubscribePhase::SubscribeBackoff => SubscribeAction::Sleep(
            backoff_millis(SUBSCRIBE_BACKOFF_MILLIS, state.failures),
        ),
        SubscribePhase::Listening => SubscribeAction::Listen(IDLE_WAKE_MILLIS),
        SubscribePhase::Stopped => SubscribeAction::Stop,
    }
}

/// The state after the receiving side has ended for `reason`.
pub open spec fn stopped(state: SubscriberView, reason: StopReason) -> SubscriberView {
    SubscriberView { phase: SubscribePhase::Stopped, stop_reason: Some(reason), ..state }
}

/// The state in `phase` after `failures` failed attempts.
pub open spec fn moved(state: SubscriberView, phase: SubscribePhase, failures: nat)
    -> SubscriberView {
    SubscriberView { phase, failures, ..state }
}

/// The state after a failed set-up attempt: a pause in `backoff` while
/// retries are left, the end for `reason` after them.
pub open spec fn after_failure(state: SubscriberView, backoff: SubscribePhase, reason: StopReason)
    -> SubscriberView {
    if state.failures + 1 > MAX_SETUP_RETRIES {
        stopped(moved(state, state.phase, state.failures + 1), reason)
    } else {
        moved(state, backoff, state.failures + 1)
    }
}

/// The state after `event`, with the closed flag as it was read just then.
/// The flag is looked at before every attempt and at every idle wake, not
/// while an attempt's outcome is taken in. An event that the phase does not
/// wait for changes nothing.
pub open spec fn subscribe_next(state: SubscriberView, closed: bool, event: SubscribeEvent)
    -> SubscriberView {
    match (state.phase, event) {
        (SubscribePhase::Connecting, SubscribeEvent::Start) => if closed {
            stopped(state, StopReason::Closed)
        } else {
            state
        },
        (SubscribePhase::Connecting, SubscribeEvent::Connected) => if closed {
            stopped(state, StopReason::Closed)
        } else {
            moved(state, SubscribePhase::Subscribing, 0)
        },
        (SubscribePhase::Connecting, SubscribeEvent::ConnectFailed) => after_failure(
            state,
            SubscribePhase::ConnectBackoff,
            StopReason::ConnectFailed,
        ),
        (SubscribePhase::ConnectBackoff, SubscribeEvent::Woke) => if closed {
            stopped(state, StopReason::Closed)
        } else {
            moved(state, SubscribePhase::Connecting, state.failures)
        },
        (SubscribePhase::Subscribing, SubscribeEvent::Subscribed) => moved(
            state,
            SubscribePhase::Listening,
            0,
        ),
        (SubscribePhase::Subscribing, SubscribeEvent::SubscribeFailed) => after_failure(
            state,
            SubscribePhase::SubscribeBackoff,
            StopReason::SubscribeFailed,
        ),
        (SubscribePhase::SubscribeBackoff, SubscribeEvent::Woke) => if closed {
            stopped(state, StopReason::Closed)
        } else {
            moved(state, SubscribePhase::Subscribing, state.failures)
        },
        (SubscribePhase::Listening, SubscribeEvent::Woke) => if closed {
            stopped(state, StopReason::Closed)
        } else {
            state
        },
        _ => state,
    }
}

/// The action that answers `event`: the readiness signal when the
/// subscription has just been made, else what the new state waits for.
pub open spec fn subscribe_action(state: SubscriberView, closed: bool, event: SubscribeEvent)
    -> SubscribeAction {
    if state.phase == SubscribePhase::Subscribing && event == SubscribeEvent::Subscribed {
        SubscribeAction::Ready
    } else {
        pending_action(subscribe_next(state, closed, event))
    }
}

/// What becomes of a payload that was decoded as `decoded`, for an instance
/// `local_id`: its own messages are passed over where it ignores itself,
/// and every other message goes to the callback where one is registered.
pub open spec fn delivery_of(
    ignore_self: bool,
    local_id: Seq<char>,
    decoded: Option<MessageView>,
    callback_set: bool,
) -> Inbound {
    match decoded {
        None => Inbound::SkipMalformed,
        Some(message) => if ignore_self && message.id == local_id {
            Inbound::SkipOwn
        } else if callback_set {
            Inbound::Deliver
        } else {
            Inbound::SkipNoCallback
        },
    }
}

/// What becomes of `payload`, or of the end of the stream where there is
/// none, in a listening worker.
pub open spec fn inbound_of(
    ignore_self: bool,
    local_id: Seq<char>,
    closed: bool,
    payload: Option<Seq<char>>,
    callback_set: bool,
) -> Inbound {
    if closed {
        Inbound::StopClosed
    } else {
        match payload {
            None => Inbound::StopStreamEnded,
            Some(text) => if text == shutdown_sentinel() {
                Inbound::StopPeerShutdown
            } else {
                delivery_of(ignore_self, local_id, decode_message(text), callback_set)
            },
        }
    }
}

/// The reason for which `outcome` ends the receiving side, if it does.
pub open spec fn stop_of(outcome: Inbound) -> Option<StopReason> {
    match outcome {
        Inbound::StopClosed => Some(StopReason::Closed),
        Inbound::StopStreamEnded => Some(StopReason::StreamEnded),
        Inbound::StopPeerShutdown => Some(StopReason::PeerShutdown),
        _ => None,
    }
}

/// The receiving side of one watcher.
pub struct SubscriptionWorker {
    channel: String,
    local_id: String,
    ignore_self: bool,
    phase: SubscribePhase,
    failures: u32,
    stop_reason: Option<StopReason>,
}

impl View for SubscriptionWorker {
    type V = SubscriberView;

    closed spec fn view(&self) -> SubscriberView {
        SubscriberView {
            channel: self.channel@,
            local_id: self.local_id@,
            ignore_self: self.ignore_self,
            phase: self.phase,
            failures: self.failures as nat,
            stop_reason: self.stop_reason,
        }
    }
}

/// Whether `text` is the payload that announces a peer's shutdown.
pub fn is_shutdown_sentinel(text: &str) -> (r: bool)
    ensures
        r == (text@ == shutdown_sentinel()),
{
    let given = String::from_str(text);
    let sentinel = String::from_str("Close");
    given == sentinel
}

/// Decides what becomes of a payload once it has been decoded: `decoded`
/// is the outcome of reading it as a message.
pub fn classify_decoded(
    ignore_self: bool,
    local_id: &String,
    decoded: &Result<Message, WatcherError>,
    callback_set: bool,
) -> (outcome: Inbound)
    ensures
        outcome == delivery_of(
            ignore_self,
            local_id@,
            match decoded {
                Ok(message) => Some(message@),
                Err(_) => None,
            },
            callback_set,
        ),
{
    match decoded {
        Err(_) => Inbound::SkipMalformed,
        Ok(message) => {
            if ignore_self && message.id == *local_id {
                Inbound::SkipOwn
            } else if callback_set {
                Inbound::Deliver
            } else {
                Inbound::SkipNoCallback
            }
        },
    }
}

impl SubscriptionWorker {
    #[verifier::type_invariant]
    spec fn bounded(&self) -> bool {
        &&& self.failures <= MAX_SETUP_RETRIES + 1
        &&& self.phase != SubscribePhase::Stopped ==> self.failures <= MAX_SETUP_RETRIES
    }

    /// A worker for `channel` on behalf of the instance `local_id`, about
    /// to make its first connection attempt.
    pub fn new(channel: String, local_id: String, ignore_self: bool) -> (worker: SubscriptionWorker)
        ensures
            worker@ == (SubscriberView {
                channel: channel@,
                local_id: local_id@,
                ignore_self,
                phase: SubscribePhase::Connecting,
                failures: 0,
                stop_reason: None,
            }),
    {
        SubscriptionWorker {
            channel,
            local_id,
            ignore_self,
            phase: SubscribePhase::Connecting,
            failures: 0,
            stop_reason: None,
        }
    }

    /// The channel that is subscribed to.
    pub fn channel(&self) -> (channel: &String)
        ensures
            channel@ == self@.channel,
    {
        &self.channel
    }

    /// Where the worker stands.
    pub fn phase(&self) -> (phase: SubscribePhase)
        ensures
            phase == self@.phase,
    {
        self.phase
    }

    /// Why the worker ended, once it has.
    pub fn stop_reason(&self) -> (reason: Option<StopReason>)
        ensures
            reason == self@.stop_reason,
    {
        self.stop_reason
    }

    /// Whether the receiving side ended because the subscription could not
    /// be set up: the watcher then receives nothing until it is replaced.
    pub fn has_failed(&self) -> (failed: bool)
        ensures
            failed == (self@.stop_reason == Some(StopReason::ConnectFailed) || self@.stop_reason
                == Some(StopReason::SubscribeFailed)),
    {
        match self.stop_reason {
            Some(StopReason::ConnectFailed) => true,
            Some(StopReason::SubscribeFailed) => true,
            _ => false,
        }
    }

    fn stop(&mut self, reason: StopReason)
        ensures
            final(self)@ == stopped(old(self)@, reason),
    {
        proof {
            use_type_invariant(&*self);
        }
        self.phase = SubscribePhase::Stopped;
        self.stop_reason = Some(reason);
    }

    fn fail(&mut self, backoff: SubscribePhase, reason: StopReason)
        requires
            old(self)@.phase != SubscribePhase::Stopped,
            backoff != SubscribePhase::Stopped,
        ensures
            final(self)@ == after_failure(old(self)@, backoff, reason),
    {
        proof {
            use_type_invariant(&*self);
        }
        let failures: u32 = self.failures + 1;
        if failures > MAX_SETUP_RETRIES {
            self.phase = SubscribePhase::Stopped;
            self.stop_reason = Some(reason);
            self.failures = failures;
        } else {
            self.failures = failures;
            self.phase = backoff;
        }
    }

    fn pending(&self) -> (action: SubscribeAction)
        ensures
            action == pending_action(self@),
    {
        proof {
            use_type_invariant(self);
        }
        match self.phase {
            SubscribePhase::Connecting => SubscribeAction::Connect,
            SubscribePhase::ConnectBackoff => SubscribeAction::Sleep(
                CONNECT_BACKOFF_MILLIS * (self.failures as u64),
            ),
            SubscribePhase::Subscribing => SubscribeAction::Subscribe,
            SubscribePhase::SubscribeBackoff => SubscribeAction::Sleep(
                SUBSCRIBE_BACKOFF_MILLIS * (self.failures as u64),
            ),
            SubscribePhase::Listening => SubscribeAction::Listen(IDLE_WAKE_MILLIS),
            SubscribePhase::Stopped => SubscribeAction::Stop,
        }
    }

    /// Takes in `event`, with the closed flag as it stands now, and says
    /// what to do next.
    pub fn step(&mut self, closed: bool, event: SubscribeEvent) -> (action: SubscribeAction)
        ensures
            final(self)@ == subscribe_next(old(self)@, closed, event),
            action == subscribe_action(old(self)@, closed, event),
    {
        proof {
            use_type_invariant(&*self);
        }
        match (self.phase, event) {
            (SubscribePhase::Connecting, SubscribeEvent::Start) => {
                if closed {
                    self.stop(StopReason::Closed);
                }
            },
            (SubscribePhase::Connecting, SubscribeEvent::Connected) => {
                if closed {
                    self.stop(StopReason::Closed);
                } else {
                    self.phase = SubscribePhase::Subscribing;
                    self.failures = 0;
                }
            },
            (SubscribePhase::Connecting, SubscribeEvent::ConnectFailed) => {
                self.fail(SubscribePhase::ConnectBackoff, StopReason::ConnectFailed);
            },
            (SubscribePhase::ConnectBackoff, SubscribeEvent::Woke) => {
                if closed {
                    self.stop(StopReason::Closed);
                } else {
                    self.phase = SubscribePhase::Connecting;
                }
            },
            (SubscribePhase::Subscribing, SubscribeEvent::Subscribed) => {
                self.phase = SubscribePhase::Listening;
                self.failures = 0;
                return SubscribeAction::Ready;
            },
            (SubscribePhase::Subscribing, SubscribeEvent::SubscribeFailed) => {
                self.fail(SubscribePhase::SubscribeBackoff, StopReason::SubscribeFailed);
            },
            (SubscribePhase::SubscribeBackoff, SubscribeEvent::Woke) => {
                if closed {
                    self.stop(StopReason::Closed);
                } else {
                    self.phase = SubscribePhase::Subscribing;
                }
            },
            (SubscribePhase::Listening, SubscribeEvent::Woke) => {
                if closed {
                    self.stop(StopReason::Closed);
                }
            },
            _ => {},
        }
        self.pending()
    }

    /// Takes in what the stream gave while listening: a payload, or `None`
    /// at its end. `callback_set` says whether a callback is registered
    /// now. An outcome that stops ends the worker. A worker that is not
    /// listening takes nothing in: it answers `StopClosed` and stays as it is.
    pub fn on_payload(&mut self, closed: bool, payload: Option<&str>, callback_set: bool) -> (outcome:
        Inbound)
        ensures
            old(self)@.phase == SubscribePhase::Listening ==> outcome == inbound_of(
                old(self)@.ignore_self,
                old(self)@.local_id,
                closed,
                match payload {
                    Some(text) => Some(text@),
                    None => None,
                },
                callback_set,
            ),
            old(self)@.phase != SubscribePhase::Listening ==> outcome == Inbound::StopClosed
                && final(self)@ == old(self)@,
            old(self)@.phase == SubscribePhase::Listening ==> final(self)@ == match stop_of(
                outcome,
            ) {
                Some(reason) => stopped(old(self)@, reason),
                None => old(self)@,
            },
    {
        proof {
            use_type_invariant(&*self);
        }
        if self.phase != SubscribePhase::Listening {
            return Inbound::StopClosed;
        }
        if closed {
            self.stop(StopReason::Closed);
            return Inbound::StopClosed;
        }
        match payload {
            None => {
                self.stop(StopReason::StreamEnded);
                Inbound::StopStreamEnded
            },
            Some(text) => {
                if is_shutdown_sentinel(text) {
                    self.stop(StopReason::PeerShutdown);
                    Inbound::StopPeerShutdown
                } else {
                    let decoded = Message::from_json(text);
                    classify_decoded(self.ignore_self, &self.local_id, &decoded, callback_set)
                }
            },
        }
    }
}

/// Self-filtering: a listening worker that ignores its own instance never
/// delivers a message that carries its own identifier, and a message from
/// any other instance is delivered whenever a callback is registered. With
/// self-filtering off, the instance's own messages are delivered too.
pub proof fn lemma_self_filtering(
    ignore_self: bool,
    local_id: Seq<char>,
    payload: Seq<char>,
    message: MessageView,
    callback_set: bool,
)
    requires
        payload != shutdown_sentinel(),
        decode_message(payload) == Some(message),
    ensures
        ignore_self && message.id == local_id ==> inbound_of(
            ignore_self,
            local_id,
            false,
            Some(payload),
            callback_set,
        ) == Inbound::SkipOwn,
        message.id != local_id && callback_set ==> inbound_of(
            ignore_self,
            local_id,
            false,
            Some(payload),
            callback_set,
        ) == Inbound::Deliver,
        !ignore_self && callback_set ==> inbound_of(
            ignore_self,
            local_id,
            false,
            Some(payload),
            callback_set,
        ) == Inbound::Deliver,
{
}

/// Once the closed flag is up nothing is delivered, whatever arrives.
pub proof fn lemma_closed_delivers_nothing(
    ignore_self: bool,
    local_id: Seq<char>,
    payload: Option<Seq<char>>,
    callback_set: bool,
)
    ensures
        inbound_of(ignore_self, local_id, true, payload, callback_set) == Inbound::StopClosed,
{
}

/// The receiving side does not start again: once it has ended, every event
/// leaves it as it is and is answered with `Stop`.
pub proof fn lemma_receiving_side_stays_stopped(
    state: SubscriberView,
    closed: bool,
    event: SubscribeEvent,
)
    requires
        state.phase == SubscribePhase::Stopped,
    ensures
        subscribe_next(state, closed, event) == state,
        subscribe_action(state, closed, event) == SubscribeAction::Stop,
{
}

/// Malformed traffic ends nothing: a payload that is not the sentinel and
/// holds no message is passed over, whoever sent it.
pub proof fn lemma_malformed_payload_is_passed_over(
    ignore_self: bool,
    local_id: Seq<char>,
    payload: Seq<char>,
    callback_set: bool,
)
    requires
        payload != shutdown_sentinel(),
        decode_message(payload) is None,
    ensures
        inbound_of(ignore_self, local_id, false, Some(payload), callback_set)
            == Inbound::SkipMalformed,
        stop_of(Inbound::SkipMalformed) is None,
{
}

/// Setting the connection up is given up at the sixth failure in a row and
/// not before: after `failures` failures, one more pauses for a thousand
/// milliseconds for each failure so far while at most five have happened,
/// and ends the receiving side otherwise.
pub proof fn lemma_connect_retries_are_bounded(state: SubscriberView, closed: bool)
    requires
        state.phase == SubscribePhase::Connecting,
        state.failures <= MAX_SETUP_RETRIES,
    ensures
        state.failures < MAX_SETUP_RETRIES ==> subscribe_action(
            state,
            closed,
            SubscribeEvent::ConnectFailed,
        ) == SubscribeAction::Sleep(((state.failures + 1) * 1000) as u64),
        state.failures == MAX_SETUP_RETRIES ==> subscribe_action(
            state,
            closed,
            SubscribeEvent::ConnectFailed,
        ) == SubscribeAction::Stop && subscribe_next(
            state,
            closed,
            SubscribeEvent::ConnectFailed,
        ).stop_reason == Some(StopReason::ConnectFailed),
{
}

} // verus!
