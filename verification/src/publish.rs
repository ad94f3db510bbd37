//! The sending side of a watcher: one queue entry at a time is published,
//! a failed attempt is repeated after a growing pause, and after the last
//! attempt the message is dropped and the loss recorded.
//!
//! The worker is a state machine. The program that drives it performs the
//! action it is given (take the next entry, publish, sleep) and reports
//! back what happened.

use crate::message::{Message, MessageView};
use crate::wire::encode_message;
use vstd::prelude::*;

verus! {

/// Attempts to publish one message, the first included.
pub const MAX_PUBLISH_ATTEMPTS: u32 = 3;

/// Pause after a failed attempt, for each failure so far.
pub const PUBLISH_BACKOFF_MILLIS: u64 = 100;

/// Where the sending side stands.
#[derive(Debug, Clone, Copy, PartialEq, Eq, Structural)]
pub enum PublishPhase {
    /// No message is in flight; the next queue entry is awaited.
    Idle,
    /// An attempt to publish the message in flight is due or under way.
    Sending,
    /// Pausing after a failed attempt.
    Backoff,
    /// The sending side has ended.
    Stopped,
}

/// What the driving program does next.
#[derive(Debug, Clone, Copy, PartialEq, Eq, Structural)]
pub enum PublishAction {
    /// Take the next entry from the queue and hand it in.
    Receive,
    /// Publish the payload in flight on the channel and report how it went.
    Publish,
    /// Pause for so many milliseconds, then report that the pause is over.
    Sleep(u64),
    /// End the task.
    Stop,
}

/// The state of a publish worker, as contracts see it.
pub struct PublisherView {
    pub channel: Seq<char>,
    pub phase: PublishPhase,
    /// The wire form of the message in flight, or of the last one.
    pub payload: Seq<char>,
    /// Failed attempts for that message.
    pub failures: nat,
    /// Messages dropped after their last attempt failed.
    pub dropped: nat,
}

/// A counter of 64 bits after one more event: it stays at its largest value.
pub open spec fn counted(n: nat) -> nat {
    if n < u64::MAX {
        n + 1
    } else {
        n
    }
}

/// The action that a worker in this state waits to have performed.
pub open spec fn publish_pending(state: PublisherView) -> PublishAction {
    match state.phase {
        PublishPhase::Idle => PublishAction::Receive,
        PublishPhase::Sending => PublishAction::Publish,
        PublishPhase::Backoff => PublishAction::Sleep(
            (PUBLISH_BACKOFF_MILLIS * state.failures) as u64,
        ),
        PublishPhase::Stopped => PublishAction::Stop,
    }
}

/// The state after the queue gave `entry`, with the closed flag as it was
/// read just then. An idle worker ends where the watcher is closed or the
/// queue is gone, and else takes the message in flight; a worker that is
/// not idle stays as it is.
pub open spec fn publish_entry(state: PublisherView, closed: bool, entry: Option<MessageView>)
    -> PublisherView {
    if state.phase != PublishPhase::Idle {
        state
    } else if closed || entry is None {
        PublisherView { phase: PublishPhase::Stopped, ..state }
    } else {
        PublisherView {
            phase: PublishPhase::Sending,
            payload: encode_message(entry->Some_0),
            failures: 0,
            ..state
        }
    }
}

/// The state after an attempt went through (`published`) or failed. A
/// sending worker turns idle after a success; after a failure it pauses
/// while attempts are left, and else drops the message, records the loss
/// and turns idle. A worker that is not sending stays as it is.
pub open spec fn publish_result(state: PublisherView, published: bool) -> PublisherView {
    if state.phase != PublishPhase::Sending {
        state
    } else if published {
        PublisherView { phase: PublishPhase::Idle, ..state }
    } else if state.failures + 1 >= MAX_PUBLISH_ATTEMPTS {
        PublisherView {
            phase: PublishPhase::Idle,
            failures: state.failures + 1,
            dropped: counted(state.dropped),
            ..state
        }
    } else {
        PublisherView { phase: PublishPhase::Backoff, failures: state.failures + 1, ..state }
    }
}

/// The state after a pause is over: a pausing worker sends again; any
/// other stays as it is.
pub open spec fn publish_wake(state: PublisherView) -> PublisherView {
    if state.phase == PublishPhase::Backoff {
        PublisherView { phase: PublishPhase::Sending, ..state }
    } else {
        state
    }
}

/// The sending side of one watcher.
pub struct PublishWorker {
    channel: String,
    phase: PublishPhase,
    payload: String,
    failures: u32,
    dropped: u64,
}

impl View for PublishWorker {
    type V = PublisherView;

    closed spec fn view(&self) -> PublisherView {
        PublisherView {
            channel: self.channel@,
            phase: self.phase,
            payload: self.payload@,
            failures: self.failures as nat,
            dropped: self.dropped as nat,
        }
    }
}

impl PublishWorker {
    #[verifier::type_invariant]
    spec fn bounded(&self) -> bool {
        &&& self.failures <= MAX_PUBLISH_ATTEMPTS
        &&& (self.phase == PublishPhase::Sending || self.phase == PublishPhase::Backoff)
            ==> self.failures < MAX_PUBLISH_ATTEMPTS
    }

    /// An idle worker that publishes on `channel`.
    pub fn new(channel: String) -> (worker: PublishWorker)
        ensures
            worker@ == (PublisherView {
                channel: channel@,
                phase: PublishPhase::Idle,
                payload: Seq::empty(),
                failures: 0,
                dropped: 0,
            }),
    {
        PublishWorker {
            channel,
            phase: PublishPhase::Idle,
            payload: String::new(),
            failures: 0,
            dropped: 0,
        }
    }

    /// The channel that is published on.
    pub fn channel(&self) -> (channel: &String)
        ensures
            channel@ == self@.channel,
    {
        &self.channel
    }

    /// The wire form of the message in flight, or of the last one.
    pub fn payload(&self) -> (payload: &String)
        ensures
            payload@ == self@.payload,
    {
        &self.payload
    }

    /// Where the worker stands.
    pub fn phase(&self) -> (phase: PublishPhase)
        ensures
            phase == self@.phase,
    {
        self.phase
    }

    /// Failed attempts for the message in flight, or for the last one.
    pub fn failures(&self) -> (failures: u32)
        ensures
            failures == self@.failures,
    {
        self.failures
    }

    /// Messages dropped so far after their last attempt failed.
    pub fn dropped(&self) -> (dropped: u64)
        ensures
            dropped == self@.dropped,
    {
        self.dropped
    }

    fn pending(&self) -> (action: PublishAction)
        ensures
            action == publish_pending(self@),
    {
        proof {
            use_type_invariant(self);
        }
        match self.phase {
            PublishPhase::Idle => PublishAction::Receive,
            PublishPhase::Sending => PublishAction::Publish,
            PublishPhase::Backoff => PublishAction::Sleep(
                PUBLISH_BACKOFF_MILLIS * (self.failures as u64),
            ),
            PublishPhase::Stopped => PublishAction::Stop,
        }
    }

    /// Takes in what the queue gave: the next message, or `None` where the
    /// queue is gone. `closed` is the closed flag as it stands now.
    pub fn on_entry(&mut self, closed: bool, entry: Option<Message>) -> (action: PublishAction)
        ensures
            final(self)@ == publish_entry(
                old(self)@,
                closed,
                match entry {
                    Some(message) => Some(message@),
                    None => None,
                },
            ),
            action == publish_pending(final(self)@),
    {
        proof {
            use_type_invariant(&*self);
        }
        if self.phase == PublishPhase::Idle {
            match entry {
                Some(message) => {
                    if closed {
                        self.phase = PublishPhase::Stopped;
                    } else {
                        match message.to_json() {
                            Ok(payload) => {
                                self.failures = 0;
                                self.payload = payload;
                                self.phase = PublishPhase::Sending;
                            },
                            Err(_) => {},
                        }
                    }
                },
                None => {
                    self.phase = PublishPhase::Stopped;
                },
            }
        }
        self.pending()
    }

    /// Takes in how the attempt to publish went.
    pub fn on_result(&mut self, published: bool) -> (action: PublishAction)
        ensures
            final(self)@ == publish_result(old(self)@, published),
            action == publish_pending(final(self)@),
    {
        proof {
            use_type_invariant(&*self);
        }
        if self.phase == PublishPhase::Sending {
            if published {
                self.phase = PublishPhase::Idle;
            } else {
                let failures: u32 = self.failures + 1;
                if failures >= MAX_PUBLISH_ATTEMPTS {
                    self.phase = PublishPhase::Idle;
                    self.failures = failures;
                    if self.dropped < u64::MAX {
                        self.dropped = self.dropped + 1;
                    }
                } else {
                    self.failures = failures;
                    self.phase = PublishPhase::Backoff;
                }
            }
        }
        self.pending()
    }

    /// Takes in that the pause is over.
    pub fn on_wake(&mut self) -> (action: PublishAction)
        ensures
            final(self)@ == publish_wake(old(self)@),
            action == publish_pending(final(self)@),
    {
        proof {
            use_type_invariant(&*self);
        }
        if self.phase == PublishPhase::Backoff {
            self.phase = PublishPhase::Sending;
        }
        self.pending()
    }
}

/// Retry bound: a message whose every attempt fails is attempted three
/// times, with pauses of one and of two hundred milliseconds in between,
/// and is then dropped with the loss recorded. The worker is idle again
/// and asks for the next entry: a further wake or failure report starts no
/// fourth attempt.
pub proof fn lemma_failing_publish_is_abandoned(idle: PublisherView, message: MessageView)
    requires
        idle.phase == PublishPhase::Idle,
    ensures
        ({
            let first = publish_entry(idle, false, Some(message));
            let paused_once = publish_result(first, false);
            let second = publish_wake(paused_once);
            let paused_twice = publish_result(second, false);
            let third = publish_wake(paused_twice);
            let after = publish_result(third, false);
            &&& publish_pending(first) == PublishAction::Publish
            &&& first.payload == encode_message(message)
            &&& publish_pending(paused_once) == PublishAction::Sleep(100)
            &&& publish_pending(second) == PublishAction::Publish
            &&& publish_pending(paused_twice) == PublishAction::Sleep(200)
            &&& publish_pending(third) == PublishAction::Publish
            &&& third.payload == encode_message(message)
            &&& publish_pending(after) == PublishAction::Receive
            &&& after.failures == MAX_PUBLISH_ATTEMPTS
            &&& after.dropped == counted(idle.dropped)
            &&& publish_pending(publish_wake(after)) == PublishAction::Receive
            &&& publish_pending(publish_result(after, false)) == PublishAction::Receive
        }),
{
}

/// A failure never ends the sending side: whatever happened to one
/// message, the worker takes the next one.
pub proof fn lemma_publish_path_stays_open(state: PublisherView, published: bool)
    requires
        state.phase != PublishPhase::Stopped,
    ensures
        publish_result(state, published).phase != PublishPhase::Stopped,
        publish_wake(state).phase != PublishPhase::Stopped,
{
}

} // verus!
