//! Configuration of a watcher instance.

use vstd::prelude::*;

verus! {

/// Configuration of one watcher: the channel it talks on, whether it skips
/// its own messages, and the identifier it signs its messages with.
#[derive(Debug, Clone)]
pub struct WatcherOptions {
    /// Pub/sub channel on which notifications are exchanged.
    pub channel: String,
    /// Whether notifications published by this instance are skipped on receipt.
    pub ignore_self: bool,
    /// Identifier of this instance, carried in every message it publishes.
    pub local_id: String,
}

/// The channel used when none is configured.
pub open spec fn default_channel() -> Seq<char> {
    "/casbin"@
}

/// Whether `c` is a decimal digit or one of the letters `a` to `f`.
pub open spec fn is_lower_hex(c: char) -> bool {
    ('0' <= c && c <= '9') || ('a' <= c && c <= 'f')
}

/// Whether `id` has the form of a generated instance identifier: 36
/// characters, hyphens after the 8th, 12th, 16th and 20th of its 32
/// hexadecimal digits; the 13th digit is the version, 4, and the 17th
/// holds the variant, one of 8, 9, a and b.
pub open spec fn is_generated_id(id: Seq<char>) -> bool {
    &&& id.len() == 36
    &&& forall|i: int|
        0 <= i < 36 ==> if i == 8 || i == 13 || i == 18 || i == 23 {
            #[trigger] id[i] == '-'
        } else {
            is_lower_hex(id[i])
        }
    &&& id[14] == '4'
    &&& (id[19] == '8' || id[19] == '9' || id[19] == 'a' || id[19] == 'b')
}

/// Draws a fresh instance identifier from `uuid::Uuid::new_v4`, written in
/// the hyphenated lower-case form of its `Display` impl. The identifier is
/// random but for its version and variant bits, so the contract only claims
/// its form.
#[verifier::external_body]
fn fresh_instance_id() -> (id: String)
    ensures
        is_generated_id(id@),
{
    uuid::Uuid::new_v4().to_string()
}

impl Default for WatcherOptions {
    /// The default channel, no self-filtering, and a freshly drawn identifier.
    fn default() -> (r: WatcherOptions)
        ensures
            r.channel@ == default_channel(),
            !r.ignore_self,
            is_generated_id(r.local_id@),
    {
        WatcherOptions {
            channel: String::from_str("/casbin"),
            ignore_self: false,
            local_id: fresh_instance_id(),
        }
    }
}

impl WatcherOptions {
    /// Options with the defaults of [`WatcherOptions::default`].
    pub fn new() -> (r: WatcherOptions)
        ensures
            r.channel@ == default_channel(),
            !r.ignore_self,
            is_generated_id(r.local_id@),
    {
        WatcherOptions {
            channel: String::from_str("/casbin"),
            ignore_self: false,
            local_id: fresh_instance_id(),
        }
    }

    /// Replaces the channel and keeps the rest.
    pub fn with_channel(self, channel: String) -> (r: WatcherOptions)
        ensures
            r.channel == channel,
            r.ignore_self == self.ignore_self,
            r.local_id == self.local_id,
    {
        let mut this = self;
        this.channel = channel;
        this
    }

    /// Replaces the self-filtering switch and keeps the rest.
    pub fn with_ignore_self(self, ignore_self: bool) -> (r: WatcherOptions)
        ensures
            r.channel == self.channel,
            r.ignore_self == ignore_self,
            r.local_id == self.local_id,
    {
        let mut this = self;
        this.ignore_self = ignore_self;
        this
    }

    /// Replaces the instance identifier and keeps the rest.
    pub fn with_local_id(self, local_id: String) -> (r: WatcherOptions)
        ensures
            r.channel == self.channel,
            r.ignore_self == self.ignore_self,
            r.local_id == local_id,
    {
        let mut this = self;
        this.local_id = local_id;
        this
    }
}

} // verus!
