//! The Redis target of a watcher: one standalone server, or one pinned node
//! of a cluster.
//!
//! Pub/sub notifications of a Redis cluster do not travel from node to
//! node. Every instance must therefore publish and subscribe on one and the
//! same node, and so a cluster transport keeps a single client, made for
//! the first address of the list it is given.

use crate::error::{redis_error_detail, redis_error_words, WatcherError};
use vstd::prelude::*;
use vstd::std_specs::iter::IteratorSpec;

verus! {

/// A client of the Redis driver, carried through unread.
#[verifier::external_type_specification]
#[verifier::external_body]
pub struct ExRedisClient(redis::Client);

/// Whether `c` is white space as `char::is_whitespace` of std tells it: a
/// character with the Unicode property `White_Space`. These are the
/// controls from tab to carriage return, the space, the next-line control,
/// the no-break space, the Ogham space mark, the spaces from en quad to hair
/// space, the line and the paragraph separator, the narrow no-break space,
/// the medium mathematical space and the ideographic space.
pub open spec fn white_space(c: char) -> bool {
    let n = c as u32;
    ||| 0x09 <= n <= 0x0D
    ||| n == 0x20
    ||| n == 0x85
    ||| n == 0xA0
    ||| n == 0x1680
    ||| 0x2000 <= n <= 0x200A
    ||| n == 0x2028
    ||| n == 0x2029
    ||| n == 0x202F
    ||| n == 0x205F
    ||| n == 0x3000
}

/// Whether `client` is what `redis::Client::open` made for the address
/// `url`: every connection that the client opens goes to the server that
/// this address names.
pub uninterp spec fn made_for(client: redis::Client, url: Seq<char>) -> bool;

/// Asks `char::is_whitespace` whether `c` is white space.
#[verifier::external_body]
fn is_white_space(c: char) -> (r: bool)
    ensures
        r == white_space(c),
{
    c.is_whitespace()
}

/// Makes a client for `url` with `redis::Client::open`, which reads the
/// address and connects to nothing. Which addresses it takes depends on the
/// platform and on how the driver was built, so nothing is claimed of
/// whether it succeeds; a client that comes back was made for `url`.
#[verifier::external_body]
fn open_client(url: &str) -> (r: Result<redis::Client, redis::RedisError>)
    ensures
        r matches Ok(client) ==> made_for(client, url@),
{
    redis::Client::open(url)
}

/// The place of the first comma in `text`, or its length where it has none.
pub open spec fn comma_index(text: Seq<char>) -> nat
    decreases text.len(),
{
    if text.len() == 0 || text[0] == ',' {
        0
    } else {
        1 + comma_index(text.drop_first())
    }
}

/// How many white-space characters `text` begins with.
pub open spec fn leading_white(text: Seq<char>) -> nat
    decreases text.len(),
{
    if text.len() > 0 && white_space(text[0]) {
        1 + leading_white(text.drop_first())
    } else {
        0
    }
}

/// How many white-space characters `text` ends with.
pub open spec fn trailing_white(text: Seq<char>) -> nat
    decreases text.len(),
{
    if text.len() > 0 && white_space(text.last()) {
        1 + trailing_white(text.drop_last())
    } else {
        0
    }
}

/// `text` without the white space at its two ends.
pub open spec fn trimmed(text: Seq<char>) -> Seq<char> {
    let rest = text.skip(leading_white(text) as int);
    rest.take(rest.len() - trailing_white(rest))
}

/// The node that a cluster watcher is pinned to: the first of the
/// comma-separated addresses, without the white space around it.
pub open spec fn pinned_node_of(cluster_urls: Seq<char>) -> Seq<char> {
    trimmed(cluster_urls.take(comma_index(cluster_urls) as int))
}

/// The first comma stands where nothing before is a comma and either the
/// text ends or a comma stands.
pub proof fn lemma_comma_index(text: Seq<char>, n: int)
    requires
        0 <= n <= text.len(),
        forall|k: int| 0 <= k < n ==> text[k] != ',',
        n == text.len() || text[n] == ',',
    ensures
        comma_index(text) == n,
    decreases n,
{
    if n > 0 {
        let rest = text.drop_first();
        assert forall|k: int| 0 <= k < n - 1 implies rest[k] != ',' by {
            assert(rest[k] == text[k + 1]);
        }
        lemma_comma_index(rest, n - 1);
    }
}

/// The leading white space ends where everything before is white space and
/// either the text ends or another character stands.
pub proof fn lemma_leading_white(text: Seq<char>, n: int)
    requires
        0 <= n <= text.len(),
        forall|k: int| 0 <= k < n ==> white_space(text[k]),
        n == text.len() || !white_space(text[n]),
    ensures
        leading_white(text) == n,
    decreases n,
{
    if n > 0 {
        let rest = text.drop_first();
        assert forall|k: int| 0 <= k < n - 1 implies white_space(rest[k]) by {
            assert(rest[k] == text[k + 1]);
        }
        lemma_leading_white(rest, n - 1);
    }
}

/// The trailing white space begins where everything after is white space
/// and either the text begins or another character stands before.
pub proof fn lemma_trailing_white(text: Seq<char>, n: int)
    requires
        0 <= n <= text.len(),
        forall|k: int| n <= k < text.len() ==> white_space(text[k]),
        n == 0 || !white_space(text[n - 1]),
    ensures
        trailing_white(text) == text.len() - n,
    decreases text.len() - n,
{
    if n < text.len() {
        let rest = text.drop_last();
        assert forall|k: int| n <= k < rest.len() implies white_space(rest[k]) by {
            assert(rest[k] == text[k]);
        }
        lemma_trailing_white(rest, n);
    }
}

/// The node that a cluster watcher is pinned to: the first of the
/// comma-separated addresses in `cluster_urls`, without the white space
/// around it.
pub fn pinned_node(cluster_urls: &str) -> (node: String)
    ensures
        node@ == pinned_node_of(cluster_urls@),
{
    let ghost text = cluster_urls@;
    let total = cluster_urls.unicode_len();
    let mut chars = cluster_urls.chars();
    let mut i: usize = 0;
    let mut start: usize = 0;
    let mut end: usize = 0;
    let mut seen: bool = false;
    let mut done: bool = false;
    while !done
        invariant
            i <= text.len(),
            text.len() == total,
            !done ==> chars.remaining() == text.skip(i as int),
            forall|k: int| 0 <= k < i ==> text[k] != ',',
            done ==> i == text.len() || text[i as int] == ',',
            !seen ==> start == 0 && end == 0 && forall|k: int| 0 <= k < i ==> white_space(text[k]),
            seen ==> start < end <= i,
            seen ==> forall|k: int| 0 <= k < start ==> white_space(text[k]),
            seen ==> !white_space(text[start as int]) && !white_space(text[end - 1]),
            seen ==> forall|k: int| end <= k < i ==> white_space(text[k]),
        decreases
            text.len() - i,
            if done {
                0int
            } else {
                1int
            },
    {
        match chars.next() {
            None => {
                done = true;
            },
            Some(c) => {
                assert(c == text[i as int]);
                assert(text.skip(i as int).drop_first() =~= text.skip(i + 1));
                if c == ',' {
                    done = true;
                } else {
                    if !is_white_space(c) {
                        if !seen {
                            start = i;
                            seen = true;
                        }
                        end = i + 1;
                    }
                    i = i + 1;
                }
            },
        }
    }
    proof {
        let piece = text.take(i as int);
        lemma_comma_index(text, i as int);
        if seen {
            lemma_leading_white(piece, start as int);
            let rest = piece.skip(start as int);
            lemma_trailing_white(rest, end - start);
            assert(rest.take(end - start) =~= text.subrange(start as int, end as int));
        } else {
            lemma_leading_white(piece, i as int);
            assert(trimmed(piece) =~= Seq::empty());
        }
    }
    if seen {
        String::from_str(cluster_urls.substring_char(start, end))
    } else {
        String::new()
    }
}

/// How a watcher reaches Redis. Either way one client serves both the
/// publishing and the subscribing side.
#[derive(Debug)]
pub enum Transport {
    /// One server, reached under `url`.
    Standalone { url: String, client: redis::Client },
    /// One node of a cluster, reached under `node`. Every instance that is
    /// to hear this one must be pinned to the same node.
    ClusterPubSub { node: String, pubsub_client: redis::Client },
}

/// Text in front of the driver's own words where the client for the pinned
/// node cannot be made.
pub open spec fn pubsub_client_prefix() -> Seq<char> {
    "Failed to create pubsub client: "@
}

/// The reason given where the list of cluster addresses names no node.
pub open spec fn no_cluster_urls() -> Seq<char> {
    "No cluster URLs provided"@
}

/// Whether `result` is what a standalone watcher gets for `url` once the
/// driver has answered with `opened`: the transport with the driver's
/// client, or the driver's error as a connection error.
pub open spec fn standalone_outcome(
    url: Seq<char>,
    opened: Result<redis::Client, redis::RedisError>,
    result: Result<Transport, WatcherError>,
) -> bool {
    match opened {
        Ok(client) => (result matches Ok(Transport::Standalone { url: target, client: held })
            && target@ == url && held == client),
        Err(error) => (result matches Err(WatcherError::RedisConnection(held)) && held == error),
    }
}

/// Whether `result` is what a cluster watcher gets for the pinned `node`
/// once the driver has answered with `opened`: the transport with the
/// driver's client, or a configuration error whose reason ends in the
/// driver's words.
pub open spec fn cluster_outcome(
    node: Seq<char>,
    opened: Result<redis::Client, redis::RedisError>,
    result: Result<Transport, WatcherError>,
) -> bool {
    match opened {
        Ok(client) => (result matches Ok(
            Transport::ClusterPubSub { node: target, pubsub_client: held },
        ) && target@ == node && held == client),
        Err(error) => (result matches Err(WatcherError::Configuration(reason)) && reason@
            == pubsub_client_prefix() + redis_error_words(error)),
    }
}

/// Whether `error` is the refusal of a list of addresses whose pinned node
/// is `node`: a configuration error whose reason is that no node is named
/// exactly where the node is empty, and that else begins with the words for
/// a refused node and goes on with the driver's.
pub open spec fn cluster_refusal(node: Seq<char>, error: WatcherError) -> bool {
    error matches WatcherError::Configuration(reason) && if node.len() == 0 {
        reason@ == no_cluster_urls()
    } else {
        reason@ != no_cluster_urls() && exists|refusal: redis::RedisError|
            reason@ == pubsub_client_prefix() + #[trigger] redis_error_words(refusal)
    }
}

/// A reason that begins with the words for a refused pinned node is not the
/// reason given for a list without a node.
pub proof fn lemma_refusals_differ(detail: Seq<char>)
    ensures
        pubsub_client_prefix() + detail != no_cluster_urls(),
{
    reveal_strlit("Failed to create pubsub client: ");
    reveal_strlit("No cluster URLs provided");
    assert((pubsub_client_prefix() + detail)[0] == 'F');
    assert(no_cluster_urls()[0] == 'N');
}

impl Transport {
    /// The address that this transport reaches.
    pub open spec fn target_of(self) -> Seq<char> {
        match self {
            Transport::Standalone { url, .. } => url@,
            Transport::ClusterPubSub { node, .. } => node@,
        }
    }

    /// The one client of this transport.
    pub open spec fn client_of(self) -> redis::Client {
        match self {
            Transport::Standalone { client, .. } => client,
            Transport::ClusterPubSub { pubsub_client, .. } => pubsub_client,
        }
    }

    /// The standalone transport for `url`, given the driver's answer.
    pub fn from_standalone(url: String, opened: Result<redis::Client, redis::RedisError>) -> (result:
        Result<Transport, WatcherError>)
        ensures
            standalone_outcome(url@, opened, result),
    {
        match opened {
            Ok(client) => Ok(Transport::Standalone { url, client }),
            Err(error) => Err(WatcherError::RedisConnection(error)),
        }
    }

    /// The cluster transport for the pinned `node`, given the driver's answer.
    pub fn from_pinned(node: String, opened: Result<redis::Client, redis::RedisError>) -> (result:
        Result<Transport, WatcherError>)
        ensures
            cluster_outcome(node@, opened, result),
    {
        match opened {
            Ok(pubsub_client) => Ok(Transport::ClusterPubSub { node, pubsub_client }),
            Err(error) => {
                let detail = redis_error_detail(&error);
                let mut reason = String::from_str("Failed to create pubsub client: ");
                reason.append(detail.as_str());
                assert(reason@ == pubsub_client_prefix() + detail@);
                Err(WatcherError::Configuration(reason))
            },
        }
    }

    /// A transport to the standalone server at `url`. No connection is made
    /// yet; the driver only reads the address, and where it refuses it the
    /// error is a connection error.
    pub fn standalone(url: &str) -> (result: Result<Transport, WatcherError>)
        ensures
            result matches Ok(transport) ==> (transport is Standalone && transport.target_of()
                == url@ && made_for(transport.client_of(), url@)),
            result matches Err(error) ==> error is RedisConnection,
    {
        let opened = open_client(url);
        Transport::from_standalone(String::from_str(url), opened)
    }

    /// A transport to a cluster, pinned to the first of the comma-separated
    /// addresses in `cluster_urls`. That node alone is used, for publishing
    /// and for subscribing. A list that names no node is a configuration
    /// error, and so is an address that the driver refuses.
    pub fn cluster(cluster_urls: &str) -> (result: Result<Transport, WatcherError>)
        ensures
            result matches Ok(transport) ==> (transport is ClusterPubSub && transport.target_of()
                == pinned_node_of(cluster_urls@) && pinned_node_of(cluster_urls@).len() > 0
                && made_for(transport.client_of(), pinned_node_of(cluster_urls@))),
            result matches Err(error) ==> cluster_refusal(pinned_node_of(cluster_urls@), error),
            pinned_node_of(cluster_urls@).len() == 0 ==> result is Err,
    {
        let node = pinned_node(cluster_urls);
        if node.as_str().is_empty() {
            return Err(WatcherError::Configuration(String::from_str("No cluster URLs provided")));
        }
        let opened = open_client(node.as_str());
        let ghost answer = opened;
        let result = Transport::from_pinned(node, opened);
        proof {
            if answer is Err {
                lemma_refusals_differ(redis_error_words(answer->Err_0));
            }
        }
        result
    }

    /// Whether this is the transport to a pinned cluster node.
    pub fn is_cluster(&self) -> (r: bool)
        ensures
            r == (self is ClusterPubSub),
    {
        match self {
            Transport::Standalone { .. } => false,
            Transport::ClusterPubSub { .. } => true,
        }
    }

    /// The address that this transport reaches.
    pub fn target(&self) -> (target: &String)
        ensures
            target@ == self.target_of(),
    {
        match self {
            Transport::Standalone { url, .. } => url,
            Transport::ClusterPubSub { node, .. } => node,
        }
    }

    /// The client to publish with.
    pub fn publish_client(&self) -> (client: &redis::Client)
        ensures
            *client == self.client_of(),
    {
        match self {
            Transport::Standalone { client, .. } => client,
            Transport::ClusterPubSub { pubsub_client, .. } => pubsub_client,
        }
    }

    /// The client to subscribe with: the one that is published with.
    pub fn subscribe_client(&self) -> (client: &redis::Client)
        ensures
            *client == self.client_of(),
    {
        match self {
            Transport::Standalone { client, .. } => client,
            Transport::ClusterPubSub { pubsub_client, .. } => pubsub_client,
        }
    }
}

} // verus!
