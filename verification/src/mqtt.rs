//! The MQTT ingest edge: reading the broker address, what the subscriber does
//! with each event of the client's event loop, and how each received message
//! is counted.

use vstd::prelude::*;
use crate::parse::{parse_u16, parsed_unsigned};

verus! {

/// Port used when the broker address names none, or names an unreadable one.
pub const DEFAULT_MQTT_PORT: u16 = 1883;

/// Seconds to wait before subscribing again or polling again after a failure.
pub const MQTT_RETRY_SECONDS: u64 = 3;

/// Keep-alive interval given to the MQTT client, in seconds.
pub const MQTT_KEEP_ALIVE_SECONDS: u64 = 30;

/// Capacity of the MQTT client's request channel.
pub const MQTT_CLIENT_CAPACITY: usize = 50;

/// The scheme prefix that broker addresses may carry: `mqtt://`.
pub open spec fn scheme_prefix() -> Seq<char> {
    seq!['m', 'q', 't', 't', ':', '/', '/']
}

/// `s` with every leading copy of `p` removed (what `trim_start_matches` does).
pub open spec fn strip_leading(s: Seq<char>, p: Seq<char>) -> Seq<char>
    decreases s.len(),
{
    if p.len() > 0 && p.len() <= s.len() && s.take(p.len() as int) == p {
        strip_leading(s.skip(p.len() as int), p)
    } else {
        s
    }
}

/// `i` is the position of the first `c` in `s`.
pub open spec fn is_first_index(s: Seq<char>, c: char, i: int) -> bool {
    0 <= i < s.len() && s[i] == c && forall|j: int| 0 <= j < i ==> s[j] != c
}

/// Index of the first `c` in `s`.
pub open spec fn first_index_of(s: Seq<char>, c: char) -> Option<int> {
    if exists|i: int| is_first_index(s, c, i) {
        Some(choose|i: int| is_first_index(s, c, i))
    } else {
        None
    }
}

/// The `(host, port)` that a broker address denotes.
pub open spec fn broker_address(url: Seq<char>) -> (Seq<char>, int) {
    let rest = strip_leading(url, scheme_prefix());
    match first_index_of(rest, ':') {
        Some(i) => (
            rest.take(i),
            match parsed_unsigned(rest.skip(i + 1), u16::MAX as int) {
                Some(p) => p,
                None => DEFAULT_MQTT_PORT as int,
            },
        ),
        None => (rest, DEFAULT_MQTT_PORT as int),
    }
}

fn starts_with_scheme(s: &str) -> (r: bool)
    ensures
        r == (scheme_prefix().len() <= s@.len() && s@.take(scheme_prefix().len() as int)
            == scheme_prefix()),
{
    let p = ['m', 'q', 't', 't', ':', '/', '/'];
    assert(p@ =~= scheme_prefix());
    let n: usize = s.unicode_len();
    if n < 7 {
        return false;
    }
    let mut j: usize = 0;
    while j < 7
        invariant
            n == s@.len(),
            7 <= n,
            p@ == scheme_prefix(),
            j <= 7,
            forall|k: int| 0 <= k < j ==> s@[k] == p@[k],
        decreases 7 - j,
    {
        if s.get_char(j) != p[j] {
            assert(s@.take(7)[j as int] != scheme_prefix()[j as int]);
            return false;
        }
        j = j + 1;
    }
    assert(s@.take(7) =~= scheme_prefix());
    true
}

/// Removes every leading `mqtt://` from `url`.
pub fn strip_scheme(url: &str) -> (r: &str)
    ensures
        r@ == strip_leading(url@, scheme_prefix()),
{
    let mut rest = url;
    while starts_with_scheme(rest)
        invariant
            strip_leading(rest@, scheme_prefix()) == strip_leading(url@, scheme_prefix()),
        decreases rest@.len(),
    {
        let n: usize = rest.unicode_len();
        rest = rest.substring_char(7, n);
    }
    rest
}

/// Finds the first `c` in `s`.
pub fn find_char(s: &str, c: char) -> (r: Option<usize>)
    ensures
        match first_index_of(s@, c) {
            Some(i) => r == Some(i as usize),
            None => r is None,
        },
{
    let n: usize = s.unicode_len();
    let mut i: usize = 0;
    while i < n
        invariant
            n == s@.len(),
            i <= n,
            forall|j: int| 0 <= j < i ==> s@[j] != c,
        decreases n - i,
    {
        if s.get_char(i) == c {
            assert(is_first_index(s@, c, i as int));
            let ghost w = choose|k: int| is_first_index(s@, c, k);
            proof {
                if w < i {
                } else if w > i {
                    assert(s@[i as int] != c);
                }
            }
            return Some(i);
        }
        i = i + 1;
    }
    assert forall|k: int| !is_first_index(s@, c, k) by {
        if 0 <= k < s@.len() {
            assert(s@[k] != c);
        }
    }
    None
}

/// Splits a broker address such as `mqtt://broker:1883` into host and port:
/// leading `mqtt://` prefixes are dropped, the host is what comes before the
/// first `:`, and the port is what follows it when that reads as a `u16`;
/// otherwise the port is 1883.
pub fn parse_broker_address(url: &str) -> (r: (String, u16))
    ensures
        r.0@ == broker_address(url@).0,
        r.1 as int == broker_address(url@).1,
{
    let rest = strip_scheme(url);
    let n: usize = rest.unicode_len();
    match find_char(rest, ':') {
        Some(i) => {
            let host = rest.substring_char(0, i);
            let port_text = rest.substring_char(i + 1, n);
            assert(port_text@ =~= rest@.skip(i + 1));
            assert(host@ =~= rest@.take(i as int));
            let port: u16 = match parse_u16(port_text) {
                Some(p) => p,
                None => DEFAULT_MQTT_PORT,
            };

            (host.to_owned(), port)
        },
        None => (rest.to_owned(), DEFAULT_MQTT_PORT),
    }
}

/// `k` copies of `p` one after the other.
pub open spec fn repeated(p: Seq<char>, k: nat) -> Seq<char>
    decreases k,
{
    if k == 0 {
        Seq::empty()
    } else {
        p + repeated(p, (k - 1) as nat)
    }
}

/// Stripping leaves what follows some number of leading copies of the
/// prefix, and what it leaves does not itself begin with the prefix.
proof fn lemma_strip_leading(s: Seq<char>, p: Seq<char>)
    requires
        p.len() > 0,
    ensures
        exists|k: nat| s == repeated(p, k) + strip_leading(s, p),
        !(p.len() <= strip_leading(s, p).len() && strip_leading(s, p).take(p.len() as int) == p),
    decreases s.len(),
{
    if p.len() <= s.len() && s.take(p.len() as int) == p {
        let t = s.skip(p.len() as int);
        lemma_strip_leading(t, p);
        let k = choose|k: nat| t == repeated(p, k) + strip_leading(t, p);
        assert(repeated(p, k + 1) == p + repeated(p, k));
        assert(s =~= repeated(p, k + 1) + strip_leading(s, p)) by {
            assert(s =~= s.take(p.len() as int) + t);
        }
    } else {
        assert(s =~= repeated(p, 0) + s);
    }
}

/// What a broker address denotes: after dropping the leading `mqtt://`
/// prefixes (some number of copies, leaving text that does not start with
/// another), the host is all the text before the first `:` and the port what
/// follows it read as a `u16`, 1883 when unreadable; with no `:` the whole
/// remaining text is the host and the port is 1883. The host never holds a `:`.
pub proof fn law_broker_host_is_the_text_before_the_first_colon(url: Seq<char>)
    ensures
        ({
            let rest = strip_leading(url, scheme_prefix());
            let (host, port) = broker_address(url);
            &&& exists|k: nat| url == repeated(scheme_prefix(), k) + rest
            &&& !(7 <= rest.len() && rest.take(7) == scheme_prefix())
            &&& !host.contains(':')
            &&& rest.contains(':') ==> exists|port_text: Seq<char>|
                rest == host + seq![':'] + port_text && port == match parsed_unsigned(
                    port_text,
                    u16::MAX as int,
                ) {
                    Some(v) => v,
                    None => DEFAULT_MQTT_PORT as int,
                }
            &&& !rest.contains(':') ==> host == rest && port == DEFAULT_MQTT_PORT as int
        }),
{
    let p = scheme_prefix();
    lemma_strip_leading(url, p);
    let rest = strip_leading(url, p);
    if rest.contains(':') {
        let j = choose|j: int| 0 <= j < rest.len() && rest[j] == ':';
        lemma_first_index_exists(rest, ':', j);
        let i = choose|i: int| is_first_index(rest, ':', i);
        assert(first_index_of(rest, ':') == Some(i)) by {
            let w = choose|w: int| is_first_index(rest, ':', w);
            if w < i {
                assert(rest[w] != ':');
            } else if w > i {
                assert(rest[i] != ':');
            }
        }
        let host = rest.take(i);
        let port_text = rest.skip(i + 1);
        assert(rest =~= host + seq![':'] + port_text);
        assert(!host.contains(':')) by {
            if host.contains(':') {
                let m = choose|m: int| 0 <= m < host.len() && host[m] == ':';
                assert(rest[m] == ':');
            }
        }
    } else {
        assert forall|k: int| !is_first_index(rest, ':', k) by {
            if 0 <= k < rest.len() && rest[k] == ':' {
                assert(rest.contains(':'));
            }
        }
    }
}

proof fn lemma_first_index_exists(s: Seq<char>, c: char, j: int)
    requires
        0 <= j < s.len(),
        s[j] == c,
    ensures
        exists|i: int| is_first_index(s, c, i),
    decreases j,
{
    if exists|m: int| 0 <= m < j && s[m] == c {
        let m = choose|m: int| 0 <= m < j && s[m] == c;
        lemma_first_index_exists(s, c, m);
    } else {
        assert(is_first_index(s, c, j));
    }
}

/// Where the subscriber stands: still trying to subscribe, or listening.
#[derive(Debug, Clone, Copy, PartialEq, Eq, Structural)]
pub enum MqttPhase {
    Subscribing,
    Listening,
}

/// What the client reports back to the subscriber.
#[derive(Debug, Clone, Copy, PartialEq, Eq, Structural)]
pub enum MqttEvent {
    /// The subscribe request was accepted by the client.
    SubscribeOk,
    /// The subscribe request failed.
    SubscribeFailed,
    /// A message was published on the topic.
    Publish,
    /// The broker acknowledged a (re)connection.
    ConnAck,
    /// The broker confirmed the subscription.
    SubAck,
    /// The broker acknowledged a publication.
    PubAck,
    /// The broker answered a ping.
    PingResp,
    /// Any other incoming packet.
    OtherIncoming,
    /// Any outgoing packet.
    Outgoing,
    /// Polling the event loop failed.
    PollError,
}

/// What the subscriber does next.
#[derive(Debug, Clone, Copy, PartialEq, Eq, Structural)]
pub enum MqttAction {
    /// Note that the subscription is in place and start polling.
    Subscribed,
    /// Wait this many seconds, then try to subscribe again.
    RetrySubscribeAfter(u64),
    /// Hand the payload to the ingest path, then keep polling.
    HandlePayload,
    /// Subscribe again (after a reconnection), then keep polling.
    Resubscribe,
    /// Note the broker's confirmation, then keep polling.
    SubscriptionConfirmed,
    /// Count a connection error for the topic, wait this many seconds, then poll again.
    CountErrorAndWait(u64),
    /// Keep polling.
    Continue,
}

/// The subscriber's decision for one event: its next phase and its action.
pub fn mqtt_step(phase: MqttPhase, event: MqttEvent) -> (r: (MqttPhase, MqttAction))
    ensures
        phase == MqttPhase::Subscribing ==> r == match event {
            MqttEvent::SubscribeOk => (MqttPhase::Listening, MqttAction::Subscribed),
            MqttEvent::SubscribeFailed => (
                MqttPhase::Subscribing,
                MqttAction::RetrySubscribeAfter(MQTT_RETRY_SECONDS),
            ),
            _ => (MqttPhase::Subscribing, MqttAction::Continue),
        },
        phase == MqttPhase::Listening ==> r == (
            MqttPhase::Listening,
            match event {
                MqttEvent::Publish => MqttAction::HandlePayload,
                MqttEvent::ConnAck => MqttAction::Resubscribe,
                MqttEvent::SubAck => MqttAction::SubscriptionConfirmed,
                MqttEvent::PollError => MqttAction::CountErrorAndWait(MQTT_RETRY_SECONDS),
                _ => MqttAction::Continue,
            },
        ),
{
    match phase {
        MqttPhase::Subscribing => match event {
            MqttEvent::SubscribeOk => (MqttPhase::Listening, MqttAction::Subscribed),
            MqttEvent::SubscribeFailed => (
                MqttPhase::Subscribing,
                MqttAction::RetrySubscribeAfter(MQTT_RETRY_SECONDS),
            ),
            _ => (MqttPhase::Subscribing, MqttAction::Continue),
        },
        MqttPhase::Listening => {
            let action = match event {
                MqttEvent::Publish => MqttAction::HandlePayload,
                MqttEvent::ConnAck => MqttAction::Resubscribe,
                MqttEvent::SubAck => MqttAction::SubscriptionConfirmed,
                MqttEvent::PollError => MqttAction::CountErrorAndWait(MQTT_RETRY_SECONDS),
                _ => MqttAction::Continue,
            };
            (MqttPhase::Listening, action)
        },
    }
}

/// How one received MQTT message ended.
#[derive(Debug, Clone, Copy, PartialEq, Eq, Structural)]
pub enum MessageOutcome {
    /// The reading was parsed and ingested.
    Ingested,
    /// The reading was parsed but refused by ingestion.
    Refused,
    /// The payload was not a sensor reading.
    Unparsable,
}

/// Topic label under which received messages are counted.
pub open spec fn counted_topic() -> Seq<char> {
    seq!['h', 'u', 'n', 'y', 'i', '/', 's', 'e', 'n', 's', 'o', 'r']
}

/// The status label under which a received message is counted.
pub open spec fn outcome_label(o: MessageOutcome) -> Seq<char> {
    match o {
        MessageOutcome::Ingested => seq!['o', 'k'],
        MessageOutcome::Refused => seq![
            'v', 'a', 'l', 'i', 'd', 'a', 't', 'i', 'o', 'n', '_', 'e', 'r', 'r', 'o', 'r'
        ],
        MessageOutcome::Unparsable => seq![
            'p', 'a', 'r', 's', 'e', '_', 'e', 'r', 'r', 'o', 'r'
        ],
    }
}

/// The topic label under which received messages are counted: `hunyi/sensor`,
/// whatever topic was subscribed.
pub fn message_topic_label() -> (r: &'static str)
    ensures
        r@ == counted_topic(),
{
    proof {
        reveal_strlit("hunyi/sensor");
    }
    "hunyi/sensor"
}

/// The status label for a received message: `ok`, `validation_error` or `parse_error`.
pub fn message_status_label(o: MessageOutcome) -> (r: &'static str)
    ensures
        r@ == outcome_label(o),
{
    match o {
        MessageOutcome::Ingested => {
            proof {
                reveal_strlit("ok");
            }
            "ok"
        },
        MessageOutcome::Refused => {
            proof {
                reveal_strlit("validation_error");
            }
            "validation_error"
        },
        MessageOutcome::Unparsable => {
            proof {
                reveal_strlit("parse_error");
            }
            "parse_error"
        },
    }
}

/// The status label under which a failed poll is counted: `error`.
pub fn poll_error_label() -> (r: &'static str)
    ensures
        r@ == seq!['e', 'r', 'r', 'o', 'r'],
{
    proof {
        reveal_strlit("error");
    }
    "error"
}

} // verus!
