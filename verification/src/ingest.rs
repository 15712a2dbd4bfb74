//! The decisions of the WebSocket ingestor: what to subscribe to, how to
//! react to each frame, where each message goes, and how the Kafka producer
//! is configured.

use vstd::prelude::*;
use std::time::Duration;
use vstd::utf8::{decode_utf8, valid_utf8};
use crate::config::{at_least_one, KafkaConfig};
use crate::market::spec_exchange_ts;
use crate::model::{ChannelKind, KafkaTopics, ParseError, ParsedMessage, ParsedView};
use crate::market::{MarketMessage, MarketMessageView};
use crate::text::{dec_nat, owned, u64_to_string};

verus! {

/// The views of a sequence of strings.
pub open spec fn strings_view(v: Seq<String>) -> Seq<Seq<char>> {
    v.map_values(|s: String| s@)
}

/// The views of a sequence of string pairs.
pub open spec fn pairs_view(v: Seq<(String, String)>) -> Seq<(Seq<char>, Seq<char>)> {
    v.map_values(|p: (String, String)| (p.0@, p.1@))
}

/// The subscriptions to send, channel by channel and, within a channel,
/// symbol by symbol: every (channel, symbol) pair once.
pub open spec fn spec_subscription_plan(channels: Seq<Seq<char>>, symbols: Seq<Seq<char>>) -> Seq<(Seq<char>, Seq<char>)>
    decreases channels.len(),
{
    if channels.len() == 0 {
        Seq::empty()
    } else {
        spec_subscription_plan(channels.drop_last(), symbols) + symbols.map_values(|s: Seq<char>| (channels.last(), s))
    }
}

/// Every channel is subscribed for every symbol, exactly once and in order:
/// the plan has one entry per (channel, symbol) pair, the pair of channel `i`
/// and symbol `j` at position `i * symbols.len() + j`.
pub proof fn lemma_plan_covers_every_pair(channels: Seq<Seq<char>>, symbols: Seq<Seq<char>>)
    ensures
        spec_subscription_plan(channels, symbols).len() == channels.len() * symbols.len(),
        forall|i: int, j: int|
            #![trigger channels[i], symbols[j]]
            0 <= i < channels.len() && 0 <= j < symbols.len() ==> spec_subscription_plan(channels, symbols)[i * symbols.len() + j] == (channels[i], symbols[j]),
    decreases channels.len(),
{
    let m = symbols.len() as int;
    let n = channels.len() as int;
    if n > 0 {
        let front = channels.drop_last();
        lemma_plan_covers_every_pair(front, symbols);
        let prefix = spec_subscription_plan(front, symbols);
        let tail = symbols.map_values(|s: Seq<char>| (channels.last(), s));
        let plan = spec_subscription_plan(channels, symbols);
        assert(plan == prefix + tail);
        assert(prefix.len() == (n - 1) * m);
        assert((n - 1) * m + m == n * m) by (nonlinear_arith);
        assert forall|i: int, j: int|
            #![trigger channels[i], symbols[j]]
            0 <= i < n && 0 <= j < m implies plan[i * m + j] == (channels[i], symbols[j]) by {
            if i < n - 1 {
                assert(i * m + j < (n - 1) * m) by (nonlinear_arith)
                    requires 0 <= i < n - 1, 0 <= j < m;
                assert(0 <= i * m) by (nonlinear_arith)
                    requires 0 <= i, 0 <= m;
                assert(front[i] == channels[i]);
                assert(prefix[i * m + j] == (front[i], symbols[j]));
            } else {
                assert(i * m == (n - 1) * m);
                assert(tail[j] == (channels.last(), symbols[j]));
            }
        }
    }
}

/// The (channel, symbol) pairs to subscribe to, in the order the
/// subscriptions are sent.
pub fn subscription_plan(channels: &Vec<String>, symbols: &Vec<String>) -> (plan: Vec<(String, String)>)
    ensures
        pairs_view(plan@) == spec_subscription_plan(strings_view(channels@), strings_view(symbols@)),
{
    let ghost cv = strings_view(channels@);
    let ghost sv = strings_view(symbols@);
    let mut plan: Vec<(String, String)> = Vec::new();
    let mut i: usize = 0;
    assert(cv.take(0) =~= Seq::<Seq<char>>::empty());
    assert(pairs_view(plan@) =~= Seq::<(Seq<char>, Seq<char>)>::empty());
    while i < channels.len()
        invariant
            i <= channels.len(),
            cv == strings_view(channels@),
            sv == strings_view(symbols@),
            pairs_view(plan@) == spec_subscription_plan(cv.take(i as int), sv),
        decreases channels.len() - i,
    {
        let ghost before = pairs_view(plan@);
        let mut j: usize = 0;
        assert(sv.take(0).map_values(|s: Seq<char>| (cv[i as int], s)) =~= Seq::<(Seq<char>, Seq<char>)>::empty());
        assert(before + Seq::<(Seq<char>, Seq<char>)>::empty() =~= before);
        while j < symbols.len()
            invariant
                i < channels.len(),
                j <= symbols.len(),
                cv == strings_view(channels@),
                sv == strings_view(symbols@),
                pairs_view(plan@) == before + sv.take(j as int).map_values(|s: Seq<char>| (cv[i as int], s)),
            decreases symbols.len() - j,
        {
            let ghost p0 = plan@;
            plan.push((channels[i].clone(), symbols[j].clone()));
            assert(pairs_view(plan@) =~= pairs_view(p0).push((cv[i as int], sv[j as int])));
            assert(sv.take(j + 1).map_values(|s: Seq<char>| (cv[i as int], s))
                =~= sv.take(j as int).map_values(|s: Seq<char>| (cv[i as int], s)).push((cv[i as int], sv[j as int])));
            j = j + 1;
        }
        assert(sv.take(symbols.len() as int) =~= sv);
        assert(cv.take(i + 1).drop_last() =~= cv.take(i as int));
        assert(cv.take(i + 1).last() == cv[i as int]);
        i = i + 1;
    }
    assert(cv.take(channels.len() as int) =~= cv);
    plan
}

/// Why the WebSocket loop gave up on a connection.
#[derive(Debug, Clone, Copy, PartialEq, Eq, Structural)]
pub enum WsFailure {
    /// No pong came back within the pong timeout.
    PongTimeout,
    /// The server sent a close frame.
    ServerClosed,
    /// Reading the stream failed.
    StreamError,
    /// The stream ended.
    StreamEnded,
}

/// What happened on the connection.
pub enum WsEvent {
    /// Shutdown was requested.
    Shutdown,
    /// The ping interval elapsed.
    PingDue,
    /// A text frame arrived.
    Text(String),
    /// A binary frame arrived.
    Binary(Vec<u8>),
    /// A ping frame arrived.
    Ping(Vec<u8>),
    /// A pong frame arrived.
    Pong,
    /// A close frame arrived.
    Close,
    /// A raw frame arrived.
    Frame,
    /// Reading the stream failed.
    Failure,
    /// The stream ended.
    End,
}

/// What to do about it.
pub enum WsAction {
    /// Send a close frame and stop without error.
    CloseAndStop,
    /// Send an empty ping frame.
    SendPing,
    /// Handle a text payload.
    Deliver(String),
    /// Drop a binary payload that is not UTF-8 text.
    DropBinary,
    /// Answer a ping with a pong carrying the same payload.
    SendPong(Vec<u8>),
    /// Note that the peer answered.
    RecordPong,
    /// Nothing to do.
    Nothing,
    /// Give up on the connection.
    Fail(WsFailure),
}

/// Calls `String::from_utf8`; the documentation promises the string when the
/// bytes are valid UTF-8, and an error otherwise.
#[verifier::external_body]
fn utf8_string(bytes: Vec<u8>) -> (r: Option<String>)
    ensures
        r is Some <==> valid_utf8(bytes@),
        r matches Some(s) ==> s@ == decode_utf8(bytes@),
{
    String::from_utf8(bytes).ok()
}

/// The reaction to one event on an open connection.
pub fn on_ws_event(event: WsEvent) -> (a: WsAction)
    ensures
        match event {
            WsEvent::Shutdown => a is CloseAndStop,
            WsEvent::PingDue => a is SendPing,
            WsEvent::Text(t) => a matches WsAction::Deliver(d) && d@ == t@,
            WsEvent::Binary(b) => if valid_utf8(b@) {
                a matches WsAction::Deliver(d) && d@ == decode_utf8(b@)
            } else {
                a is DropBinary
            },
            WsEvent::Ping(p) => a matches WsAction::SendPong(q) && q@ == p@,
            WsEvent::Pong => a is RecordPong,
            WsEvent::Close => a == WsAction::Fail(WsFailure::ServerClosed),
            WsEvent::Frame => a is Nothing,
            WsEvent::Failure => a == WsAction::Fail(WsFailure::StreamError),
            WsEvent::End => a == WsAction::Fail(WsFailure::StreamEnded),
        },
{
    match event {
        WsEvent::Shutdown => WsAction::CloseAndStop,
        WsEvent::PingDue => WsAction::SendPing,
        WsEvent::Text(t) => WsAction::Deliver(t),
        WsEvent::Binary(b) => match utf8_string(b) {
            Some(t) => WsAction::Deliver(t),
            None => WsAction::DropBinary,
        },
        WsEvent::Ping(p) => WsAction::SendPong(p),
        WsEvent::Pong => WsAction::RecordPong,
        WsEvent::Close => WsAction::Fail(WsFailure::ServerClosed),
        WsEvent::Frame => WsAction::Nothing,
        WsEvent::Failure => WsAction::Fail(WsFailure::StreamError),
        WsEvent::End => WsAction::Fail(WsFailure::StreamEnded),
    }
}

/// What to do before waiting for the next event.
#[derive(Debug, Clone, Copy, PartialEq, Eq, Structural)]
pub enum PollCheck {
    /// Shutdown was requested: close and stop.
    CloseAndStop,
    /// The pong timeout passed: give up on the connection.
    Fail(WsFailure),
    /// Wait for the next event.
    Poll,
}

/// Before each wait: stop on shutdown, give up when more than the pong
/// timeout (at least one second) has passed since the last pong.
pub open spec fn spec_before_poll(shutdown: bool, since_pong_ns: u128, pong_timeout_secs: u64) -> PollCheck {
    if shutdown {
        PollCheck::CloseAndStop
    } else if since_pong_ns > at_least_one(pong_timeout_secs) * 1_000_000_000 {
        PollCheck::Fail(WsFailure::PongTimeout)
    } else {
        PollCheck::Poll
    }
}

/// One message to publish: its topic, its key (the symbol), the labels and
/// exchange time its telemetry records, and the message itself.
pub struct Publication {
    pub topic: String,
    pub key: String,
    pub channel: ChannelKind,
    pub exchange_ts_ns: i64,
    pub message: MarketMessage,
}

pub struct PublicationView {
    pub topic: Seq<char>,
    pub key: Seq<char>,
    pub channel: ChannelKind,
    pub exchange_ts_ns: i64,
    pub message: MarketMessageView,
}

impl View for Publication {
    type V = PublicationView;

    open spec fn view(&self) -> PublicationView {
        PublicationView {
            topic: self.topic@,
            key: self.key@,
            channel: self.channel,
            exchange_ts_ns: self.exchange_ts_ns,
            message: self.message@,
        }
    }
}

/// The publication of a parsed message: on its channel's topic, keyed by its
/// symbol.
pub open spec fn spec_publication(topics: KafkaTopics, m: ParsedView) -> PublicationView {
    PublicationView {
        topic: spec_topic_for(topics, m.channel),
        key: m.symbol,
        channel: m.channel,
        exchange_ts_ns: spec_exchange_ts(m.message),
        message: m.message,
    }
}

/// What the ingestor does with a text frame once it is parsed.
pub enum PayloadAction {
    /// Publish these messages, in order.
    Publish(Vec<Publication>),
    /// Count a parse failure; nothing is published.
    CountParseError(ParseError),
}

/// The decision on a text frame: a payload that parses gives one publication
/// per message, in order; one that does not is counted as a parse failure.
pub fn plan_payload(topics: &KafkaTopics, parsed: Result<Vec<ParsedMessage>, ParseError>) -> (a: PayloadAction)
    ensures
        match parsed {
            Ok(ms) => a matches PayloadAction::Publish(ps) && ps@.len() == ms@.len()
                && forall|i: int| 0 <= i < ms@.len() ==> #[trigger] ps@[i]@ == spec_publication(*topics, ms@[i]@),
            Err(e) => a matches PayloadAction::CountParseError(f) && f == e,
        },
{
    match parsed {
        Err(e) => PayloadAction::CountParseError(e),
        Ok(ms) => {
            let ghost orig = ms@;
            let total: usize = ms.len();
            let mut rest = ms;
            let mut out: Vec<Publication> = Vec::new();
            let mut k: usize = 0;
            while rest.len() > 0
                invariant
                    k + rest@.len() == orig.len(),
                    orig.len() == total,
                    rest@ == orig.skip(k as int),
                    out@.len() == k,
                    forall|i: int| 0 <= i < k ==> #[trigger] out@[i]@ == spec_publication(*topics, orig[i]@),
                decreases rest@.len(),
            {
                let m = rest.remove(0);
                assert(rest@ =~= orig.skip(k + 1));
                assert(m == orig[k as int]);
                let topic = topic_for(topics, m.channel).clone();
                let exchange_ts_ns = exchange_ts_of(&m);
                let p = Publication { topic, key: m.symbol, channel: m.channel, exchange_ts_ns, message: m.message };
                out.push(p);
                k = k + 1;
            }
            PayloadAction::Publish(out)
        },
    }
}

/// How one connection of the reconnect loop ended.
pub enum SessionOutcome {
    /// The session ended without error (a shutdown while connected).
    Ended,
    /// The session failed; the backoff's next delay, absent once it is spent.
    Failed(Option<Duration>),
}

/// What the reconnect loop does after a connection.
pub enum RunnerAction {
    /// Mark the service ready and reset the backoff, then connect again
    /// (unless shutdown was requested).
    MarkReadyAndResetBackoff,
    /// Mark the service not ready, count a reconnect, then wait this long
    /// before connecting again (or stop if shutdown comes first).
    MarkNotReadyAndRetryAfter(Duration),
}

/// The reconnect decision: a clean end marks the service ready and resets
/// the backoff; a failure marks it not ready and waits the backoff's next
/// delay, or the maximum delay once the backoff has none left.
pub fn after_session(outcome: SessionOutcome, max_delay: Duration) -> (a: RunnerAction)
    ensures
        match outcome {
            SessionOutcome::Ended => a is MarkReadyAndResetBackoff,
            SessionOutcome::Failed(next) => a == RunnerAction::MarkNotReadyAndRetryAfter(match next {
                Some(d) => d,
                None => max_delay,
            }),
        },
{
    match outcome {
        SessionOutcome::Ended => RunnerAction::MarkReadyAndResetBackoff,
        SessionOutcome::Failed(next) => match next {
            Some(d) => RunnerAction::MarkNotReadyAndRetryAfter(d),
            None => RunnerAction::MarkNotReadyAndRetryAfter(max_delay),
        },
    }
}

/// What the WebSocket loop decides before each wait.
pub fn before_poll(shutdown: bool, since_pong_ns: u128, pong_timeout_secs: u64) -> (c: PollCheck)
    ensures
        c == spec_before_poll(shutdown, since_pong_ns, pong_timeout_secs),
{
    if shutdown {
        return PollCheck::CloseAndStop;
    }
    let secs: u128 = if pong_timeout_secs < 1 { 1 } else { pong_timeout_secs as u128 };
    if since_pong_ns > secs * 1_000_000_000 {
        PollCheck::Fail(WsFailure::PongTimeout)
    } else {
        PollCheck::Poll
    }
}

/// The topic of a channel's messages.
pub open spec fn spec_topic_for(topics: KafkaTopics, channel: ChannelKind) -> Seq<char> {
    match channel {
        ChannelKind::Trades => topics.trades@,
        ChannelKind::Ticker => topics.ticker@,
        ChannelKind::Orderbooks => topics.orderbook@,
    }
}

/// The topic a parsed message is published to.
pub fn topic_for<'a>(topics: &'a KafkaTopics, channel: ChannelKind) -> (t: &'a String)
    ensures
        t@ == spec_topic_for(*topics, channel),
{
    match channel {
        ChannelKind::Trades => &topics.trades,
        ChannelKind::Ticker => &topics.ticker,
        ChannelKind::Orderbooks => &topics.orderbook,
    }
}

/// The exchange instant of a parsed message, for the freshness metric.
pub fn exchange_ts_of(parsed: &ParsedMessage) -> (ts: i64)
    ensures
        ts == spec_exchange_ts(parsed.message@),
{
    parsed.message.exchange_ts_ns()
}

/// How old a message was when it was received: known only for a positive
/// exchange instant not after the reception.
pub open spec fn spec_message_age_ns(exchange_ts_ns: i64, received_at_ns: i64) -> Option<i64> {
    if exchange_ts_ns > 0 && received_at_ns >= exchange_ts_ns {
        Some((received_at_ns - exchange_ts_ns) as i64)
    } else {
        None
    }
}

/// The age of a message in nanoseconds, when it is known.
pub fn message_age_ns(exchange_ts_ns: i64, received_at_ns: i64) -> (age: Option<i64>)
    ensures
        age == spec_message_age_ns(exchange_ts_ns, received_at_ns),
        age matches Some(a) ==> a >= 0,
{
    if exchange_ts_ns > 0 && received_at_ns >= exchange_ts_ns {
        Some(received_at_ns - exchange_ts_ns)
    } else {
        None
    }
}

/// The topics of the publisher, from the configuration.
pub fn topics_from_config(t: &crate::config::KafkaTopics) -> (r: KafkaTopics)
    ensures
        r.trades@ == t.trades@,
        r.ticker@ == t.ticker@,
        r.orderbook@ == t.orderbook@,
{
    KafkaTopics { trades: t.trades.clone(), ticker: t.ticker.clone(), orderbook: t.orderbook.clone() }
}

/// The producer settings, in the order they are applied: the fixed
/// delivery guarantees (all acknowledgements, idempotence, lz4), the
/// configured batching and retries, then the security protocol, the SASL
/// credentials (only when both are given) and the SASL mechanism (only when
/// it is not empty: an empty mechanism disables SASL).
pub open spec fn spec_producer_settings(k: KafkaConfig) -> Seq<(Seq<char>, Seq<char>)> {
    seq![
        ("bootstrap.servers"@, k.brokers@),
        ("client.id"@, k.client_id@),
        ("message.timeout.ms"@, "60000"@),
        ("acks"@, "all"@),
        ("enable.idempotence"@, "true"@),
        ("compression.type"@, "lz4"@),
        ("linger.ms"@, dec_nat(k.linger_ms as nat)),
        ("batch.size"@, dec_nat(k.batch_bytes as nat)),
        ("retries"@, dec_nat(k.retries as nat)),
        ("statistics.interval.ms"@, "60000"@),
        ("socket.keepalive.enable"@, "true"@),
    ] + (match k.security_protocol {
        Some(p) => seq![("security.protocol"@, p@)],
        None => Seq::empty(),
    }) + (match (k.sasl_username, k.sasl_password) {
        (Some(u), Some(p)) => seq![("sasl.username"@, u@), ("sasl.password"@, p@)],
        _ => Seq::empty(),
    }) + (match k.sasl_mechanism {
        Some(m) => if m@.len() > 0 {
            seq![("sasl.mechanism"@, m@)]
        } else {
            Seq::empty()
        },
        None => Seq::empty(),
    })
}

fn setting(key: &str, value: String) -> (p: (String, String))
    ensures
        p.0@ == key@,
        p.1@ == value@,
{
    (owned(key), value)
}

/// The settings of the Kafka producer of the ingestor.
pub fn producer_settings(k: &KafkaConfig) -> (s: Vec<(String, String)>)
    ensures
        pairs_view(s@) == spec_producer_settings(*k),
{
    let mut s: Vec<(String, String)> = Vec::new();
    s.push(setting("bootstrap.servers", k.brokers.clone()));
    s.push(setting("client.id", k.client_id.clone()));
    s.push(setting("message.timeout.ms", owned("60000")));
    s.push(setting("acks", owned("all")));
    s.push(setting("enable.idempotence", owned("true")));
    s.push(setting("compression.type", owned("lz4")));
    s.push(setting("linger.ms", u64_to_string(k.linger_ms)));
    s.push(setting("batch.size", u64_to_string(k.batch_bytes as u64)));
    s.push(setting("retries", u64_to_string(k.retries as u64)));
    s.push(setting("statistics.interval.ms", owned("60000")));
    s.push(setting("socket.keepalive.enable", owned("true")));
    let ghost base = pairs_view(s@);
    if let Some(p) = &k.security_protocol {
        s.push(setting("security.protocol", p.clone()));
    }
    let ghost with_protocol = pairs_view(s@);
    if let (Some(u), Some(p)) = (&k.sasl_username, &k.sasl_password) {
        s.push(setting("sasl.username", u.clone()));
        s.push(setting("sasl.password", p.clone()));
    }
    let ghost with_sasl = pairs_view(s@);
    if let Some(m) = &k.sasl_mechanism {
        if !m.as_str().is_empty() {
            s.push(setting("sasl.mechanism", m.clone()));
        }
    }
    assert(pairs_view(s@) =~= spec_producer_settings(*k));
    s
}

/// The value a settings list gives a key: that of its last entry with the key
/// (later settings replace earlier ones).
pub open spec fn setting_value(s: Seq<(Seq<char>, Seq<char>)>, key: Seq<char>) -> Option<Seq<char>>
    decreases s.len(),
{
    if s.len() == 0 {
        None
    } else if s.last().0 == key {
        Some(s.last().1)
    } else {
        setting_value(s.drop_last(), key)
    }
}

proof fn lemma_value_past_unrelated(a: Seq<(Seq<char>, Seq<char>)>, b: Seq<(Seq<char>, Seq<char>)>, key: Seq<char>)
    requires
        forall|i: int| 0 <= i < b.len() ==> #[trigger] b[i].0 != key,
    ensures
        setting_value(a + b, key) == setting_value(a, key),
    decreases b.len(),
{
    if b.len() > 0 {
        assert((a + b).drop_last() =~= a + b.drop_last());
        lemma_value_past_unrelated(a, b.drop_last(), key);
    } else {
        assert(a + b =~= a);
    }
}

/// Whatever the configuration, the producer waits for all in-sync replicas
/// (`acks` is `all`) and is idempotent (`enable.idempotence` is `true`): no
/// configured setting replaces them.
pub proof fn lemma_producer_is_durable(k: KafkaConfig)
    ensures
        setting_value(spec_producer_settings(k), "acks"@) == Some("all"@),
        setting_value(spec_producer_settings(k), "enable.idempotence"@) == Some("true"@),
{
    reveal_strlit("bootstrap.servers");
    reveal_strlit("client.id");
    reveal_strlit("message.timeout.ms");
    reveal_strlit("acks");
    reveal_strlit("enable.idempotence");
    reveal_strlit("compression.type");
    reveal_strlit("linger.ms");
    reveal_strlit("batch.size");
    reveal_strlit("retries");
    reveal_strlit("statistics.interval.ms");
    reveal_strlit("socket.keepalive.enable");
    reveal_strlit("security.protocol");
    reveal_strlit("sasl.username");
    reveal_strlit("sasl.password");
    reveal_strlit("sasl.mechanism");
    let all = spec_producer_settings(k);
    let head = all.take(5);
    let tail = all.skip(5);
    assert(all =~= head + tail);
    assert(tail.len() >= 6);
    assert forall|i: int| 0 <= i < tail.len() implies #[trigger] tail[i].0 != "acks"@ && tail[i].0 != "enable.idempotence"@ by {
        assert(tail[i] == all[i + 5]);
        assert(tail[i].0.len() != 4);
        if tail[i].0.len() == 18 {
            assert(tail[i].0[0] != 'e');
        }
    }
    lemma_value_past_unrelated(head, tail, "acks"@);
    lemma_value_past_unrelated(head, tail, "enable.idempotence"@);
    assert(head.last() == ("enable.idempotence"@, "true"@));
    assert(head.drop_last().last() == ("acks"@, "all"@));
    assert("acks"@.len() == 4 && "enable.idempotence"@.len() == 18);
    assert(head.last().0 != "acks"@);
    assert(setting_value(head.drop_last(), "acks"@) == Some("all"@));
}

} // verus!
