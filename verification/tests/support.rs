use std::time::Duration;

use gmocoin::auth::BearerInterceptor;
use gmocoin::config::{BacktesterConfig, BearerAuthConfig, ClickHouseConfig, IngestorConfig, KafkaConfig, KafkaTopics};
use gmocoin::health::{HealthState, Probe};
use gmocoin::ingest::{
    after_session, before_poll, message_age_ns, on_ws_event, producer_settings, subscription_plan, topic_for,
    topics_from_config, PollCheck, RunnerAction, SessionOutcome, WsAction, WsEvent, WsFailure,
};
use gmocoin::logging::LogFormat;
use gmocoin::metrics::metrics_content_type;
use gmocoin::model::ChannelKind;
use gmocoin::service::Code;
use gmocoin::testutils::{fake_server_step, test_database_name, test_topic_name, PeerAction, PeerEvent, TestClickHouse, TestKafkaTopic};
use gmocoin::text::{i64_to_string, parse_i64, str_eq_ignore_ascii_case, u64_to_string};

#[test]
fn config_defaults() {
    let c = IngestorConfig::default();
    assert_eq!(c.ws_endpoint, "wss://api.coin.z.com/ws/public/v1");
    assert_eq!(c.symbols, vec!["BTC_JPY".to_string(), "ETH_JPY".to_string()]);
    assert_eq!(c.channels, vec!["ticker".to_string(), "trades".to_string(), "orderbooks".to_string()]);
    assert_eq!(c.subscribe_min_interval(), Duration::from_secs(1));
    assert_eq!(c.reconnect_base_delay(), Duration::from_secs(1));
    assert_eq!(c.reconnect_max_delay(), Duration::from_secs(30));
    assert_eq!(c.ping_interval(), Duration::from_secs(30));
    assert_eq!(c.pong_timeout(), Duration::from_secs(10));
    assert_eq!(c.kafka.batch_bytes, 524_288);
    assert_eq!(c.topics.orderbook, "gmo.market.orderbook.snapshot");
    assert_eq!(c.admin.bind_addr, "0.0.0.0:9090");
    let b = BacktesterConfig::default();
    assert_eq!(b.grpc_bind_addr, "0.0.0.0:8080");
    assert_eq!(b.clickhouse.timeout(), Duration::from_secs(30));
    assert_eq!(b.limits.default_page_size, 5_000);
    assert!(!b.bearer_enabled());
    let with_auth = BacktesterConfig { bearer_auth: Some(BearerAuthConfig { token: "t".into() }), ..BacktesterConfig::default() };
    assert!(with_auth.bearer_enabled());
}

#[test]
fn durations_are_at_least_one_unit() {
    let c = IngestorConfig {
        subscribe_min_interval_ms: 0,
        reconnect_base_delay_ms: 0,
        reconnect_max_delay_ms: 250,
        ping_interval_secs: 0,
        pong_timeout_secs: 0,
        ..IngestorConfig::default()
    };
    assert_eq!(c.subscribe_min_interval(), Duration::from_millis(1));
    assert_eq!(c.reconnect_base_delay(), Duration::from_millis(1));
    assert_eq!(c.reconnect_max_delay(), Duration::from_millis(250));
    assert_eq!(c.ping_interval(), Duration::from_secs(1));
    assert_eq!(c.pong_timeout(), Duration::from_secs(1));
    let ch = ClickHouseConfig { timeout_secs: 0, ..ClickHouseConfig::default() };
    assert_eq!(ch.timeout(), Duration::from_secs(0));
    assert_eq!(IngestorConfig::default().subscribe_min_interval(), Duration::from_secs(1));
}

#[test]
fn bearer_authentication() {
    let open = BearerInterceptor::new(None);
    assert!(open.authorize(None).is_ok());
    assert!(BearerInterceptor::default().authorize(Some(b"junk")).is_ok());
    let auth = BearerInterceptor::new(Some("s3cret".to_string()));
    let e = auth.authorize(None).unwrap_err();
    assert_eq!(e.code, Code::Unauthenticated);
    assert_eq!(e.message, "missing authorization header");
    assert!(auth.authorize(Some(b"Bearer s3cret")).is_ok());
    assert!(auth.authorize(Some(b"bEaReR \t s3cret extra")).is_ok());
    assert!(auth.authorize(Some(b"  Bearer s3cret")).is_ok());
    assert_eq!(auth.authorize(Some(b"Bearer wrong")).unwrap_err().message, "invalid bearer token");
    assert_eq!(auth.authorize(Some(b"Basic s3cret")).unwrap_err().message, "invalid bearer token");
    assert_eq!(auth.authorize(Some(b"Bearer")).unwrap_err().message, "invalid bearer token");
    assert_eq!(auth.authorize(Some(b"")).unwrap_err().message, "invalid bearer token");
    assert_eq!(auth.authorize(Some(b"Bearer s3cret\n")).unwrap_err().message, "invalid authorization header");
    assert_eq!(auth.authorize(Some("Bearer s3crét".as_bytes())).unwrap_err().message, "invalid authorization header");
}

#[test]
fn empty_token_accepts_nothing() {
    let auth = BearerInterceptor::new(Some(String::new()));
    assert!(auth.authorize(None).is_err());
    for h in [&b""[..], &b"Bearer"[..], &b"Bearer "[..], &b"Bearer  \t "[..], &b"bearer x"[..], &b" "[..]] {
        assert!(auth.authorize(Some(h)).is_err());
    }
}

#[test]
fn reconnect_decisions() {
    let max = Duration::from_secs(30);
    assert!(matches!(after_session(SessionOutcome::Ended, max), RunnerAction::MarkReadyAndResetBackoff));
    let next = Duration::from_millis(1500);
    assert!(matches!(
        after_session(SessionOutcome::Failed(Some(next)), max),
        RunnerAction::MarkNotReadyAndRetryAfter(d) if d == next
    ));
    assert!(matches!(
        after_session(SessionOutcome::Failed(None), max),
        RunnerAction::MarkNotReadyAndRetryAfter(d) if d == max
    ));
}

#[test]
fn health_probes() {
    let mut h = HealthState::new();
    assert_eq!(h.reply(Probe::Liveness).status_code, 200);
    assert_eq!(h.reply(Probe::Readiness).status_code, 503);
    assert_eq!(h.reply(Probe::Readiness).status, "unavailable");
    h.mark_ready();
    assert_eq!(h.reply(Probe::Readiness).status_code, 200);
    assert_eq!(h.reply(Probe::Readiness).status, "ok");
    h.mark_not_live();
    assert_eq!(h.reply(Probe::Liveness).status_code, 503);
    assert_eq!(h.reply(Probe::Readiness).status_code, 200);
    h.mark_not_ready();
    h.mark_live();
    assert_eq!(h, HealthState { live: true, ready: false });
}

#[test]
fn log_format_setting() {
    assert_eq!(LogFormat::from_setting(None), LogFormat::Json);
    assert_eq!(LogFormat::from_setting(Some("json")), LogFormat::Json);
    assert_eq!(LogFormat::from_setting(Some("TEXT")), LogFormat::Text);
    assert_eq!(LogFormat::from_setting(Some("Pretty")), LogFormat::Text);
    assert_eq!(LogFormat::from_setting(Some("yaml")), LogFormat::Json);
}

#[test]
fn lowered_log_format_names() {
    assert_eq!(LogFormat::from_lowered("text"), LogFormat::Text);
    assert_eq!(LogFormat::from_lowered("pretty"), LogFormat::Text);
    assert_eq!(LogFormat::from_lowered("TEXT"), LogFormat::Json);
    assert_eq!(LogFormat::from_lowered(""), LogFormat::Json);
}

#[test]
fn subscriptions_cover_every_pair_in_order() {
    let channels = vec!["ticker".to_string(), "trades".to_string()];
    let symbols = vec!["BTC_JPY".to_string(), "ETH_JPY".to_string(), "XRP_JPY".to_string()];
    let plan = subscription_plan(&channels, &symbols);
    assert_eq!(plan.len(), 6);
    assert_eq!(plan[0], ("ticker".to_string(), "BTC_JPY".to_string()));
    assert_eq!(plan[2], ("ticker".to_string(), "XRP_JPY".to_string()));
    assert_eq!(plan[3], ("trades".to_string(), "BTC_JPY".to_string()));
    assert!(subscription_plan(&Vec::new(), &symbols).is_empty());
}

#[test]
fn websocket_reactions() {
    assert!(matches!(on_ws_event(WsEvent::Shutdown), WsAction::CloseAndStop));
    assert!(matches!(on_ws_event(WsEvent::PingDue), WsAction::SendPing));
    assert!(matches!(on_ws_event(WsEvent::Text("x".into())), WsAction::Deliver(t) if t == "x"));
    assert!(matches!(on_ws_event(WsEvent::Binary("héllo".as_bytes().to_vec())), WsAction::Deliver(t) if t == "héllo"));
    assert!(matches!(on_ws_event(WsEvent::Binary(vec![0xff, 0xfe])), WsAction::DropBinary));
    assert!(matches!(on_ws_event(WsEvent::Ping(vec![1, 2])), WsAction::SendPong(p) if p == vec![1, 2]));
    assert!(matches!(on_ws_event(WsEvent::Pong), WsAction::RecordPong));
    assert!(matches!(on_ws_event(WsEvent::Close), WsAction::Fail(WsFailure::ServerClosed)));
    assert!(matches!(on_ws_event(WsEvent::Frame), WsAction::Nothing));
    assert!(matches!(on_ws_event(WsEvent::Failure), WsAction::Fail(WsFailure::StreamError)));
    assert!(matches!(on_ws_event(WsEvent::End), WsAction::Fail(WsFailure::StreamEnded)));
    assert_eq!(before_poll(true, u128::MAX, 10), PollCheck::CloseAndStop);
    assert_eq!(before_poll(false, 10_000_000_000, 10), PollCheck::Poll);
    assert_eq!(before_poll(false, 10_000_000_001, 10), PollCheck::Fail(WsFailure::PongTimeout));
    assert_eq!(before_poll(false, 1_000_000_001, 0), PollCheck::Fail(WsFailure::PongTimeout));
}

#[test]
fn publishing_decisions() {
    let topics = topics_from_config(&KafkaTopics::default());
    assert_eq!(topic_for(&topics, ChannelKind::Trades), "gmo.market.trades");
    assert_eq!(topic_for(&topics, ChannelKind::Ticker), "gmo.market.ticker");
    assert_eq!(topic_for(&topics, ChannelKind::Orderbooks), "gmo.market.orderbook.snapshot");
    assert_eq!(message_age_ns(100, 250), Some(150));
    assert_eq!(message_age_ns(0, 250), None);
    assert_eq!(message_age_ns(300, 250), None);
}

#[test]
fn producer_configuration() {
    let mut k = KafkaConfig::default();
    let s = producer_settings(&k);
    assert_eq!(s.len(), 11);
    assert!(s.contains(&("acks".to_string(), "all".to_string())));
    assert!(s.contains(&("enable.idempotence".to_string(), "true".to_string())));
    assert!(s.contains(&("batch.size".to_string(), "524288".to_string())));
    assert!(s.contains(&("linger.ms".to_string(), "5".to_string())));
    k.sasl_username = Some("u".into());
    assert_eq!(producer_settings(&k).len(), 11);
    k.sasl_password = Some("p".into());
    k.security_protocol = Some("SASL_SSL".into());
    k.sasl_mechanism = Some("PLAIN".into());
    let s = producer_settings(&k);
    assert_eq!(s.len(), 15);
    assert_eq!(s[11], ("security.protocol".to_string(), "SASL_SSL".to_string()));
    assert_eq!(s[14], ("sasl.mechanism".to_string(), "PLAIN".to_string()));
    let last_value = |key: &str| s.iter().rev().find(|(k, _)| k == key).map(|(_, v)| v.clone());
    assert_eq!(last_value("acks"), Some("all".to_string()));
    assert_eq!(last_value("enable.idempotence"), Some("true".to_string()));
    k.sasl_mechanism = Some(String::new());
    let s = producer_settings(&k);
    assert_eq!(s.len(), 14);
    assert!(s.iter().all(|(key, _)| key != "sasl.mechanism"));
}

#[test]
fn decimal_text() {
    for n in [0i64, 7, -7, 10, 1234567890, i64::MIN, i64::MAX] {
        assert_eq!(i64_to_string(n), n.to_string());
        assert_eq!(parse_i64(&n.to_string()), Some(n));
    }
    assert_eq!(u64_to_string(u64::MAX), u64::MAX.to_string());
    for s in ["", "+", "-", "1a", " 1", "9223372036854775808", "-9223372036854775809", "+12", "-0", "007"] {
        assert_eq!(parse_i64(s), s.parse::<i64>().ok());
    }
    assert!(str_eq_ignore_ascii_case("BeArEr", "bearer"));
    assert!(!str_eq_ignore_ascii_case("bearers", "bearer"));
}

#[test]
fn metrics_media_type() {
    assert_eq!(metrics_content_type(), "text/plain; version=0.0.4");
}

#[test]
fn test_resource_handles() {
    assert_eq!(test_database_name("abc"), "test_abc");
    assert_eq!(test_topic_name("trades", "abc"), "trades_abc");
    let db = TestClickHouse::from_existing("http://localhost:8123", "gmo");
    assert_eq!(db.database(), "gmo");
    assert!(!db.cleanup_on_drop());
    let _client = db.client();
    assert_eq!(db.drop_sql(), None);
    assert_eq!(db.create_sql(), "CREATE DATABASE IF NOT EXISTS gmo");
    let fresh = TestClickHouse::created("http://localhost:8123", "test_x".into());
    assert!(fresh.cleanup_on_drop());
    assert_eq!(fresh.create_sql(), "CREATE DATABASE IF NOT EXISTS test_x");
    assert_eq!(fresh.drop_sql(), Some("DROP DATABASE IF EXISTS test_x".to_string()));
    let mut topic = TestKafkaTopic::created("t_1".into(), "localhost:9092");
    assert_eq!(topic.name(), "t_1");
    assert_eq!(topic.brokers(), "localhost:9092");
    assert!(topic.cleanup());
    topic.disarm();
    assert!(!topic.cleanup());
    assert!(matches!(fake_server_step(PeerEvent::Ping(vec![9])), PeerAction::SendPong(p) if p == vec![9]));
    assert!(matches!(fake_server_step(PeerEvent::Broadcast("m".into())), PeerAction::Forward(m) if m == "m"));
    assert!(matches!(fake_server_step(PeerEvent::Lagged), PeerAction::Ignore));
    assert!(matches!(fake_server_step(PeerEvent::Closed), PeerAction::Stop));
}
