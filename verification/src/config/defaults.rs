//! Default values of the configuration.

use vstd::prelude::*;
use crate::text::owned;

verus! {

pub fn admin_bind_addr() -> (s: String)
    ensures
        s@ == "0.0.0.0:9090"@,
{
    owned("0.0.0.0:9090")
}

pub fn kafka_brokers() -> (s: String)
    ensures
        s@ == "localhost:9092"@,
{
    owned("localhost:9092")
}

pub fn kafka_client_id() -> (s: String)
    ensures
        s@ == "gmocoin-service"@,
{
    owned("gmocoin-service")
}

pub fn kafka_linger_ms() -> (v: u64)
    ensures
        v == 5,
{
    5
}

pub fn kafka_batch_bytes() -> (v: usize)
    ensures
        v == 512 * 1024,
{
    512 * 1024
}

pub fn kafka_retries() -> (v: usize)
    ensures
        v == 5,
{
    5
}

pub fn topic_trades() -> (s: String)
    ensures
        s@ == "gmo.market.trades"@,
{
    owned("gmo.market.trades")
}

pub fn topic_ticker() -> (s: String)
    ensures
        s@ == "gmo.market.ticker"@,
{
    owned("gmo.market.ticker")
}

pub fn topic_orderbook() -> (s: String)
    ensures
        s@ == "gmo.market.orderbook.snapshot"@,
{
    owned("gmo.market.orderbook.snapshot")
}

pub fn clickhouse_url() -> (s: String)
    ensures
        s@ == "http://localhost:8123"@,
{
    owned("http://localhost:8123")
}

pub fn clickhouse_database() -> (s: String)
    ensures
        s@ == "gmo"@,
{
    owned("gmo")
}

pub fn clickhouse_timeout_secs() -> (v: u64)
    ensures
        v == 30,
{
    30
}

/// GMO Coin public WebSocket endpoint (v1).
pub fn ws_endpoint() -> (s: String)
    ensures
        s@ == "wss://api.coin.z.com/ws/public/v1"@,
{
    owned("wss://api.coin.z.com/ws/public/v1")
}

pub fn symbols() -> (v: Vec<String>)
    ensures
        v@.len() == 2,
        v@[0]@ == "BTC_JPY"@,
        v@[1]@ == "ETH_JPY"@,
{
    let mut v: Vec<String> = Vec::new();
    v.push(owned("BTC_JPY"));
    v.push(owned("ETH_JPY"));
    v
}

pub fn channels() -> (v: Vec<String>)
    ensures
        v@.len() == 3,
        v@[0]@ == "ticker"@,
        v@[1]@ == "trades"@,
        v@[2]@ == "orderbooks"@,
{
    let mut v: Vec<String> = Vec::new();
    v.push(owned("ticker"));
    v.push(owned("trades"));
    v.push(owned("orderbooks"));
    v
}

pub fn subscribe_min_interval_ms() -> (v: u64)
    ensures
        v == 1_000,
{
    1_000
}

pub fn ping_interval_secs() -> (v: u64)
    ensures
        v == 30,
{
    30
}

pub fn pong_timeout_secs() -> (v: u64)
    ensures
        v == 10,
{
    10
}

pub fn reconnect_base_ms() -> (v: u64)
    ensures
        v == 1_000,
{
    1_000
}

pub fn reconnect_max_ms() -> (v: u64)
    ensures
        v == 30_000,
{
    30_000
}

pub fn reconnect_jitter_ms() -> (v: u64)
    ensures
        v == 500,
{
    500
}

pub fn grpc_bind_addr() -> (s: String)
    ensures
        s@ == "0.0.0.0:8080"@,
{
    owned("0.0.0.0:8080")
}

pub fn query_default_page_size() -> (v: usize)
    ensures
        v == 5_000,
{
    5_000
}

pub fn query_max_page_size() -> (v: usize)
    ensures
        v == 50_000,
{
    50_000
}

} // verus!
