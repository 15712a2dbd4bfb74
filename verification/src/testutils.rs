//! Handles on the isolated resources of integration tests: a ClickHouse
//! database and a Kafka topic, each named after a unique suffix.

use vstd::prelude::*;
use clickhouse::Client;
use crate::text::{owned, push_str};

verus! {

#[verifier::external_type_specification]
#[verifier::external_body]
pub struct ExClickHouseClient(Client);

/// Name for the server URL a ClickHouse client holds (its `url` field).
pub uninterp spec fn client_url(c: Client) -> Seq<char>;

/// Name for the database a ClickHouse client is scoped to (its `database`
/// field), absent when it is not scoped to one.
pub uninterp spec fn client_database(c: Client) -> Option<Seq<char>>;

/// `Client::default()`: a ClickHouse HTTP client with default settings, an
/// empty URL and no database.  (Building its TLS connector can panic when the
/// system TLS library cannot start; that depends on the machine, not on any
/// input.)
#[verifier::external_body]
fn default_client() -> (c: Client)
    ensures
        client_url(c) == Seq::<char>::empty(),
        client_database(c) is None,
{
    Client::default()
}

/// `Client::with_url`: the client pointed at another endpoint; only its URL
/// changes.
#[verifier::external_body]
fn client_with_url(c: Client, url: &str) -> (r: Client)
    ensures
        client_url(r) == url@,
        client_database(r) == client_database(c),
{
    c.with_url(url)
}

/// `Client::with_database`: the client scoped to a database; only its
/// database changes.
#[verifier::external_body]
fn client_with_database(c: Client, database: &str) -> (r: Client)
    ensures
        client_database(r) == Some(database@),
        client_url(r) == client_url(c),
{
    c.with_database(database)
}

/// `Client::clone` (derived): every field is cloned, the URL, database,
/// credentials and options by value and the HTTP connection pool through its
/// `Arc`, so the clone is the same client value as the original.
#[verifier::external_body]
fn client_clone(c: &Client) -> (r: Client)
    ensures
        r == *c,
{
    c.clone()
}

/// Handle to an isolated ClickHouse database created for a single test.
pub struct TestClickHouse {
    client: Client,
    admin: Client,
    database: String,
    cleanup_on_drop: bool,
}

/// The name of a fresh test database: `test_` then the unique suffix.
pub open spec fn spec_test_database_name(suffix: Seq<char>) -> Seq<char> {
    "test_"@ + suffix
}

/// The name of a test database for a unique suffix.
pub fn test_database_name(suffix: &str) -> (n: String)
    ensures
        n@ == spec_test_database_name(suffix@),
{
    let mut n = owned("test_");
    push_str(&mut n, suffix);
    n
}

impl TestClickHouse {
    pub closed spec fn spec_database(&self) -> Seq<char> {
        self.database@
    }

    pub closed spec fn spec_cleanup_on_drop(&self) -> bool {
        self.cleanup_on_drop
    }

    /// The client the handle holds, scoped to the test database.
    pub closed spec fn spec_client(&self) -> Client {
        self.client
    }

    /// The client the handle holds on the server, outside the test database.
    pub closed spec fn spec_admin(&self) -> Client {
        self.admin
    }

    /// A handle on a database this test created, dropped when the test ends.
    pub fn created(base_url: &str, database: String) -> (t: Self)
        ensures
            t.spec_database() == database@,
            t.spec_cleanup_on_drop(),
            client_url(t.spec_client()) == base_url@,
            client_database(t.spec_client()) == Some(database@),
            client_url(t.spec_admin()) == base_url@,
            client_database(t.spec_admin()) is None,
    {
        let admin = client_with_url(default_client(), base_url);
        let client = client_with_database(client_with_url(default_client(), base_url), database.as_str());
        TestClickHouse { client, admin, database, cleanup_on_drop: true }
    }

    /// Reuses an existing database handle without creating/dropping.
    pub fn from_existing(base_url: &str, database: &str) -> (t: Self)
        ensures
            t.spec_database() == database@,
            !t.spec_cleanup_on_drop(),
            client_url(t.spec_client()) == base_url@,
            client_database(t.spec_client()) == Some(database@),
            client_url(t.spec_admin()) == base_url@,
            client_database(t.spec_admin()) is None,
            t.spec_drop_sql() is None,
    {
        let admin = client_with_url(default_client(), base_url);
        let client = client_with_database(client_with_url(default_client(), base_url), database);
        TestClickHouse { client, admin, database: owned(database), cleanup_on_drop: false }
    }

    /// Returns the database name.
    pub fn database(&self) -> (d: &str)
        ensures
            d@ == self.spec_database(),
    {
        self.database.as_str()
    }

    /// Returns a `clickhouse::Client` scoped to the test database.
    pub fn client(&self) -> (c: Client)
        ensures
            c == self.spec_client(),
    {
        client_clone(&self.client)
    }

    /// Returns a client on the server, outside the test database.
    pub fn admin(&self) -> (c: Client)
        ensures
            c == self.spec_admin(),
    {
        client_clone(&self.admin)
    }

    /// Whether the database is dropped when the handle goes away.
    pub fn cleanup_on_drop(&self) -> (b: bool)
        ensures
            b == self.spec_cleanup_on_drop(),
    {
        self.cleanup_on_drop
    }

    /// The statement that creates the test database, run on the admin client.
    pub open spec fn spec_create_sql(&self) -> Seq<char> {
        "CREATE DATABASE IF NOT EXISTS "@ + self.spec_database()
    }

    /// The statement, if any, that removes the test database when the handle
    /// goes away: only a database this test created is removed.
    pub open spec fn spec_drop_sql(&self) -> Option<Seq<char>> {
        if self.spec_cleanup_on_drop() {
            Some("DROP DATABASE IF EXISTS "@ + self.spec_database())
        } else {
            None
        }
    }

    /// The statement that creates the test database.
    pub fn create_sql(&self) -> (s: String)
        ensures
            s@ == self.spec_create_sql(),
    {
        let mut s = owned("CREATE DATABASE IF NOT EXISTS ");
        push_str(&mut s, self.database.as_str());
        s
    }

    /// The statement that removes the test database when the handle goes
    /// away, absent for a database the test did not create.
    pub fn drop_sql(&self) -> (s: Option<String>)
        ensures
            match s {
                Some(q) => self.spec_drop_sql() == Some(q@),
                None => self.spec_drop_sql() is None,
            },
    {
        if self.cleanup_on_drop {
            let mut q = owned("DROP DATABASE IF EXISTS ");
            push_str(&mut q, self.database.as_str());
            Some(q)
        } else {
            None
        }
    }
}

/// A handle on an existing database never removes it: whatever is done with
/// the handle, no drop statement is issued for it.
pub proof fn lemma_existing_database_kept(t: TestClickHouse)
    requires
        !t.spec_cleanup_on_drop(),
    ensures
        t.spec_drop_sql() is None,
{
}

/// A temporary Kafka topic that is deleted when the test ends.
pub struct TestKafkaTopic {
    name: String,
    brokers: String,
    cleanup: bool,
}

/// The name of a fresh test topic: the prefix, `_`, then the unique suffix.
pub open spec fn spec_test_topic_name(prefix: Seq<char>, suffix: Seq<char>) -> Seq<char> {
    prefix + "_"@ + suffix
}

/// The name of a test topic for a prefix and a unique suffix.
pub fn test_topic_name(prefix: &str, suffix: &str) -> (n: String)
    ensures
        n@ == spec_test_topic_name(prefix@, suffix@),
{
    let mut n = owned(prefix);
    push_str(&mut n, "_");
    push_str(&mut n, suffix);
    n
}

impl TestKafkaTopic {
    pub closed spec fn spec_name(&self) -> Seq<char> {
        self.name@
    }

    pub closed spec fn spec_brokers(&self) -> Seq<char> {
        self.brokers@
    }

    pub closed spec fn spec_cleanup(&self) -> bool {
        self.cleanup
    }

    /// A handle on a topic that was just created; it is to be deleted.
    pub fn created(name: String, brokers: &str) -> (t: Self)
        ensures
            t.spec_name() == name@,
            t.spec_brokers() == brokers@,
            t.spec_cleanup(),
    {
        TestKafkaTopic { name, brokers: owned(brokers), cleanup: true }
    }

    /// Returns the full topic name.
    pub fn name(&self) -> (n: &str)
        ensures
            n@ == self.spec_name(),
    {
        self.name.as_str()
    }

    /// The brokers holding the topic.
    pub fn brokers(&self) -> (b: &str)
        ensures
            b@ == self.spec_brokers(),
    {
        self.brokers.as_str()
    }

    /// Whether the topic still is to be deleted.
    pub fn cleanup(&self) -> (b: bool)
        ensures
            b == self.spec_cleanup(),
    {
        self.cleanup
    }

    /// Marks the topic as deleted already (an eager delete was started).
    pub fn disarm(&mut self)
        ensures
            !final(self).spec_cleanup(),
            final(self).spec_name() == old(self).spec_name(),
            final(self).spec_brokers() == old(self).spec_brokers(),
    {
        self.cleanup = false;
    }
}


/// What the fake WebSocket server sees on a connection once the initial
/// messages are replayed.
pub enum PeerEvent {
    /// The client pinged.
    Ping(Vec<u8>),
    /// The client ponged.
    Pong,
    /// The client sent text.
    Text,
    /// The client sent binary data.
    Binary,
    /// The client sent a raw frame.
    Frame,
    /// The client closed, or the connection ended.
    Closed,
    /// Reading from the client failed.
    Error,
    /// A message was broadcast to all clients (its JSON text).
    Broadcast(String),
    /// The connection fell behind the broadcast and missed messages.
    Lagged,
    /// The broadcast channel closed.
    BroadcastClosed,
}

/// What the fake server does about it.
pub enum PeerAction {
    /// Answer a ping with the same payload.
    SendPong(Vec<u8>),
    /// Send the broadcast text to the client.
    Forward(String),
    /// Keep waiting.
    Ignore,
    /// End the connection.
    Stop,
}

/// One step of a fake server connection: pings are answered, broadcasts
/// forwarded, client messages ignored; it ends when the client or the
/// broadcast goes away.
pub fn fake_server_step(event: PeerEvent) -> (a: PeerAction)
    ensures
        match event {
            PeerEvent::Ping(p) => a matches PeerAction::SendPong(q) && q@ == p@,
            PeerEvent::Broadcast(m) => a matches PeerAction::Forward(f) && f@ == m@,
            PeerEvent::Pong | PeerEvent::Text | PeerEvent::Binary | PeerEvent::Frame | PeerEvent::Lagged => a is Ignore,
            PeerEvent::Closed | PeerEvent::Error | PeerEvent::BroadcastClosed => a is Stop,
        },
{
    match event {
        PeerEvent::Ping(p) => PeerAction::SendPong(p),
        PeerEvent::Broadcast(m) => PeerAction::Forward(m),
        PeerEvent::Pong | PeerEvent::Text | PeerEvent::Binary | PeerEvent::Frame | PeerEvent::Lagged => PeerAction::Ignore,
        PeerEvent::Closed | PeerEvent::Error | PeerEvent::BroadcastClosed => PeerAction::Stop,
    }
}

} // verus!
