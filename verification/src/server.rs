//! Configuration and state of the HTTP relay server.
//!
//! # CORS Configuration
//!
//! By default the server uses permissive CORS (`Access-Control-Allow-Origin: *`) to allow
//! web browsers to communicate from any origin. This is intentional for public relay
//! deployments. For restricted environments, switch it off with `cors_allow_all(false)`.

use crate::clock::{duration_millis, from_secs};
use crate::entries::Entries;
use crate::persistence::{opening_may_fail, EntryRepository};
use crate::rendezvous::{PendingList, PendingView, DEFAULT_MAX_CACHE, DEFAULT_MAX_PENDING};
use crate::repository::StorageError;
use crate::payload::from_text;
use crate::response::{build_response, content_type_header, Reply, ReplyView, OK};
use crate::waiters::WaiterMap;
use crate::waiting_list::WaitingList;
use std::path::PathBuf;
use std::time::Duration;
use url::Url;
use vstd::prelude::*;
use vstd::utf8::encode_utf8;

verus! {

/// The default timeout for link endpoints (synchronous handoff), in seconds.
pub const DEFAULT_LINK_TIMEOUT: u64 = 600;

/// The default timeout for inbox long-poll endpoints (shorter to avoid proxy timeouts), in
/// seconds.
pub const DEFAULT_INBOX_TIMEOUT: u64 = 25;

/// The default time-to-live for inbox messages, in seconds.
pub const DEFAULT_INBOX_CACHE_TTL: u64 = 300;

/// The default timeout for the link endpoint without caching, in seconds.
pub const DEFAULT_REQUEST_TIMEOUT: u64 = 600;

/// The default timeout for the link endpoint with caching (shorter to avoid proxy timeouts), in
/// seconds.
pub const DEFAULT_LINK2_TIMEOUT: u64 = 25;

/// The default time-to-live for values cached after they were handed over, in seconds.
pub const DEFAULT_CACHE_TTL: u64 = 300;

/// Default maximum request body size (2KB).
pub const DEFAULT_MAX_BODY_SIZE: usize = 2048;

/// Default maximum entries in the waiting list.
pub const DEFAULT_MAX_ENTRIES: usize = 10_000;

/// An IP address.
#[derive(Debug, Clone, Copy, PartialEq, Eq, Structural)]
pub enum IpAddress {
    /// The four octets of an IPv4 address.
    V4(u8, u8, u8, u8),
    /// The bits of an IPv6 address.
    V6(u128),
}

/// An IP address and a port.
#[derive(Debug, Clone, Copy, PartialEq, Eq, Structural)]
pub struct SocketAddress {
    /// The address.
    pub ip: IpAddress,
    /// The port.
    pub port: u16,
}

/// The settings of a relay.
#[derive(Debug)]
pub struct Config {
    /// The address to bind to.
    pub bind_address: IpAddress,
    /// The port to listen on (0 = random available port).
    pub http_port: u16,
    /// Timeout for link endpoints (synchronous handoff wait time).
    pub link_timeout: Duration,
    /// Timeout for inbox long-poll endpoints (shorter to avoid proxy timeouts).
    pub inbox_timeout: Duration,
    /// How long inbox messages persist before expiring.
    pub inbox_cache_ttl: Duration,
    /// Timeout for the link endpoint without caching.
    pub request_timeout: Duration,
    /// Timeout for the link endpoint with caching.
    pub link2_timeout: Duration,
    /// How long to keep values cached after they were handed over.
    pub cache_ttl: Duration,
    /// Maximum request body size in bytes.
    pub max_body_size: usize,
    /// Maximum entries in the waiting list.
    pub max_entries: usize,
    /// Maximum requests that wait on the link endpoint with caching.
    pub max_pending: usize,
    /// Maximum values cached by the link endpoint with caching.
    pub max_cache: usize,
    /// Path to SQLite database for persistent storage.
    /// If None, uses in-memory storage (data lost on restart).
    pub persist_db: Option<PathBuf>,
    /// Whether browsers may call from any origin.
    pub cors_allow_all: bool,
}

/// The settings of a relay that nothing was configured of.
pub open spec fn is_default(config: Config) -> bool {
    &&& config.bind_address == IpAddress::V4(127, 0, 0, 1)
    &&& config.http_port == 0
    &&& duration_millis(config.link_timeout) == DEFAULT_LINK_TIMEOUT * 1000
    &&& duration_millis(config.inbox_timeout) == DEFAULT_INBOX_TIMEOUT * 1000
    &&& duration_millis(config.inbox_cache_ttl) == DEFAULT_INBOX_CACHE_TTL * 1000
    &&& duration_millis(config.request_timeout) == DEFAULT_REQUEST_TIMEOUT * 1000
    &&& duration_millis(config.link2_timeout) == DEFAULT_LINK2_TIMEOUT * 1000
    &&& duration_millis(config.cache_ttl) == DEFAULT_CACHE_TTL * 1000
    &&& config.max_body_size == DEFAULT_MAX_BODY_SIZE
    &&& config.max_entries == DEFAULT_MAX_ENTRIES
    &&& config.max_pending == DEFAULT_MAX_PENDING
    &&& config.max_cache == DEFAULT_MAX_CACHE
    &&& config.persist_db is None
    &&& config.cors_allow_all
}

impl Default for Config {
    fn default() -> (config: Self)
        ensures
            is_default(config),
    {
        Config {
            bind_address: IpAddress::V4(127, 0, 0, 1),
            http_port: 0,
            link_timeout: from_secs(DEFAULT_LINK_TIMEOUT),
            inbox_timeout: from_secs(DEFAULT_INBOX_TIMEOUT),
            inbox_cache_ttl: from_secs(DEFAULT_INBOX_CACHE_TTL),
            request_timeout: from_secs(DEFAULT_REQUEST_TIMEOUT),
            link2_timeout: from_secs(DEFAULT_LINK2_TIMEOUT),
            cache_ttl: from_secs(DEFAULT_CACHE_TTL),
            max_body_size: DEFAULT_MAX_BODY_SIZE,
            max_entries: DEFAULT_MAX_ENTRIES,
            max_pending: DEFAULT_MAX_PENDING,
            max_cache: DEFAULT_MAX_CACHE,
            persist_db: None,
            cors_allow_all: true,
        }
    }
}

/// What the endpoints of a relay work on.
pub struct AppState {
    /// The settings.
    pub config: Config,
    /// The entries of the inbox and link endpoints, and those who wait for them.
    pub waiting_list: WaitingList<EntryRepository>,
    /// The producers and consumers of the link endpoint with caching.
    pub pending_list: PendingList,
}

impl AppState {
    /// Creates a new AppState. Returns error if persistence initialization fails.
    pub fn new(config: Config) -> (result: Result<Self, StorageError>)
        ensures
            result matches Ok(state) ==> {
                &&& state.config == config
                &&& state.waiting_list.wf()
                &&& state.waiting_list.limit() == config.max_entries
                &&& state.waiting_list.file() == config.persist_db
                &&& state.waiting_list.waiters() == WaiterMap::empty()
                &&& config.persist_db is None ==> state.waiting_list.exclusive()
                    && state.waiting_list.rows() == Entries::empty()
                &&& state.pending_list.wf()
                &&& state.pending_list@ == (PendingView {
                    producers: Map::empty(),
                    consumers: Map::empty(),
                    cache: Map::empty(),
                    max_pending: config.max_pending,
                    max_cache: config.max_cache,
                })
            },
            result matches Err(error) ==> if config.persist_db is None {
                error == StorageError::OpenInMemory || error == StorageError::CreateSchema
            } else {
                error == StorageError::OpenFile || error == StorageError::EnableWal || error
                    == StorageError::CreateSchema
            },
            result matches Err(error) ==> opening_may_fail(config.persist_db, error),
            result matches Ok(state) ==> exists|
                path: Option<&PathBuf>,
                repository: EntryRepository,
            |
                {
                    &&& path is Some <==> config.persist_db is Some
                    &&& path is Some ==> *path->0 == config.persist_db->0
                    &&& state.waiting_list.repository() == repository
                    &&& #[trigger] call_ensures(
                        EntryRepository::new,
                        (path, config.max_entries),
                        Ok(repository),
                    )
                },
    {
        let repository: EntryRepository = match EntryRepository::new(
            config.persist_db.as_ref(),
            config.max_entries,
        ) {
            Ok(repository) => repository,
            Err(error) => return Err(error),
        };
        let waiting_list: WaitingList<EntryRepository> = WaitingList::new(repository);
        let pending_list: PendingList = PendingList::new(config.max_pending, config.max_cache);
        Ok(AppState { config, waiting_list, pending_list })
    }
}

/// Builder for [HttpRelay].
#[derive(Debug)]
pub struct HttpRelayBuilder(Config);

impl Default for HttpRelayBuilder {
    fn default() -> (builder: Self)
        ensures
            is_default(builder.config()),
    {
        HttpRelayBuilder(Config::default())
    }
}

impl HttpRelayBuilder {
    /// The settings made so far.
    pub closed spec fn config(&self) -> Config {
        self.0
    }

    /// Configure the address to bind to (default: 127.0.0.1).
    pub fn bind_address(self, addr: IpAddress) -> (builder: Self)
        ensures
            builder.config() == (Config { bind_address: addr, ..self.config() }),
    {
        let mut config: Config = self.0;
        config.bind_address = addr;
        HttpRelayBuilder(config)
    }

    /// Configure the port used for HTTP server.
    pub fn http_port(self, port: u16) -> (builder: Self)
        ensures
            builder.config() == (Config { http_port: port, ..self.config() }),
    {
        let mut config: Config = self.0;
        config.http_port = port;
        HttpRelayBuilder(config)
    }

    /// Configure the timeout for link endpoints (default: 10 minutes).
    /// This is how long producers wait for consumers (and vice versa).
    pub fn link_timeout(self, timeout: Duration) -> (builder: Self)
        ensures
            builder.config() == (Config { link_timeout: timeout, ..self.config() }),
    {
        let mut config: Config = self.0;
        config.link_timeout = timeout;
        HttpRelayBuilder(config)
    }

    /// Configure the timeout for inbox long-poll endpoints (default: 25 seconds).
    /// Shorter than the default request timeout to avoid proxy timeouts.
    pub fn inbox_timeout(self, timeout: Duration) -> (builder: Self)
        ensures
            builder.config() == (Config { inbox_timeout: timeout, ..self.config() }),
    {
        let mut config: Config = self.0;
        config.inbox_timeout = timeout;
        HttpRelayBuilder(config)
    }

    /// Configure the TTL for inbox messages (default: 5 minutes).
    /// Messages persist for this duration after being sent.
    pub fn inbox_cache_ttl(self, ttl: Duration) -> (builder: Self)
        ensures
            builder.config() == (Config { inbox_cache_ttl: ttl, ..self.config() }),
    {
        let mut config: Config = self.0;
        config.inbox_cache_ttl = ttl;
        HttpRelayBuilder(config)
    }

    /// Configure the timeout for the link endpoint with caching (default: 25 seconds).
    pub fn link2_timeout(self, timeout: Duration) -> (builder: Self)
        ensures
            builder.config() == (Config { link2_timeout: timeout, ..self.config() }),
    {
        let mut config: Config = self.0;
        config.link2_timeout = timeout;
        HttpRelayBuilder(config)
    }

    /// Configure the TTL for cached values (default: 5 minutes).
    /// Values remain available for this duration after the first consumer
    /// retrieves them.
    pub fn cache_ttl(self, ttl: Duration) -> (builder: Self)
        ensures
            builder.config() == (Config { cache_ttl: ttl, ..self.config() }),
    {
        let mut config: Config = self.0;
        config.cache_ttl = ttl;
        HttpRelayBuilder(config)
    }

    /// Configure the maximum request body size (default: 2KB).
    pub fn max_body_size(self, size: usize) -> (builder: Self)
        ensures
            builder.config() == (Config { max_body_size: size, ..self.config() }),
    {
        let mut config: Config = self.0;
        config.max_body_size = size;
        HttpRelayBuilder(config)
    }

    /// Configure the maximum entries in the waiting list (default: 10000).
    /// When this limit is reached, oldest entries are evicted.
    pub fn max_entries(self, max: usize) -> (builder: Self)
        ensures
            builder.config() == (Config { max_entries: max, ..self.config() }),
    {
        let mut config: Config = self.0;
        config.max_entries = max;
        HttpRelayBuilder(config)
    }

    /// Configure how many requests may wait on the link endpoint with caching (default: 10000).
    /// Further ones are refused.
    pub fn max_pending(self, max: usize) -> (builder: Self)
        ensures
            builder.config() == (Config { max_pending: max, ..self.config() }),
    {
        let mut config: Config = self.0;
        config.max_pending = max;
        HttpRelayBuilder(config)
    }

    /// Configure how many values the link endpoint with caching keeps (default: 10000).
    pub fn max_cache(self, max: usize) -> (builder: Self)
        ensures
            builder.config() == (Config { max_cache: max, ..self.config() }),
    {
        let mut config: Config = self.0;
        config.max_cache = max;
        HttpRelayBuilder(config)
    }

    /// Configure the path to SQLite database for persistent storage.
    /// If not specified, uses in-memory storage (data lost on restart).
    pub fn persist_db(self, path: Option<PathBuf>) -> (builder: Self)
        ensures
            builder.config() == (Config { persist_db: path, ..self.config() }),
    {
        let mut config: Config = self.0;
        config.persist_db = path;
        HttpRelayBuilder(config)
    }

    /// Configure whether browsers may call from any origin (default: yes).
    pub fn cors_allow_all(self, allow: bool) -> (builder: Self)
        ensures
            builder.config() == (Config { cors_allow_all: allow, ..self.config() }),
    {
        let mut config: Config = self.0;
        config.cors_allow_all = allow;
        HttpRelayBuilder(config)
    }

    /// Hands out the settings, to start a server with.
    pub fn into_config(self) -> (config: Config)
        ensures
            config == self.config(),
    {
        self.0
    }
}

/// A URL.
#[verifier::external_type_specification]
#[verifier::external_body]
pub struct ExUrl(url::Url);

/// Why a text is no URL.
#[verifier::external_type_specification]
#[verifier::external_body]
pub struct ExParseError(url::ParseError);

/// The serialization of a URL.
pub uninterp spec fn url_text(url: &Url) -> Seq<char>;

/// The decimal digits of a number, without leading zeros.
pub open spec fn decimal(n: nat) -> Seq<char>
    decreases n,
{
    if n < 10 {
        seq![('0' as u32 + n) as char]
    } else {
        decimal(n / 10).push(('0' as u32 + n % 10) as char)
    }
}

/// The origin of a server on this machine.
pub open spec fn local_origin(port: u16) -> Seq<char> {
    "http://localhost:"@ + decimal(port as nat)
}

/// The URL of a server on this machine. The default port of HTTP is not written out.
pub open spec fn local_root(port: u16) -> Seq<char> {
    if port == 80 {
        "http://localhost/"@
    } else {
        local_origin(port) + "/"@
    }
}

/// `Url::parse`, on the origin of a server on this machine: it is a URL, whose serialization has
/// the path `/` and leaves the default port out.
#[verifier::external_body]
fn parse_url(text: &str) -> (result: Result<Url, url::ParseError>)
    requires
        exists|port: u16| text@ == #[trigger] local_origin(port),
    ensures
        result is Ok,
        forall|port: u16|
            text@ == #[trigger] local_origin(port) ==> url_text(&result->Ok_0) == local_root(port),
{
    Url::parse(text)
}

/// `Url::path_segments_mut` and `PathSegmentsMut::push`, on the URL of a server on this machine and
/// the segment `link`: the URL can have a path, and the segment is put behind the lone slash that
/// the path consists of.
#[verifier::external_body]
fn push_segment(url: &mut Url, segment: &str) -> (result: Result<(), ()>)
    requires
        exists|port: u16| url_text(old(url)) == #[trigger] local_root(port),
        segment@ == "link"@,
    ensures
        result is Ok,
        url_text(final(url)) == url_text(old(url)) + segment@,
{
    match url.path_segments_mut() {
        Ok(mut segments) => {
            segments.push(segment);
            Ok(())
        },
        Err(()) => Err(()),
    }
}

/// The digit of a number below ten.
fn digit(n: u16) -> (text: &'static str)
    requires
        n < 10,
    ensures
        text@ == decimal(n as nat),
{
    proof {
        reveal_strlit("0");
        reveal_strlit("1");
        reveal_strlit("2");
        reveal_strlit("3");
        reveal_strlit("4");
        reveal_strlit("5");
        reveal_strlit("6");
        reveal_strlit("7");
        reveal_strlit("8");
        reveal_strlit("9");
    }
    match n {
        0 => "0",
        1 => "1",
        2 => "2",
        3 => "3",
        4 => "4",
        5 => "5",
        6 => "6",
        7 => "7",
        8 => "8",
        _ => "9",
    }
}

/// Writes a number in decimal.
pub fn decimal_text(n: u16) -> (text: String)
    ensures
        text@ == decimal(n as nat),
    decreases n,
{
    if n < 10 {
        digit(n).to_owned()
    } else {
        let mut text: String = decimal_text(n / 10);
        text.append(digit(n % 10));
        text
    }
}

/// A running relay, by where it listens.
#[derive(Debug, Clone, Copy)]
pub struct HttpRelay {
    address: SocketAddress,
}

impl HttpRelay {
    /// Where the relay listens.
    pub closed spec fn address(&self) -> SocketAddress {
        self.address
    }

    /// A relay that listens on `address`.
    pub fn new(address: SocketAddress) -> (relay: Self)
        ensures
            relay.address() == address,
    {
        HttpRelay { address }
    }

    /// Create [HttpRelayBuilder].
    pub fn builder() -> (builder: HttpRelayBuilder)
        ensures
            is_default(builder.config()),
    {
        HttpRelayBuilder::default()
    }

    /// Returns the HTTP address of this http relay.
    pub fn http_address(&self) -> (address: SocketAddress)
        ensures
            address == self.address(),
    {
        self.address
    }

    /// Returns the localhost Url of this server.
    pub fn local_url(&self) -> (url: Url)
        ensures
            url_text(&url) == local_root(self.address().port),
    {
        let mut text: String = "http://localhost:".to_owned();
        text.append(decimal_text(self.address.port).as_str());
        assert(text@ =~= local_origin(self.address.port));
        // Infallible: "http://localhost:{port}" is always a valid URL format
        parse_url(text.as_str()).unwrap()
    }

    /// Returns the localhost URL of Link endpoints
    pub fn local_link_url(&self) -> (url: Url)
        ensures
            url_text(&url) == local_root(self.address().port) + "link"@,
    {
        let mut url: Url = self.local_url();
        // Infallible: http:// URLs always support path segments (only cannot-be-a-base URLs fail)
        push_segment(&mut url, "link").unwrap();
        url
    }
}

/// GET / - Tell what this server is.
pub fn root_handler() -> (reply: Reply)
    ensures
        reply@ == (ReplyView {
            status: OK,
            body: encode_utf8("Http Relay"@),
            content_type: content_type_header(Some("text/plain; charset=utf-8"@)),
            deprecated: false,
        }),
{
    build_response(OK, from_text("Http Relay"), Some("text/plain; charset=utf-8".to_owned()))
}

} // verus!
