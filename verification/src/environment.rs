//! The environment service: the environment record the server was started
//! with, served unless the server is in maintenance.
use vstd::prelude::*;
use vstd::string::*;

use crate::status::RpcCode;
use crate::status::RpcStatus;

verus! {

/// The service endpoints an environment advertises; any may be unset.
pub struct EndpointSettings {
    pub auth_url: Option<String>,
    pub repository_url: Option<String>,
    pub storage_url: Option<String>,
    pub revision_url: Option<String>,
    pub lock_url: Option<String>,
    pub notification_url: Option<String>,
}

/// The compression modes a client may be told to use.
#[derive(Debug, Clone, Copy, PartialEq, Eq, Structural)]
pub enum CompressionMode {
    NotSpecified,
    NoCompression,
    Lz4,
    Oodle,
    Zstd,
}

/// Client settings of an environment.
pub struct ConfigSettings {
    pub max_query_batch: Option<u64>,
    pub compression_mode: Option<CompressionMode>,
}

/// An environment's configuration.
pub struct EnvironmentSettings {
    pub endpoint: Option<EndpointSettings>,
    pub config: Option<ConfigSettings>,
}

/// The endpoints as served: an unset URL is served empty.
#[derive(Debug, Clone)]
pub struct EndpointRecord {
    pub auth_url: String,
    pub repository_url: String,
    pub storage_url: String,
    pub revision_url: String,
    pub lock_url: String,
    pub notification_url: String,
}

/// The client settings as served: an unset batch size is served as 0.
#[derive(Debug, Clone)]
pub struct ConfigRecord {
    pub max_query_batch: u32,
    pub compression_mode: Option<CompressionMode>,
}

/// The environment as served.
#[derive(Debug, Clone)]
pub struct EnvironmentRecord {
    pub endpoint: Option<EndpointRecord>,
    pub config: Option<ConfigRecord>,
}

/// The text of an optional URL as served: empty when unset.
pub open spec fn url_text(u: Option<String>) -> Seq<char> {
    match u {
        Some(s) => s@,
        None => Seq::empty(),
    }
}

/// Whether an endpoint record serves the given endpoint settings.
pub open spec fn serves_endpoint(r: EndpointRecord, e: EndpointSettings) -> bool {
    &&& r.auth_url@ == url_text(e.auth_url)
    &&& r.repository_url@ == url_text(e.repository_url)
    &&& r.storage_url@ == url_text(e.storage_url)
    &&& r.revision_url@ == url_text(e.revision_url)
    &&& r.lock_url@ == url_text(e.lock_url)
    &&& r.notification_url@ == url_text(e.notification_url)
}

/// Whether a config record serves the given client settings: the batch
/// size (0 when unset) truncated to 32 bits, and the compression mode.
pub open spec fn serves_config(r: ConfigRecord, c: ConfigSettings) -> bool {
    &&& r.max_query_batch == (match c.max_query_batch {
        Some(n) => n as u32,
        None => 0u32,
    })
    &&& r.compression_mode == c.compression_mode
}

/// Whether an environment record serves the given environment.
pub open spec fn serves_environment(r: EnvironmentRecord, e: EnvironmentSettings) -> bool {
    &&& (r.endpoint is Some <==> e.endpoint is Some)
    &&& (e.endpoint is Some ==> serves_endpoint(r.endpoint->0, e.endpoint->0))
    &&& (r.config is Some <==> e.config is Some)
    &&& (e.config is Some ==> serves_config(r.config->0, e.config->0))
}

/// Law: each URL an endpoint record serves is the configured URL of the
/// same name, and empty when that one is unset.
pub proof fn lemma_served_urls_match_settings(r: EndpointRecord, e: EndpointSettings)
    requires
        serves_endpoint(r, e),
    ensures
        e.auth_url matches Some(u) ==> r.auth_url@ == u@,
        e.auth_url is None ==> r.auth_url@.len() == 0,
        e.repository_url matches Some(u) ==> r.repository_url@ == u@,
        e.repository_url is None ==> r.repository_url@.len() == 0,
        e.storage_url matches Some(u) ==> r.storage_url@ == u@,
        e.storage_url is None ==> r.storage_url@.len() == 0,
        e.revision_url matches Some(u) ==> r.revision_url@ == u@,
        e.revision_url is None ==> r.revision_url@.len() == 0,
        e.lock_url matches Some(u) ==> r.lock_url@ == u@,
        e.lock_url is None ==> r.lock_url@.len() == 0,
        e.notification_url matches Some(u) ==> r.notification_url@ == u@,
        e.notification_url is None ==> r.notification_url@.len() == 0,
{
}

/// Law: the client settings a config record serves are the configured ones:
/// the batch size truncated to 32 bits (0 when unset), and the same
/// compression mode.
pub proof fn lemma_served_config_matches_settings(r: ConfigRecord, c: ConfigSettings)
    requires
        serves_config(r, c),
    ensures
        c.max_query_batch matches Some(n) ==> r.max_query_batch as int == n as int % 4294967296,
        c.max_query_batch is None ==> r.max_query_batch == 0,
        r.compression_mode == c.compression_mode,
{
    if let Some(n) = c.max_query_batch {
        assert(r.max_query_batch == n as u32);
        assert((n as u32) as int == n as int % 4294967296) by (bit_vector);
    }
}

fn url_or_empty(u: &Option<String>) -> (r: String)
    ensures
        r@ == url_text(*u),
{
    match u {
        Some(s) => s.clone(),
        None => String::new(),
    }
}

/// The endpoints as served.
pub fn endpoint_record(e: &EndpointSettings) -> (r: EndpointRecord)
    ensures
        serves_endpoint(r, *e),
        e.auth_url matches Some(u) ==> r.auth_url@ == u@,
        e.auth_url is None ==> r.auth_url@.len() == 0,
        e.repository_url matches Some(u) ==> r.repository_url@ == u@,
        e.repository_url is None ==> r.repository_url@.len() == 0,
        e.storage_url matches Some(u) ==> r.storage_url@ == u@,
        e.storage_url is None ==> r.storage_url@.len() == 0,
        e.revision_url matches Some(u) ==> r.revision_url@ == u@,
        e.revision_url is None ==> r.revision_url@.len() == 0,
        e.lock_url matches Some(u) ==> r.lock_url@ == u@,
        e.lock_url is None ==> r.lock_url@.len() == 0,
        e.notification_url matches Some(u) ==> r.notification_url@ == u@,
        e.notification_url is None ==> r.notification_url@.len() == 0,
{
    EndpointRecord {
        auth_url: url_or_empty(&e.auth_url),
        repository_url: url_or_empty(&e.repository_url),
        storage_url: url_or_empty(&e.storage_url),
        revision_url: url_or_empty(&e.revision_url),
        lock_url: url_or_empty(&e.lock_url),
        notification_url: url_or_empty(&e.notification_url),
    }
}

/// The client settings as served.
pub fn config_record(c: &ConfigSettings) -> (r: ConfigRecord)
    ensures
        serves_config(r, *c),
        c.max_query_batch matches Some(n) ==> r.max_query_batch as int == n as int % 4294967296,
        c.max_query_batch is None ==> r.max_query_batch == 0,
        r.compression_mode == c.compression_mode,
{
    let max_query_batch: u32 = match c.max_query_batch {
        Some(n) => n as u32,
        None => 0,
    };
    let r = ConfigRecord { max_query_batch, compression_mode: c.compression_mode };
    proof {
        lemma_served_config_matches_settings(r, *c);
    }
    r
}

/// The environment as served.
pub fn environment_record(e: &EnvironmentSettings) -> (r: EnvironmentRecord)
    ensures
        serves_environment(r, *e),
{
    let endpoint = match &e.endpoint {
        Some(ep) => Some(endpoint_record(ep)),
        None => None,
    };
    let config = match &e.config {
        Some(c) => Some(config_record(c)),
        None => None,
    };
    EnvironmentRecord { endpoint, config }
}

/// The answer of a server in maintenance.
pub open spec fn in_maintenance(r: RpcStatus) -> bool {
    r.code == RpcCode::Unavailable && r.message@ == "Server is in maintenance"@
}

fn maintenance_status() -> (r: RpcStatus)
    ensures
        in_maintenance(r),
{
    RpcStatus { code: RpcCode::Unavailable, message: String::from_str("Server is in maintenance") }
}

/// The environment service, with the record built once at start-up.
pub struct LoreEnvironmentService {
    environment: EnvironmentRecord,
    maintenance: bool,
}

impl LoreEnvironmentService {
    /// The record this service serves.
    pub closed spec fn spec_environment(&self) -> EnvironmentRecord {
        self.environment
    }

    /// Whether the server is in maintenance.
    pub closed spec fn spec_maintenance(&self) -> bool {
        self.maintenance
    }

    /// A service that serves the given environment.
    pub fn new(environment: &EnvironmentSettings) -> (r: Self)
        ensures
            serves_environment(r.spec_environment(), *environment),
            !r.spec_maintenance(),
    {
        LoreEnvironmentService { environment: environment_record(environment), maintenance: false }
    }

    /// A service for a server in maintenance.
    pub fn maintenance(environment: &EnvironmentSettings) -> (r: Self)
        ensures
            serves_environment(r.spec_environment(), *environment),
            r.spec_maintenance(),
    {
        LoreEnvironmentService { environment: environment_record(environment), maintenance: true }
    }

    /// Answers an environment request: the record, unless the server is in
    /// maintenance (unavailable).
    pub fn get(&self) -> (r: Result<&EnvironmentRecord, RpcStatus>)
        ensures
            self.spec_maintenance() ==> (r matches Err(s) && in_maintenance(s)),
            !self.spec_maintenance() ==> r == Ok::<&EnvironmentRecord, RpcStatus>(&self.spec_environment()),
    {
        if self.maintenance {
            Err(maintenance_status())
        } else {
            Ok(&self.environment)
        }
    }
}

/// The version 1 environment service, with the record built once at
/// start-up.
pub struct LoreEnvironmentV1Service {
    environment: EnvironmentRecord,
    maintenance: bool,
}

impl LoreEnvironmentV1Service {
    /// The record this service serves.
    pub closed spec fn spec_environment(&self) -> EnvironmentRecord {
        self.environment
    }

    /// Whether the server is in maintenance.
    pub closed spec fn spec_maintenance(&self) -> bool {
        self.maintenance
    }

    /// A service that serves the given environment.
    pub fn new(environment: &EnvironmentSettings) -> (r: Self)
        ensures
            serves_environment(r.spec_environment(), *environment),
            !r.spec_maintenance(),
    {
        LoreEnvironmentV1Service { environment: environment_record(environment), maintenance: false }
    }

    /// A service for a server in maintenance.
    pub fn maintenance(environment: &EnvironmentSettings) -> (r: Self)
        ensures
            serves_environment(r.spec_environment(), *environment),
            r.spec_maintenance(),
    {
        LoreEnvironmentV1Service { environment: environment_record(environment), maintenance: true }
    }

    /// Answers an environment request: the record, unless the server is in
    /// maintenance (unavailable).
    pub fn environment_get(&self) -> (r: Result<&EnvironmentRecord, RpcStatus>)
        ensures
            self.spec_maintenance() ==> (r matches Err(s) && in_maintenance(s)),
            !self.spec_maintenance() ==> r == Ok::<&EnvironmentRecord, RpcStatus>(&self.spec_environment()),
    {
        if self.maintenance {
            Err(maintenance_status())
        } else {
            Ok(&self.environment)
        }
    }
}

} // verus!
