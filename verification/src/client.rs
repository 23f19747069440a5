//! The client of the remote execution service: its configuration, and for each of
//! its calls what is sent and what comes back.
use vstd::prelude::*;
use vstd::string::*;

use crate::convert::{
    convert_action_result, convert_t_action_result2, executed_for, fits_wire_duration,
    is_caller_result, is_wire_result, missing_from_result, ActionResult, TActionResult2,
};
use crate::digest::{tdigest_to, Digest, TDigest};
use crate::digests_ttl::{values, DigestsTtl, TtlProgress};
use crate::download::{is_download_plan, plan_download, DownloadPlan, DownloadRequest};
use crate::duration::{Duration, NANOS_PER_SEC};
use crate::error::Error;
use crate::execute::{is_wire_request, wire_execute_request, ExecuteRequest, ExecuteStream};
use crate::find_missing::{FindMissingCache, Remembered};
use crate::headers::{
    can_inject, fails_to_inject, is_injected, HttpHeader, InjectHeadersInterceptor, VarError,
};
use crate::messages::GExecuteRequest;
use crate::names::{instance_text, Compressor, InstanceName};
use crate::reattach::{no_reattaches, ReattachState, Recovery, StreamOrigin};
use crate::upload::{
    is_plan, one_blob_plans, plan_upload, requested, BatchUploadRequest, InlinedBlobWithDigest,
    UploadPlan, UploadRequest, UploadSource,
};

verus! {

/// The largest batch where neither the service nor the configuration sets one.
pub const DEFAULT_MAX_TOTAL_BATCH_SIZE: usize = 4_000_000;

/// The reattach budget where none is configured, in seconds.
pub const EXECUTE_REATTACH_BUDGET_SECS_DEFAULT: u64 = 60;

/// How many reattach dials run at a time where nothing is configured.
pub const EXECUTE_REATTACH_CONCURRENCY_DEFAULT: usize = 8;

/// How many reattach dials run at a time at least.
pub const EXECUTE_REATTACH_CONCURRENCY_MIN: usize = 1;

/// How long digests are taken to live after being touched, in seconds, where
/// nothing is configured.
pub const CAS_TTL_SECS_DEFAULT: i64 = 10_800;

/// How many digests are asked about at a time where nothing is configured.
pub const FIND_MISSING_BLOBS_BATCH_SIZE_DEFAULT: usize = 100;

/// How many connections there are at most where nothing is configured.
pub const MAX_CONNECTIONS_DEFAULT: usize = 100;

/// How many calls share a connection where nothing is configured.
pub const MAX_CONCURRENCY_PER_CONNECTION_DEFAULT: usize = 100;

/// The configuration of the client.
#[derive(Debug)]
pub struct Buck2OssReConfiguration {
    pub cas_address: Option<String>,
    pub engine_address: Option<String>,
    pub action_cache_address: Option<String>,
    pub http_headers: Vec<HttpHeader>,
    pub instance_name: Option<String>,
    pub capabilities: Option<bool>,
    pub use_fbcode_metadata: bool,
    pub max_decoding_message_size: Option<usize>,
    pub max_total_batch_size: Option<usize>,
    pub max_concurrent_uploads_per_action: Option<usize>,
    pub cas_ttl_secs: Option<i64>,
    pub find_missing_blobs_batch_size: Option<usize>,
    pub min_connections: Option<usize>,
    pub max_connections: Option<usize>,
    pub max_concurrency_per_connection: Option<usize>,
    pub execute_reattach_enabled: Option<bool>,
    pub execute_reattach_budget_secs: Option<u64>,
    pub execute_reattach_concurrency: Option<usize>,
}

impl Default for Buck2OssReConfiguration {
    fn default() -> (opts: Self)
        ensures
            opts.cas_address is None,
            opts.engine_address is None,
            opts.action_cache_address is None,
            opts.http_headers@.len() == 0,
            opts.instance_name is None,
            opts.capabilities is None,
            !opts.use_fbcode_metadata,
            opts.max_decoding_message_size is None,
            opts.max_total_batch_size is None,
            opts.max_concurrent_uploads_per_action is None,
            opts.cas_ttl_secs is None,
            opts.find_missing_blobs_batch_size is None,
            opts.min_connections is None,
            opts.max_connections is None,
            opts.max_concurrency_per_connection is None,
            opts.execute_reattach_enabled is None,
            opts.execute_reattach_budget_secs is None,
            opts.execute_reattach_concurrency is None,
    {
        Buck2OssReConfiguration {
            cas_address: None,
            engine_address: None,
            action_cache_address: None,
            http_headers: Vec::new(),
            instance_name: None,
            capabilities: None,
            use_fbcode_metadata: false,
            max_decoding_message_size: None,
            max_total_batch_size: None,
            max_concurrent_uploads_per_action: None,
            cas_ttl_secs: None,
            find_missing_blobs_batch_size: None,
            min_connections: None,
            max_connections: None,
            max_concurrency_per_connection: None,
            execute_reattach_enabled: None,
            execute_reattach_budget_secs: None,
            execute_reattach_concurrency: None,
        }
    }
}

/// A number of seconds that may be configured: the default where it is not, and
/// none at all where it is zero.
pub open spec fn optional_secs(configured: Option<u64>, default: u64) -> Option<u64> {
    match configured {
        None => if default == 0 {
            None
        } else {
            Some(default)
        },
        Some(secs) => if secs == 0 {
            None
        } else {
            Some(secs)
        },
    }
}

/// A number of seconds that may be configured: the default where it is not, and
/// none at all where it is zero.
pub fn resolve_optional_secs(configured: Option<u64>, default: u64) -> (span: Option<Duration>)
    ensures
        match optional_secs(configured, default) {
            None => span is None,
            Some(secs) => span is Some && span->0@ == secs * NANOS_PER_SEC,
        },
{
    let secs: u64 = match configured {
        Some(secs) => secs,
        None => default,
    };
    if secs == 0 {
        None
    } else {
        Some(Duration::from_secs(secs))
    }
}

/// The budget for reattaching, in seconds: none unless reattach is switched on.
pub open spec fn reattach_budget_secs(opts: Buck2OssReConfiguration) -> Option<u64> {
    if opts.execute_reattach_enabled == Some(true) {
        optional_secs(opts.execute_reattach_budget_secs, EXECUTE_REATTACH_BUDGET_SECS_DEFAULT)
    } else {
        None
    }
}

/// Resolves the wall-clock budget for reattaching a severed execute stream. Reattach
/// is off unless it is switched on; a budget of zero switches it off too.
pub fn execute_reattach_budget(opts: &Buck2OssReConfiguration) -> (budget: Option<Duration>)
    ensures
        match reattach_budget_secs(*opts) {
            None => budget is None,
            Some(secs) => budget is Some && budget->0@ == secs * NANOS_PER_SEC,
        },
{
    match opts.execute_reattach_enabled {
        Some(true) => resolve_optional_secs(
            opts.execute_reattach_budget_secs,
            EXECUTE_REATTACH_BUDGET_SECS_DEFAULT,
        ),
        _ => None,
    }
}

/// How many reattach dials may run at a time.
pub open spec fn reattach_concurrency(opts: Buck2OssReConfiguration) -> usize {
    match opts.execute_reattach_concurrency {
        Some(n) => if n == 0 {
            EXECUTE_REATTACH_CONCURRENCY_MIN
        } else {
            n
        },
        None => EXECUTE_REATTACH_CONCURRENCY_DEFAULT,
    }
}

/// Resolves how many reattach dials may run at a time. A configured zero would block
/// every reattach forever, so it counts as the minimum.
pub fn execute_reattach_concurrency(opts: &Buck2OssReConfiguration) -> (concurrency: usize)
    ensures
        concurrency == reattach_concurrency(*opts),
        concurrency > 0,
{
    match opts.execute_reattach_concurrency {
        Some(n) => if n == 0 {
            EXECUTE_REATTACH_CONCURRENCY_MIN
        } else {
            n
        },
        None => EXECUTE_REATTACH_CONCURRENCY_DEFAULT,
    }
}

/// What the service can do, as the client uses it.
#[derive(Debug)]
pub struct RECapabilities {
    /// The largest message before a blob is streamed.
    pub max_total_batch_size: usize,
    /// The compressors that the service knows for streamed blobs.
    pub supported_compressors: Vec<Compressor>,
}

/// What the service says of its store.
#[derive(Debug)]
pub struct CacheCapabilities {
    pub supported_compressors: Vec<i32>,
    /// Zero stands for no limit.
    pub max_batch_total_size_bytes: i64,
}

/// Options of the client that are read while it runs.
#[derive(Debug)]
pub struct RERuntimeOpts {
    /// Use the internal form of the request metadata.
    pub use_fbcode_metadata: bool,
    /// How many uploads of an action run at a time.
    pub max_concurrent_uploads_per_action: Option<usize>,
    /// How long digests are taken to live after being touched.
    pub cas_ttl_secs: i64,
    /// How many digests are asked about at a time.
    pub find_missing_blobs_batch_size: usize,
    /// The budget for recovering a severed execute stream. `None` disables reattach.
    pub execute_reattach_budget: Option<Duration>,
}

/// The size of the connection pool.
#[derive(Clone, Copy, Debug, PartialEq, Eq, Structural)]
pub struct PoolConfig {
    pub min_connections: usize,
    pub max_connections: usize,
    pub max_concurrency_per_connection: usize,
}

/// The compressors among the numbers that the service gave, in order.
pub open spec fn known_compressors(numbers: Seq<i32>) -> Seq<Compressor>
    decreases numbers.len(),
{
    if numbers.len() == 0 {
        Seq::empty()
    } else {
        let before = known_compressors(numbers.drop_last());
        match Compressor::numbered(numbers.last()) {
            Some(compressor) => before.push(compressor),
            None => before,
        }
    }
}

/// The largest batch: the smaller of what the service and the configuration allow.
/// A service that says zero sets no limit.
pub open spec fn batch_limit(capabilities: Option<CacheCapabilities>, config: Option<usize>) -> usize {
    let remote = match capabilities {
        Some(cache) => if cache.max_batch_total_size_bytes as usize == 0 {
            None
        } else {
            Some(cache.max_batch_total_size_bytes as usize)
        },
        None => None,
    };
    match (remote, config) {
        (Some(cap), Some(config)) => if cap <= config {
            cap
        } else {
            config
        },
        (Some(cap), None) => cap,
        (None, Some(config)) => config,
        (None, None) => DEFAULT_MAX_TOTAL_BATCH_SIZE,
    }
}

/// The compressor for streamed blobs: zstd, brotli or deflate, in this order of
/// preference, if the service knows one of them.
pub open spec fn preferred_compressor(supported: Seq<Compressor>) -> Option<Compressor> {
    if supported.contains(Compressor::Zstd) {
        Some(Compressor::Zstd)
    } else if supported.contains(Compressor::Brotli) {
        Some(Compressor::Brotli)
    } else if supported.contains(Compressor::Deflate) {
        Some(Compressor::Deflate)
    } else {
        None
    }
}

fn supports(supported: &Vec<Compressor>, compressor: Compressor) -> (yes: bool)
    ensures
        yes == supported@.contains(compressor),
{
    let mut i: usize = 0;
    while i < supported.len()
        invariant
            i <= supported@.len(),
            forall|j: int| 0 <= j < i ==> supported@[j] != compressor,
        decreases supported@.len() - i,
    {
        if supported[i] == compressor {
            return true;
        }
        i = i + 1;
    }
    false
}

/// The compressor for streamed blobs, if the service knows one.
pub fn choose_compressor(supported: &Vec<Compressor>) -> (compressor: Option<Compressor>)
    ensures
        compressor == preferred_compressor(supported@),
{
    if supports(supported, Compressor::Zstd) {
        Some(Compressor::Zstd)
    } else if supports(supported, Compressor::Brotli) {
        Some(Compressor::Brotli)
    } else if supports(supported, Compressor::Deflate) {
        Some(Compressor::Deflate)
    } else {
        None
    }
}

/// Builds clients.
#[derive(Debug)]
pub struct REClientBuilder;

/// What the configuration says before the service is reached.
#[derive(Debug)]
pub struct ConnectPlan {
    pub engine_address: String,
    pub interceptor: InjectHeadersInterceptor,
    pub instance_name: InstanceName,
    /// Whether the service is asked what it can do.
    pub query_capabilities: bool,
}

/// What a value that may be configured comes to.
pub open spec fn configured<T>(value: Option<T>, default: T) -> T {
    match value {
        Some(value) => value,
        None => default,
    }
}

/// The size of the connection pool that the configuration asks for: at least one
/// connection, and at most no fewer than at least.
pub open spec fn pool_config(opts: Buck2OssReConfiguration) -> PoolConfig {
    let min = configured(opts.min_connections, 1usize);
    let at_least = if min < 1 {
        1
    } else {
        min
    };
    let max = configured(opts.max_connections, MAX_CONNECTIONS_DEFAULT);
    PoolConfig {
        min_connections: at_least,
        max_connections: if max < at_least {
            at_least
        } else {
            max
        },
        max_concurrency_per_connection: configured(
            opts.max_concurrency_per_connection,
            MAX_CONCURRENCY_PER_CONNECTION_DEFAULT,
        ),
    }
}

/// The pool that a configuration asks for is never empty, and its bounds are in
/// order.
pub proof fn pools_are_never_empty(opts: Buck2OssReConfiguration)
    ensures
        1 <= pool_config(opts).min_connections <= pool_config(opts).max_connections,
{
}

/// The largest message that is decoded.
pub open spec fn decoding_limit(opts: Buck2OssReConfiguration, max_total_batch_size: usize) -> int {
    match opts.max_decoding_message_size {
        Some(size) => size as int,
        None => max_total_batch_size * 2,
    }
}

/// Why a client cannot be built, if it cannot.
pub open spec fn build_error(
    opts: Buck2OssReConfiguration,
    max_total_batch_size: usize,
) -> Option<Seq<char>> {
    if decoding_limit(opts, max_total_batch_size) < max_total_batch_size {
        Some(
            "Attribute `max_decoding_message_size` must always be equal or higher to `max_total_batch_size`"@,
        )
    } else if opts.cas_address is None {
        Some("No CAS address"@)
    } else if opts.action_cache_address is None {
        Some("No action cache address"@)
    } else {
        None
    }
}

impl REClientBuilder {
    /// Reads the configuration as far as it is needed to reach the service: the
    /// address to ask, the headers to send and whether to ask at all.
    pub fn prepare<F: Fn(&str) -> Result<String, VarError>>(
        opts: &Buck2OssReConfiguration,
        getter: &F,
    ) -> (plan: Result<ConnectPlan, Error>)
        requires
            forall|key: &str| #[trigger] call_requires(*getter, (key,)),
        ensures
            opts.engine_address is None ==> plan is Err && plan->Err_0.says("No engine address"@),
            plan matches Ok(plan) ==> {
                &&& opts.engine_address == Some(plan.engine_address)
                &&& plan.instance_name.0 == opts.instance_name
                &&& plan.query_capabilities == configured(opts.capabilities, true)
                &&& plan.interceptor.headers@.len() == opts.http_headers@.len()
                &&& forall|i: int|
                    0 <= i < opts.http_headers@.len() ==> is_injected(
                        *getter,
                        opts.http_headers@[i],
                        #[trigger] plan.interceptor.headers@[i],
                    )
            },
            plan is Err && opts.engine_address is Some ==> exists|i: int, inner: Error|
                {
                    &&& 0 <= i < opts.http_headers@.len()
                    &&& forall|j: int|
                        0 <= j < i ==> can_inject(*getter, #[trigger] opts.http_headers@[j])
                    &&& #[trigger] fails_to_inject(*getter, opts.http_headers@[i], inner)
                    &&& plan->Err_0.wraps(inner, "Error converting headers"@)
                },
    {
        let engine_address = match &opts.engine_address {
            Some(address) => address.clone(),
            None => {
                return Err(Error::msg("No engine address".to_owned()));
            },
        };
        let interceptor = match InjectHeadersInterceptor::new(&opts.http_headers, getter) {
            Ok(interceptor) => interceptor,
            Err(error) => {
                return Err(error);
            },
        };
        let instance_name = InstanceName(
            match &opts.instance_name {
                Some(name) => Some(name.clone()),
                None => None,
            },
        );
        Ok(
            ConnectPlan {
                engine_address,
                interceptor,
                instance_name,
                query_capabilities: opts.capabilities.unwrap_or(true),
            },
        )
    }

    /// What the service can do, from what it said of its store and the configured
    /// limit.
    pub fn fetch_rbe_capabilities(
        cache_capabilities: Option<CacheCapabilities>,
        max_total_batch_size: Option<usize>,
    ) -> (capabilities: RECapabilities)
        ensures
            capabilities.max_total_batch_size == batch_limit(
                cache_capabilities,
                max_total_batch_size,
            ),
            capabilities.supported_compressors@ == match cache_capabilities {
                Some(cache) => known_compressors(cache.supported_compressors@),
                None => Seq::empty(),
            },
    {
        let mut supported_compressors: Vec<Compressor> = Vec::new();
        let mut remote: Option<usize> = None;
        if let Some(cache) = &cache_capabilities {
            let numbers = &cache.supported_compressors;
            let mut i: usize = 0;
            assert(numbers@.take(0) =~= Seq::empty());
            while i < numbers.len()
                invariant
                    i <= numbers@.len(),
                    supported_compressors@ == known_compressors(numbers@.take(i as int)),
                decreases numbers@.len() - i,
            {
                assert(numbers@.take(i + 1).drop_last() =~= numbers@.take(i as int));
                if let Some(compressor) = Compressor::from_grpc(numbers[i]) {
                    supported_compressors.push(compressor);
                }
                i = i + 1;
            }
            assert(numbers@.take(i as int) =~= numbers@);
            let size: usize = cache.max_batch_total_size_bytes as usize;
            if size != 0 {
                remote = Some(size);
            }
        }
        let max_total_batch_size: usize = match (remote, max_total_batch_size) {
            (Some(cap), Some(config)) => if cap <= config {
                cap
            } else {
                config
            },
            (Some(cap), None) => cap,
            (None, Some(config)) => config,
            (None, None) => DEFAULT_MAX_TOTAL_BATCH_SIZE,
        };
        RECapabilities { max_total_batch_size, supported_compressors }
    }

    /// What a service can do that is not asked.
    pub fn default_capabilities() -> (capabilities: RECapabilities)
        ensures
            capabilities.max_total_batch_size == DEFAULT_MAX_TOTAL_BATCH_SIZE,
            capabilities.supported_compressors@.len() == 0,
    {
        RECapabilities {
            max_total_batch_size: DEFAULT_MAX_TOTAL_BATCH_SIZE,
            supported_compressors: Vec::new(),
        }
    }

    /// Builds a client, once it is known what the service can do. Fails where a
    /// batch would be larger than what is decoded, and where an address is missing.
    pub fn build_and_connect(
        opts: &Buck2OssReConfiguration,
        plan: ConnectPlan,
        capabilities: RECapabilities,
        now: Duration,
    ) -> (client: Result<REClient, Error>)
        requires
            decoding_limit(*opts, capabilities.max_total_batch_size) <= usize::MAX,
        ensures
            match build_error(*opts, capabilities.max_total_batch_size) {
                Some(text) => client is Err && client->Err_0.says(text),
                None => client is Ok && client->Ok_0.is_built(*opts, plan, capabilities, now),
            },
    {
        let max_decoding_msg_size: usize = match opts.max_decoding_message_size {
            Some(size) => size,
            None => capabilities.max_total_batch_size * 2,
        };
        if max_decoding_msg_size < capabilities.max_total_batch_size {
            return Err(
                Error::msg(
                    "Attribute `max_decoding_message_size` must always be equal or higher to `max_total_batch_size`".to_owned(),
                ),
            );
        }
        let bystream_compressor = choose_compressor(&capabilities.supported_compressors);
        let cas_address = match &opts.cas_address {
            Some(address) => address.clone(),
            None => {
                return Err(Error::msg("No CAS address".to_owned()));
            },
        };
        let action_cache_address = match &opts.action_cache_address {
            Some(address) => address.clone(),
            None => {
                return Err(Error::msg("No action cache address".to_owned()));
            },
        };
        let configured_min: usize = opts.min_connections.unwrap_or(1);
        let min_connections: usize = if configured_min < 1 {
            1
        } else {
            configured_min
        };
        let configured_max: usize = opts.max_connections.unwrap_or(MAX_CONNECTIONS_DEFAULT);
        let max_connections: usize = if configured_max < min_connections {
            min_connections
        } else {
            configured_max
        };
        let pool = PoolConfig {
            min_connections,
            max_connections,
            max_concurrency_per_connection: opts.max_concurrency_per_connection.unwrap_or(
                MAX_CONCURRENCY_PER_CONNECTION_DEFAULT,
            ),
        };
        Ok(
            REClient {
                runtime_opts: RERuntimeOpts {
                    use_fbcode_metadata: opts.use_fbcode_metadata,
                    max_concurrent_uploads_per_action: opts.max_concurrent_uploads_per_action,
                    cas_ttl_secs: opts.cas_ttl_secs.unwrap_or(CAS_TTL_SECS_DEFAULT),
                    find_missing_blobs_batch_size: opts.find_missing_blobs_batch_size.unwrap_or(
                        FIND_MISSING_BLOBS_BATCH_SIZE_DEFAULT,
                    ),
                    execute_reattach_budget: execute_reattach_budget(opts),
                },
                pool,
                capabilities,
                instance_name: plan.instance_name,
                find_missing_cache: FindMissingCache::new(now),
                bystream_compressor,
                max_decoding_msg_size,
                interceptor: plan.interceptor,
                cas_address,
                engine_address: plan.engine_address,
                action_cache_address,
                execute_reattach_concurrency: execute_reattach_concurrency(opts),
                execute_reattach_wait_execution_unimplemented: false,
            },
        )
    }
}

/// The client of a remote execution service, without its connections.
pub struct REClient {
    pub runtime_opts: RERuntimeOpts,
    pub pool: PoolConfig,
    pub capabilities: RECapabilities,
    pub instance_name: InstanceName,
    /// Builds ask about the same blobs again and again.
    pub find_missing_cache: FindMissingCache,
    pub bystream_compressor: Option<Compressor>,
    pub max_decoding_msg_size: usize,
    pub interceptor: InjectHeadersInterceptor,
    pub cas_address: String,
    pub engine_address: String,
    pub action_cache_address: String,
    /// How many reattach dials run at a time, over all actions of the client, so
    /// that a frontend that is still restarting does not take them all at once.
    pub execute_reattach_concurrency: usize,
    /// Set once `WaitExecution` was answered with `UNIMPLEMENTED`.
    pub execute_reattach_wait_execution_unimplemented: bool,
}

impl REClient {
    /// The client is the one that the configuration, the plan and the capabilities
    /// describe.
    pub open spec fn is_built(
        self,
        opts: Buck2OssReConfiguration,
        plan: ConnectPlan,
        capabilities: RECapabilities,
        now: Duration,
    ) -> bool {
        &&& self.runtime_opts.use_fbcode_metadata == opts.use_fbcode_metadata
        &&& self.runtime_opts.max_concurrent_uploads_per_action
            == opts.max_concurrent_uploads_per_action
        &&& self.runtime_opts.cas_ttl_secs == configured(opts.cas_ttl_secs, CAS_TTL_SECS_DEFAULT)
        &&& self.runtime_opts.find_missing_blobs_batch_size == configured(
            opts.find_missing_blobs_batch_size,
            FIND_MISSING_BLOBS_BATCH_SIZE_DEFAULT,
        )
        &&& match reattach_budget_secs(opts) {
            None => self.runtime_opts.execute_reattach_budget is None,
            Some(secs) => {
                &&& self.runtime_opts.execute_reattach_budget matches Some(budget)
                &&& budget@ == secs * NANOS_PER_SEC
            },
        }
        &&& self.pool == pool_config(opts)
        &&& self.capabilities == capabilities
        &&& self.instance_name == plan.instance_name
        &&& self.find_missing_cache.wf()
        &&& self.find_missing_cache@ == (Remembered { entries: Seq::empty(), last_check: now })
        &&& self.bystream_compressor == preferred_compressor(capabilities.supported_compressors@)
        &&& self.max_decoding_msg_size == decoding_limit(opts, capabilities.max_total_batch_size)
        &&& self.interceptor == plan.interceptor
        &&& opts.cas_address == Some(self.cas_address)
        &&& self.engine_address == plan.engine_address
        &&& opts.action_cache_address == Some(self.action_cache_address)
        &&& self.execute_reattach_concurrency == reattach_concurrency(opts)
        &&& !self.execute_reattach_wait_execution_unimplemented
    }
}

/// Asks for the result of an action.
#[derive(Debug)]
pub struct ActionResultRequest {
    pub digest: TDigest,
}

/// The result of an action.
#[derive(Debug)]
pub struct ActionResultResponse {
    pub action_result: TActionResult2,
    pub ttl: i64,
}

/// Stores the result of an action.
#[derive(Debug)]
pub struct WriteActionResultRequest {
    pub action_digest: TDigest,
    pub action_result: TActionResult2,
}

/// The result of an action as it was stored.
#[derive(Debug)]
pub struct WriteActionResultResponse {
    pub actual_action_result: TActionResult2,
    pub ttl_seconds: i64,
}

/// Asks the action cache for a result, on the wire.
#[derive(Debug)]
pub struct GetActionResultRequest {
    pub instance_name: String,
    pub action_digest: Option<Digest>,
}

/// Stores a result in the action cache, on the wire.
#[derive(Debug)]
pub struct UpdateActionResultRequest {
    pub instance_name: String,
    pub action_digest: Option<Digest>,
    pub action_result: Option<ActionResult>,
}

/// Asks how long digests will live.
#[derive(Debug)]
pub struct GetDigestsTtlRequest {
    pub digests: Vec<TDigest>,
}

/// Asks to let digests live longer.
#[derive(Debug)]
pub struct ExtendDigestsTtlRequest {
    pub digests: Vec<TDigest>,
    pub ttl: i64,
}

impl REClient {
    /// What the action cache is asked for the result of an action.
    pub fn get_action_result(&self, request: &ActionResultRequest) -> (wire: GetActionResultRequest)
        ensures
            wire.instance_name@ == instance_text(self.instance_name@),
            wire.action_digest is Some,
            wire.action_digest->0@ == request.digest@,
    {
        GetActionResultRequest {
            instance_name: self.instance_name.as_str().to_owned(),
            action_digest: Some(tdigest_to(request.digest.clone())),
        }
    }

    /// What the action cache's answer comes to.
    pub fn action_result_response(result: ActionResult) -> (response: Result<
        ActionResultResponse,
        Error,
    >)
        ensures
            match missing_from_result(result) {
                Some(text) => response is Err && response->Err_0.says(text),
                None => {
                    &&& response is Ok
                    &&& is_caller_result(result, response->Ok_0.action_result)
                    &&& response->Ok_0.ttl == 0
                },
            },
    {
        match convert_action_result(result) {
            Ok(action_result) => Ok(ActionResultResponse { action_result, ttl: 0 }),
            Err(error) => Err(error),
        }
    }

    /// What the action cache is sent to store a result.
    pub fn write_action_result(&self, request: WriteActionResultRequest) -> (wire: Result<
        UpdateActionResultRequest,
        Error,
    >)
        ensures
            fits_wire_duration(executed_for(request.action_result.execution_metadata)) ==> {
                &&& wire matches Ok(update)
                &&& update.instance_name@ == instance_text(self.instance_name@)
                &&& update.action_digest matches Some(digest)
                &&& digest@ == request.action_digest@
                &&& update.action_result matches Some(result)
                &&& is_wire_result(request.action_result, result)
            },
            !fits_wire_duration(executed_for(request.action_result.execution_metadata)) ==> {
                &&& wire is Err
                &&& wire->Err_0.says("failed to convert duration out of range"@)
            },
    {
        match convert_t_action_result2(request.action_result) {
            Ok(action_result) => Ok(
                UpdateActionResultRequest {
                    instance_name: self.instance_name.as_str().to_owned(),
                    action_digest: Some(tdigest_to(request.action_digest)),
                    action_result: Some(action_result),
                },
            ),
            Err(error) => Err(error),
        }
    }

    /// What the action cache's answer to a stored result comes to.
    pub fn write_action_result_response(result: ActionResult) -> (response: Result<
        WriteActionResultResponse,
        Error,
    >)
        ensures
            match missing_from_result(result) {
                Some(text) => response is Err && response->Err_0.says(text),
                None => {
                    &&& response is Ok
                    &&& is_caller_result(result, response->Ok_0.actual_action_result)
                    &&& response->Ok_0.ttl_seconds == 0
                },
            },
    {
        match convert_action_result(result) {
            Ok(actual_action_result) => Ok(
                WriteActionResultResponse { actual_action_result, ttl_seconds: 0 },
            ),
            Err(error) => Err(error),
        }
    }

    /// What the service is sent to run an action, and the state in which its stream
    /// is read from `now` on.
    pub fn execute_with_progress(&self, execute_request: ExecuteRequest, now: Duration) -> (opened: (
        GExecuteRequest,
        ExecuteStream,
    ))
        ensures
            is_wire_request(self.instance_name@, execute_request, opened.0),
            opened.1.action_digest == execute_request.action_digest,
            opened.1.state == (ReattachState {
                request: opened.0,
                origin: StreamOrigin::Execute,
                op_name: None,
                seen_done: false,
                last_progress: now,
                attempt: 0,
                budget: self.runtime_opts.execute_reattach_budget,
                stats: no_reattaches(),
                first_break: None,
                recovery: Recovery::Idle,
            }),
            opened.1.state.has_room(),
    {
        let request = wire_execute_request(&self.instance_name, &execute_request);
        let stream = ExecuteStream::new(
            request.clone(),
            execute_request.action_digest,
            self.runtime_opts.execute_reattach_budget,
            now,
        );
        (request, stream)
    }

    /// How blobs are uploaded.
    pub fn upload(&self, request: UploadRequest) -> (plan: UploadPlan)
        ensures
            is_plan(
                self.instance_name@,
                self.bystream_compressor,
                self.capabilities.max_total_batch_size as i64,
                requested(request),
                plan,
            ),
    {
        plan_upload(
            &self.instance_name,
            request,
            self.bystream_compressor,
            self.capabilities.max_total_batch_size,
        )
    }

    /// How one blob is uploaded, and the digest that it is known by.
    pub fn upload_blob_with_digest(&self, blob: Vec<u8>, digest: TDigest) -> (upload: (
        UploadPlan,
        TDigest,
    ))
        ensures
            upload.1 == digest,
            is_plan(
                self.instance_name@,
                self.bystream_compressor,
                self.capabilities.max_total_batch_size as i64,
                seq![BatchUploadRequest::Blob((InlinedBlobWithDigest { digest, blob }))],
                upload.0,
            ),
    {
        let mut blobs: Vec<InlinedBlobWithDigest> = Vec::new();
        blobs.push(InlinedBlobWithDigest { digest: digest.clone(), blob });
        assert(blobs@ =~= seq![InlinedBlobWithDigest { digest, blob }]);
        let request = UploadRequest {
            inlined_blobs_with_digest: Some(blobs),
            files_with_digest: None,
            upload_only_missing: false,
        };
        assert(requested(request) =~= seq![
            BatchUploadRequest::Blob(InlinedBlobWithDigest { digest, blob }),
        ]);
        (self.upload(request), digest)
    }

    /// How blobs are downloaded.
    pub fn download(&self, request: DownloadRequest) -> (plan: DownloadPlan)
        ensures
            is_download_plan(
                self.instance_name@,
                self.bystream_compressor,
                self.capabilities.max_total_batch_size,
                request,
                plan,
            ),
    {
        plan_download(
            &self.instance_name,
            request,
            self.bystream_compressor,
            self.capabilities.max_total_batch_size,
        )
    }

    /// How it is found out how long digests will live.
    pub fn get_digests_ttl(&self, request: GetDigestsTtlRequest) -> (lookup: DigestsTtl)
        ensures
            lookup.wf(),
            lookup@ == TtlProgress::fresh(
                values(request.digests@),
                if self.runtime_opts.find_missing_blobs_batch_size == 0 {
                    1
                } else {
                    self.runtime_opts.find_missing_blobs_batch_size as nat
                },
            ),
    {
        DigestsTtl::new(request.digests, self.runtime_opts.find_missing_blobs_batch_size)
    }

    /// Letting digests live longer is not offered.
    pub fn extend_digest_ttl(&self, _request: ExtendDigestsTtlRequest) -> (extended: Result<
        TDigest,
        Error,
    >)
        ensures
            extended is Err,
            extended->Err_0.says("Not implemented (RE extend_digest_ttl)"@),
    {
        Err(Error::msg("Not implemented (RE extend_digest_ttl)".to_owned()))
    }

    /// The client that runs actions: this one.
    pub fn get_execution_client(&self) -> (client: &Self)
        ensures
            client == self,
    {
        self
    }

    /// The client of the blob store: this one.
    pub fn get_cas_client(&self) -> (client: &Self)
        ensures
            client == self,
    {
        self
    }

    /// The client of the action cache: this one.
    pub fn get_action_cache_client(&self) -> (client: &Self)
        ensures
            client == self,
    {
        self
    }

    /// The client for metrics: this one.
    pub fn get_metrics_client(&self) -> (client: &Self)
        ensures
            client == self,
    {
        self
    }

    /// The name of the session.
    pub fn get_session_id(&self) -> (id: &str)
        ensures
            id@ == "GRPC-SESSION-ID"@,
    {
        "GRPC-SESSION-ID"
    }

    /// The name of the experiment: there is none.
    pub fn get_experiment_name(&self) -> (name: Result<Option<String>, Error>)
        ensures
            name == Ok::<Option<String>, Error>(None),
    {
        Ok(None)
    }
}

/// Reattach has a budget exactly where it is switched on and its budget is not zero:
/// the configured number of seconds, or a minute.
pub proof fn reattach_is_off_unless_switched_on(
    opts: Buck2OssReConfiguration,
    budget: Option<Duration>,
)
    requires
        call_ensures(execute_reattach_budget, (&opts,), budget),
    ensures
        budget is Some <==> opts.execute_reattach_enabled == Some(true)
            && opts.execute_reattach_budget_secs != Some(0u64),
        budget is Some && opts.execute_reattach_budget_secs is None ==> budget->0@
            == 60_000_000_000,
        budget is Some && opts.execute_reattach_budget_secs is Some ==> budget->0@
            == opts.execute_reattach_budget_secs->0 * 1_000_000_000,
{
}

/// A number of seconds is the configured one, or the default; zero stands for none.
pub proof fn zero_seconds_stand_for_none(
    configured: Option<u64>,
    default: u64,
    span: Option<Duration>,
)
    requires
        call_ensures(resolve_optional_secs, (configured, default), span),
    ensures
        configured matches Some(secs) ==> (span is None <==> secs == 0) && (span is Some
            ==> span->0@ == secs * 1_000_000_000),
        configured is None ==> (span is None <==> default == 0) && (span is Some ==> span->0@
            == default * 1_000_000_000),
{
}

/// Reattach dials are let through one at a time at least, eight where nothing is
/// configured, and otherwise as many as configured.
pub proof fn reattach_dials_are_let_through(opts: Buck2OssReConfiguration, concurrency: usize)
    requires
        call_ensures(execute_reattach_concurrency, (&opts,), concurrency),
    ensures
        concurrency >= 1,
        opts.execute_reattach_concurrency is None ==> concurrency == 8,
        opts.execute_reattach_concurrency == Some(0usize) ==> concurrency == 1,
        opts.execute_reattach_concurrency matches Some(n) ==> n > 0 ==> concurrency == n,
{
}

/// A batch never exceeds what the service or the configuration allows, and reaches the
/// smaller of the two; where neither sets a limit it is four million bytes.
pub proof fn batches_respect_both_limits(
    cache: Option<CacheCapabilities>,
    config: Option<usize>,
    capabilities: RECapabilities,
)
    requires
        call_ensures(REClientBuilder::fetch_rbe_capabilities, (cache, config), capabilities),
        cache matches Some(said) ==> 0 <= said.max_batch_total_size_bytes <= usize::MAX,
    ensures
        ({
            let limit = capabilities.max_total_batch_size;
            let said = cache->0.max_batch_total_size_bytes;
            let limited = cache is Some && said != 0;
            &&& limited ==> limit <= said
            &&& config matches Some(most) ==> limit <= most
            &&& limited && config is None ==> limit == said
            &&& !limited && config is Some ==> limit == config->0
            &&& limited && config is Some ==> limit == said || limit == config->0
            &&& !limited && config is None ==> limit == 4_000_000
        }),
{
}

proof fn known_numbers_are_kept(numbers: Seq<i32>)
    ensures
        known_compressors(numbers) == numbers.filter(|number: i32| 1 <= number <= 3).map_values(
            |number: i32|
                if number == 1 {
                    Compressor::Zstd
                } else if number == 2 {
                    Compressor::Deflate
                } else {
                    Compressor::Brotli
                },
        ),
    decreases numbers.len(),
{
    reveal(Seq::filter);
    let known = |number: i32| 1 <= number <= 3;
    let named = |number: i32|
        if number == 1 {
            Compressor::Zstd
        } else if number == 2 {
            Compressor::Deflate
        } else {
            Compressor::Brotli
        };
    if numbers.len() > 0 {
        let before = numbers.drop_last();
        known_numbers_are_kept(before);
        if known(numbers.last()) {
            assert(numbers.filter(known).map_values(named) =~= before.filter(known).map_values(
                named,
            ).push(named(numbers.last())));
        }
    } else {
        assert(numbers.filter(known).map_values(named) =~= Seq::empty());
    }
}

/// The service's compressors are those of its numbers that stand for one, in order;
/// without a word from the service there are none.
pub proof fn compressors_are_read_from_their_numbers(
    cache: Option<CacheCapabilities>,
    config: Option<usize>,
    capabilities: RECapabilities,
)
    requires
        call_ensures(REClientBuilder::fetch_rbe_capabilities, (cache, config), capabilities),
    ensures
        cache matches Some(said) ==> capabilities.supported_compressors@
            == said.supported_compressors@.filter(|number: i32| 1 <= number <= 3).map_values(
            |number: i32|
                if number == 1 {
                    Compressor::Zstd
                } else if number == 2 {
                    Compressor::Deflate
                } else {
                    Compressor::Brotli
                },
        ),
        cache is None ==> capabilities.supported_compressors@.len() == 0,
{
    if let Some(said) = cache {
        known_numbers_are_kept(said.supported_compressors@);
    }
}

/// A service that is not asked takes batches of four million bytes and no compression.
pub proof fn unasked_services_get_the_defaults(capabilities: RECapabilities)
    requires
        call_ensures(REClientBuilder::default_capabilities, (), capabilities),
    ensures
        capabilities.max_total_batch_size == 4_000_000,
        capabilities.supported_compressors@.len() == 0,
{
}

/// Streamed blobs are compressed where the service knows a compressor, and then with
/// one that it knows: zstd before brotli, and brotli before deflate.
pub proof fn the_best_known_compressor_is_chosen(
    supported: Vec<Compressor>,
    compressor: Option<Compressor>,
)
    requires
        call_ensures(choose_compressor, (&supported,), compressor),
    ensures
        compressor is None <==> supported@.len() == 0,
        compressor matches Some(chosen) ==> supported@.contains(chosen),
        supported@.contains(Compressor::Zstd) ==> compressor == Some(Compressor::Zstd),
        compressor == Some(Compressor::Deflate) ==> !supported@.contains(Compressor::Brotli)
            && !supported@.contains(Compressor::Zstd),
        compressor == Some(Compressor::Brotli) ==> !supported@.contains(Compressor::Zstd),
{
    if supported@.len() > 0 {
        assert(supported@.contains(supported@[0]));
    }
}

/// A client is built exactly where whole batches can be decoded and both addresses are
/// configured; otherwise the first of these that fails is named.
pub proof fn clients_are_built_from_whole_configurations(
    opts: Buck2OssReConfiguration,
    plan: ConnectPlan,
    capabilities: RECapabilities,
    now: Duration,
    client: Result<REClient, Error>,
)
    requires
        call_ensures(
            REClientBuilder::build_and_connect,
            (&opts, plan, capabilities, now),
            client,
        ),
    ensures
        ({
            let batch = capabilities.max_total_batch_size;
            let decodes = opts.max_decoding_message_size is None
                || opts.max_decoding_message_size->0 >= batch;
            &&& client is Ok <==> decodes && opts.cas_address is Some
                && opts.action_cache_address is Some
            &&& !decodes ==> client->Err_0.says(
                "Attribute `max_decoding_message_size` must always be equal or higher to `max_total_batch_size`"@,
            )
            &&& decodes && opts.cas_address is None ==> client->Err_0.says("No CAS address"@)
            &&& decodes && opts.cas_address is Some && opts.action_cache_address is None
                ==> client->Err_0.says("No action cache address"@)
        }),
{
}

/// A client runs with what was configured, and with the defaults for what was not: it
/// keeps the addresses, the instance and the headers, decodes twice a batch, asks about
/// a hundred digests at a time, takes them to live for three hours, and starts with
/// nothing remembered and reattach not ruled out.
pub proof fn clients_run_as_configured(
    opts: Buck2OssReConfiguration,
    plan: ConnectPlan,
    capabilities: RECapabilities,
    now: Duration,
    built: Result<REClient, Error>,
)
    requires
        call_ensures(
            REClientBuilder::build_and_connect,
            (&opts, plan, capabilities, now),
            built,
        ),
        built is Ok,
    ensures
        ({
            let client = built->Ok_0;
            let run = client.runtime_opts;
            &&& opts.cas_address == Some(client.cas_address)
            &&& opts.action_cache_address == Some(client.action_cache_address)
            &&& client.engine_address == plan.engine_address
            &&& client.instance_name == plan.instance_name
            &&& client.interceptor == plan.interceptor
            &&& client.capabilities == capabilities
            &&& run.use_fbcode_metadata == opts.use_fbcode_metadata
            &&& run.max_concurrent_uploads_per_action == opts.max_concurrent_uploads_per_action
            &&& opts.cas_ttl_secs matches Some(ttl) ==> run.cas_ttl_secs == ttl
            &&& opts.cas_ttl_secs is None ==> run.cas_ttl_secs == 10_800
            &&& opts.find_missing_blobs_batch_size matches Some(n)
                ==> run.find_missing_blobs_batch_size == n
            &&& opts.find_missing_blobs_batch_size is None ==> run.find_missing_blobs_batch_size
                == 100
            &&& opts.max_decoding_message_size matches Some(n) ==> client.max_decoding_msg_size
                == n
            &&& opts.max_decoding_message_size is None ==> client.max_decoding_msg_size
                == capabilities.max_total_batch_size * 2
            &&& client.pool == pool_config(opts)
            &&& client.find_missing_cache.wf()
            &&& client.find_missing_cache@.entries.len() == 0
            &&& client.find_missing_cache@.last_check == now
            &&& !client.execute_reattach_wait_execution_unimplemented
            &&& run.execute_reattach_budget is Some <==> opts.execute_reattach_enabled == Some(
                true,
            ) && opts.execute_reattach_budget_secs != Some(0u64)
            &&& run.execute_reattach_budget is Some ==> run.execute_reattach_budget->0@ == (
            match opts.execute_reattach_budget_secs {
                Some(secs) => secs * 1_000_000_000,
                None => 60_000_000_000int,
            })
            &&& opts.execute_reattach_concurrency is None ==> client.execute_reattach_concurrency
                == 8
            &&& opts.execute_reattach_concurrency matches Some(n) ==> n > 0
                ==> client.execute_reattach_concurrency == n
            &&& client.execute_reattach_concurrency >= 1
            &&& client.bystream_compressor is None <==> capabilities.supported_compressors@.len()
                == 0
            &&& client.bystream_compressor matches Some(chosen)
                ==> capabilities.supported_compressors@.contains(chosen)
        }),
{
    let supported = capabilities.supported_compressors@;
    if supported.len() > 0 {
        assert(supported.contains(supported[0]));
    }
}

/// The pool keeps the configured numbers of connections and of calls on each, a hundred
/// where nothing is configured, but has one connection at least and never a lower upper
/// bound than lower one.
pub proof fn pools_are_sized_as_configured(opts: Buck2OssReConfiguration)
    ensures
        ({
            let pool = pool_config(opts);
            &&& opts.min_connections is None || opts.min_connections->0 == 0
                ==> pool.min_connections == 1
            &&& opts.min_connections matches Some(n) ==> n > 0 ==> pool.min_connections == n
            &&& opts.max_connections is None && pool.min_connections <= 100
                ==> pool.max_connections == 100
            &&& opts.max_connections matches Some(n) ==> n >= pool.min_connections
                ==> pool.max_connections == n
            &&& opts.max_connections matches Some(n) ==> n < pool.min_connections
                ==> pool.max_connections == pool.min_connections
            &&& opts.max_concurrency_per_connection matches Some(n)
                ==> pool.max_concurrency_per_connection == n
            &&& opts.max_concurrency_per_connection is None
                ==> pool.max_concurrency_per_connection == 100
        }),
{
}

/// The action cache is asked in the client's instance, for the action that the caller
/// names.
pub proof fn the_action_cache_is_asked_for_the_action(
    client: REClient,
    request: ActionResultRequest,
    wire: GetActionResultRequest,
)
    requires
        call_ensures(REClient::get_action_result, (&client, &request), wire),
    ensures
        client.instance_name.0 matches Some(name) ==> wire.instance_name@ == name@,
        client.instance_name.0 is None ==> wire.instance_name@.len() == 0,
        wire.action_digest is Some,
        wire.action_digest->0.hash@ == request.digest.hash@,
        wire.action_digest->0.size_bytes == request.digest.size_in_bytes,
{
}

/// The action cache's answer comes to the caller's form of the result, with the captured
/// streams, or to the failure of taking it off the wire.
pub proof fn cached_results_are_taken_over(
    result: ActionResult,
    response: Result<ActionResultResponse, Error>,
    stored: Result<WriteActionResultResponse, Error>,
)
    requires
        call_ensures(REClient::action_result_response, (result,), response),
        call_ensures(REClient::write_action_result_response, (result,), stored),
    ensures
        response is Ok <==> missing_from_result(result) is None,
        stored is Ok <==> response is Ok,
        response matches Ok(answer) ==> {
            &&& answer.ttl == 0
            &&& answer.action_result.exit_code == result.exit_code
            &&& answer.action_result.stdout_raw == Some(result.stdout_raw)
            &&& answer.action_result.stderr_raw == Some(result.stderr_raw)
            &&& is_caller_result(result, answer.action_result)
        },
        stored matches Ok(answer) ==> {
            &&& answer.ttl_seconds == 0
            &&& answer.actual_action_result.exit_code == result.exit_code
            &&& answer.actual_action_result.stdout_raw == Some(result.stdout_raw)
            &&& answer.actual_action_result.stderr_raw == Some(result.stderr_raw)
            &&& is_caller_result(result, answer.actual_action_result)
        },
{
}

/// A result is stored in the client's instance, under the action that the caller names,
/// with the outputs that the caller gives.
pub proof fn results_are_stored_under_their_action(
    client: REClient,
    request: WriteActionResultRequest,
    wire: Result<UpdateActionResultRequest, Error>,
)
    requires
        call_ensures(REClient::write_action_result, (&client, request), wire),
    ensures
        wire matches Ok(update) ==> {
            &&& client.instance_name.0 matches Some(name) ==> update.instance_name@ == name@
            &&& client.instance_name.0 is None ==> update.instance_name@.len() == 0
            &&& update.action_digest is Some
            &&& update.action_digest->0.hash@ == request.action_digest.hash@
            &&& update.action_digest->0.size_bytes == request.action_digest.size_in_bytes
            &&& update.action_result is Some
            &&& update.action_result->0.exit_code == request.action_result.exit_code
            &&& is_wire_result(request.action_result, update.action_result->0)
        },
        wire is Ok <==> fits_wire_duration(executed_for(request.action_result.execution_metadata)),
{
}

/// An execution starts with the caller's action on the wire and in the stream's state,
/// under the client's reattach budget, with nothing known of the operation and nothing
/// counted.
pub proof fn executions_start_afresh(
    client: REClient,
    request: ExecuteRequest,
    now: Duration,
    opened: (GExecuteRequest, ExecuteStream),
)
    requires
        call_ensures(REClient::execute_with_progress, (&client, request, now), opened),
    ensures
        opened.0.action_digest is Some,
        opened.0.action_digest->0.hash@ == request.action_digest.hash@,
        opened.0.action_digest->0.size_bytes == request.action_digest.size_in_bytes,
        opened.0.skip_cache_lookup == request.skip_cache_lookup,
        client.instance_name.0 matches Some(name) ==> opened.0.instance_name@ == name@,
        opened.1.action_digest == request.action_digest,
        opened.1.state.request == opened.0,
        opened.1.state.origin is Execute,
        opened.1.state.op_name is None,
        !opened.1.state.seen_done,
        opened.1.state.attempt == 0,
        opened.1.state.last_progress == now,
        opened.1.state.first_break is None,
        opened.1.state.recovery is Idle,
        opened.1.state.budget == client.runtime_opts.execute_reattach_budget,
        opened.1.state.stats.severed_io == 0,
        opened.1.state.stats.severed_goaway == 0,
        opened.1.state.stats.dial_failures == 0,
        opened.1.state.stats.clean_eof == 0,
        opened.1.state.stats.operation_not_found == 0,
        opened.1.state.stats.wait_execution_reattaches == 0,
        opened.1.state.stats.re_executes == 0,
{
}

/// Uploads and downloads go to the client's instance, with the compressor that was
/// chosen and the batch limit that was found.
pub proof fn transfers_use_the_clients_limits(
    client: REClient,
    uploading: UploadRequest,
    upload: UploadPlan,
    downloading: DownloadRequest,
    download: DownloadPlan,
    blob: Vec<u8>,
    digest: TDigest,
    single: (UploadPlan, TDigest),
)
    requires
        call_ensures(REClient::upload, (&client, uploading), upload),
        call_ensures(REClient::download, (&client, downloading), download),
        call_ensures(REClient::upload_blob_with_digest, (&client, blob, digest), single),
        client.capabilities.max_total_batch_size <= i64::MAX,
    ensures
        is_plan(
            client.instance_name@,
            client.bystream_compressor,
            client.capabilities.max_total_batch_size as i64,
            requested(uploading),
            upload,
        ),
        is_download_plan(
            client.instance_name@,
            client.bystream_compressor,
            client.capabilities.max_total_batch_size,
            downloading,
            download,
        ),
        single.1 == digest,
        digest.size_in_bytes >= client.capabilities.max_total_batch_size
            ==> single.0.streamed@.len() == 1 && single.0.streamed@[0].hash == digest.hash
            && single.0.streamed@[0].source == UploadSource::Blob(blob)
            && single.0.batches@.len() == 0,
        0 < digest.size_in_bytes < client.capabilities.max_total_batch_size
            ==> single.0.streamed@.len() == 0 && single.0.batches@.len() == 1
            && single.0.batches@[0]@ == seq![
            BatchUploadRequest::Blob((InlinedBlobWithDigest { digest, blob })),
        ],
        digest.size_in_bytes == 0 && client.capabilities.max_total_batch_size > 0
            ==> single.0.streamed@.len() == 0 && single.0.batches@.len() == 0,
{
    one_blob_plans(
        client.instance_name@,
        client.bystream_compressor,
        client.capabilities.max_total_batch_size as i64,
        BatchUploadRequest::Blob(InlinedBlobWithDigest { digest, blob }),
        single.0,
    );
}

/// How long digests live is asked about in the batches that were configured, one at a
/// time where none are.
pub proof fn lifetimes_are_asked_in_batches(
    client: REClient,
    request: GetDigestsTtlRequest,
    lookup: DigestsTtl,
)
    requires
        call_ensures(REClient::get_digests_ttl, (&client, request), lookup),
    ensures
        lookup.wf(),
        client.runtime_opts.find_missing_blobs_batch_size == 0 ==> lookup@ == TtlProgress::fresh(
            values(request.digests@),
            1,
        ),
        client.runtime_opts.find_missing_blobs_batch_size > 0 ==> lookup@ == TtlProgress::fresh(
            values(request.digests@),
            client.runtime_opts.find_missing_blobs_batch_size as nat,
        ),
{
}

/// The service is reached at the configured address and instance, with a header for
/// every configured one, and asked what it can do unless that is switched off.
pub proof fn connections_follow_the_configuration<F: Fn(&str) -> Result<String, VarError>>(
    opts: Buck2OssReConfiguration,
    getter: F,
    plan: Result<ConnectPlan, Error>,
)
    requires
        call_ensures(REClientBuilder::prepare::<F>, (&opts, &getter), plan),
    ensures
        opts.engine_address is None ==> plan is Err && plan->Err_0.says("No engine address"@),
        plan matches Ok(ready) ==> {
            &&& opts.engine_address == Some(ready.engine_address)
            &&& ready.instance_name.0 == opts.instance_name
            &&& ready.query_capabilities <==> opts.capabilities != Some(false)
            &&& ready.interceptor.headers@.len() == opts.http_headers@.len()
        },
        opts.engine_address is Some && opts.http_headers@.len() == 0 ==> plan is Ok,
{
}

/// What the service lacks is said in so many words; the other clients are this one; and
/// the session has a name and no experiment.
pub proof fn clients_answer_for_themselves(
    client: REClient,
    request: ExtendDigestsTtlRequest,
    extended: Result<TDigest, Error>,
    id: &str,
    name: Result<Option<String>, Error>,
    execution: &REClient,
    cas: &REClient,
    cache: &REClient,
    metrics: &REClient,
)
    requires
        call_ensures(REClient::extend_digest_ttl, (&client, request), extended),
        call_ensures(REClient::get_session_id, (&client,), id),
        call_ensures(REClient::get_experiment_name, (&client,), name),
        call_ensures(REClient::get_execution_client, (&client,), execution),
        call_ensures(REClient::get_cas_client, (&client,), cas),
        call_ensures(REClient::get_action_cache_client, (&client,), cache),
        call_ensures(REClient::get_metrics_client, (&client,), metrics),
    ensures
        extended is Err,
        extended->Err_0.root.text_spec() == "Not implemented (RE extend_digest_ttl)"@,
        extended->Err_0.layers().len() == 0,
        id@ == "GRPC-SESSION-ID"@,
        name is Ok && name->Ok_0 is None,
        *execution == client,
        *cas == client,
        *cache == client,
        *metrics == client,
{
}

} // verus!
