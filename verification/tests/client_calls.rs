//! The client: its configuration, and for each call what is sent and what comes back.
use std::collections::BTreeSet;

use buck2_re_recovery::client::{
    choose_compressor, ActionResultRequest, Buck2OssReConfiguration, CacheCapabilities,
    ExtendDigestsTtlRequest, GetDigestsTtlRequest, REClient, REClientBuilder, RECapabilities,
    WriteActionResultRequest, DEFAULT_MAX_TOTAL_BATCH_SIZE, EXECUTE_REATTACH_CONCURRENCY_DEFAULT,
};
use buck2_re_recovery::convert::{
    convert_action_result, convert_t_action_result2, duration_from_wire, ttimestamp_from,
    ttimestamp_to, wire_span, ActionResult, ExecutedActionMetadata, OutputDirectory, OutputFile,
    OutputSymlink, TTimestamp, Timestamp, WireDuration,
};
use buck2_re_recovery::digest::{tdigest_from, tdigest_to, TDigest};
use buck2_re_recovery::duration::Duration;
use buck2_re_recovery::error::{Code, Error, ErrorLink, IoErrorKind, RootCause, Status};
use buck2_re_recovery::execute::ExecuteRequest;
use buck2_re_recovery::find_missing::{
    DigestRemoteState, FindMissingCache, FIND_MISSING_CACHE_CAPACITY, FIND_MISSING_CACHE_TTL_SECS,
};
use buck2_re_recovery::headers::{
    check_header, parse_env_references, substitute_env_vars_impl, with_re_metadata, BuckInfo,
    HttpHeader, InjectHeadersInterceptor, RemoteExecutionMetadata, RequestMetadata, VarError,
};
use buck2_re_recovery::messages::{Platform, Property};
use buck2_re_recovery::names::{Compressor, InstanceName};
use buck2_re_recovery::retry::{is_retryable, Retry, RetryAction};

fn digest(hash: &str, size_in_bytes: i64) -> TDigest {
    TDigest {
        hash: hash.to_owned(),
        size_in_bytes,
    }
}

fn getter(name: &str) -> Result<String, VarError> {
    match name {
        "FOO" => Ok("foo_value".to_owned()),
        "BAR" => Ok("bar_value".to_owned()),
        "RAW" => Err(VarError::NotUnicode("\"\\xFF\"".to_owned())),
        "BAZ" => Err(VarError::NotPresent),
        _ => panic!("Unexpected"),
    }
}

#[test]
fn test_substitute_env_vars() {
    assert_eq!(
        substitute_env_vars_impl("$FOO", getter).unwrap(),
        "foo_value"
    );
    assert_eq!(
        substitute_env_vars_impl("$FOO$BAR", getter).unwrap(),
        "foo_valuebar_value"
    );
    assert_eq!(
        substitute_env_vars_impl("some$FOO.bar", getter).unwrap(),
        "somefoo_value.bar"
    );
    assert_eq!(substitute_env_vars_impl("foo", getter).unwrap(), "foo");
    assert_eq!(substitute_env_vars_impl("FOO", getter).unwrap(), "FOO");
    assert!(substitute_env_vars_impl("$FOO$BAZ", getter).is_err());
}

#[test]
fn the_first_variable_without_a_value_is_named() {
    assert_eq!(
        substitute_env_vars_impl("$FOO$BAZ$RAW", getter)
            .unwrap_err()
            .to_text(),
        "Error substituting `$BAZ`: environment variable not found"
    );
    assert_eq!(
        substitute_env_vars_impl("$RAW", getter).unwrap_err().to_text(),
        "Error substituting `$RAW`: environment variable was not valid unicode: \"\\xFF\""
    );
}

#[test]
fn references_are_found_as_the_pattern_says() {
    let pattern = regex::Regex::new("\\$[a-zA-Z_][a-zA-Z_0-9]*").unwrap();
    for text in [
        "",
        "$",
        "$$A",
        "$1A",
        "$A1$",
        "a$b c$_D9-$",
        "\u{e9}$X\u{e9}",
        "$A$B$C",
        "$$",
        "x$Yz_1!$2",
    ] {
        let parsed = parse_env_references(text);
        let names: Vec<String> = parsed.variables.iter().map(|v| v.1.clone()).collect();
        let expected: Vec<String> = pattern
            .find_iter(text)
            .map(|found| found.as_str()[1..].to_owned())
            .collect();
        assert_eq!(names, expected, "{text}");
        let mut rebuilt = String::new();
        for (before, name) in &parsed.variables {
            rebuilt.push_str(before);
            rebuilt.push('$');
            rebuilt.push_str(name);
        }
        rebuilt.push_str(&parsed.tail);
        assert_eq!(rebuilt, text);
    }
}

fn header(key: &str, value: &str) -> HttpHeader {
    HttpHeader {
        key: key.to_owned(),
        value: value.to_owned(),
    }
}

#[test]
fn headers_are_filled_in_and_checked() {
    let interceptor = InjectHeadersInterceptor::new(
        &vec![header("X-Key", "v-$FOO"), header("other", "")],
        &getter,
    )
    .unwrap();
    assert_eq!(
        interceptor.headers,
        vec![
            ("x-key".to_owned(), "v-foo_value".to_owned()),
            ("other".to_owned(), String::new()),
        ]
    );
}

#[test]
fn headers_that_are_none_are_errors() {
    let error = |key: &str, value: &str| {
        InjectHeadersInterceptor::new(&vec![header("fine", "x"), header(key, value)], &getter)
            .unwrap_err()
            .to_text()
    };
    assert_eq!(
        error("bad key", "v"),
        "Error converting headers: Invalid key in header: `bad key: v`: invalid gRPC metadata \
         key name"
    );
    assert_eq!(
        error("key", "a\nb"),
        "Error converting headers: Invalid value in header: `key: a\nb`: failed to parse metadata \
         value"
    );
    assert!(error("$BAZ", "v").contains("Error substituting `$BAZ`"));
    assert!(error("key-bin", "v").contains("Invalid key in header"));
}

#[test]
fn header_names_are_sent_in_lower_case() {
    let (key, value) = check_header("X-ABC".to_owned(), "Value".to_owned()).unwrap();
    assert_eq!(key, "x-abc");
    assert_eq!(value, "Value");
    assert!(check_header("".to_owned(), "v".to_owned()).is_err());
    assert!(check_header("k".to_owned(), "tab\tis fine".to_owned()).is_ok());
    assert!(check_header("k".to_owned(), "\u{7f}".to_owned()).is_err());
}

#[test]
fn header_names_are_tokens() {
    let sent = |key: &str| {
        check_header(key.to_owned(), "v".to_owned())
            .ok()
            .map(|(key, _)| key)
    };
    let marks = "!#$%&'*+-.^_`|~";
    assert_eq!(sent(marks).as_deref(), Some(marks));
    assert_eq!(sent("Content-Type").as_deref(), Some("content-type"));
    assert_eq!(sent("AZaz09").as_deref(), Some("azaz09"));
    for c in "\"(),/:;<=>?@[\\]{} \t\u{7f}\u{e4}\u{212a}".chars() {
        assert_eq!(sent(&format!("a{c}b")), None, "{c:?}");
    }
    assert_eq!(sent("X-BIN"), None);
    assert_eq!(sent("-bin"), None);
    assert_eq!(sent("bin").as_deref(), Some("bin"));
    assert_eq!(sent("x-bin-y").as_deref(), Some("x-bin-y"));
    assert_eq!(sent(&"A".repeat(65)), Some("a".repeat(65)));
    assert_eq!(sent(&"A".repeat(65_535)), Some("a".repeat(65_535)));
    assert_eq!(sent(&"A".repeat(65_536)), None);
    assert_eq!(sent(&format!("{} ", "A".repeat(65))), None);
}

fn metadata() -> RemoteExecutionMetadata {
    RemoteExecutionMetadata {
        platform: Some(Platform {
            properties: vec![Property {
                name: "os".to_owned(),
                value: "linux".to_owned(),
            }],
        }),
        use_case_id: "case".to_owned(),
        buck_info: Some(BuckInfo {
            build_id: "build-1".to_owned(),
        }),
    }
}

#[test]
fn requests_say_who_asks() {
    let public = with_re_metadata(&metadata(), false);
    assert_eq!(
        public.key,
        "build.bazel.remote.execution.v2.requestmetadata-bin"
    );
    match public.metadata {
        RequestMetadata::Public {
            tool_name,
            tool_invocation_id,
            action_id,
            ..
        } => {
            assert_eq!(tool_name, "buck2");
            assert_eq!(tool_invocation_id, "build-1");
            assert_eq!(action_id, "");
        }
        other => panic!("unexpected {other:?}"),
    }
    let internal = with_re_metadata(&metadata(), true);
    assert_eq!(internal.key, "re-metadata-bin");
    match internal.metadata {
        RequestMetadata::Internal { .. } => {}
        other => panic!("unexpected {other:?}"),
    }
}

fn opts() -> Buck2OssReConfiguration {
    Buck2OssReConfiguration {
        cas_address: Some("cas".to_owned()),
        engine_address: Some("engine".to_owned()),
        action_cache_address: Some("ac".to_owned()),
        instance_name: Some("inst".to_owned()),
        ..Default::default()
    }
}

fn capabilities(max_total_batch_size: usize) -> RECapabilities {
    RECapabilities {
        max_total_batch_size,
        supported_compressors: vec![Compressor::Deflate, Compressor::Brotli],
    }
}

fn built(opts: &Buck2OssReConfiguration) -> Result<REClient, String> {
    let plan = REClientBuilder::prepare(opts, &getter).map_err(|error| error.to_text())?;
    REClientBuilder::build_and_connect(opts, plan, capabilities(100), Duration::from_secs(9))
        .map_err(|error| error.to_text())
}

#[test]
fn a_client_is_built_from_its_configuration() {
    let client = built(&opts()).unwrap();
    assert_eq!(client.cas_address, "cas");
    assert_eq!(client.engine_address, "engine");
    assert_eq!(client.action_cache_address, "ac");
    assert_eq!(client.bystream_compressor, Some(Compressor::Brotli));
    assert_eq!(client.max_decoding_msg_size, 200);
    assert_eq!(client.pool.min_connections, 1);
    assert_eq!(client.pool.max_connections, 100);
    assert_eq!(client.pool.max_concurrency_per_connection, 100);
    assert_eq!(client.runtime_opts.cas_ttl_secs, 10_800);
    assert_eq!(client.runtime_opts.find_missing_blobs_batch_size, 100);
    assert!(client.runtime_opts.execute_reattach_budget.is_none());
    assert_eq!(
        client.execute_reattach_concurrency,
        EXECUTE_REATTACH_CONCURRENCY_DEFAULT
    );
    assert_eq!(client.get_session_id(), "GRPC-SESSION-ID");
    assert_eq!(client.get_experiment_name().unwrap(), None);
    assert_eq!(client.get_execution_client().cas_address, "cas");
    assert_eq!(client.get_cas_client().cas_address, "cas");
    assert_eq!(client.get_action_cache_client().cas_address, "cas");
    assert_eq!(client.get_metrics_client().cas_address, "cas");
}

fn build_error(opts: &Buck2OssReConfiguration) -> String {
    match built(opts) {
        Ok(_) => panic!("the configuration is not complete"),
        Err(error) => error,
    }
}

#[test]
fn a_client_needs_its_addresses_and_room_for_a_batch() {
    let mut without = opts();
    without.engine_address = None;
    assert_eq!(build_error(&without), "No engine address");
    let mut without = opts();
    without.cas_address = None;
    assert_eq!(build_error(&without), "No CAS address");
    let mut without = opts();
    without.action_cache_address = None;
    assert_eq!(build_error(&without), "No action cache address");
    let mut without = opts();
    without.max_decoding_message_size = Some(99);
    assert_eq!(
        build_error(&without),
        "Attribute `max_decoding_message_size` must always be equal or higher to \
         `max_total_batch_size`"
    );
    without.max_decoding_message_size = Some(100);
    assert!(built(&without).is_ok());
}

#[test]
fn pools_hold_at_least_one_connection() {
    let mut config = opts();
    config.min_connections = Some(0);
    config.max_connections = Some(0);
    let pool = built(&config).unwrap().pool;
    assert_eq!((pool.min_connections, pool.max_connections), (1, 1));
    config.min_connections = Some(5);
    config.max_connections = Some(3);
    let pool = built(&config).unwrap().pool;
    assert_eq!((pool.min_connections, pool.max_connections), (5, 5));
}

#[test]
fn the_batch_limit_is_the_smaller_one() {
    let limit = |remote: Option<i64>, config: Option<usize>| {
        REClientBuilder::fetch_rbe_capabilities(
            remote.map(|max_batch_total_size_bytes| CacheCapabilities {
                supported_compressors: vec![0, 3, 7, 1],
                max_batch_total_size_bytes,
            }),
            config,
        )
    };
    assert_eq!(
        limit(None, None).max_total_batch_size,
        DEFAULT_MAX_TOTAL_BATCH_SIZE
    );
    assert_eq!(
        limit(Some(0), None).max_total_batch_size,
        DEFAULT_MAX_TOTAL_BATCH_SIZE
    );
    assert_eq!(limit(Some(10), None).max_total_batch_size, 10);
    assert_eq!(limit(None, Some(20)).max_total_batch_size, 20);
    assert_eq!(limit(Some(10), Some(20)).max_total_batch_size, 10);
    assert_eq!(limit(Some(30), Some(20)).max_total_batch_size, 20);
    assert_eq!(
        limit(Some(1), None).supported_compressors,
        vec![Compressor::Brotli, Compressor::Zstd]
    );
    assert!(limit(None, None).supported_compressors.is_empty());
    assert_eq!(
        REClientBuilder::default_capabilities().max_total_batch_size,
        DEFAULT_MAX_TOTAL_BATCH_SIZE
    );
}

#[test]
fn zstd_is_preferred_to_brotli_and_brotli_to_deflate() {
    assert_eq!(choose_compressor(&vec![]), None);
    assert_eq!(
        choose_compressor(&vec![Compressor::Deflate]),
        Some(Compressor::Deflate)
    );
    assert_eq!(
        choose_compressor(&vec![
            Compressor::Deflate,
            Compressor::Brotli,
            Compressor::Zstd
        ]),
        Some(Compressor::Zstd)
    );
}

fn full_metadata() -> ExecutedActionMetadata {
    let at = |seconds: i64| {
        Some(Timestamp {
            seconds,
            nanos: seconds as i32,
        })
    };
    ExecutedActionMetadata {
        worker: "worker".to_owned(),
        queued_timestamp: at(1),
        worker_start_timestamp: at(2),
        worker_completed_timestamp: at(9),
        input_fetch_start_timestamp: at(3),
        input_fetch_completed_timestamp: at(4),
        execution_start_timestamp: at(5),
        execution_completed_timestamp: at(7),
        virtual_execution_duration: None,
        output_upload_start_timestamp: at(7),
        output_upload_completed_timestamp: at(8),
    }
}

fn wire_result() -> ActionResult {
    ActionResult {
        output_files: vec![OutputFile {
            path: "out".to_owned(),
            digest: Some(tdigest_to(digest("aa", 3))),
            is_executable: true,
            contents: Vec::new(),
        }],
        output_symlinks: vec![OutputSymlink {
            path: "link".to_owned(),
            target: "out".to_owned(),
        }],
        output_directories: vec![OutputDirectory {
            path: "dir".to_owned(),
            tree_digest: Some(tdigest_to(digest("tree", 5))),
            is_topologically_sorted: false,
            root_directory_digest: None,
        }],
        exit_code: 3,
        stdout_raw: b"out".to_vec(),
        stdout_digest: None,
        stderr_raw: Vec::new(),
        stderr_digest: Some(tdigest_to(digest("err", 4))),
        execution_metadata: Some(full_metadata()),
    }
}

#[test]
fn results_that_are_written_read_back() {
    let read = convert_action_result(wire_result()).unwrap();
    assert_eq!(read.exit_code, 3);
    assert_eq!(read.output_files[0].name, "out");
    assert_eq!(read.output_files[0].digest.digest.hash, "aa");
    assert!(read.output_files[0].executable);
    assert_eq!(read.output_symlinks[0].target, "out");
    assert_eq!(read.output_directories[0].tree_digest.hash, "tree");
    assert_eq!(read.stdout_raw, Some(b"out".to_vec()));
    assert_eq!(read.stderr_digest.as_ref().unwrap().hash, "err");
    assert_eq!(read.execution_metadata.execution_start_timestamp.seconds, 5);

    let written = convert_t_action_result2(read).unwrap();
    let metadata = written.execution_metadata.as_ref().unwrap();
    let ran = metadata.virtual_execution_duration.unwrap();
    assert_eq!((ran.seconds, ran.nanos), (2, 2));
    assert_eq!(metadata.worker, "worker");

    let again = convert_action_result(written).unwrap();
    assert_eq!(again.exit_code, 3);
    assert_eq!(again.output_files[0].digest.digest.size_in_bytes, 3);
    assert_eq!(again.output_directories[0].path, "dir");
    assert_eq!(
        again
            .execution_metadata
            .output_upload_completed_timestamp
            .nanos,
        8
    );
}

#[test]
fn incomplete_results_are_errors() {
    let mut result = wire_result();
    result.execution_metadata = None;
    let error = convert_action_result(result).unwrap_err().to_text();
    assert_eq!(error, "The execution metadata are not defined.");
    let mut result = wire_result();
    result.output_files[0].digest = None;
    let error = convert_action_result(result).unwrap_err().to_text();
    assert_eq!(error, "Digest not found.");
    let mut result = wire_result();
    result.output_directories[0].tree_digest = None;
    let error = convert_action_result(result).unwrap_err().to_text();
    assert_eq!(error, "Tree digest not defined.");
}

#[test]
fn calls_to_the_action_cache_name_the_action() {
    let client = built(&opts()).unwrap();
    let wire = client.get_action_result(&ActionResultRequest {
        digest: digest("act", 12),
    });
    assert_eq!(wire.instance_name, "inst");
    assert_eq!(wire.action_digest.unwrap().hash, "act");
    let response = REClient::action_result_response(wire_result()).unwrap();
    assert_eq!(response.ttl, 0);
    assert_eq!(response.action_result.exit_code, 3);

    let update = client
        .write_action_result(WriteActionResultRequest {
            action_digest: digest("act", 12),
            action_result: response.action_result,
        })
        .unwrap();
    assert_eq!(update.instance_name, "inst");
    assert_eq!(update.action_digest.unwrap().size_bytes, 12);
    let stored = REClient::write_action_result_response(update.action_result.unwrap()).unwrap();
    assert_eq!(stored.ttl_seconds, 0);
    assert_eq!(stored.actual_action_result.exit_code, 3);
}

#[test]
fn a_result_that_ran_too_long_cannot_be_written() {
    let mut result = convert_action_result(wire_result()).unwrap();
    result.execution_metadata.execution_start_timestamp = TTimestamp {
        seconds: i64::MIN,
        nanos: 0,
    };
    let error = convert_t_action_result2(result).unwrap_err().to_text();
    assert_eq!(error, "failed to convert duration out of range");
}

#[test]
fn extending_the_life_of_digests_is_not_offered() {
    let client = built(&opts()).unwrap();
    let error = client
        .extend_digest_ttl(ExtendDigestsTtlRequest {
            digests: vec![digest("aa", 1)],
            ttl: 5,
        })
        .unwrap_err();
    assert_eq!(error.to_text(), "Not implemented (RE extend_digest_ttl)");
}

#[test]
fn a_client_opens_streams_with_its_budget() {
    let mut config = opts();
    config.execute_reattach_enabled = Some(true);
    let client = built(&config).unwrap();
    let (wire, stream) = client.execute_with_progress(
        ExecuteRequest {
            skip_cache_lookup: true,
            execution_policy: None,
            action_digest: digest("act", 1),
        },
        Duration::from_secs(3),
    );
    assert_eq!(wire.instance_name, "inst");
    assert_eq!(stream.state.budget, Some(Duration::from_secs(60)));
    assert!(!stream.is_finished());
    let (plan, named) = client.upload_blob_with_digest(vec![1; 150], digest("blob", 150));
    assert_eq!(named.hash, "blob");
    assert_eq!(plan.streamed.len(), 1);
    assert!(plan.streamed[0]
        .resource_name
        .contains("/compressed-blobs/brotli/blob/150"));
}

/// Answers a request for the time to live of digests with a store that is given.
fn ttls(
    client: &mut REClient,
    digests: &[TDigest],
    store: &BTreeSet<&str>,
    now: Duration,
) -> (Vec<(String, i64)>, Vec<Vec<String>>) {
    let mut lookup = client.get_digests_ttl(GetDigestsTtlRequest {
        digests: digests.to_vec(),
    });
    let instance = InstanceName(Some("inst".to_owned()));
    let mut asked = Vec::new();
    while let Some(request) = lookup.next_request(&instance, &mut client.find_missing_cache, now) {
        assert_eq!(request.instance_name, "inst");
        asked.push(
            request
                .blob_digests
                .iter()
                .map(|digest| digest.hash.clone())
                .collect(),
        );
        let missing = request
            .blob_digests
            .into_iter()
            .filter(|digest| !store.contains(digest.hash.as_str()))
            .collect();
        lookup.accept(missing, &mut client.find_missing_cache, now);
    }
    let mut answer: Vec<(String, i64)> = lookup
        .finish(client.runtime_opts.cas_ttl_secs)
        .into_iter()
        .map(|entry| (entry.digest.hash, entry.ttl))
        .collect();
    answer.sort();
    (answer, asked)
}

#[test]
fn every_digest_gets_its_time_to_live_once() {
    let mut config = opts();
    config.find_missing_blobs_batch_size = Some(2);
    config.cas_ttl_secs = Some(77);
    let mut client = built(&config).unwrap();
    let digests: Vec<TDigest> = ["a", "b", "c", "a"]
        .iter()
        .map(|hash| digest(hash, 1))
        .collect();
    let store = BTreeSet::from(["a", "c"]);
    let now = Duration::from_secs(10);
    let (answer, asked) = ttls(&mut client, &digests, &store, now);
    assert_eq!(
        answer,
        vec![
            ("a".to_owned(), 77),
            ("b".to_owned(), 0),
            ("c".to_owned(), 77)
        ]
    );
    assert_eq!(asked, vec![vec!["a", "b"], vec!["c"]]);

    // What is known is not asked about again, until it is too old.
    let (again, asked) = ttls(&mut client, &digests, &BTreeSet::new(), now);
    assert_eq!(again, answer);
    assert!(asked.is_empty());
    let later = Duration::from_secs(11 + FIND_MISSING_CACHE_TTL_SECS);
    let (later, asked) = ttls(&mut client, &digests, &BTreeSet::new(), later);
    assert!(later.iter().all(|entry| entry.1 == 0));
    assert_eq!(asked.len(), 2);
}

#[test]
fn the_last_answer_decides_the_time_to_live() {
    let mut config = opts();
    config.find_missing_blobs_batch_size = Some(1);
    config.cas_ttl_secs = Some(77);
    let mut client = built(&config).unwrap();
    let mut lookup = client.get_digests_ttl(GetDigestsTtlRequest {
        digests: vec![digest("a", 1), digest("a", 1), digest("b", 1)],
    });
    let instance = InstanceName(None);
    let early = Duration::from_secs(10);
    let late = Duration::from_secs(11 + FIND_MISSING_CACHE_TTL_SECS);
    let cache = &mut client.find_missing_cache;

    let first = lookup.next_request(&instance, cache, early).unwrap();
    assert_eq!(first.blob_digests[0].hash, "a");
    lookup.accept(first.blob_digests, cache, early);
    let second = lookup.next_request(&instance, cache, late).unwrap();
    assert_eq!(second.blob_digests[0].hash, "a");
    lookup.accept(Vec::new(), cache, late);
    let third = lookup.next_request(&instance, cache, late).unwrap();
    assert_eq!(third.blob_digests[0].hash, "b");
    lookup.accept(third.blob_digests, cache, late);
    assert!(lookup.next_request(&instance, cache, late).is_none());

    let mut answer: Vec<(String, i64)> = lookup
        .finish(77)
        .into_iter()
        .map(|entry| (entry.digest.hash, entry.ttl))
        .collect();
    answer.sort();
    assert_eq!(answer, vec![("a".to_owned(), 77), ("b".to_owned(), 0)]);
}

#[test]
fn what_was_stored_in_the_cache_is_found() {
    let now = Duration::from_secs(1);
    let mut cache = FindMissingCache::new(now);
    assert_eq!(cache.get(&digest("a", 1), now), None);
    cache.put(digest("a", 1), DigestRemoteState::Missing, now);
    cache.put(digest("a", 2), DigestRemoteState::ExistsOnRemote, now);
    assert_eq!(
        cache.get(&digest("a", 1), now),
        Some(DigestRemoteState::Missing)
    );
    assert_eq!(
        cache.get(&digest("a", 2), now),
        Some(DigestRemoteState::ExistsOnRemote)
    );
    cache.put(digest("a", 1), DigestRemoteState::ExistsOnRemote, now);
    assert_eq!(
        cache.get(&digest("a", 1), now),
        Some(DigestRemoteState::ExistsOnRemote)
    );
}

fn failure(code: Code, sources: Vec<ErrorLink>) -> Error {
    Error::new(RootCause::Status(Status {
        code,
        text: "failed".to_owned(),
        sources,
    }))
}

#[test]
fn passing_failures_are_retried() {
    for code in [Code::Unavailable, Code::ResourceExhausted, Code::Aborted] {
        assert!(is_retryable(&failure(code, Vec::new())));
    }
    for code in [Code::Internal, Code::NotFound, Code::Unknown, Code::Success] {
        assert!(!is_retryable(&failure(code, Vec::new())));
    }
    assert!(is_retryable(&failure(
        Code::Unknown,
        vec![ErrorLink::Other, ErrorLink::Io(IoErrorKind::BrokenPipe)]
    )));
    assert!(!is_retryable(&failure(
        Code::Unknown,
        vec![ErrorLink::H2 {
            is_io: true,
            reason: None
        }]
    )));
    assert!(is_retryable(&Error::new(RootCause::Chain {
        text: "io".to_owned(),
        links: vec![ErrorLink::Io(IoErrorKind::TimedOut)],
    })));
    assert!(!is_retryable(&Error::new(RootCause::Chain {
        text: "io".to_owned(),
        links: vec![ErrorLink::Io(IoErrorKind::NotConnected)],
    })));
    assert!(!is_retryable(&Error::msg("other".to_owned())));
}

#[test]
fn a_call_is_tried_five_times() {
    let mut retry = Retry::new();
    let mut delays = Vec::new();
    loop {
        match retry.after_failure(failure(Code::Unavailable, Vec::new())) {
            RetryAction::Sleep(delay) => delays.push(delay.as_nanos() / 1_000_000),
            RetryAction::Fail(error) => {
                assert_eq!(error.to_text(), "failed");
                break;
            }
        }
    }
    assert_eq!(delays.len(), 4);
    for (delay, base) in delays.iter().zip([100, 200, 400, 800]) {
        assert!((base..base + 50).contains(delay), "{delays:?}");
    }
    let mut retry = Retry::new();
    assert!(matches!(
        retry.after_failure(Error::msg("other".to_owned())),
        RetryAction::Fail(_)
    ));
}

#[test]
fn spans_keep_their_length_on_the_wire() {
    let span = Duration::new(3, 999_999_999);
    let wire = wire_span(span).unwrap();
    assert_eq!((wire.seconds, wire.nanos), (3, 999_999_999));
    assert_eq!(duration_from_wire(wire).unwrap(), span);
    assert!(wire_span(Duration::from_secs(u64::MAX)).is_none());
    let read = |seconds: i64, nanos: i32| {
        duration_from_wire(WireDuration { seconds, nanos }).map_err(|error| error.to_text())
    };
    assert_eq!(read(1, -500_000_000), Ok(Duration::from_millis(500)));
    assert_eq!(read(-1, 1_500_000_000), Ok(Duration::from_millis(500)));
    assert_eq!(
        read(i64::MAX, i32::MAX),
        Ok(Duration::new(i64::MAX as u64, 999_999_999))
    );
    assert_eq!(
        read(-1, 500_000_000),
        Err("failed to convert negative duration: 500ms".to_owned())
    );
    assert_eq!(
        read(i64::MIN, 0),
        Err(format!(
            "failed to convert negative duration: {}s",
            1u64 << 63
        ))
    );
}

#[test]
fn times_and_digests_read_back() {
    let time = TTimestamp {
        seconds: -4,
        nanos: 5,
    };
    assert_eq!(ttimestamp_from(Some(ttimestamp_to(time))), time);
    assert_eq!(ttimestamp_from(None), TTimestamp::unix_epoch());
    let later = TTimestamp {
        seconds: -2,
        nanos: 4,
    };
    assert_eq!(
        later.saturating_duration_since(&time),
        Duration::new(1, 999_999_999)
    );
    assert_eq!(time.saturating_duration_since(&later), Duration::zero());
    let named = tdigest_from(tdigest_to(digest("aa", -7)));
    assert_eq!(named.to_text(), "aa:-7");
}

#[test]
fn what_was_used_least_recently_is_forgotten_first() {
    let now = Duration::from_secs(1);
    let mut cache = FindMissingCache::new(now);
    for size in 0..FIND_MISSING_CACHE_CAPACITY as i64 {
        cache.put(digest("h", size), DigestRemoteState::Missing, now);
    }
    assert!(cache.get(&digest("h", 0), now).is_some());
    cache.put(digest("new", 1), DigestRemoteState::ExistsOnRemote, now);
    assert_eq!(cache.get(&digest("h", 1), now), None);
    assert_eq!(
        cache.get(&digest("h", 0), now),
        Some(DigestRemoteState::Missing)
    );
    assert_eq!(
        cache.get(&digest("h", 2), now),
        Some(DigestRemoteState::Missing)
    );
    assert_eq!(
        cache.get(&digest("new", 1), now),
        Some(DigestRemoteState::ExistsOnRemote)
    );
}
