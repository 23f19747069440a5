//! How blobs are uploaded and downloaded: what goes in batches, what is streamed,
//! and what comes back.
use std::collections::HashMap;
use std::io::Cursor;

use async_compression::tokio::bufread::{ZstdDecoder, ZstdEncoder};
use buck2_re_recovery::convert::RpcStatus;
use buck2_re_recovery::digest::{tdigest_to, Digest, TDigest};
use buck2_re_recovery::download::{
    download_failed, inlined_blob, plan_download, read_failed, BatchReadBlobsRequest,
    BatchReadBlobsResponse, BlobReadResponse, BlobSource, DownloadRequest,
    InlinedDigestWithStatus, NamedDigestWithPermissions, ReadRequest, ReceivedBlobs,
    EXECUTABLE_MODE, FILE_MODE,
};
use buck2_re_recovery::names::{
    download_resource_name, upload_resource_name, Compressor, InstanceName, COMPRESSOR_BROTLI,
    COMPRESSOR_DEFLATE, COMPRESSOR_IDENTITY, COMPRESSOR_ZSTD,
};
use buck2_re_recovery::upload::{
    batch_update_request, batch_upload_outcome, blob_update, check_committed_size, plan_upload,
    BatchUpdateBlobsRequest, BatchUpdateBlobsResponse, BatchUploadReqAggregator,
    BatchUploadRequest, BlobUpdateResponse, InlinedBlobWithDigest, NamedDigest, SegmentedUpload,
    UploadRequest, UploadSource, WriteRequest,
};
use tokio::io::AsyncReadExt;

fn digest(hash: &str, size_in_bytes: i64) -> TDigest {
    TDigest {
        hash: hash.to_owned(),
        size_in_bytes,
    }
}

fn said(digest: &Digest) -> (&str, i64) {
    (digest.hash.as_str(), digest.size_bytes)
}

fn stored(digest: TDigest) -> BlobUpdateResponse {
    BlobUpdateResponse {
        digest: Some(tdigest_to(digest)),
        status: Some(RpcStatus {
            code: 0,
            message: String::new(),
        }),
    }
}

fn inlined(hash: &str, blob: &[u8]) -> InlinedBlobWithDigest {
    InlinedBlobWithDigest {
        digest: digest(hash, blob.len() as i64),
        blob: blob.to_vec(),
    }
}

fn file(name: &str, hash: &str, size: i64) -> NamedDigest {
    NamedDigest {
        name: name.to_owned(),
        digest: digest(hash, size),
    }
}

fn blob_data() -> Vec<u8> {
    (1..=18).collect()
}

/// Carries an upload out against files and a service that are given as functions.
fn upload(
    instance_name: &InstanceName,
    request: UploadRequest,
    compressor: Option<Compressor>,
    max_total_batch_size: usize,
    files: &HashMap<String, Vec<u8>>,
    mut cas: impl FnMut(&BatchUpdateBlobsRequest) -> BatchUpdateBlobsResponse,
    mut bytestream: impl FnMut(&[WriteRequest]) -> i64,
    pack: impl Fn(Vec<u8>) -> Vec<u8>,
) -> Result<Vec<String>, String> {
    let plan = plan_upload(instance_name, request, compressor, max_total_batch_size);
    let mut hashes = Vec::new();
    for streamed in plan.streamed {
        let bytes = match streamed.source {
            UploadSource::Blob(blob) => blob,
            UploadSource::File(name) => files[&name].clone(),
        };
        let mut segments =
            SegmentedUpload::new(streamed.resource_name.clone(), max_total_batch_size);
        segments.push_blob(&pack(bytes));
        let (segments, sent) = segments.finish();
        if !segments.is_empty() {
            let committed = bytestream(&segments);
            check_committed_size(&streamed.resource_name, committed, sent)
                .map_err(|error| error.to_text())?;
        }
        hashes.push(streamed.hash);
    }
    for batch in plan.batches {
        let updates = batch
            .into_iter()
            .map(|request| {
                let contents = match &request {
                    BatchUploadRequest::Blob(_) => Vec::new(),
                    BatchUploadRequest::File(file) => files[&file.name].clone(),
                };
                blob_update(request, contents)
            })
            .collect();
        let (request, blob_hashes) = batch_update_request(instance_name, updates);
        let response = cas(&request);
        let mut stored =
            batch_upload_outcome(&response, blob_hashes).map_err(|error| error.to_text())?;
        hashes.append(&mut stored);
    }
    Ok(hashes)
}

fn no_batch(_request: &BatchUpdateBlobsRequest) -> BatchUpdateBlobsResponse {
    panic!("Not called")
}

fn no_stream(_segments: &[WriteRequest]) -> i64 {
    panic!("A Bytestream upload should not be triggered")
}

fn as_is(bytes: Vec<u8>) -> Vec<u8> {
    bytes
}

fn files(entries: &[(&str, &[u8])]) -> HashMap<String, Vec<u8>> {
    entries
        .iter()
        .map(|(name, bytes)| ((*name).to_owned(), bytes.to_vec()))
        .collect()
}

fn upload_request(
    blobs: Vec<InlinedBlobWithDigest>,
    named: Vec<NamedDigest>,
) -> UploadRequest {
    UploadRequest {
        inlined_blobs_with_digest: Some(blobs),
        files_with_digest: Some(named),
        upload_only_missing: false,
    }
}

fn assert_two_segments(segments: &[WriteRequest], blob: &[u8]) {
    assert_eq!(segments.len(), 2);
    assert_eq!(segments[0].write_offset, 0);
    assert!(!segments[0].finish_write);
    assert_eq!(segments[0].data, blob[..10]);
    assert_eq!(segments[1].write_offset, 10);
    assert!(segments[1].finish_write);
    assert_eq!(segments[1].data, blob[10..]);
}

#[test]
fn test_upload_named() {
    let mut request = upload_request(
        Vec::new(),
        vec![file("path1", "aa", 3), file("path2", "bb", 3)],
    );
    request.inlined_blobs_with_digest = None;
    let hashes = upload(
        &InstanceName(None),
        request,
        None,
        10000,
        &files(&[("path1", b"aaa"), ("path2", b"bbb")]),
        |request| {
            assert_eq!(request.requests.len(), 2);
            assert_eq!(said(request.requests[0].digest.as_ref().unwrap()), ("aa", 3));
            assert_eq!(request.requests[0].data, b"aaa");
            assert_eq!(said(request.requests[1].digest.as_ref().unwrap()), ("bb", 3));
            assert_eq!(request.requests[1].data, b"bbb");
            assert_eq!(request.requests[0].compressor, COMPRESSOR_IDENTITY);
            BatchUpdateBlobsResponse {
                responses: vec![stored(digest("bb", 3)), stored(digest("aa", 3))],
            }
        },
        no_stream,
        as_is,
    )
    .unwrap();
    assert_eq!(hashes, vec!["aa".to_owned(), "bb".to_owned()]);
}

#[test]
fn test_upload_large_named() {
    let blob = blob_data();
    upload(
        &InstanceName(None),
        upload_request(
            Vec::new(),
            vec![file("path1", "aa", 3), file("path2", "xl", 18)],
        ),
        None,
        10,
        &files(&[("path1", b"aaa"), ("path2", &blob)]),
        |request| {
            assert_eq!(request.requests.len(), 1);
            assert_eq!(said(request.requests[0].digest.as_ref().unwrap()), ("aa", 3));
            assert_eq!(request.requests[0].data, b"aaa");
            BatchUpdateBlobsResponse {
                responses: vec![stored(digest("xl", 18)), stored(digest("aa", 3))],
            }
        },
        |segments| {
            assert_two_segments(segments, &blob);
            18
        },
        as_is,
    )
    .unwrap();
}

#[test]
fn test_upload_large_inlined() {
    let blob = blob_data();
    upload(
        &InstanceName(None),
        upload_request(vec![inlined("xl", &blob), inlined("aa", b"aaa")], Vec::new()),
        None,
        10,
        &HashMap::new(),
        |request| {
            assert_eq!(request.requests.len(), 1);
            assert_eq!(said(request.requests[0].digest.as_ref().unwrap()), ("aa", 3));
            assert_eq!(request.requests[0].data, b"aaa");
            BatchUpdateBlobsResponse {
                responses: vec![stored(digest("xl", 18))],
            }
        },
        |segments| {
            assert_two_segments(segments, &blob);
            18
        },
        as_is,
    )
    .unwrap();
}

#[test]
fn test_upload_invalid_committed_size() {
    let error = upload(
        &InstanceName(None),
        upload_request(Vec::new(), vec![file("path2", "xl", 18)]),
        None,
        10,
        &files(&[("path2", &blob_data())]),
        no_batch,
        |_| 10,
        as_is,
    )
    .unwrap_err();
    assert!(error.contains("invalid committed_size"));
}

#[test]
fn test_upload_exact() {
    upload(
        &InstanceName(None),
        upload_request(
            vec![inlined("bb", &[1, 2, 3, 4, 5, 6])],
            vec![file("path1", "aa", 6)],
        ),
        None,
        3,
        &files(&[("path1", b"aaabbb")]),
        no_batch,
        |segments| {
            assert_eq!(segments.len(), 2);
            assert!(segments[1].finish_write);
            6
        },
        as_is,
    )
    .unwrap();
}

#[test]
fn test_upload_empty() {
    for compressor in [
        None,
        Some(Compressor::Deflate),
        Some(Compressor::Brotli),
        Some(Compressor::Zstd),
    ] {
        for max_total_batch_size in [0, 1024] {
            assert!(upload(
                &InstanceName(None),
                upload_request(Vec::new(), vec![file("path1", "aa", 0)]),
                compressor,
                max_total_batch_size,
                &files(&[("path1", b"")]),
                no_batch,
                no_stream,
                as_is,
            )
            .is_ok());
        }
    }
}

#[test]
fn test_upload_resource_name() {
    upload(
        &InstanceName(Some("instance".to_owned())),
        upload_request(vec![inlined("aa", b"aaa")], vec![file("path1", "aa", 3)]),
        None,
        1,
        &files(&[("path1", b"aaa")]),
        no_batch,
        |segments| {
            assert!(segments[0].resource_name.starts_with("instance/uploads/"));
            assert!(segments[0].resource_name.ends_with("/blobs/aa/3"));
            3
        },
        as_is,
    )
    .unwrap();
}

#[test]
fn test_upload_resource_name_compressed() {
    upload(
        &InstanceName(Some("instance".to_owned())),
        upload_request(vec![inlined("aa", b"aaa")], vec![file("path1", "aa", 3)]),
        Some(Compressor::Zstd),
        1,
        &files(&[("path1", b"aaa")]),
        no_batch,
        |segments| {
            assert!(segments[0].resource_name.starts_with("instance/uploads/"));
            assert!(segments[0]
                .resource_name
                .ends_with("/compressed-blobs/zstd/aa/3"));
            -1
        },
        as_is,
    )
    .unwrap();
}

fn block_on<F: std::future::Future>(future: F) -> F::Output {
    tokio::runtime::Builder::new_current_thread()
        .build()
        .unwrap()
        .block_on(future)
}

fn packed(bytes: Vec<u8>) -> Vec<u8> {
    block_on(async {
        let mut out = Vec::new();
        ZstdEncoder::new(Cursor::new(bytes))
            .read_to_end(&mut out)
            .await
            .unwrap();
        out
    })
}

fn unpacked(bytes: Vec<u8>) -> Vec<u8> {
    block_on(async {
        let mut out = Vec::new();
        ZstdDecoder::new(Cursor::new(bytes))
            .read_to_end(&mut out)
            .await
            .unwrap();
        out
    })
}

#[test]
fn test_upload_compressed() {
    let blob = vec![1; 10 * 1024 * 1024];
    upload(
        &InstanceName(Some("instance".to_owned())),
        upload_request(vec![inlined("aa", &blob)], Vec::new()),
        Some(Compressor::Zstd),
        1,
        &HashMap::new(),
        no_batch,
        |segments| {
            let sent: Vec<u8> = segments.iter().flat_map(|s| s.data.clone()).collect();
            assert!(sent.len() < blob.len());
            assert_eq!(unpacked(sent), blob);
            -1
        },
        packed,
    )
    .unwrap();
}

/// What a download came to: blobs in memory, and files by name with their mode.
type Downloaded = (
    Vec<InlinedDigestWithStatus>,
    HashMap<String, (u32, Vec<u8>)>,
);

/// Carries a download out against a service that is given as functions.
fn download(
    instance_name: &InstanceName,
    request: DownloadRequest,
    compressor: Option<Compressor>,
    max_total_batch_size: usize,
    mut cas: impl FnMut(&BatchReadBlobsRequest) -> BatchReadBlobsResponse,
    mut bytestream: impl FnMut(&ReadRequest) -> Vec<Vec<u8>>,
) -> Result<Downloaded, String> {
    let plan = plan_download(instance_name, request, compressor, max_total_batch_size);
    let mut received = ReceivedBlobs::new();
    for batch in &plan.batches {
        received
            .accept(cas(batch))
            .map_err(|error| error.to_text())?;
    }
    let mut fetch = |digest: &TDigest, source: &BlobSource| match source {
        BlobSource::Batched => received.get(digest).map_err(|error| error.to_text()),
        BlobSource::Streamed(request) => {
            assert_eq!(request.read_offset, 0);
            assert_eq!(request.read_limit, 0);
            let bytes: Vec<u8> = bytestream(request).concat();
            Ok(match compressor {
                None => bytes,
                Some(_) => unpacked(bytes),
            })
        }
    };
    let mut blobs = Vec::new();
    for blob in plan.inlined {
        let bytes = fetch(&blob.digest, &blob.source)?;
        blobs.push(inlined_blob(blob.digest, bytes));
    }
    let mut written = HashMap::new();
    for file in plan.files {
        let bytes = fetch(&file.named_digest.digest, &file.source)?;
        written.insert(file.named_digest.name, (file.mode, bytes));
    }
    Ok((blobs, written))
}

fn read_blob(digest: TDigest, data: &[u8]) -> BlobReadResponse {
    BlobReadResponse {
        digest: Some(tdigest_to(digest)),
        data: data.to_vec(),
        status: None,
    }
}

fn no_read(_request: &ReadRequest) -> Vec<Vec<u8>> {
    Vec::new()
}

fn permitted(name: &str, hash: &str, size: i64, is_executable: bool) -> NamedDigestWithPermissions {
    NamedDigestWithPermissions {
        named_digest: file(name, hash, size),
        is_executable,
    }
}

fn of_files(file_digests: Vec<NamedDigestWithPermissions>) -> DownloadRequest {
    DownloadRequest {
        inlined_digests: None,
        file_digests: Some(file_digests),
    }
}

fn of_blobs(inlined_digests: Vec<TDigest>) -> DownloadRequest {
    DownloadRequest {
        inlined_digests: Some(inlined_digests),
        file_digests: None,
    }
}

#[test]
fn test_download_named() {
    let (_, written) = download(
        &InstanceName(None),
        of_files(vec![
            permitted("path1", "aa", 3, true),
            permitted("path2", "bb", 3, false),
        ]),
        None,
        10000,
        |request| {
            assert_eq!(request.digests.len(), 2);
            assert_eq!(said(&request.digests[0]), ("aa", 3));
            assert_eq!(said(&request.digests[1]), ("bb", 3));
            assert_eq!(request.acceptable_compressors, vec![COMPRESSOR_IDENTITY]);
            BatchReadBlobsResponse {
                responses: vec![
                    read_blob(digest("bb", 3), &[4, 5, 6]),
                    read_blob(digest("aa", 3), &[1, 2, 3]),
                ],
            }
        },
        no_read,
    )
    .unwrap();
    assert_eq!(written["path1"], (EXECUTABLE_MODE, vec![1, 2, 3]));
    assert_eq!(written["path2"], (FILE_MODE, vec![4, 5, 6]));
    assert_eq!(EXECUTABLE_MODE & 0o111, 0o111);
    assert_eq!(FILE_MODE & 0o111, 0o000);
}

#[test]
fn test_download_large_named() {
    let blob = blob_data();
    let (_, written) = download(
        &InstanceName(None),
        of_files(vec![
            permitted("path1", "aa", 3, true),
            permitted("path2", "xl", 18, false),
        ]),
        None,
        10,
        |request| {
            assert_eq!(request.digests.len(), 1);
            assert_eq!(said(&request.digests[0]), ("aa", 3));
            BatchReadBlobsResponse {
                responses: vec![read_blob(digest("aa", 3), &[1, 2, 3])],
            }
        },
        |request| {
            assert_eq!(request.resource_name, "blobs/xl/18");
            vec![blob[..10].to_vec(), blob[10..].to_vec()]
        },
    )
    .unwrap();
    assert_eq!(written["path1"], (EXECUTABLE_MODE, vec![1, 2, 3]));
    assert_eq!(written["path2"], (FILE_MODE, blob));
}

#[test]
fn test_download_inlined() {
    let (blobs, _) = download(
        &InstanceName(None),
        of_blobs(vec![digest("aa", 3), digest("bb", 3)]),
        None,
        100000,
        |request| {
            assert_eq!(request.digests.len(), 2);
            assert_eq!(said(&request.digests[0]), ("aa", 3));
            assert_eq!(said(&request.digests[1]), ("bb", 3));
            BatchReadBlobsResponse {
                responses: vec![
                    read_blob(digest("bb", 3), &[4, 5, 6]),
                    read_blob(digest("aa", 3), &[1, 2, 3]),
                ],
            }
        },
        no_read,
    )
    .unwrap();
    assert_eq!(blobs.len(), 2);
    assert_eq!(blobs[0].digest.hash, "aa");
    assert_eq!(blobs[0].blob, vec![1, 2, 3]);
    assert_eq!(blobs[1].digest.hash, "bb");
    assert_eq!(blobs[1].blob, vec![4, 5, 6]);
    assert_eq!(blobs[0].status.code, 0);
}

#[test]
fn test_download_multiple_batches() {
    let wanted = ["aa", "bb", "cc", "dd", "dd", "dd"];
    let mut counter = 0;
    let (blobs, _) = download(
        &InstanceName(None),
        of_blobs(wanted.iter().map(|hash| digest(hash, 3)).collect()),
        None,
        7,
        |request| {
            counter += 1;
            BatchReadBlobsResponse {
                responses: request
                    .digests
                    .iter()
                    .map(|d| BlobReadResponse {
                        digest: Some(d.clone()),
                        data: vec![0, 1, 2],
                        status: None,
                    })
                    .collect(),
            }
        },
        no_read,
    )
    .unwrap();
    assert_eq!(blobs.len(), wanted.len());
    assert_eq!(counter, 3);
}

#[test]
fn test_download_large_inlined() {
    let blob = blob_data();
    let (blobs, _) = download(
        &InstanceName(None),
        of_blobs(vec![digest("aa", 3), digest("xl", 18)]),
        None,
        10,
        |request| {
            assert_eq!(request.digests.len(), 1);
            assert_eq!(said(&request.digests[0]), ("aa", 3));
            BatchReadBlobsResponse {
                responses: vec![read_blob(digest("aa", 3), &[1, 2, 3])],
            }
        },
        |request| {
            assert_eq!(request.resource_name, "blobs/xl/18");
            vec![blob[..10].to_vec(), blob[10..].to_vec()]
        },
    )
    .unwrap();
    assert_eq!(blobs.len(), 2);
    assert_eq!(blobs[0].digest.hash, "aa");
    assert_eq!(blobs[0].blob, vec![1, 2, 3]);
    assert_eq!(blobs[1].digest.hash, "xl");
    assert_eq!(blobs[1].blob, blob);
}

#[test]
fn test_download_empty() {
    let (blobs, _) = download(
        &InstanceName(None),
        of_blobs(vec![digest("aa", 0)]),
        None,
        100000,
        |request| {
            assert_eq!(request.digests.len(), 0);
            BatchReadBlobsResponse {
                responses: Vec::new(),
            }
        },
        no_read,
    )
    .unwrap();
    assert_eq!(blobs.len(), 1);
    assert_eq!(blobs[0].digest.hash, "aa");
    assert!(blobs[0].blob.is_empty());
}

#[test]
fn test_download_resource_name() {
    download(
        &InstanceName(Some("instance".to_owned())),
        of_blobs(vec![digest("aa", 0)]),
        None,
        0,
        |_| panic!("not called"),
        |request| {
            assert_eq!(request.resource_name, "instance/blobs/aa/0");
            Vec::new()
        },
    )
    .unwrap();
}

#[test]
fn test_download_compressed() {
    let blob = vec![1; 1024];
    let sent = packed(blob.clone());
    let (blobs, _) = download(
        &InstanceName(None),
        of_blobs(vec![digest("aa", blob.len() as i64)]),
        Some(Compressor::Zstd),
        10,
        |_| panic!("not called"),
        |_| sent.chunks(10).map(|chunk| chunk.to_vec()).collect(),
    )
    .unwrap();
    assert_eq!(blobs[0].blob.len(), blob.len());
    assert_eq!(blobs[0].blob, blob);
}

#[test]
fn segments_rebuild_what_was_sent() {
    let mut segments = SegmentedUpload::new("name".to_owned(), 4);
    for chunk in [&b"ab"[..], &b"c"[..], &b"defg"[..]] {
        segments.push(chunk.to_vec());
    }
    let (segments, sent) = segments.finish();
    assert_eq!(sent, 7);
    let mut rebuilt = vec![0; 7];
    for segment in &segments {
        let at = segment.write_offset as usize;
        rebuilt[at..at + segment.data.len()].copy_from_slice(&segment.data);
        assert_eq!(segment.resource_name, "name");
    }
    assert_eq!(rebuilt, b"abcdefg");
    let finished: Vec<bool> = segments.iter().map(|s| s.finish_write).collect();
    assert_eq!(finished, vec![false, false, true]);
}

#[test]
fn blobs_are_cut_to_the_limit() {
    let lengths = |len: usize, limit: usize| -> Vec<usize> {
        let blob: Vec<u8> = (0..len).map(|i| i as u8).collect();
        let mut segments = SegmentedUpload::new("name".to_owned(), limit);
        segments.push_blob(&blob);
        let (segments, sent) = segments.finish();
        if limit > 0 {
            assert_eq!(sent, len as i64);
            let all: Vec<u8> = segments
                .iter()
                .flat_map(|segment| segment.data.clone())
                .collect();
            assert_eq!(all, blob);
        }
        segments.iter().map(|segment| segment.data.len()).collect()
    };
    assert_eq!(lengths(18, 10), vec![10, 8]);
    assert_eq!(lengths(20, 10), vec![10, 10]);
    assert_eq!(lengths(10, 10), vec![10]);
    assert_eq!(lengths(3, 1), vec![1, 1, 1]);
    assert_eq!(lengths(0, 10), Vec::<usize>::new());
    assert_eq!(lengths(5, 0), Vec::<usize>::new());
}

#[test]
fn every_blob_of_a_request_is_uploaded() {
    let plan = plan_upload(
        &InstanceName(None),
        upload_request(
            vec![inlined("a", &[1; 4]), inlined("b", &[1; 20]), inlined("e", &[])],
            vec![file("c", "c", 5), file("d", "d", 10)],
        ),
        None,
        10,
    );
    let streamed: Vec<&str> = plan.streamed.iter().map(|s| s.hash.as_str()).collect();
    assert_eq!(streamed, vec!["b", "d"]);
    let sizes: Vec<usize> = plan.batches.iter().map(|batch| batch.len()).collect();
    assert_eq!(sizes, vec![2]);
}

#[test]
fn streamed_blobs_get_names_of_their_own() {
    let plan = plan_upload(
        &InstanceName(None),
        upload_request(vec![inlined("b", &[1; 20]), inlined("b", &[1; 20])], Vec::new()),
        None,
        10,
    );
    let names: Vec<&str> = plan
        .streamed
        .iter()
        .map(|s| s.resource_name.as_str())
        .collect();
    assert_ne!(names[0], names[1]);
    for name in names {
        let uuid = name
            .strip_prefix("uploads/")
            .unwrap()
            .strip_suffix("/blobs/b/20")
            .unwrap();
        assert_eq!(uuid.len(), 36);
        assert_eq!(uuid.as_bytes()[14], b'4');
        assert!(uuid
            .chars()
            .all(|c| c == '-' || c.is_ascii_digit() || ('a'..='f').contains(&c)));
    }
}

#[test]
fn batches_stay_below_the_limit() {
    let mut aggregator = BatchUploadReqAggregator::new(10);
    for (hash, size) in [("a", 4), ("b", 5), ("c", 1), ("empty", 0), ("d", 9)] {
        aggregator.push(BatchUploadRequest::File(file(hash, hash, size)));
    }
    let batches: Vec<Vec<String>> = aggregator
        .done()
        .into_iter()
        .map(|batch| {
            batch
                .into_iter()
                .map(|request| match request {
                    BatchUploadRequest::File(file) => file.name,
                    BatchUploadRequest::Blob(_) => panic!("only files were added"),
                })
                .collect()
        })
        .collect();
    assert_eq!(batches, vec![vec!["a", "b"], vec!["c"], vec!["d"]]);
}

#[test]
fn a_batch_that_was_not_stored_is_an_error() {
    let response = BatchUpdateBlobsResponse {
        responses: vec![
            stored(digest("aa", 3)),
            BlobUpdateResponse {
                digest: Some(tdigest_to(digest("bb", 3))),
                status: Some(RpcStatus {
                    code: 8,
                    message: "full".to_owned(),
                }),
            },
            BlobUpdateResponse {
                digest: None,
                status: Some(RpcStatus {
                    code: -1,
                    message: String::new(),
                }),
            },
        ],
    };
    let error = batch_upload_outcome(&response, Vec::new()).unwrap_err();
    let failures = vec![
        "Unable to upload blob 'bb', rpc status code: 8, message: \"full\"".to_owned(),
        "Unable to upload blob 'N/A', rpc status code: -1, message: \"\"".to_owned(),
    ];
    assert_eq!(
        error.to_text(),
        format!("Batch upload failed: {failures:?}")
    );
}

#[test]
fn a_committed_size_that_differs_is_named() {
    assert!(check_committed_size("n", 5, 5).is_ok());
    assert!(check_committed_size("n", -1, 5).is_ok());
    assert_eq!(
        check_committed_size("n", 4, 5).unwrap_err().to_text(),
        "Failed to upload `n`: invalid committed_size from WriteResponse"
    );
}

#[test]
fn a_blob_that_no_batch_brought_is_an_error() {
    let mut received = ReceivedBlobs::new();
    received
        .accept(BatchReadBlobsResponse {
            responses: vec![read_blob(digest("aa", 3), &[1]), read_blob(digest("aa", 3), &[2])],
        })
        .unwrap();
    assert_eq!(received.get(&digest("aa", 3)).unwrap(), vec![2]);
    assert_eq!(
        received.get(&digest("bb", 4)).unwrap_err().to_text(),
        "Did not receive digest data for `bb:4`"
    );
    let unnamed = BlobReadResponse {
        digest: None,
        data: Vec::new(),
        status: None,
    };
    assert_eq!(
        received
            .accept(BatchReadBlobsResponse {
                responses: vec![unnamed],
            })
            .unwrap_err()
            .to_text(),
        "Response digest not found."
    );
    let mut failed = read_blob(digest("cc", 1), &[]);
    failed.status = Some(RpcStatus {
        code: 5,
        message: "gone".to_owned(),
    });
    assert_eq!(
        received
            .accept(BatchReadBlobsResponse {
                responses: vec![failed],
            })
            .unwrap_err()
            .to_text(),
        "gone"
    );
}

#[test]
fn failures_to_download_name_the_blob() {
    assert_eq!(
        read_failed("blobs/aa/3"),
        "Failed to read blobs/aa/3 from Bytestream service"
    );
    assert_eq!(
        download_failed(&file("out", "aa", 3)),
        "Error downloading digest `aa:3` to `out`"
    );
}

#[test]
fn resource_names_spell_out_instance_compressor_and_digest() {
    let instance = InstanceName(Some("inst".to_owned()));
    let blob = digest("aa", -3);
    assert_eq!(
        download_resource_name(&instance, Some(Compressor::Brotli), &blob),
        "inst/compressed-blobs/brotli/aa/-3"
    );
    assert_eq!(
        upload_resource_name(&InstanceName(None), "id", Some(Compressor::Deflate), &blob),
        "uploads/id/compressed-blobs/deflate/aa/-3"
    );
    assert_eq!(
        upload_resource_name(&instance, "id", None, &blob),
        "inst/uploads/id/blobs/aa/-3"
    );
}

#[test]
fn compressors_are_numbered_and_named() {
    assert_eq!(Compressor::from_grpc(COMPRESSOR_IDENTITY), None);
    assert_eq!(
        Compressor::from_grpc(COMPRESSOR_ZSTD),
        Some(Compressor::Zstd)
    );
    assert_eq!(
        Compressor::from_grpc(COMPRESSOR_DEFLATE),
        Some(Compressor::Deflate)
    );
    assert_eq!(
        Compressor::from_grpc(COMPRESSOR_BROTLI),
        Some(Compressor::Brotli)
    );
    assert_eq!(Compressor::from_grpc(99), None);
    assert_eq!(Compressor::Zstd.name(), "zstd");
    assert_eq!(Compressor::Deflate.name(), "deflate");
    assert_eq!(Compressor::Brotli.name(), "brotli");
}
