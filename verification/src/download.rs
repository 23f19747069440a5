//! Downloading blobs: small ones in batches, large ones as streams.
use vstd::prelude::*;
use vstd::string::*;

use crate::batching::{
    batch_contents, batch_size, batched, batches_hold_every_item, contents_follow_one_another,
    flattened, Batcher, Measured,
};
use crate::convert::{check_status, tstatus_ok, RpcStatus, TStatus};
use crate::digest::{digest_text, tdigest_from, tdigest_to, Digest, DigestValue, TDigest};
use crate::error::{Error, RootCause};
use crate::execute::{is_bare, reported};
use crate::keyed::Key;
use crate::names::{
    download_resource_name, instance_text, read_name, Compressor, InstanceName, COMPRESSOR_IDENTITY,
};
use crate::text::signed_decimal;
use crate::upload::NamedDigest;

verus! {

/// The permissions of an executable file.
pub const EXECUTABLE_MODE: u32 = 0o755;

/// The permissions of a file that is not executable.
pub const FILE_MODE: u32 = 0o644;

/// A file to download a blob into.
#[derive(Debug)]
pub struct NamedDigestWithPermissions {
    pub named_digest: NamedDigest,
    pub is_executable: bool,
}

/// Blobs to download, into memory and into files.
#[derive(Debug)]
pub struct DownloadRequest {
    pub inlined_digests: Option<Vec<TDigest>>,
    pub file_digests: Option<Vec<NamedDigestWithPermissions>>,
}

/// A blob that was downloaded into memory.
#[derive(Debug)]
pub struct InlinedDigestWithStatus {
    pub digest: TDigest,
    pub status: TStatus,
    pub blob: Vec<u8>,
}

/// What a download into memory came to.
#[derive(Debug)]
pub struct DownloadResponse {
    pub inlined_blobs: Option<Vec<InlinedDigestWithStatus>>,
}

/// Asks for a batch of blobs.
#[derive(Debug)]
pub struct BatchReadBlobsRequest {
    pub instance_name: String,
    pub digests: Vec<Digest>,
    pub acceptable_compressors: Vec<i32>,
}

/// One blob of a batch.
#[derive(Debug)]
pub struct BlobReadResponse {
    pub digest: Option<Digest>,
    pub data: Vec<u8>,
    pub status: Option<RpcStatus>,
}

/// A batch of blobs.
#[derive(Debug)]
pub struct BatchReadBlobsResponse {
    pub responses: Vec<BlobReadResponse>,
}

/// Asks for a blob as a stream.
#[derive(Debug)]
pub struct ReadRequest {
    pub resource_name: String,
    pub read_offset: i64,
    pub read_limit: i64,
}

impl Measured for Digest {
    open spec fn bytes(&self) -> int {
        self.size_bytes as int
    }

    fn size_in_bytes(&self) -> (size: i64) {
        self.size_bytes
    }
}

/// A blob of this size is read in a batch: it is not empty and stays below the
/// largest batch.
pub open spec fn is_batched(size: i64, max: usize) -> bool {
    size > 0 && (size as usize) < max
}

/// The digests that are read in batches, in order.
pub open spec fn batched_digests(digests: Seq<DigestValue>, max: usize) -> Seq<DigestValue>
    decreases digests.len(),
{
    if digests.len() == 0 {
        Seq::empty()
    } else if is_batched(digests.last().1, max) {
        batched_digests(digests.drop_last(), max).push(digests.last())
    } else {
        batched_digests(digests.drop_last(), max)
    }
}

/// The digests of a request's files.
pub open spec fn file_digests_of(request: DownloadRequest) -> Seq<DigestValue> {
    match request.file_digests {
        Some(files) => files@.map_values(
            |file: NamedDigestWithPermissions| file.named_digest.digest@,
        ),
        None => Seq::empty(),
    }
}

/// The digests of a request's blobs for memory.
pub open spec fn inlined_digests_of(request: DownloadRequest) -> Seq<DigestValue> {
    match request.inlined_digests {
        Some(digests) => digests@.map_values(|digest: TDigest| digest@),
        None => Seq::empty(),
    }
}

/// Digests on the wire, by what they say.
pub open spec fn digest_values(digests: Seq<Digest>) -> Seq<DigestValue> {
    digests.map_values(|digest: Digest| digest@)
}

/// `request` asks instance `instance` for `batch`, uncompressed.
pub open spec fn asks_for(
    instance: Option<Seq<char>>,
    batch: Seq<Digest>,
    request: BatchReadBlobsRequest,
) -> bool {
    &&& request.instance_name@ == instance_text(instance)
    &&& request.digests@ == batch
    &&& request.acceptable_compressors@ == seq![COMPRESSOR_IDENTITY]
}

/// `requests` ask for the digests in `wanted`, batched by `max`.
pub open spec fn ask_for_all(
    instance: Option<Seq<char>>,
    wanted: Seq<DigestValue>,
    max: usize,
    requests: Seq<BatchReadBlobsRequest>,
) -> bool {
    exists|digests: Seq<Digest>|
        {
            &&& #[trigger] digest_values(digests) == batched_digests(wanted, max)
            &&& requests.len() == batched(digests, max as i64 as int).all().len()
            &&& forall|i: int|
                0 <= i < requests.len() ==> asks_for(
                    instance,
                    batched(digests, max as i64 as int).all()[i],
                    #[trigger] requests[i],
                )
        }
}

fn add_digest(
    batcher: &mut Batcher<Digest>,
    digest: &TDigest,
    max: usize,
    Ghost(wanted): Ghost<Seq<DigestValue>>,
    Ghost(digests): Ghost<Seq<Digest>>,
) -> (added: Ghost<Seq<Digest>>)
    requires
        old(batcher).wf(),
        old(batcher).limit() == max as i64,
        old(batcher)@ == batched(digests, max as i64 as int),
        digest_values(digests) == batched_digests(wanted, max),
    ensures
        final(batcher).wf(),
        final(batcher).limit() == max as i64,
        final(batcher)@ == batched(added@, max as i64 as int),
        digest_values(added@) == batched_digests(wanted.push(digest@), max),
{
    assert(wanted.push(digest@).drop_last() =~= wanted);
    let size: i64 = digest.size_in_bytes;
    if size <= 0 {
        return Ghost(digests);
    }
    if size as usize >= max {
        return Ghost(digests);
    }
    let wire = tdigest_to(digest.clone());
    let ghost more = digests.push(wire);
    proof {
        assert(more.drop_last() =~= digests);
        assert(digest_values(more) =~= digest_values(digests).push(wire@));
    }
    batcher.push(wire);
    Ghost(more)
}

/// The requests that read a request's small blobs, those for files first. A blob
/// that is empty or reaches the largest batch is not among them.
pub fn plan_batch_reads(
    instance_name: &InstanceName,
    request: &DownloadRequest,
    max_total_batch_size: usize,
) -> (requests: Vec<BatchReadBlobsRequest>)
    ensures
        ask_for_all(
            instance_name@,
            file_digests_of(*request) + inlined_digests_of(*request),
            max_total_batch_size,
            requests@,
        ),
{
    let mut batcher: Batcher<Digest> = Batcher::new(max_total_batch_size as i64);
    let ghost mut wanted: Seq<DigestValue> = Seq::empty();
    let ghost mut digests: Seq<Digest> = Seq::empty();
    proof {
        assert(digest_values(digests) =~= Seq::empty());
    }
    if let Some(files) = &request.file_digests {
        let mut i: usize = 0;
        assert(wanted =~= file_digests_of(*request).take(0));
        while i < files.len()
            invariant
                request.file_digests == Some(*files),
                i <= files@.len(),
                wanted == file_digests_of(*request).take(i as int),
                batcher.wf(),
                batcher.limit() == max_total_batch_size as i64,
                batcher@ == batched(digests, max_total_batch_size as i64 as int),
                digest_values(digests) == batched_digests(wanted, max_total_batch_size),
            decreases files@.len() - i,
        {
            let digest = &files[i].named_digest.digest;
            let added = add_digest(
                &mut batcher,
                digest,
                max_total_batch_size,
                Ghost(wanted),
                Ghost(digests),
            );
            proof {
                wanted = wanted.push(digest@);
                digests = added@;
                assert(wanted =~= file_digests_of(*request).take(i + 1));
            }
            i = i + 1;
        }
    }
    let ghost of_files = wanted;
    assert(of_files =~= file_digests_of(*request));
    if let Some(inlined) = &request.inlined_digests {
        let mut i: usize = 0;
        assert(wanted =~= of_files + inlined_digests_of(*request).take(0));
        while i < inlined.len()
            invariant
                request.inlined_digests == Some(*inlined),
                i <= inlined@.len(),
                wanted == of_files + inlined_digests_of(*request).take(i as int),
                batcher.wf(),
                batcher.limit() == max_total_batch_size as i64,
                batcher@ == batched(digests, max_total_batch_size as i64 as int),
                digest_values(digests) == batched_digests(wanted, max_total_batch_size),
            decreases inlined@.len() - i,
        {
            let digest = &inlined[i];
            let added = add_digest(
                &mut batcher,
                digest,
                max_total_batch_size,
                Ghost(wanted),
                Ghost(digests),
            );
            proof {
                wanted = wanted.push(digest@);
                digests = added@;
                assert(wanted =~= of_files + inlined_digests_of(*request).take(i + 1));
            }
            i = i + 1;
        }
    }
    assert(wanted =~= file_digests_of(*request) + inlined_digests_of(*request));
    let batches = batcher.done();
    let ghost all = batched(digests, max_total_batch_size as i64 as int).all();
    let ghost contents = batches@;
    let mut requests: Vec<BatchReadBlobsRequest> = Vec::new();
    for batch in it: batches.into_iter()
        invariant
            it.seq() == contents,
            batch_contents(contents) == all,
            requests@.len() == it.index(),
            forall|i: int|
                0 <= i < requests@.len() ==> asks_for(
                    instance_name@,
                    all[i],
                    #[trigger] requests@[i],
                ),
    {
        assert(batch_contents(contents)[it.index() as int] == batch@);
        let mut acceptable_compressors: Vec<i32> = Vec::new();
        acceptable_compressors.push(COMPRESSOR_IDENTITY);
        assert(acceptable_compressors@ =~= seq![COMPRESSOR_IDENTITY]);
        requests.push(
            BatchReadBlobsRequest {
                instance_name: instance_name.as_str().to_owned(),
                digests: batch,
                acceptable_compressors,
            },
        );
    }
    assert(digest_values(digests) == batched_digests(wanted, max_total_batch_size));
    requests
}

/// The digests that requests ask for, request by request.
pub open spec fn asked_batches(requests: Seq<BatchReadBlobsRequest>) -> Seq<Seq<Digest>> {
    requests.map_values(|request: BatchReadBlobsRequest| request.digests@)
}

/// Every blob that is read in a batch is asked for once, in order, and no request
/// asks for several blobs that together reach the largest batch.
pub proof fn batch_reads_cover_the_small_blobs(
    instance: Option<Seq<char>>,
    wanted: Seq<DigestValue>,
    max: usize,
    requests: Seq<BatchReadBlobsRequest>,
)
    requires
        ask_for_all(instance, wanted, max, requests),
    ensures
        digest_values(flattened(asked_batches(requests))) == batched_digests(wanted, max),
        forall|i: int|
            0 <= i < requests.len() ==> {
                let batch = (#[trigger] requests[i]).digests@;
                batch.len() > 1 ==> batch_size(batch) < max as i64
            },
{
    let digests = choose|digests: Seq<Digest>|
        {
            &&& #[trigger] digest_values(digests) == batched_digests(wanted, max)
            &&& requests.len() == batched(digests, max as i64 as int).all().len()
            &&& forall|i: int|
                0 <= i < requests.len() ==> asks_for(
                    instance,
                    batched(digests, max as i64 as int).all()[i],
                    #[trigger] requests[i],
                )
        };
    let all = batched(digests, max as i64 as int).all();
    batches_hold_every_item(digests, max as i64 as int);
    assert forall|i: int| 0 <= i < requests.len() implies (#[trigger] requests[i]).digests@
        == all[i] by {
        assert(asks_for(instance, all[i], requests[i]));
    }
    assert(asked_batches(requests) =~= all);
}

/// Where the bytes of a blob come from.
#[derive(Debug)]
pub enum BlobSource {
    /// From the batches that were read.
    Batched,
    /// From a stream of its own.
    Streamed(ReadRequest),
}

/// A blob to download into memory.
#[derive(Debug)]
pub struct InlinedDownload {
    pub digest: TDigest,
    pub source: BlobSource,
}

/// A blob to download into a file.
#[derive(Debug)]
pub struct FileDownload {
    pub named_digest: NamedDigest,
    pub mode: u32,
    pub source: BlobSource,
}

/// How a request is carried out.
#[derive(Debug)]
pub struct DownloadPlan {
    pub batches: Vec<BatchReadBlobsRequest>,
    pub inlined: Vec<InlinedDownload>,
    pub files: Vec<FileDownload>,
}

/// `source` is a stream of the blob's own where `streamed` says so, and the batches
/// otherwise.
pub open spec fn is_source(
    instance: Option<Seq<char>>,
    compressor: Option<Compressor>,
    digest: DigestValue,
    streamed: bool,
    source: BlobSource,
) -> bool {
    if streamed {
        &&& source matches BlobSource::Streamed(request)
        &&& request.resource_name@ == read_name(instance, compressor, digest)
        &&& request.read_offset == 0
        &&& request.read_limit == 0
    } else {
        source is Batched
    }
}

/// `plan` carries out `request`.
pub open spec fn is_download_plan(
    instance: Option<Seq<char>>,
    compressor: Option<Compressor>,
    max: usize,
    request: DownloadRequest,
    plan: DownloadPlan,
) -> bool {
    &&& ask_for_all(
        instance,
        file_digests_of(request) + inlined_digests_of(request),
        max,
        plan.batches@,
    )
    &&& plan.inlined@.len() == inlined_digests_of(request).len()
    &&& forall|i: int|
        0 <= i < plan.inlined@.len() ==> {
            let digest = inlined_digests_of(request)[i];
            &&& (#[trigger] plan.inlined@[i]).digest@ == digest
            &&& is_source(
                instance,
                compressor,
                digest,
                digest.1 as usize >= max,
                plan.inlined@[i].source,
            )
        }
    &&& plan.files@.len() == file_digests_of(request).len()
    &&& forall|i: int|
        0 <= i < plan.files@.len() ==> {
            let file = request.file_digests->0@[i];
            &&& (#[trigger] plan.files@[i]).named_digest == file.named_digest
            &&& plan.files@[i].mode == if file.is_executable {
                EXECUTABLE_MODE
            } else {
                FILE_MODE
            }
            &&& is_source(
                instance,
                compressor,
                file.named_digest.digest@,
                file.named_digest.digest.size_in_bytes >= max as i64,
                plan.files@[i].source,
            )
        }
}

fn read_request(
    instance_name: &InstanceName,
    compressor: Option<Compressor>,
    digest: &TDigest,
) -> (request: ReadRequest)
    ensures
        request.resource_name@ == read_name(instance_name@, compressor, digest@),
        request.read_offset == 0,
        request.read_limit == 0,
{
    ReadRequest {
        resource_name: download_resource_name(instance_name, compressor, digest),
        read_offset: 0,
        read_limit: 0,
    }
}

/// Plans a download: small blobs are read in batches, blobs that reach the largest
/// batch as streams.
pub fn plan_download(
    instance_name: &InstanceName,
    request: DownloadRequest,
    bystream_compressor: Option<Compressor>,
    max_total_batch_size: usize,
) -> (plan: DownloadPlan)
    ensures
        is_download_plan(
            instance_name@,
            bystream_compressor,
            max_total_batch_size,
            request,
            plan,
        ),
{
    let batches = plan_batch_reads(instance_name, &request, max_total_batch_size);
    let mut inlined: Vec<InlinedDownload> = Vec::new();
    if let Some(digests) = request.inlined_digests {
        let ghost all = digests@;
        for digest in it: digests.into_iter()
            invariant
                it.seq() == all,
                inlined@.len() == it.index(),
                forall|i: int|
                    0 <= i < inlined@.len() ==> {
                        &&& (#[trigger] inlined@[i]).digest@ == all[i]@
                        &&& is_source(
                            instance_name@,
                            bystream_compressor,
                            all[i]@,
                            all[i].size_in_bytes as usize >= max_total_batch_size,
                            inlined@[i].source,
                        )
                    },
        {
            let source = if digest.size_in_bytes as usize >= max_total_batch_size {
                BlobSource::Streamed(read_request(instance_name, bystream_compressor, &digest))
            } else {
                BlobSource::Batched
            };
            inlined.push(InlinedDownload { digest, source });
        }
    }
    let mut files: Vec<FileDownload> = Vec::new();
    if let Some(file_digests) = request.file_digests {
        let ghost all = file_digests@;
        for file in it: file_digests.into_iter()
            invariant
                it.seq() == all,
                files@.len() == it.index(),
                forall|i: int|
                    0 <= i < files@.len() ==> {
                        &&& (#[trigger] files@[i]).named_digest == all[i].named_digest
                        &&& files@[i].mode == if all[i].is_executable {
                            EXECUTABLE_MODE
                        } else {
                            FILE_MODE
                        }
                        &&& is_source(
                            instance_name@,
                            bystream_compressor,
                            all[i].named_digest.digest@,
                            all[i].named_digest.digest.size_in_bytes >= max_total_batch_size as i64,
                            files@[i].source,
                        )
                    },
        {
            let mode: u32 = if file.is_executable {
                EXECUTABLE_MODE
            } else {
                FILE_MODE
            };
            let source = if file.named_digest.digest.size_in_bytes < max_total_batch_size as i64 {
                BlobSource::Batched
            } else {
                BlobSource::Streamed(
                    read_request(instance_name, bystream_compressor, &file.named_digest.digest),
                )
            };
            files.push(FileDownload { named_digest: file.named_digest, mode, source });
        }
    }
    DownloadPlan { batches, inlined, files }
}

/// Blobs that batches brought, by digest. A later blob replaces an earlier one of
/// the same digest.
#[derive(Debug)]
pub struct ReceivedBlobs {
    blobs: Vec<(TDigest, Vec<u8>)>,
}

/// The blobs by digest, later ones in place of earlier ones.
pub open spec fn latest_blobs(blobs: Seq<(TDigest, Vec<u8>)>) -> Map<DigestValue, Seq<u8>>
    decreases blobs.len(),
{
    if blobs.len() == 0 {
        Map::empty()
    } else {
        latest_blobs(blobs.drop_last()).insert(blobs.last().0@, blobs.last().1@)
    }
}

impl View for ReceivedBlobs {
    type V = Map<DigestValue, Seq<u8>>;

    closed spec fn view(&self) -> Map<DigestValue, Seq<u8>> {
        latest_blobs(self.blobs@)
    }
}

/// The response names its blob and reports success.
pub open spec fn is_received(response: BlobReadResponse) -> bool {
    response.digest is Some && (response.status is None || response.status->0.code == 0)
}

/// `blobs` with those of `responses`.
pub open spec fn with_received(
    blobs: Map<DigestValue, Seq<u8>>,
    responses: Seq<BlobReadResponse>,
) -> Map<DigestValue, Seq<u8>>
    decreases responses.len(),
{
    if responses.len() == 0 {
        blobs
    } else {
        with_received(blobs, responses.drop_last()).insert(
            responses.last().digest->0@,
            responses.last().data@,
        )
    }
}

/// `error` is why a response brings no blob.
pub open spec fn is_read_failure(response: BlobReadResponse, error: Error) -> bool {
    if response.digest is None {
        error.says("Response digest not found."@)
    } else {
        is_bare(error, reported(response.status->0))
    }
}

/// Taking in `responses` comes to `accepted` and leads from the blobs `before` to those
/// in `after`: all of them, or those ahead of the first response that brings none.
pub open spec fn takes_in(
    before: Map<DigestValue, Seq<u8>>,
    responses: Seq<BlobReadResponse>,
    after: Map<DigestValue, Seq<u8>>,
    accepted: Result<(), Error>,
) -> bool {
    match accepted {
        Ok(_) => {
            &&& forall|i: int| 0 <= i < responses.len() ==> is_received(#[trigger] responses[i])
            &&& after == with_received(before, responses)
        },
        Err(error) => exists|i: int|
            {
                &&& 0 <= i < responses.len()
                &&& !is_received(#[trigger] responses[i])
                &&& forall|j: int| 0 <= j < i ==> is_received(#[trigger] responses[j])
                &&& is_read_failure(responses[i], error)
                &&& after == with_received(before, responses.take(i))
            },
    }
}

/// What is said of a blob that no batch brought.
pub open spec fn not_received_text(digest: DigestValue) -> Seq<char> {
    "Did not receive digest data for `"@ + digest_text(digest) + "`"@
}

impl ReceivedBlobs {
    /// No blobs yet.
    pub fn new() -> (received: Self)
        ensures
            received@ == Map::<DigestValue, Seq<u8>>::empty(),
    {
        ReceivedBlobs { blobs: Vec::new() }
    }

    fn insert(&mut self, digest: TDigest, data: Vec<u8>)
        ensures
            final(self)@ == old(self)@.insert(digest@, data@),
    {
        let ghost before = self.blobs@;
        self.blobs.push((digest, data));
        assert(self.blobs@.drop_last() =~= before);
    }

    /// Takes in a batch. Fails at the first response that names no blob or reports a
    /// failure.
    pub fn accept(&mut self, response: BatchReadBlobsResponse) -> (accepted: Result<(), Error>)
        ensures
            takes_in(old(self)@, response.responses@, final(self)@, accepted),
    {
        let ghost all = response.responses@;
        let ghost before = self@;
        assert(all.take(0) =~= Seq::empty());
        for r in it: response.responses.into_iter()
            invariant
                it.seq() == all,
                forall|i: int| 0 <= i < it.index() ==> is_received(#[trigger] all[i]),
                before == old(self)@,
                self@ == with_received(before, all.take(it.index() as int)),
        {
            assert(all[it.index() as int] == r);
            assert(all.take(it.index() + 1).drop_last() =~= all.take(it.index() as int));
            let digest = match r.digest {
                Some(digest) => tdigest_from(digest),
                None => {
                    return Err(Error::msg("Response digest not found.".to_owned()));
                },
            };
            if let Some(status) = r.status {
                if let Err(error) = check_status(status) {
                    return Err(Error::new(RootCause::Client(error)));
                }
            }
            self.insert(digest, r.data);
        }
        assert(all.take(all.len() as int) =~= all);
        Ok(())
    }

    /// The bytes of a blob. An empty blob needs no batch; any other that no batch
    /// brought is an error.
    pub fn get(&self, digest: &TDigest) -> (data: Result<Vec<u8>, Error>)
        ensures
            digest.size_in_bytes == 0 ==> data is Ok && data->Ok_0@ == Seq::<u8>::empty(),
            digest.size_in_bytes != 0 && self@.contains_key(digest@) ==> {
                &&& data is Ok
                &&& data->Ok_0@ == self@[digest@]
            },
            digest.size_in_bytes != 0 && !self@.contains_key(digest@) ==> {
                &&& data is Err
                &&& data->Err_0.says(not_received_text(digest@))
            },
    {
        if digest.size_in_bytes == 0 {
            return Ok(Vec::new());
        }
        let mut i: usize = self.blobs.len();
        assert(self.blobs@.take(i as int) =~= self.blobs@);
        while i > 0
            invariant
                i <= self.blobs@.len(),
                digest.size_in_bytes != 0,
                self@.contains_key(digest@) == latest_blobs(
                    self.blobs@.take(i as int),
                ).contains_key(digest@),
                self@.contains_key(digest@) ==> self@[digest@] == latest_blobs(
                    self.blobs@.take(i as int),
                )[digest@],
            decreases i,
        {
            i = i - 1;
            assert(self.blobs@.take(i + 1).drop_last() =~= self.blobs@.take(i as int));
            if self.blobs[i].0.same_key(digest) {
                let data = self.blobs[i].1.clone();
                assert(data@ =~= self.blobs@[i as int].1@);
                return Ok(data);
            }
        }
        let mut text = "Did not receive digest data for `".to_owned();
        text.append(digest.to_text().as_str());
        text.append("`");
        Err(Error::msg(text))
    }
}

/// A blob that batches brought can be read back, byte for byte; of several under
/// one digest, the last.
pub proof fn received_blobs_read_back(
    before: Map<DigestValue, Seq<u8>>,
    responses: Seq<BlobReadResponse>,
    i: int,
)
    requires
        0 <= i < responses.len(),
        forall|j: int|
            i < j < responses.len() ==> (#[trigger] responses[j]).digest->0@
                != responses[i].digest->0@,
    ensures
        with_received(before, responses).contains_key(responses[i].digest->0@),
        with_received(before, responses)[responses[i].digest->0@] == responses[i].data@,
    decreases responses.len(),
{
    let n = responses.len() - 1;
    if i < n {
        assert(responses[n].digest->0@ != responses[i].digest->0@);
        assert forall|j: int| i < j < responses.drop_last().len() implies (
        #[trigger] responses.drop_last()[j]).digest->0@
            != responses.drop_last()[i].digest->0@ by {
            assert(responses[j].digest->0@ != responses[i].digest->0@);
        }
        received_blobs_read_back(before, responses.drop_last(), i);
    }
}

/// The report of a blob that was downloaded into memory.
pub fn inlined_blob(digest: TDigest, blob: Vec<u8>) -> (report: InlinedDigestWithStatus)
    ensures
        report.digest == digest,
        report.status.is_ok_with(Seq::empty()),
        report.blob == blob,
{
    InlinedDigestWithStatus { digest, status: tstatus_ok(), blob }
}

/// What is said of a stream that cannot be read.
pub fn read_failed(resource_name: &str) -> (text: String)
    ensures
        text@ == "Failed to read "@ + resource_name@ + " from Bytestream service"@,
{
    let mut text = "Failed to read ".to_owned();
    text.append(resource_name);
    text.append(" from Bytestream service");
    text
}

/// What is said of a file that cannot be downloaded.
pub fn download_failed(file: &NamedDigest) -> (text: String)
    ensures
        text@ == "Error downloading digest `"@ + digest_text(file.digest@) + "` to `"@ + file.name@
            + "`"@,
{
    let mut text = "Error downloading digest `".to_owned();
    text.append(file.digest.to_text().as_str());
    text.append("` to `");
    text.append(file.name.as_str());
    text.append("`");
    text
}

proof fn batched_digests_contain(digests: Seq<DigestValue>, max: usize, i: int)
    requires
        0 <= i < digests.len(),
        is_batched(digests[i].1, max),
    ensures
        batched_digests(digests, max).contains(digests[i]),
    decreases digests.len(),
{
    let n = digests.len() - 1;
    let rest = batched_digests(digests.drop_last(), max);
    if i == n {
        assert(batched_digests(digests, max)[rest.len() as int] == digests[i]);
    } else {
        batched_digests_contain(digests.drop_last(), max, i);
        let k = choose|k: int| 0 <= k < rest.len() && rest[k] == digests[i];
        assert(batched_digests(digests, max)[k] == digests[i]);
    }
}

/// Every blob that is not empty and that a plan takes from the batches is asked for
/// in one of them.
pub proof fn batched_sources_are_asked_for(digests: Seq<DigestValue>, max: usize, i: int)
    requires
        max <= i64::MAX,
        0 <= i < digests.len(),
        digests[i].1 > 0,
        digests[i].1 < max as i64,
    ensures
        batched_digests(digests, max).contains(digests[i]),
        !(digests[i].1 as usize >= max),
{
    batched_digests_contain(digests, max, i);
}

/// Every file is planned once, in order, under its own name and digest, and with the
/// permissions that the request asks for: the file can be executed exactly where the
/// request says so, whatever its size and wherever its bytes come from.
pub proof fn files_keep_their_permissions(
    instance_name: InstanceName,
    request: DownloadRequest,
    compressor: Option<Compressor>,
    max: usize,
    plan: DownloadPlan,
    files: Seq<NamedDigestWithPermissions>,
    i: int,
)
    requires
        call_ensures(plan_download, (&instance_name, request, compressor, max), plan),
        request.file_digests matches Some(given) ==> files == given@,
        request.file_digests is None ==> files.len() == 0,
    ensures
        plan.files@.len() == files.len(),
        0 <= i < files.len() ==> {
            let file = plan.files@[i];
            &&& file.named_digest.name@ == files[i].named_digest.name@
            &&& file.named_digest.digest@ == files[i].named_digest.digest@
            &&& files[i].is_executable ==> file.mode == 0o755u32
            &&& !files[i].is_executable ==> file.mode == 0o644u32
            &&& files[i].is_executable <==> file.mode & 0o111u32 != 0
        },
{
    assert(0o755u32 & 0o111u32 != 0) by (bit_vector);
    assert(0o644u32 & 0o111u32 == 0) by (bit_vector);
}

/// A blob that reaches the largest batch is read whole as a stream of its own, under
/// its own name; any smaller one comes from the batches.
pub proof fn large_blobs_are_streamed_whole(
    instance_name: InstanceName,
    request: DownloadRequest,
    compressor: Option<Compressor>,
    max: usize,
    plan: DownloadPlan,
    digest: TDigest,
    source: BlobSource,
    i: int,
)
    requires
        call_ensures(plan_download, (&instance_name, request, compressor, max), plan),
        max <= i64::MAX,
        0 <= digest.size_in_bytes <= usize::MAX,
        ({
            ||| {
                &&& request.file_digests is Some
                &&& 0 <= i < request.file_digests->0@.len()
                &&& digest == request.file_digests->0@[i].named_digest.digest
                &&& source == plan.files@[i].source
            }
            ||| {
                &&& request.inlined_digests is Some
                &&& 0 <= i < request.inlined_digests->0@.len()
                &&& digest == request.inlined_digests->0@[i]
                &&& source == plan.inlined@[i].source
            }
        }),
    ensures
        digest.size_in_bytes >= max <==> source is Streamed,
        digest.size_in_bytes < max <==> source is Batched,
        source matches BlobSource::Streamed(read) ==> {
            &&& read.read_offset == 0
            &&& read.read_limit == 0
            &&& read.resource_name@ == read_name(instance_name@, compressor, digest@)
        },
{
    if request.file_digests is Some && 0 <= i < request.file_digests->0@.len() {
        assert(plan.files@[i].named_digest == request.file_digests->0@[i].named_digest);
    }
    if request.inlined_digests is Some && 0 <= i < request.inlined_digests->0@.len() {
        assert(inlined_digests_of(request)[i] == request.inlined_digests->0@[i]@);
        assert(plan.inlined@[i].digest@ == inlined_digests_of(request)[i]);
    }
}

/// Every blob for memory is planned once, in order, under its digest.
pub proof fn blobs_for_memory_keep_their_order(
    instance_name: InstanceName,
    request: DownloadRequest,
    compressor: Option<Compressor>,
    max: usize,
    plan: DownloadPlan,
    digests: Seq<TDigest>,
    i: int,
)
    requires
        call_ensures(plan_download, (&instance_name, request, compressor, max), plan),
        request.inlined_digests matches Some(given) ==> digests == given@,
        request.inlined_digests is None ==> digests.len() == 0,
    ensures
        plan.inlined@.len() == digests.len(),
        0 <= i < digests.len() ==> plan.inlined@[i].digest@ == digests[i]@,
{
    if 0 <= i < digests.len() {
        assert(inlined_digests_of(request)[i] == digests[i]@);
    }
}

proof fn only_batched_digests_are_kept(digests: Seq<DigestValue>, max: usize)
    ensures
        batched_digests(digests, max) == digests.filter(
            |digest: DigestValue| digest.1 > 0 && (digest.1 as usize) < max,
        ),
    decreases digests.len(),
{
    reveal(Seq::filter);
    if digests.len() > 0 {
        only_batched_digests_are_kept(digests.drop_last(), max);
    }
}

/// The digests that a plan's batches ask for are those of the request's blobs that are
/// not empty and stay below the largest batch, files first, each as often and in the
/// order of the request. Every batch is for the configured instance and takes
/// uncompressed data only, and several blobs in one stay below the limit together.
pub proof fn batches_ask_for_the_small_blobs(
    instance_name: InstanceName,
    request: DownloadRequest,
    compressor: Option<Compressor>,
    max: usize,
    plan: DownloadPlan,
    files: Seq<NamedDigestWithPermissions>,
    inlined: Seq<TDigest>,
    b: int,
)
    requires
        call_ensures(plan_download, (&instance_name, request, compressor, max), plan),
        request.file_digests matches Some(given) ==> files == given@,
        request.file_digests is None ==> files.len() == 0,
        request.inlined_digests matches Some(given) ==> inlined == given@,
        request.inlined_digests is None ==> inlined.len() == 0,
    ensures
        plan.batches@.map_values(|batch: BatchReadBlobsRequest| batch.digests@).flatten().map_values(
            |digest: Digest| (digest.hash@, digest.size_bytes),
        ) == (files.map_values(
            |file: NamedDigestWithPermissions|
                (file.named_digest.digest.hash@, file.named_digest.digest.size_in_bytes),
        ) + inlined.map_values(
            |digest: TDigest| (digest.hash@, digest.size_in_bytes),
        )).filter(|digest: DigestValue| digest.1 > 0 && (digest.1 as usize) < max),
        0 <= b < plan.batches@.len() ==> {
            let batch = plan.batches@[b];
            &&& instance_name.0 matches Some(name) ==> batch.instance_name@ == name@
            &&& instance_name.0 is None ==> batch.instance_name@.len() == 0
            &&& batch.acceptable_compressors@ == seq![0i32]
            &&& batch.digests@.len() > 1 ==> batch_size(batch.digests@) < max as i64
        },
{
    let wanted = file_digests_of(request) + inlined_digests_of(request);
    batch_reads_cover_the_small_blobs(instance_name@, wanted, max, plan.batches@);
    only_batched_digests_are_kept(wanted, max);
    let asked = asked_batches(plan.batches@);
    contents_follow_one_another(asked);
    assert(plan.batches@.map_values(|batch: BatchReadBlobsRequest| batch.digests@) =~= asked);
    assert(asked.flatten().map_values(|digest: Digest| (digest.hash@, digest.size_bytes))
        =~= digest_values(flattened(asked)));
    assert(files.map_values(
        |file: NamedDigestWithPermissions|
            (file.named_digest.digest.hash@, file.named_digest.digest.size_in_bytes),
    ) =~= file_digests_of(request));
    assert(inlined.map_values(|digest: TDigest| (digest.hash@, digest.size_in_bytes))
        =~= inlined_digests_of(request));
    if 0 <= b < plan.batches@.len() {
        let digests = choose|digests: Seq<Digest>|
            {
                &&& #[trigger] digest_values(digests) == batched_digests(wanted, max)
                &&& plan.batches@.len() == batched(digests, max as i64 as int).all().len()
                &&& forall|i: int|
                    0 <= i < plan.batches@.len() ==> asks_for(
                        instance_name@,
                        batched(digests, max as i64 as int).all()[i],
                        #[trigger] plan.batches@[i],
                    )
            };
        assert(asks_for(
            instance_name@,
            batched(digests, max as i64 as int).all()[b],
            plan.batches@[b],
        ));
    }
}

/// Whatever blob a plan takes from the batches, and is not empty, some batch asks for.
pub proof fn blobs_from_batches_are_asked_for(
    instance_name: InstanceName,
    request: DownloadRequest,
    compressor: Option<Compressor>,
    max: usize,
    plan: DownloadPlan,
    digest: DigestValue,
) -> (place: (int, int))
    requires
        call_ensures(plan_download, (&instance_name, request, compressor, max), plan),
        (request.file_digests is Some && exists|i: int|
            0 <= i < request.file_digests->0@.len() && (
            #[trigger] request.file_digests->0@[i]).named_digest.digest@ == digest) || (
        request.inlined_digests is Some && exists|i: int|
            0 <= i < request.inlined_digests->0@.len() && (
            #[trigger] request.inlined_digests->0@[i])@ == digest),
        0 < digest.1 <= usize::MAX,
        digest.1 < max,
    ensures
        0 <= place.0 < plan.batches@.len(),
        0 <= place.1 < plan.batches@[place.0].digests@.len(),
        plan.batches@[place.0].digests@[place.1]@ == digest,
{
    let of_files = file_digests_of(request);
    let of_inlined = inlined_digests_of(request);
    let wanted = of_files + of_inlined;
    let at = if request.file_digests is Some && exists|i: int|
        0 <= i < request.file_digests->0@.len() && (
        #[trigger] request.file_digests->0@[i]).named_digest.digest@ == digest {
        let i = choose|i: int|
            0 <= i < request.file_digests->0@.len() && (
            #[trigger] request.file_digests->0@[i]).named_digest.digest@ == digest;
        assert(of_files[i] == digest);
        i
    } else {
        let i = choose|i: int|
            0 <= i < request.inlined_digests->0@.len() && (
            #[trigger] request.inlined_digests->0@[i])@ == digest;
        assert(of_inlined[i] == digest);
        of_files.len() + i
    };
    assert(wanted[at] == digest);
    batched_digests_contain(wanted, max, at);
    batch_reads_cover_the_small_blobs(instance_name@, wanted, max, plan.batches@);
    let asked = asked_batches(plan.batches@);
    let all = flattened(asked);
    let k = choose|k: int| 0 <= k < digest_values(all).len() && digest_values(all)[k] == digest;
    let (b, j) = flattened_item_has_a_place(asked, k);
    assert(asked[b] == plan.batches@[b].digests@);
    (b, j)
}

proof fn flattened_item_has_a_place(batches: Seq<Seq<Digest>>, k: int) -> (place: (int, int))
    requires
        0 <= k < flattened(batches).len(),
    ensures
        0 <= place.0 < batches.len(),
        0 <= place.1 < batches[place.0].len(),
        batches[place.0][place.1] == flattened(batches)[k],
    decreases batches.len(),
{
    let before = flattened(batches.drop_last());
    if k < before.len() {
        flattened_item_has_a_place(batches.drop_last(), k)
    } else {
        (batches.len() - 1, k - before.len())
    }
}

/// A batch is taken in whole exactly where every response names its blob and reports
/// success. Then each blob reads back, the last of several under one digest, and blobs
/// that the batch does not name stay.
pub proof fn good_batches_are_taken_in(
    before: Map<DigestValue, Seq<u8>>,
    responses: Seq<BlobReadResponse>,
    after: Map<DigestValue, Seq<u8>>,
    accepted: Result<(), Error>,
    i: int,
    other: DigestValue,
)
    requires
        takes_in(before, responses, after, accepted),
    ensures
        accepted is Ok <==> forall|j: int|
            0 <= j < responses.len() ==> (#[trigger] responses[j]).digest is Some && (
            responses[j].status is None || responses[j].status->0.code == 0),
        accepted is Ok && 0 <= i < responses.len() && (forall|j: int|
            i < j < responses.len() ==> (#[trigger] responses[j]).digest->0@
                != responses[i].digest->0@) ==> after.contains_key(responses[i].digest->0@)
            && after[responses[i].digest->0@] == responses[i].data@,
        (forall|j: int|
            0 <= j < responses.len() ==> (#[trigger] responses[j]).digest->0@ != other) ==> (
        after.contains_key(other) <==> before.contains_key(other)) && (before.contains_key(other)
            ==> after[other] == before[other]),
{
    if accepted is Ok {
        if 0 <= i < responses.len() && (forall|j: int|
            i < j < responses.len() ==> (#[trigger] responses[j]).digest->0@
                != responses[i].digest->0@) {
            received_blobs_read_back(before, responses, i);
        }
        other_blobs_stay(before, responses, other);
    } else {
        let error = accepted->Err_0;
        let bad = choose|bad: int|
            {
                &&& 0 <= bad < responses.len()
                &&& !is_received(#[trigger] responses[bad])
                &&& forall|j: int| 0 <= j < bad ==> is_received(#[trigger] responses[j])
                &&& is_read_failure(responses[bad], error)
                &&& after == with_received(before, responses.take(bad))
            };
        if forall|j: int|
            0 <= j < responses.len() ==> (#[trigger] responses[j]).digest->0@ != other {
            assert forall|j: int| 0 <= j < responses.take(bad).len() implies (
            #[trigger] responses.take(bad)[j]).digest->0@ != other by {
                assert(responses[j].digest->0@ != other);
            }
        }
        other_blobs_stay(before, responses.take(bad), other);
    }
}

proof fn other_blobs_stay(
    before: Map<DigestValue, Seq<u8>>,
    responses: Seq<BlobReadResponse>,
    other: DigestValue,
)
    ensures
        (forall|j: int|
            0 <= j < responses.len() ==> (#[trigger] responses[j]).digest->0@ != other) ==> (
        with_received(before, responses).contains_key(other) <==> before.contains_key(other)) && (
        before.contains_key(other) ==> with_received(before, responses)[other] == before[other]),
    decreases responses.len(),
{
    if responses.len() > 0 {
        let earlier = responses.drop_last();
        other_blobs_stay(before, earlier, other);
        if forall|j: int|
            0 <= j < responses.len() ==> (#[trigger] responses[j]).digest->0@ != other {
            assert forall|j: int| 0 <= j < earlier.len() implies (
            #[trigger] earlier[j]).digest->0@ != other by {
                assert(responses[j].digest->0@ != other);
            }
            assert(responses[responses.len() - 1].digest->0@ != other);
        }
    }
}

/// A batch that is refused is refused for its first bad response: for the missing
/// digest, or with what the service reported.
pub proof fn bad_batches_name_their_first_fault(
    before: Map<DigestValue, Seq<u8>>,
    responses: Seq<BlobReadResponse>,
    after: Map<DigestValue, Seq<u8>>,
    error: Error,
) -> (bad: int)
    requires
        takes_in(before, responses, after, Err(error)),
    ensures
        0 <= bad < responses.len(),
        forall|j: int|
            0 <= j < bad ==> (#[trigger] responses[j]).digest is Some && (
            responses[j].status is None || responses[j].status->0.code == 0),
        responses[bad].digest is None || (responses[bad].status is Some
            && responses[bad].status->0.code != 0),
        responses[bad].digest is None ==> error.root is Message && error.root->Message_0@
            == "Response digest not found."@,
        responses[bad].digest is Some ==> error.root is Client && error.root->Client_0.code
            == responses[bad].status->0.code && error.root->Client_0.message@
            == responses[bad].status->0.message@,
        error.layers().len() == 0,
{
    let bad = choose|bad: int|
        {
            &&& 0 <= bad < responses.len()
            &&& !is_received(#[trigger] responses[bad])
            &&& forall|j: int| 0 <= j < bad ==> is_received(#[trigger] responses[j])
            &&& is_read_failure(responses[bad], error)
            &&& after == with_received(before, responses.take(bad))
        };
    assert forall|j: int| 0 <= j < bad implies (#[trigger] responses[j]).digest is Some && (
    responses[j].status is None || responses[j].status->0.code == 0) by {
        assert(is_received(responses[j]));
    }
    bad
}

/// Reading a blob that batches brought gives its bytes; an empty blob is there without
/// them, and any other that is missing is named.
pub proof fn blobs_are_read_from_the_batches(
    received: ReceivedBlobs,
    digest: TDigest,
    data: Result<Vec<u8>, Error>,
)
    requires
        call_ensures(ReceivedBlobs::get, (&received, &digest), data),
    ensures
        digest.size_in_bytes == 0 ==> data is Ok && data->Ok_0@.len() == 0,
        digest.size_in_bytes != 0 ==> (data is Ok <==> received@.contains_key(digest@)),
        digest.size_in_bytes != 0 && data is Ok ==> data->Ok_0@ == received@[digest@],
        data matches Err(error) ==> error.says(
            "Did not receive digest data for `"@ + (digest.hash@ + ":"@ + signed_decimal(
                digest.size_in_bytes as int,
            )) + "`"@,
        ),
{
}

/// A blob in memory is reported under its digest, with its bytes and as a success; and
/// what cannot be read or downloaded is named.
pub proof fn transfers_name_their_blob(
    digest: TDigest,
    blob: Vec<u8>,
    report: InlinedDigestWithStatus,
    resource_name: &str,
    unread: String,
    file: NamedDigest,
    undelivered: String,
)
    requires
        call_ensures(inlined_blob, (digest, blob), report),
        call_ensures(read_failed, (resource_name,), unread),
        call_ensures(download_failed, (&file,), undelivered),
    ensures
        report.digest@ == digest@,
        report.blob@ == blob@,
        report.status.code == 0,
        report.status.message@.len() == 0,
        unread@ == "Failed to read "@ + resource_name@ + " from Bytestream service"@,
        undelivered@ == "Error downloading digest `"@ + (file.digest.hash@ + ":"@ + signed_decimal(
            file.digest.size_in_bytes as int,
        )) + "` to `"@ + file.name@ + "`"@,
{
}

} // verus!
