//! Uploading blobs: small ones in batches, large ones as streams of segments.
use vstd::prelude::*;
use vstd::string::*;

use crate::batching::{
    batch_contents, batch_size, batched, batches_are_not_empty, batches_hold_every_item,
    contents_follow_one_another, flattened, no_batches, Batcher, Batches, Measured,
};
use crate::chance::{is_random_uuid, random_uuid};
use crate::convert::{RpcStatus, TCODE_OK};
use crate::digest::{tdigest_to, Digest, TDigest};
use crate::error::Error;
use crate::names::{
    instance_text, upload_resource_name, write_name, Compressor, InstanceName, COMPRESSOR_IDENTITY,
};
use crate::text::{debug_list, list_text, signed_decimal, signed_decimal_text};

verus! {

/// A blob that is held in memory.
#[derive(Debug)]
pub struct InlinedBlobWithDigest {
    pub digest: TDigest,
    pub blob: Vec<u8>,
}

/// A file that holds a blob.
#[derive(Debug)]
pub struct NamedDigest {
    pub name: String,
    pub digest: TDigest,
}

/// Blobs and files to upload.
#[derive(Debug)]
pub struct UploadRequest {
    pub inlined_blobs_with_digest: Option<Vec<InlinedBlobWithDigest>>,
    pub files_with_digest: Option<Vec<NamedDigest>>,
    pub upload_only_missing: bool,
}

/// One blob of a batch. A file is opened only when its batch is sent, so that not
/// too many are open at a time.
#[derive(Debug)]
pub enum BatchUploadRequest {
    Blob(InlinedBlobWithDigest),
    File(NamedDigest),
}

impl BatchUploadRequest {
    /// The digest of the blob.
    pub open spec fn digest_spec(self) -> TDigest {
        match self {
            BatchUploadRequest::Blob(blob) => blob.digest,
            BatchUploadRequest::File(file) => file.digest,
        }
    }
}

impl Measured for BatchUploadRequest {
    open spec fn bytes(&self) -> int {
        self.digest_spec().size_in_bytes as int
    }

    fn size_in_bytes(&self) -> (size: i64) {
        match self {
            BatchUploadRequest::Blob(blob) => blob.digest.size_in_bytes,
            BatchUploadRequest::File(file) => file.digest.size_in_bytes,
        }
    }
}

/// Builds up batches of blobs. Empty blobs need no upload and are left out.
#[derive(Debug)]
pub struct BatchUploadReqAggregator {
    batcher: Batcher<BatchUploadRequest>,
}

impl View for BatchUploadReqAggregator {
    type V = Batches<BatchUploadRequest>;

    closed spec fn view(&self) -> Batches<BatchUploadRequest> {
        self.batcher@
    }
}

impl BatchUploadReqAggregator {
    /// The size at which a batch is full.
    pub closed spec fn limit(self) -> i64 {
        self.batcher.limit()
    }

    /// The batches are in order.
    pub closed spec fn wf(self) -> bool {
        self.batcher.wf()
    }

    /// No batches yet.
    pub fn new(max_msg_size: usize) -> (aggregator: Self)
        ensures
            aggregator.wf(),
            aggregator@ == no_batches::<BatchUploadRequest>(),
            aggregator.limit() == max_msg_size as i64,
    {
        BatchUploadReqAggregator { batcher: Batcher::new(max_msg_size as i64) }
    }

    /// Adds one blob, unless it is empty.
    pub fn push(&mut self, req: BatchUploadRequest)
        requires
            old(self).wf(),
        ensures
            final(self).wf(),
            final(self).limit() == old(self).limit(),
            req.bytes() == 0 ==> final(self)@ == old(self)@,
            req.bytes() != 0 ==> final(self)@ == old(self)@.with(req, old(self).limit() as int),
    {
        if req.size_in_bytes() == 0 {
            return;
        }
        self.batcher.push(req);
    }

    /// All batches.
    pub fn done(self) -> (batches: Vec<Vec<BatchUploadRequest>>)
        ensures
            batch_contents(batches@) == self@.all(),
    {
        self.batcher.done()
    }
}

/// The blobs that are not empty, in order.
pub open spec fn without_empty(reqs: Seq<BatchUploadRequest>) -> Seq<BatchUploadRequest>
    decreases reqs.len(),
{
    if reqs.len() == 0 {
        Seq::empty()
    } else if reqs.last().bytes() == 0 {
        without_empty(reqs.drop_last())
    } else {
        without_empty(reqs.drop_last()).push(reqs.last())
    }
}

/// Where the bytes of a streamed blob come from.
#[derive(Debug)]
pub enum UploadSource {
    Blob(Vec<u8>),
    File(String),
}

/// A blob that is uploaded as a stream of segments.
#[derive(Debug)]
pub struct StreamedUpload {
    pub resource_name: String,
    pub source: UploadSource,
    pub hash: String,
}

/// How a request is carried out: blobs that are streamed one by one, and blobs that
/// are sent in batches.
#[derive(Debug)]
pub struct UploadPlan {
    pub streamed: Vec<StreamedUpload>,
    pub batches: Vec<Vec<BatchUploadRequest>>,
}

/// The blobs of a request, in-memory ones first.
pub open spec fn requested(request: UploadRequest) -> Seq<BatchUploadRequest> {
    (match request.inlined_blobs_with_digest {
        Some(blobs) => blobs@.map_values(|blob| BatchUploadRequest::Blob(blob)),
        None => Seq::empty(),
    }) + (match request.files_with_digest {
        Some(files) => files@.map_values(|file| BatchUploadRequest::File(file)),
        None => Seq::empty(),
    })
}

/// The blobs below `limit`, in order.
pub open spec fn small(reqs: Seq<BatchUploadRequest>, limit: i64) -> Seq<BatchUploadRequest>
    decreases reqs.len(),
{
    if reqs.len() == 0 {
        Seq::empty()
    } else if reqs.last().bytes() < limit {
        small(reqs.drop_last(), limit).push(reqs.last())
    } else {
        small(reqs.drop_last(), limit)
    }
}

/// The blobs that reach `limit`, in order.
pub open spec fn large(reqs: Seq<BatchUploadRequest>, limit: i64) -> Seq<BatchUploadRequest>
    decreases reqs.len(),
{
    if reqs.len() == 0 {
        Seq::empty()
    } else if reqs.last().bytes() < limit {
        large(reqs.drop_last(), limit)
    } else {
        large(reqs.drop_last(), limit).push(reqs.last())
    }
}

/// `upload` streams the blob of `req` under a name of its own.
pub open spec fn streams(
    instance: Option<Seq<char>>,
    compressor: Option<Compressor>,
    req: BatchUploadRequest,
    upload: StreamedUpload,
) -> bool {
    &&& upload.hash == req.digest_spec().hash
    &&& exists|uuid: Seq<char>| #[trigger]
        is_random_uuid(uuid) && upload.resource_name@ == write_name(
            instance,
            uuid,
            compressor,
            req.digest_spec()@,
        )
    &&& match req {
        BatchUploadRequest::Blob(blob) => upload.source == UploadSource::Blob(blob.blob),
        BatchUploadRequest::File(file) => upload.source == UploadSource::File(file.name),
    }
}

/// `plan` carries out `reqs`: what reaches the limit is streamed, the rest goes in
/// batches.
pub open spec fn is_plan(
    instance: Option<Seq<char>>,
    compressor: Option<Compressor>,
    limit: i64,
    reqs: Seq<BatchUploadRequest>,
    plan: UploadPlan,
) -> bool {
    &&& plan.streamed@.len() == large(reqs, limit).len()
    &&& forall|i: int|
        0 <= i < plan.streamed@.len() ==> streams(
            instance,
            compressor,
            large(reqs, limit)[i],
            #[trigger] plan.streamed@[i],
        )
    &&& batch_contents(plan.batches@) == batched(without_empty(small(reqs, limit)), limit as int).all()
}

fn streamed_upload(
    instance_name: &InstanceName,
    compressor: Option<Compressor>,
    req: BatchUploadRequest,
) -> (upload: StreamedUpload)
    ensures
        streams(instance_name@, compressor, req, upload),
{
    let client_uuid = random_uuid();
    assert(is_random_uuid(client_uuid@));
    match req {
        BatchUploadRequest::Blob(blob) => {
            let resource_name = upload_resource_name(
                instance_name,
                client_uuid.as_str(),
                compressor,
                &blob.digest,
            );
            StreamedUpload {
                resource_name,
                source: UploadSource::Blob(blob.blob),
                hash: blob.digest.hash,
            }
        },
        BatchUploadRequest::File(file) => {
            let resource_name = upload_resource_name(
                instance_name,
                client_uuid.as_str(),
                compressor,
                &file.digest,
            );
            StreamedUpload {
                resource_name,
                source: UploadSource::File(file.name),
                hash: file.digest.hash,
            }
        },
    }
}

/// A plan in the making.
struct Planner {
    streamed: Vec<StreamedUpload>,
    aggregator: BatchUploadReqAggregator,
}

impl Planner {
    spec fn planned(
        self,
        instance: Option<Seq<char>>,
        compressor: Option<Compressor>,
        limit: i64,
        reqs: Seq<BatchUploadRequest>,
    ) -> bool {
        &&& self.aggregator.wf()
        &&& self.aggregator.limit() == limit
        &&& self.streamed@.len() == large(reqs, limit).len()
        &&& forall|i: int|
            0 <= i < self.streamed@.len() ==> streams(
                instance,
                compressor,
                large(reqs, limit)[i],
                #[trigger] self.streamed@[i],
            )
        &&& self.aggregator@ == batched(without_empty(small(reqs, limit)), limit as int)
    }

    fn add(
        &mut self,
        instance_name: &InstanceName,
        compressor: Option<Compressor>,
        limit: i64,
        size: i64,
        req: BatchUploadRequest,
        Ghost(reqs): Ghost<Seq<BatchUploadRequest>>,
    )
        requires
            old(self).planned(instance_name@, compressor, limit, reqs),
            size == req.bytes(),
        ensures
            final(self).planned(instance_name@, compressor, limit, reqs.push(req)),
    {
        proof {
            assert(reqs.push(req).drop_last() =~= reqs);
        }
        if size < limit {
            proof {
                let before = small(reqs, limit);
                assert(before.push(req).drop_last() =~= before);
                assert(without_empty(before).push(req).drop_last() =~= without_empty(before));
            }
            self.aggregator.push(req);
        } else {
            let ghost before = self.streamed@;
            let upload = streamed_upload(instance_name, compressor, req);
            self.streamed.push(upload);
            proof {
                let larger = large(reqs.push(req), limit);
                assert forall|i: int| 0 <= i < self.streamed@.len() implies streams(
                    instance_name@,
                    compressor,
                    larger[i],
                    #[trigger] self.streamed@[i],
                ) by {
                    if i < before.len() {
                        assert(self.streamed@[i] == before[i]);
                    }
                }
            }
        }
    }
}

/// Plans an upload: blobs that reach the largest batch are streamed, in-memory ones
/// first, the others are put in batches.
pub fn plan_upload(
    instance_name: &InstanceName,
    request: UploadRequest,
    bystream_compressor: Option<Compressor>,
    max_total_batch_size: usize,
) -> (plan: UploadPlan)
    ensures
        is_plan(
            instance_name@,
            bystream_compressor,
            max_total_batch_size as i64,
            requested(request),
            plan,
        ),
{
    let limit: i64 = max_total_batch_size as i64;
    let mut planner = Planner {
        streamed: Vec::new(),
        aggregator: BatchUploadReqAggregator::new(max_total_batch_size),
    };
    let ghost mut seen: Seq<BatchUploadRequest> = Seq::empty();
    if let Some(blobs) = request.inlined_blobs_with_digest {
        let ghost all = blobs@;
        for blob in it: blobs.into_iter()
            invariant
                it.seq() == all,
                planner.planned(instance_name@, bystream_compressor, limit, seen),
                seen == all.take(it.index() as int).map_values(
                    |blob| BatchUploadRequest::Blob(blob),
                ),
        {
            let size: i64 = blob.digest.size_in_bytes;
            let ghost req = BatchUploadRequest::Blob(blob);
            planner.add(
                instance_name,
                bystream_compressor,
                limit,
                size,
                BatchUploadRequest::Blob(blob),
                Ghost(seen),
            );
            proof {
                assert(all.take(it.index() + 1) =~= all.take(it.index() as int).push(blob));
                seen = seen.push(req);
                assert(seen =~= all.take(it.index() + 1).map_values(
                    |blob| BatchUploadRequest::Blob(blob),
                ));
            }
        }
        proof {
            assert(all.take(all.len() as int) =~= all);
        }
    }
    let ghost inlined = seen;
    if let Some(files) = request.files_with_digest {
        let ghost all = files@;
        proof {
            assert(seen =~= inlined + all.take(0).map_values(
                |file| BatchUploadRequest::File(file),
            ));
        }
        for file in it: files.into_iter()
            invariant
                it.seq() == all,
                planner.planned(instance_name@, bystream_compressor, limit, seen),
                seen == inlined + all.take(it.index() as int).map_values(
                    |file| BatchUploadRequest::File(file),
                ),
        {
            let size: i64 = file.digest.size_in_bytes;
            let ghost req = BatchUploadRequest::File(file);
            planner.add(
                instance_name,
                bystream_compressor,
                limit,
                size,
                BatchUploadRequest::File(file),
                Ghost(seen),
            );
            proof {
                assert(all.take(it.index() + 1) =~= all.take(it.index() as int).push(file));
                seen = seen.push(req);
                assert(seen =~= inlined + all.take(it.index() + 1).map_values(
                    |file| BatchUploadRequest::File(file),
                ));
            }
        }
        proof {
            assert(all.take(all.len() as int) =~= all);
        }
    }
    assert(seen =~= requested(request));
    UploadPlan { streamed: planner.streamed, batches: planner.aggregator.done() }
}

proof fn small_and_large_are_all(reqs: Seq<BatchUploadRequest>, limit: i64)
    ensures
        small(reqs, limit).to_multiset().add(large(reqs, limit).to_multiset())
            =~= reqs.to_multiset(),
        forall|i: int|
            0 <= i < small(reqs, limit).len() ==> (#[trigger] small(reqs, limit)[i]).bytes() < limit,
        forall|i: int|
            0 <= i < large(reqs, limit).len() ==> (#[trigger] large(reqs, limit)[i]).bytes()
                >= limit,
    decreases reqs.len(),
{
    broadcast use vstd::seq_lib::group_to_multiset_ensures;

    if reqs.len() > 0 {
        let before = reqs.drop_last();
        small_and_large_are_all(before, limit);
        assert(before.push(reqs.last()) =~= reqs);
        assert(reqs.to_multiset() =~= before.to_multiset().insert(reqs.last()));
    }
}

proof fn without_empty_keeps_sizes(reqs: Seq<BatchUploadRequest>, limit: int)
    requires
        forall|i: int| 0 <= i < reqs.len() ==> (#[trigger] reqs[i]).bytes() < limit,
    ensures
        forall|i: int|
            0 <= i < without_empty(reqs).len() ==> (#[trigger] without_empty(reqs)[i]).bytes()
                < limit,
    decreases reqs.len(),
{
    if reqs.len() > 0 {
        assert forall|i: int| 0 <= i < reqs.drop_last().len() implies (
        #[trigger] reqs.drop_last()[i]).bytes() < limit by {
            assert(reqs[i].bytes() < limit);
        }
        without_empty_keeps_sizes(reqs.drop_last(), limit);
        assert(reqs[reqs.len() - 1].bytes() < limit);
        let before = without_empty(reqs.drop_last());
        assert forall|i: int| 0 <= i < without_empty(reqs).len() implies (
        #[trigger] without_empty(reqs)[i]).bytes() < limit by {
            if i < before.len() {
                assert(before[i].bytes() < limit);
            }
        }
    }
}

/// A plan uploads every blob of its request once: the large ones as streams, the
/// small ones, unless they are empty, in batches. No batch is empty, and a batch of
/// several blobs stays below the limit.
pub proof fn plans_upload_every_blob(
    instance: Option<Seq<char>>,
    compressor: Option<Compressor>,
    limit: i64,
    reqs: Seq<BatchUploadRequest>,
    plan: UploadPlan,
)
    requires
        is_plan(instance, compressor, limit, reqs, plan),
    ensures
        small(reqs, limit).to_multiset().add(large(reqs, limit).to_multiset()) == reqs.to_multiset(),
        plan.streamed@.len() == large(reqs, limit).len(),
        flattened(batch_contents(plan.batches@)) == without_empty(small(reqs, limit)),
        forall|i: int|
            0 <= i < plan.batches@.len() ==> {
                let batch = #[trigger] batch_contents(plan.batches@)[i];
                &&& batch.len() > 0
                &&& batch.len() > 1 ==> batch_size(batch) < limit
            },
{
    small_and_large_are_all(reqs, limit);
    without_empty_keeps_sizes(small(reqs, limit), limit as int);
    batches_hold_every_item(without_empty(small(reqs, limit)), limit as int);
    batches_are_not_empty(without_empty(small(reqs, limit)), limit as int);
}

/// One segment of a streamed blob.
#[derive(Debug)]
pub struct WriteRequest {
    pub resource_name: String,
    pub write_offset: i64,
    pub finish_write: bool,
    pub data: Vec<u8>,
}

/// The bytes of all chunks, in order.
pub open spec fn joined(chunks: Seq<Seq<u8>>) -> Seq<u8>
    decreases chunks.len(),
{
    if chunks.len() == 0 {
        Seq::empty()
    } else {
        joined(chunks.drop_last()) + chunks.last()
    }
}

/// `segment` is the chunk at position `i` of a blob streamed under `name`.
pub open spec fn is_segment(
    name: Seq<char>,
    chunks: Seq<Seq<u8>>,
    i: int,
    segment: WriteRequest,
) -> bool {
    &&& segment.resource_name@ == name
    &&& segment.write_offset == joined(chunks.take(i)).len()
    &&& segment.data@ == chunks[i]
}

/// A blob cut into pieces of `limit` bytes, the last of which may be shorter. Where no
/// byte is allowed, there is no piece.
pub open spec fn cut(blob: Seq<u8>, limit: nat) -> Seq<Seq<u8>>
    decreases blob.len(),
{
    if blob.len() == 0 || limit == 0 {
        Seq::empty()
    } else if blob.len() <= limit {
        seq![blob]
    } else {
        seq![blob.take(limit as int)] + cut(blob.skip(limit as int), limit)
    }
}

fn copy_bytes(bytes: &Vec<u8>, from: usize, to: usize) -> (copy: Vec<u8>)
    requires
        from <= to <= bytes@.len(),
    ensures
        copy@ == bytes@.subrange(from as int, to as int),
{
    let mut copy: Vec<u8> = Vec::new();
    let mut i: usize = from;
    while i < to
        invariant
            from <= i <= to <= bytes@.len(),
            copy@ == bytes@.subrange(from as int, i as int),
        decreases to - i,
    {
        copy.push(bytes[i]);
        i = i + 1;
        assert(copy@ =~= bytes@.subrange(from as int, i as int));
    }
    copy
}

/// The segments of a blob, as they are read. None of them is empty or longer than the
/// limit.
#[derive(Debug)]
pub struct SegmentedUpload {
    resource_name: String,
    limit: usize,
    segments: Vec<WriteRequest>,
    current_offset: i64,
}

impl View for SegmentedUpload {
    type V = Seq<Seq<u8>>;

    closed spec fn view(&self) -> Seq<Seq<u8>> {
        self.segments@.map_values(|segment: WriteRequest| segment.data@)
    }
}

impl SegmentedUpload {
    /// The name that the blob is streamed under.
    pub closed spec fn name(self) -> Seq<char> {
        self.resource_name@
    }

    /// How many bytes a segment may hold.
    pub closed spec fn limit(self) -> nat {
        self.limit as nat
    }

    /// The segments follow one another without a gap, each within the limit, and none
    /// ends the blob.
    pub closed spec fn wf(self) -> bool {
        &&& self.current_offset == joined(self@).len()
        &&& forall|i: int| 0 <= i < self@.len() ==> 0 < (#[trigger] self@[i]).len() <= self.limit()
        &&& forall|i: int|
            0 <= i < self.segments@.len() ==> {
                &&& is_segment(self.name(), self@, i, #[trigger] self.segments@[i])
                &&& !self.segments@[i].finish_write
            }
    }

    /// Nothing read yet. No segment will hold more than `limit` bytes.
    pub fn new(resource_name: String, limit: usize) -> (upload: Self)
        ensures
            upload.wf(),
            upload@ == Seq::<Seq<u8>>::empty(),
            upload.name() == resource_name@,
            upload.limit() == limit,
    {
        let upload = SegmentedUpload {
            resource_name,
            limit,
            segments: Vec::new(),
            current_offset: 0,
        };
        assert(upload@ =~= Seq::<Seq<u8>>::empty());
        upload
    }

    /// Adds a chunk that was read, which is not empty and within the limit.
    pub fn push(&mut self, data: Vec<u8>)
        requires
            old(self).wf(),
            0 < data@.len() <= old(self).limit(),
            joined(old(self)@).len() + data@.len() <= i64::MAX,
        ensures
            final(self).wf(),
            final(self)@ == old(self)@.push(data@),
            final(self).name() == old(self).name(),
            final(self).limit() == old(self).limit(),
    {
        let ghost before = self@;
        let ghost chunk = data@;
        let ghost earlier = self.segments@;
        let n_read: usize = data.len();
        let segment = WriteRequest {
            resource_name: self.resource_name.clone(),
            write_offset: self.current_offset,
            finish_write: false,
            data,
        };
        self.segments.push(segment);
        self.current_offset = self.current_offset + n_read as i64;
        proof {
            let after = self@;
            assert(after =~= before.push(chunk));
            assert(after.drop_last() =~= before);
            assert forall|i: int| 0 <= i < after.len() implies 0 < (#[trigger] after[i]).len()
                <= self.limit() by {
                if i < before.len() {
                    assert(0 < before[i].len() <= self.limit());
                }
            }
            assert forall|i: int| 0 <= i < self.segments@.len() implies {
                &&& is_segment(self.name(), after, i, #[trigger] self.segments@[i])
                &&& !self.segments@[i].finish_write
            } by {
                if i < before.len() {
                    assert(is_segment(self.name(), before, i, earlier[i]));
                    assert(after.take(i) =~= before.take(i));
                } else {
                    assert(after.take(i) =~= before);
                }
            }
        }
    }

    /// Adds a blob that is at hand, cut to the limit.
    #[verifier::spinoff_prover]
    #[verifier::rlimit(40)]
    pub fn push_blob(&mut self, blob: &Vec<u8>)
        requires
            old(self).wf(),
            joined(old(self)@).len() + blob@.len() <= i64::MAX,
        ensures
            final(self).wf(),
            final(self)@ == old(self)@ + cut(blob@, old(self).limit()),
            final(self).name() == old(self).name(),
            final(self).limit() == old(self).limit(),
    {
        let ghost before = self@;
        let ghost limit = self.limit();
        if self.limit == 0 {
            assert(self@ =~= before + cut(blob@, limit));
            return;
        }
        let mut at: usize = 0;
        assert(blob@.skip(0) =~= blob@);
        assert(before + cut(blob@, limit) =~= self@ + cut(blob@.skip(0), limit));
        while at < blob.len()
            invariant
                at <= blob@.len(),
                self.wf(),
                self.limit > 0,
                self.limit() == limit,
                self.name() == old(self).name(),
                joined(self@).len() + (blob@.len() - at) <= i64::MAX,
                self@ + cut(blob@.skip(at as int), limit) == before + cut(blob@, limit),
            decreases blob@.len() - at,
        {
            let to: usize = if blob.len() - at <= self.limit {
                blob.len()
            } else {
                at + self.limit
            };
            let ghost rest = blob@.skip(at as int);
            let ghost sent = self@;
            let piece = copy_bytes(blob, at, to);
            let ghost bytes = piece@;
            self.push(piece);
            proof {
                assert(self@.drop_last() =~= sent);
                assert(blob@.skip(to as int) =~= rest.skip(to - at));
                assert(bytes =~= rest.take(to - at));
                if to == blob@.len() {
                    assert(rest.take(to - at) =~= rest);
                    assert(cut(blob@.skip(to as int), limit) =~= Seq::empty());
                }
                assert(cut(rest, limit) =~= seq![bytes] + cut(blob@.skip(to as int), limit));
                assert(self@ + cut(blob@.skip(to as int), limit) =~= sent + cut(rest, limit));
            }
            at = to;
        }
        assert(cut(blob@.skip(at as int), limit) =~= Seq::empty());
        assert(self@ =~= before + cut(blob@, limit));
    }

    /// The segments to send, the last of which ends the blob, and the size they come
    /// to. A blob of nothing has no segment and need not be sent.
    pub fn finish(self) -> (finished: (Vec<WriteRequest>, i64))
        requires
            self.wf(),
        ensures
            finished.0@.len() == self@.len(),
            finished.1 == joined(self@).len(),
            forall|i: int|
                0 <= i < finished.0@.len() ==> {
                    &&& is_segment(self.name(), self@, i, #[trigger] finished.0@[i])
                    &&& finished.0@[i].finish_write == (i == finished.0@.len() - 1)
                    &&& 0 < finished.0@[i].data@.len() <= self.limit()
                },
    {
        let ghost name = self.name();
        let ghost chunks = self@;
        let mut segments = self.segments;
        match segments.pop() {
            None => {},
            Some(last) => {
                let mut last = last;
                assert(is_segment(name, chunks, segments@.len() as int, last));
                last.finish_write = true;
                segments.push(last);
            },
        }
        proof {
            assert forall|i: int| 0 <= i < segments@.len() implies 0 < (
            #[trigger] segments@[i]).data@.len() <= self.limit() by {
                assert(0 < chunks[i].len() <= self.limit());
            }
        }
        (segments, self.current_offset)
    }
}

proof fn joined_split(chunks: Seq<Seq<u8>>, i: int)
    requires
        0 <= i < chunks.len(),
    ensures
        joined(chunks.take(i)).len() + chunks[i].len() <= joined(chunks).len(),
        joined(chunks).subrange(
            joined(chunks.take(i)).len() as int,
            (joined(chunks.take(i)).len() + chunks[i].len()) as int,
        ) =~= chunks[i],
    decreases chunks.len(),
{
    let n = chunks.len() - 1;
    if i == n {
        assert(chunks.take(i) =~= chunks.drop_last());
    } else {
        joined_split(chunks.drop_last(), i);
        assert(chunks.drop_last().take(i) =~= chunks.take(i));
        let at = joined(chunks.take(i)).len() as int;
        let inner = joined(chunks.drop_last());
        assert(joined(chunks).subrange(at, at + chunks[i].len()) =~= inner.subrange(
            at,
            at + chunks[i].len(),
        ));
    }
}

/// Written at their offsets, the segments of a blob give back the bytes that were
/// read: each lies where its offset says, inside the whole.
pub proof fn segments_rebuild_the_blob(
    name: Seq<char>,
    chunks: Seq<Seq<u8>>,
    i: int,
    segment: WriteRequest,
)
    requires
        0 <= i < chunks.len(),
        is_segment(name, chunks, i, segment),
    ensures
        0 <= segment.write_offset,
        segment.write_offset + segment.data@.len() <= joined(chunks).len(),
        joined(chunks).subrange(
            segment.write_offset as int,
            segment.write_offset + segment.data@.len(),
        ) == segment.data@,
{
    joined_split(chunks, i);
}

/// A blob is cut into pieces that together are the blob: all but the last hold as many
/// bytes as are allowed, and the last holds some, up to as many.
pub proof fn pieces_fill_the_limit(blob: Seq<u8>, limit: nat)
    requires
        limit > 0,
    ensures
        joined(cut(blob, limit)) == blob,
        forall|i: int|
            0 <= i < cut(blob, limit).len() ==> 0 < (#[trigger] cut(blob, limit)[i]).len() <= limit,
        forall|i: int|
            0 <= i < cut(blob, limit).len() - 1 ==> (#[trigger] cut(blob, limit)[i]).len() == limit,
    decreases blob.len(),
{
    if blob.len() == 0 {
        assert(joined(cut(blob, limit)) =~= blob);
    } else if blob.len() <= limit {
        joined_after(blob, Seq::empty());
        assert(seq![blob] + Seq::empty() =~= seq![blob]);
        assert(joined(cut(blob, limit)) =~= blob);
    } else {
        let first = blob.take(limit as int);
        let rest = blob.skip(limit as int);
        pieces_fill_the_limit(rest, limit);
        joined_after(first, cut(rest, limit));
        assert(first + rest =~= blob);
        assert forall|i: int| 0 <= i < cut(blob, limit).len() implies 0 < (#[trigger] cut(
            blob,
            limit,
        )[i]).len() <= limit && (i < cut(blob, limit).len() - 1 ==> cut(blob, limit)[i].len()
            == limit) by {
            if i > 0 {
                assert(cut(blob, limit)[i] == cut(rest, limit)[i - 1]);
            }
        }
    }
}

proof fn joined_after(first: Seq<u8>, rest: Seq<Seq<u8>>)
    ensures
        joined(seq![first] + rest) =~= first + joined(rest),
    decreases rest.len(),
{
    let all = seq![first] + rest;
    if rest.len() == 0 {
        assert(all.drop_last() =~= Seq::empty());
        assert(joined(all.drop_last()) =~= Seq::empty());
        assert(all.last() == first);
    } else {
        assert(all.last() == rest.last());
        joined_after(first, rest.drop_last());
        assert(all.drop_last() =~= seq![first] + rest.drop_last());
    }
}

/// What is said of an upload whose size was not confirmed.
pub open spec fn committed_size_text(name: Seq<char>) -> Seq<char> {
    "Failed to upload `"@ + name + "`: invalid committed_size from WriteResponse"@
}

/// Fails unless the service confirmed the size that was sent. A confirmed size of
/// minus one stands for a blob that was there already.
pub fn check_committed_size(resource_name: &str, committed_size: i64, sent: i64) -> (checked: Result<
    (),
    Error,
>)
    ensures
        checked is Ok <==> committed_size == sent || committed_size == -1,
        checked matches Err(error) ==> error.says(committed_size_text(resource_name@)),
{
    if committed_size != sent && committed_size != -1 {
        let mut text = "Failed to upload `".to_owned();
        text.append(resource_name);
        text.append("`: invalid committed_size from WriteResponse");
        return Err(Error::msg(text));
    }
    Ok(())
}

/// One blob of a batch on the wire.
#[derive(Debug)]
pub struct BlobUpdate {
    pub digest: Option<Digest>,
    pub data: Vec<u8>,
    pub compressor: i32,
}

/// A batch on the wire.
#[derive(Debug)]
pub struct BatchUpdateBlobsRequest {
    pub instance_name: String,
    pub requests: Vec<BlobUpdate>,
}

/// How storing one blob of a batch went.
#[derive(Debug)]
pub struct BlobUpdateResponse {
    pub digest: Option<Digest>,
    pub status: Option<RpcStatus>,
}

/// How storing a batch went.
#[derive(Debug)]
pub struct BatchUpdateBlobsResponse {
    pub responses: Vec<BlobUpdateResponse>,
}

/// `update` carries the blob of `req`, whose bytes are `contents` where it is a
/// file.
pub open spec fn is_update(
    req: BatchUploadRequest,
    contents: Seq<u8>,
    update: BlobUpdate,
) -> bool {
    &&& update.digest matches Some(digest)
    &&& digest@ == req.digest_spec()@
    &&& update.compressor == COMPRESSOR_IDENTITY
    &&& update.data@ == match req {
        BatchUploadRequest::Blob(blob) => blob.blob@,
        BatchUploadRequest::File(_) => contents,
    }
}

/// Puts one blob of a batch on the wire. `contents` are the bytes of a file; they
/// are not used for a blob in memory.
pub fn blob_update(req: BatchUploadRequest, contents: Vec<u8>) -> (update: BlobUpdate)
    ensures
        is_update(req, contents@, update),
{
    match req {
        BatchUploadRequest::Blob(blob) => BlobUpdate {
            digest: Some(tdigest_to(blob.digest)),
            data: blob.blob,
            compressor: COMPRESSOR_IDENTITY,
        },
        BatchUploadRequest::File(file) => BlobUpdate {
            digest: Some(tdigest_to(file.digest)),
            data: contents,
            compressor: COMPRESSOR_IDENTITY,
        },
    }
}

/// Puts a batch on the wire, and lists the hashes of its blobs.
pub fn batch_update_request(instance_name: &InstanceName, updates: Vec<BlobUpdate>) -> (request: (
    BatchUpdateBlobsRequest,
    Vec<String>,
))
    requires
        forall|i: int| 0 <= i < updates@.len() ==> (#[trigger] updates@[i]).digest is Some,
    ensures
        request.0.instance_name@ == instance_text(instance_name@),
        request.0.requests == updates,
        request.1@.len() == updates@.len(),
        forall|i: int|
            0 <= i < updates@.len() ==> #[trigger] request.1@[i] == updates@[i].digest->0.hash,
{
    let mut hashes: Vec<String> = Vec::new();
    let mut i: usize = 0;
    while i < updates.len()
        invariant
            i <= updates@.len(),
            forall|j: int| 0 <= j < updates@.len() ==> (#[trigger] updates@[j]).digest is Some,
            hashes@.len() == i,
            forall|j: int| 0 <= j < i ==> #[trigger] hashes@[j] == updates@[j].digest->0.hash,
        decreases updates@.len() - i,
    {
        if let Some(digest) = &updates[i].digest {
            hashes.push(digest.hash.clone());
        }
        i = i + 1;
    }
    (
        BatchUpdateBlobsRequest {
            instance_name: instance_name.as_str().to_owned(),
            requests: updates,
        },
        hashes,
    )
}

/// A response reports that its blob was not stored.
pub open spec fn is_failed(response: BlobUpdateResponse) -> bool {
    response.status is Some && response.status->0.code != TCODE_OK
}

/// What is said of a blob that was not stored.
pub open spec fn failure_text(response: BlobUpdateResponse) -> Seq<char> {
    "Unable to upload blob '"@ + (match response.digest {
        Some(digest) => digest.hash@,
        None => "N/A"@,
    }) + "', rpc status code: "@ + signed_decimal(response.status->0.code as int)
        + ", message: \""@ + response.status->0.message@ + "\""@
}

/// What is said of the blobs that were not stored, in order.
pub open spec fn failure_texts(responses: Seq<BlobUpdateResponse>) -> Seq<Seq<char>>
    decreases responses.len(),
{
    if responses.len() == 0 {
        Seq::empty()
    } else if is_failed(responses.last()) {
        failure_texts(responses.drop_last()).push(failure_text(responses.last()))
    } else {
        failure_texts(responses.drop_last())
    }
}

/// Comes to the hashes of a batch that was stored, or fails with what is said of
/// each blob that was not.
pub fn batch_upload_outcome(
    response: &BatchUpdateBlobsResponse,
    blob_hashes: Vec<String>,
) -> (outcome: Result<Vec<String>, Error>)
    ensures
        failure_texts(response.responses@).len() == 0 ==> outcome == Ok::<Vec<String>, Error>(
            blob_hashes,
        ),
        failure_texts(response.responses@).len() > 0 ==> {
            &&& outcome is Err
            &&& outcome->Err_0.says(
                "Batch upload failed: "@ + list_text(failure_texts(response.responses@)),
            )
        },
{
    let mut failures: Vec<String> = Vec::new();
    let mut i: usize = 0;
    assert(failures.deep_view() =~= Seq::empty());
    assert(response.responses@.take(0) =~= Seq::empty());
    while i < response.responses.len()
        invariant
            i <= response.responses@.len(),
            failures.deep_view() == failure_texts(response.responses@.take(i as int)),
        decreases response.responses@.len() - i,
    {
        let r = &response.responses[i];
        let ghost before = failures.deep_view();
        assert(response.responses@.take(i + 1).drop_last() =~= response.responses@.take(i as int));
        if let Some(status) = &r.status {
            if status.code != TCODE_OK {
                let mut text = "Unable to upload blob '".to_owned();
                text.append(
                    match &r.digest {
                        Some(digest) => digest.hash.as_str(),
                        None => "N/A",
                    },
                );
                text.append("', rpc status code: ");
                text.append(signed_decimal_text(status.code as i64).as_str());
                text.append(", message: \"");
                text.append(status.message.as_str());
                text.append("\"");
                let ghost said = text@;
                failures.push(text);
                assert(failures.deep_view() =~= before.push(said));
            }
        }
        i = i + 1;
    }
    assert(response.responses@.take(i as int) =~= response.responses@);
    assert(failures.deep_view().len() == failures@.len());
    if failures.len() > 0 {
        let mut text = "Batch upload failed: ".to_owned();
        text.append(debug_list(&failures).as_str());
        return Err(Error::msg(text));
    }
    Ok(blob_hashes)
}

/// The size that a blob's digest gives.
spec fn given_size(req: BatchUploadRequest) -> i64 {
    match req {
        BatchUploadRequest::Blob(blob) => blob.digest.size_in_bytes,
        BatchUploadRequest::File(file) => file.digest.size_in_bytes,
    }
}

proof fn plans_sort_by_size(reqs: Seq<BatchUploadRequest>, limit: i64)
    ensures
        without_empty(small(reqs, limit)) == reqs.filter(
            |req: BatchUploadRequest| given_size(req) != 0 && given_size(req) < limit,
        ),
        large(reqs, limit) == reqs.filter(|req: BatchUploadRequest| given_size(req) >= limit),
    decreases reqs.len(),
{
    reveal(Seq::filter);
    if reqs.len() > 0 {
        let before = reqs.drop_last();
        plans_sort_by_size(before, limit);
        assert(small(before, limit).push(reqs.last()).drop_last() =~= small(before, limit));
    }
}

/// What a plan sends in batches are the blobs of the request that are not empty and stay
/// below the limit, those in memory first, each as often and in the order of the
/// request. No batch is empty, and several blobs in one stay below the limit together.
pub proof fn small_blobs_are_sent_in_batches(
    instance_name: InstanceName,
    request: UploadRequest,
    compressor: Option<Compressor>,
    max: usize,
    plan: UploadPlan,
    blobs: Seq<InlinedBlobWithDigest>,
    files: Seq<NamedDigest>,
    b: int,
)
    requires
        call_ensures(plan_upload, (&instance_name, request, compressor, max), plan),
        max <= i64::MAX,
        request.inlined_blobs_with_digest matches Some(given) ==> blobs == given@,
        request.inlined_blobs_with_digest is None ==> blobs.len() == 0,
        request.files_with_digest matches Some(given) ==> files == given@,
        request.files_with_digest is None ==> files.len() == 0,
    ensures
        plan.batches@.map_values(|batch: Vec<BatchUploadRequest>| batch@).flatten() == (
        blobs.map_values(|blob| BatchUploadRequest::Blob(blob)) + files.map_values(
            |file| BatchUploadRequest::File(file),
        )).filter(
            |req: BatchUploadRequest|
                match req {
                    BatchUploadRequest::Blob(blob) => blob.digest.size_in_bytes != 0
                        && blob.digest.size_in_bytes < max,
                    BatchUploadRequest::File(file) => file.digest.size_in_bytes != 0
                        && file.digest.size_in_bytes < max,
                },
        ),
        0 <= b < plan.batches@.len() ==> {
            &&& plan.batches@[b]@.len() > 0
            &&& plan.batches@[b]@.len() > 1 ==> batch_size(plan.batches@[b]@) < max
        },
{
    let limit = max as i64;
    let reqs = requested(request);
    plans_upload_every_blob(instance_name@, compressor, limit, reqs, plan);
    plans_sort_by_size(reqs, limit);
    let contents = batch_contents(plan.batches@);
    contents_follow_one_another(contents);
    assert(plan.batches@.map_values(|batch: Vec<BatchUploadRequest>| batch@) =~= contents);
    let listed = blobs.map_values(|blob| BatchUploadRequest::Blob(blob)) + files.map_values(
        |file| BatchUploadRequest::File(file),
    );
    assert(listed =~= reqs);
    filters_agree(
        reqs,
        |req: BatchUploadRequest| given_size(req) != 0 && given_size(req) < limit,
        |req: BatchUploadRequest|
            match req {
                BatchUploadRequest::Blob(blob) => blob.digest.size_in_bytes != 0
                    && blob.digest.size_in_bytes < max,
                BatchUploadRequest::File(file) => file.digest.size_in_bytes != 0
                    && file.digest.size_in_bytes < max,
            },
    );
    if 0 <= b < plan.batches@.len() {
        assert(contents[b] == plan.batches@[b]@);
    }
}

proof fn filters_agree(
    reqs: Seq<BatchUploadRequest>,
    one: spec_fn(BatchUploadRequest) -> bool,
    other: spec_fn(BatchUploadRequest) -> bool,
)
    requires
        forall|req: BatchUploadRequest| #[trigger] one(req) == other(req),
    ensures
        reqs.filter(one) == reqs.filter(other),
    decreases reqs.len(),
{
    reveal(Seq::filter);
    if reqs.len() > 0 {
        filters_agree(reqs.drop_last(), one, other);
    }
}

/// What a plan streams are the blobs that reach the limit, each as often and in the
/// order of the request, with the bytes or the file of that blob, its hash, and a name
/// that is made of the instance, a writer's id, the packing and the digest.
pub proof fn large_blobs_are_streamed(
    instance_name: InstanceName,
    request: UploadRequest,
    compressor: Option<Compressor>,
    max: usize,
    plan: UploadPlan,
    i: int,
)
    requires
        call_ensures(plan_upload, (&instance_name, request, compressor, max), plan),
        max <= i64::MAX,
    ensures
        ({
            let large = requested(request).filter(
                |req: BatchUploadRequest|
                    match req {
                        BatchUploadRequest::Blob(blob) => blob.digest.size_in_bytes >= max,
                        BatchUploadRequest::File(file) => file.digest.size_in_bytes >= max,
                    },
            );
            &&& plan.streamed@.len() == large.len()
            &&& 0 <= i < large.len() ==> {
                let upload = plan.streamed@[i];
                let digest = match large[i] {
                    BatchUploadRequest::Blob(blob) => blob.digest,
                    BatchUploadRequest::File(file) => file.digest,
                };
                &&& upload.hash@ == digest.hash@
                &&& large[i] matches BatchUploadRequest::Blob(blob) ==> upload.source
                    == UploadSource::Blob(blob.blob)
                &&& large[i] matches BatchUploadRequest::File(file) ==> upload.source
                    == UploadSource::File(file.name)
                &&& exists|uuid: Seq<char>|
                    {
                        &&& #[trigger] is_random_uuid(uuid)
                        &&& upload.resource_name@ == write_name(
                            instance_name@,
                            uuid,
                            compressor,
                            (digest.hash@, digest.size_in_bytes),
                        )
                    }
            }
        }),
{
    let limit = max as i64;
    let reqs = requested(request);
    plans_sort_by_size(reqs, limit);
    filters_agree(
        reqs,
        |req: BatchUploadRequest| given_size(req) >= limit,
        |req: BatchUploadRequest|
            match req {
                BatchUploadRequest::Blob(blob) => blob.digest.size_in_bytes >= max,
                BatchUploadRequest::File(file) => file.digest.size_in_bytes >= max,
            },
    );
    if 0 <= i < plan.streamed@.len() {
        assert(streams(instance_name@, compressor, large(reqs, limit)[i], plan.streamed@[i]));
    }
}

/// The blobs of a request are those in memory, then the files, each in order.
pub proof fn requests_list_their_blobs(request: UploadRequest, i: int)
    ensures
        ({
            let blobs = match request.inlined_blobs_with_digest {
                Some(blobs) => blobs@,
                None => Seq::empty(),
            };
            let files = match request.files_with_digest {
                Some(files) => files@,
                None => Seq::empty(),
            };
            &&& requested(request).len() == blobs.len() + files.len()
            &&& 0 <= i < blobs.len() ==> requested(request)[i] == BatchUploadRequest::Blob(
                blobs[i],
            )
            &&& 0 <= i < files.len() ==> requested(request)[blobs.len() + i]
                == BatchUploadRequest::File(files[i])
        }),
{
}

proof fn pieces_start_at_multiples(blob: Seq<u8>, limit: nat, i: int)
    requires
        limit > 0,
        0 <= i < cut(blob, limit).len(),
    ensures
        joined(cut(blob, limit).take(i)).len() == i * limit,
    decreases i,
{
    pieces_fill_the_limit(blob, limit);
    if i == 0 {
        assert(cut(blob, limit).take(0) =~= Seq::empty());
    } else {
        pieces_start_at_multiples(blob, limit, i - 1);
        let pieces = cut(blob, limit);
        assert(pieces.take(i).drop_last() =~= pieces.take(i - 1));
        assert(pieces.take(i).last() == pieces[i - 1]);
        assert((i - 1) * limit + limit == i * limit) by (nonlinear_arith);
    }
}

/// A blob at hand goes out as segments of the limit's size, one after the other from
/// its start, each with the bytes that stand there; the last, and only the last, ends
/// the blob, and the size that must be confirmed is the blob's.
pub proof fn blobs_go_out_segment_by_segment(
    upload: SegmentedUpload,
    blob: Seq<u8>,
    finished: (Vec<WriteRequest>, i64),
    i: int,
)
    requires
        upload.wf(),
        upload.limit() > 0,
        upload@ == cut(blob, upload.limit()),
        call_ensures(SegmentedUpload::finish, (upload,), finished),
    ensures
        finished.1 == blob.len(),
        blob.len() == 0 <==> finished.0@.len() == 0,
        0 <= i < finished.0@.len() ==> {
            let segment = finished.0@[i];
            &&& segment.resource_name@ == upload.name()
            &&& segment.write_offset == i * upload.limit()
            &&& 0 < segment.data@.len() <= upload.limit()
            &&& segment.write_offset + segment.data@.len() <= blob.len()
            &&& segment.data@ == blob.subrange(
                segment.write_offset as int,
                segment.write_offset + segment.data@.len(),
            )
            &&& i < finished.0@.len() - 1 ==> segment.data@.len() == upload.limit()
                && !segment.finish_write
            &&& i == finished.0@.len() - 1 ==> segment.finish_write && segment.write_offset
                + segment.data@.len() == blob.len()
        },
{
    let limit = upload.limit();
    let pieces = cut(blob, limit);
    pieces_fill_the_limit(blob, limit);
    if blob.len() > 0 {
        assert(pieces.len() > 0);
    }
    if 0 <= i < finished.0@.len() {
        pieces_start_at_multiples(blob, limit, i);
        assert(is_segment(upload.name(), upload@, i, finished.0@[i]));
        segments_rebuild_the_blob(upload.name(), upload@, i, finished.0@[i]);
        if i == pieces.len() - 1 {
            assert(pieces.drop_last() =~= pieces.take(i));
        }
    }
}

/// An upload is confirmed by the size that was sent or by the mark of a blob that was
/// there already; anything else fails and names the upload.
pub proof fn unconfirmed_sizes_fail(
    resource_name: &str,
    committed_size: i64,
    sent: i64,
    checked: Result<(), Error>,
)
    requires
        call_ensures(check_committed_size, (resource_name, committed_size, sent), checked),
    ensures
        checked is Ok <==> committed_size == sent || committed_size == -1,
        checked matches Err(error) ==> error.says(
            "Failed to upload `"@ + resource_name@
                + "`: invalid committed_size from WriteResponse"@,
        ),
{
}

/// A blob of a batch goes out uncompressed, under its digest, with its own bytes: those
/// in memory, or those that were read from its file.
pub proof fn updates_carry_their_blob(
    req: BatchUploadRequest,
    contents: Vec<u8>,
    update: BlobUpdate,
)
    requires
        call_ensures(blob_update, (req, contents), update),
    ensures
        update.compressor == 0,
        update.digest is Some,
        req matches BatchUploadRequest::Blob(blob) ==> {
            &&& update.data@ == blob.blob@
            &&& update.digest->0.hash@ == blob.digest.hash@
            &&& update.digest->0.size_bytes == blob.digest.size_in_bytes
        },
        req matches BatchUploadRequest::File(file) ==> {
            &&& update.data@ == contents@
            &&& update.digest->0.hash@ == file.digest.hash@
            &&& update.digest->0.size_bytes == file.digest.size_in_bytes
        },
{
}

/// A batch on the wire is for the configured instance, holds its updates in order, and
/// lists their hashes in the same order.
pub proof fn batches_list_their_hashes(
    instance_name: InstanceName,
    updates: Vec<BlobUpdate>,
    request: (BatchUpdateBlobsRequest, Vec<String>),
    i: int,
)
    requires
        call_ensures(batch_update_request, (&instance_name, updates), request),
    ensures
        instance_name.0 matches Some(name) ==> request.0.instance_name@ == name@,
        instance_name.0 is None ==> request.0.instance_name@.len() == 0,
        request.0.requests@ == updates@,
        request.1@.len() == updates@.len(),
        0 <= i < updates@.len() ==> request.1@[i]@ == updates@[i].digest->0.hash@,
{
    if 0 <= i < updates@.len() {
        assert(request.1@[i] == updates@[i].digest->0.hash);
    }
}

proof fn failures_are_told(responses: Seq<BlobUpdateResponse>)
    ensures
        failure_texts(responses) == responses.filter(
            |response: BlobUpdateResponse|
                response.status is Some && response.status->0.code != 0,
        ).map_values(|response: BlobUpdateResponse| failure_text(response)),
        (failure_texts(responses).len() == 0) <==> forall|i: int|
            0 <= i < responses.len() ==> (#[trigger] responses[i]).status is None
                || responses[i].status->0.code == 0,
    decreases responses.len(),
{
    reveal(Seq::filter);
    if responses.len() > 0 {
        let before = responses.drop_last();
        failures_are_told(before);
        let failed = |response: BlobUpdateResponse|
            response.status is Some && response.status->0.code != 0;
        let told = |response: BlobUpdateResponse| failure_text(response);
        let last = responses.last();
        if failed(last) {
            assert(responses.filter(failed) =~= before.filter(failed).push(last));
            assert(responses.filter(failed).map_values(told) =~= before.filter(failed).map_values(
                told,
            ).push(told(last)));
            assert(responses[responses.len() - 1].status->0.code != 0);
        } else {
            assert(responses.filter(failed) =~= before.filter(failed));
            assert forall|i: int|
                (forall|j: int|
                    0 <= j < before.len() ==> (#[trigger] before[j]).status is None
                        || before[j].status->0.code == 0) && 0 <= i < responses.len() implies (
            #[trigger] responses[i]).status is None || responses[i].status->0.code == 0 by {
                if i < before.len() {
                    assert(before[i] == responses[i]);
                }
            }
        }
        if forall|i: int|
            0 <= i < responses.len() ==> (#[trigger] responses[i]).status is None
                || responses[i].status->0.code == 0 {
            assert forall|j: int| 0 <= j < before.len() implies (
            #[trigger] before[j]).status is None || before[j].status->0.code == 0 by {
                assert(before[j] == responses[j]);
            }
            assert(responses[responses.len() - 1] == last);
        }
    } else {
        assert(responses.filter(
            |response: BlobUpdateResponse|
                response.status is Some && response.status->0.code != 0,
        ).map_values(|response: BlobUpdateResponse| failure_text(response)) =~= Seq::empty());
    }
}

/// A batch is stored exactly where no response reports a failure, and then comes to the
/// hashes that were listed. Otherwise every blob that was not stored is told of, in
/// order, with its hash, code and message.
pub proof fn batches_are_stored_or_told_of(
    response: BatchUpdateBlobsResponse,
    blob_hashes: Vec<String>,
    outcome: Result<Vec<String>, Error>,
)
    requires
        call_ensures(batch_upload_outcome, (&response, blob_hashes), outcome),
    ensures
        outcome is Ok <==> forall|i: int|
            0 <= i < response.responses@.len() ==> (
            #[trigger] response.responses@[i]).status is None
                || response.responses@[i].status->0.code == 0,
        outcome matches Ok(hashes) ==> hashes == blob_hashes,
        outcome matches Err(error) ==> error.says(
            "Batch upload failed: "@ + list_text(
                response.responses@.filter(
                    |response: BlobUpdateResponse|
                        response.status is Some && response.status->0.code != 0,
                ).map_values(
                    |response: BlobUpdateResponse|
                        "Unable to upload blob '"@ + (match response.digest {
                            Some(digest) => digest.hash@,
                            None => "N/A"@,
                        }) + "', rpc status code: "@ + signed_decimal(
                            response.status->0.code as int,
                        ) + ", message: \""@ + response.status->0.message@ + "\""@,
                ),
            ),
        ),
{
    failures_are_told(response.responses@);
    let failed = response.responses@.filter(
        |response: BlobUpdateResponse| response.status is Some && response.status->0.code != 0,
    );
    assert(failed.map_values(
        |response: BlobUpdateResponse|
            "Unable to upload blob '"@ + (match response.digest {
                Some(digest) => digest.hash@,
                None => "N/A"@,
            }) + "', rpc status code: "@ + signed_decimal(response.status->0.code as int)
                + ", message: \""@ + response.status->0.message@ + "\""@,
    ) =~= failed.map_values(|response: BlobUpdateResponse| failure_text(response)));
}

/// A single blob is streamed where it reaches the limit, sent in a batch of its own
/// where it does not, and not sent at all where it is empty.
pub proof fn one_blob_plans(
    instance: Option<Seq<char>>,
    compressor: Option<Compressor>,
    limit: i64,
    req: BatchUploadRequest,
    plan: UploadPlan,
)
    requires
        is_plan(instance, compressor, limit, seq![req], plan),
    ensures
        ({
            let digest = match req {
                BatchUploadRequest::Blob(blob) => blob.digest,
                BatchUploadRequest::File(file) => file.digest,
            };
            let size = digest.size_in_bytes;
            &&& size >= limit ==> plan.streamed@.len() == 1 && plan.batches@.len() == 0
                && plan.streamed@[0].hash == digest.hash && plan.streamed@[0].source == (
            match req {
                BatchUploadRequest::Blob(blob) => UploadSource::Blob(blob.blob),
                BatchUploadRequest::File(file) => UploadSource::File(file.name),
            })
            &&& size < limit && size != 0 ==> plan.streamed@.len() == 0 && plan.batches@.len()
                == 1 && plan.batches@[0]@ == seq![req]
            &&& size < limit && size == 0 ==> plan.streamed@.len() == 0 && plan.batches@.len()
                == 0
        }),
{
    reveal_with_fuel(small, 2);
    reveal_with_fuel(large, 2);
    reveal_with_fuel(without_empty, 2);
    let reqs = seq![req];
    assert(reqs.drop_last() =~= Seq::empty());
    let below = small(reqs, limit);
    let size = req.bytes();
    let contents = batch_contents(plan.batches@);
    assert(contents.len() == plan.batches@.len());
    if size < limit {
        assert(below =~= seq![req]);
        let sent = without_empty(below);
        if size == 0 {
            assert(below.drop_last() =~= Seq::empty());
            assert(sent =~= Seq::empty());
        } else {
            assert(below.drop_last() =~= Seq::empty());
            assert(sent =~= seq![req]);
            assert(sent.drop_last() =~= Seq::empty());
            let b = batched(sent, limit as int);
            assert(batch_size(Seq::<BatchUploadRequest>::empty()) == 0);
            assert(batched(sent.drop_last(), limit as int) == no_batches::<BatchUploadRequest>());
            assert(b == no_batches::<BatchUploadRequest>().with(req, limit as int));
            assert(b.current =~= seq![req]);
            assert(contents.len() == 1);
            assert(contents[0] == seq![req]);
            assert(contents[0] == plan.batches@[0]@);
        }
    } else {
        assert(large(reqs, limit) =~= seq![req]);
        assert(below =~= Seq::empty());
        assert(streams(instance, compressor, large(reqs, limit)[0], plan.streamed@[0]));
    }
}

} // verus!
