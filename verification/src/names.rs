//! The names under which the service knows instances, compressors and blobs.
use vstd::prelude::*;
use vstd::string::*;

use crate::digest::{DigestValue, TDigest};
use crate::text::{signed_decimal, signed_decimal_text};

verus! {

/// How the wire numbers data that is not compressed.
pub const COMPRESSOR_IDENTITY: i32 = 0;

/// How the wire numbers the zstd compressor.
pub const COMPRESSOR_ZSTD: i32 = 1;

/// How the wire numbers the deflate compressor.
pub const COMPRESSOR_DEFLATE: i32 = 2;

/// How the wire numbers the brotli compressor.
pub const COMPRESSOR_BROTLI: i32 = 3;

/// The instance of the service that requests are for, if one is configured.
#[derive(Debug)]
pub struct InstanceName(pub Option<String>);

impl View for InstanceName {
    type V = Option<Seq<char>>;

    open spec fn view(&self) -> Option<Seq<char>> {
        match self.0 {
            Some(name) => Some(name@),
            None => None,
        }
    }
}

/// The name of an instance in requests: empty where none is configured.
pub open spec fn instance_text(instance: Option<Seq<char>>) -> Seq<char> {
    match instance {
        Some(name) => name,
        None => Seq::empty(),
    }
}

/// What resource names of an instance start with.
pub open spec fn resource_prefix(instance: Option<Seq<char>>) -> Seq<char> {
    match instance {
        Some(name) => name + "/"@,
        None => Seq::empty(),
    }
}

impl InstanceName {
    /// The name in requests.
    pub fn as_str(&self) -> (name: &str)
        ensures
            name@ == instance_text(self@),
    {
        match &self.0 {
            Some(instance_name) => instance_name.as_str(),
            None => {
                proof {
                    reveal_strlit("");
                }
                assert(""@ =~= Seq::<char>::empty());
                ""
            },
        }
    }

    /// What resource names of the instance start with.
    pub fn as_resource_prefix(&self) -> (prefix: String)
        ensures
            prefix@ == resource_prefix(self@),
    {
        match &self.0 {
            Some(instance_name) => {
                let mut prefix = instance_name.clone();
                prefix.append("/");
                prefix
            },
            None => String::new(),
        }
    }
}

/// A compressor for blobs that are streamed.
#[derive(Clone, Copy, Debug, PartialEq, Eq, Hash, Structural)]
pub enum Compressor {
    Zstd,
    Deflate,
    Brotli,
}

impl Compressor {
    /// The compressor that the wire numbers `val`, if it is one of these.
    pub open spec fn numbered(val: i32) -> Option<Compressor> {
        if val == COMPRESSOR_ZSTD {
            Some(Compressor::Zstd)
        } else if val == COMPRESSOR_DEFLATE {
            Some(Compressor::Deflate)
        } else if val == COMPRESSOR_BROTLI {
            Some(Compressor::Brotli)
        } else {
            None
        }
    }

    /// The compressor's name in resource names.
    pub open spec fn text(self) -> Seq<char> {
        match self {
            Compressor::Zstd => "zstd"@,
            Compressor::Deflate => "deflate"@,
            Compressor::Brotli => "brotli"@,
        }
    }

    /// The compressor that the wire numbers `val`, if it is one of these.
    pub fn from_grpc(val: i32) -> (compressor: Option<Compressor>)
        ensures
            compressor == Compressor::numbered(val),
    {
        if val == COMPRESSOR_ZSTD {
            Some(Compressor::Zstd)
        } else if val == COMPRESSOR_DEFLATE {
            Some(Compressor::Deflate)
        } else if val == COMPRESSOR_BROTLI {
            Some(Compressor::Brotli)
        } else {
            None
        }
    }

    /// The compressor's name in resource names.
    pub fn name(&self) -> (name: &'static str)
        ensures
            name@ == self.text(),
    {
        match self {
            Compressor::Zstd => "zstd",
            Compressor::Deflate => "deflate",
            Compressor::Brotli => "brotli",
        }
    }
}

/// The part of a resource name that says which blob it is and how it is packed.
pub open spec fn blob_path(compressor: Option<Compressor>, digest: DigestValue) -> Seq<char> {
    (match compressor {
        Some(compressor) => "compressed-blobs/"@ + compressor.text() + "/"@,
        None => "blobs/"@,
    }) + digest.0 + "/"@ + signed_decimal(digest.1 as int)
}

/// The name under which a blob is read.
pub open spec fn read_name(
    instance: Option<Seq<char>>,
    compressor: Option<Compressor>,
    digest: DigestValue,
) -> Seq<char> {
    resource_prefix(instance) + blob_path(compressor, digest)
}

/// The name under which a blob is written.
pub open spec fn write_name(
    instance: Option<Seq<char>>,
    client_uuid: Seq<char>,
    compressor: Option<Compressor>,
    digest: DigestValue,
) -> Seq<char> {
    resource_prefix(instance) + "uploads/"@ + client_uuid + "/"@ + blob_path(compressor, digest)
}

fn blob_path_text(compressor: Option<Compressor>, digest: &TDigest) -> (path: String)
    ensures
        path@ == blob_path(compressor, digest@),
{
    let mut path = match compressor {
        Some(compressor) => {
            let mut path = "compressed-blobs/".to_owned();
            path.append(compressor.name());
            path.append("/");
            path
        },
        None => "blobs/".to_owned(),
    };
    path.append(digest.hash.as_str());
    path.append("/");
    path.append(signed_decimal_text(digest.size_in_bytes).as_str());
    path
}

/// The name under which a blob is read.
pub fn download_resource_name(
    instance_name: &InstanceName,
    compressor: Option<Compressor>,
    digest: &TDigest,
) -> (name: String)
    ensures
        name@ == read_name(instance_name@, compressor, digest@),
{
    let mut name = instance_name.as_resource_prefix();
    name.append(blob_path_text(compressor, digest).as_str());
    name
}

/// The name under which a blob is written.
pub fn upload_resource_name(
    instance_name: &InstanceName,
    client_uuid: &str,
    compressor: Option<Compressor>,
    digest: &TDigest,
) -> (name: String)
    ensures
        name@ == write_name(instance_name@, client_uuid@, compressor, digest@),
{
    let mut name = instance_name.as_resource_prefix();
    name.append("uploads/");
    name.append(client_uuid);
    name.append("/");
    name.append(blob_path_text(compressor, digest).as_str());
    name
}

/// The wire numbers the compressors one, two and three; data that is not compressed has
/// the number zero, and no other number stands for a compressor.
pub proof fn compressors_are_numbered(val: i32)
    ensures
        Compressor::numbered(1) == Some(Compressor::Zstd),
        Compressor::numbered(2) == Some(Compressor::Deflate),
        Compressor::numbered(3) == Some(Compressor::Brotli),
        Compressor::numbered(val) is Some <==> 1 <= val <= 3,
{
}

/// A blob is read under its instance, how it is packed, its hash and its size.
pub proof fn read_names_spell_out_the_blob(
    instance_name: InstanceName,
    compressor: Option<Compressor>,
    digest: TDigest,
    name: String,
)
    requires
        call_ensures(download_resource_name, (&instance_name, compressor, &digest), name),
    ensures
        ({
            let start = match instance_name.0 {
                Some(instance) => instance@ + "/"@,
                None => Seq::empty(),
            };
            let packing = match compressor {
                None => "blobs/"@,
                Some(Compressor::Zstd) => "compressed-blobs/"@ + "zstd"@ + "/"@,
                Some(Compressor::Deflate) => "compressed-blobs/"@ + "deflate"@ + "/"@,
                Some(Compressor::Brotli) => "compressed-blobs/"@ + "brotli"@ + "/"@,
            };
            name@ == start + (packing + digest.hash@ + "/"@ + signed_decimal(
                digest.size_in_bytes as int,
            ))
        }),
{
}

/// A blob is written under the name it is read under, with the writer's own part
/// between the instance and the rest.
pub proof fn write_names_extend_read_names(
    instance_name: InstanceName,
    client_uuid: String,
    compressor: Option<Compressor>,
    digest: TDigest,
)
    ensures
        ({
            let start = match instance_name.0 {
                Some(instance) => instance@ + "/"@,
                None => Seq::empty(),
            };
            let read = read_name(instance_name@, compressor, digest@);
            let written = write_name(instance_name@, client_uuid@, compressor, digest@);
            &&& read.take(start.len() as int) == start
            &&& written == start + "uploads/"@ + client_uuid@ + "/"@ + read.skip(
                start.len() as int,
            )
        }),
{
    let start = resource_prefix(instance_name@);
    let read = read_name(instance_name@, compressor, digest@);
    assert(read.take(start.len() as int) =~= start);
    assert(read.skip(start.len() as int) =~= blob_path(compressor, digest@));
}

/// Names of the same instance and packing tell two blobs apart by their hashes: where
/// two hashes of one length differ, so do the names.
pub proof fn names_tell_hashes_apart(
    instance: Option<Seq<char>>,
    compressor: Option<Compressor>,
    one: DigestValue,
    other: DigestValue,
)
    requires
        one.0.len() == other.0.len(),
        read_name(instance, compressor, one) == read_name(instance, compressor, other),
    ensures
        one.0 == other.0,
{
    let start = resource_prefix(instance);
    let packing = match compressor {
        Some(compressor) => "compressed-blobs/"@ + compressor.text() + "/"@,
        None => "blobs/"@,
    };
    let from: int = start.len() + packing.len() + 0int;
    let a = read_name(instance, compressor, one);
    let b = read_name(instance, compressor, other);
    assert(a.subrange(from, from + one.0.len()) =~= one.0);
    assert(b.subrange(from, from + other.0.len()) =~= other.0);
}

/// In requests an instance goes by its name, and by no name where none is configured.
pub proof fn instances_go_by_their_name(instance: Option<Seq<char>>)
    ensures
        instance matches Some(name) ==> instance_text(instance) == name,
        instance is None ==> instance_text(instance).len() == 0,
{
}

} // verus!
