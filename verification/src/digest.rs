//! Content digests, in the shape callers use and in the shape the wire uses.
use vstd::prelude::*;
use vstd::string::*;

use crate::keyed::Key;
use crate::text::{signed_decimal, signed_decimal_text};

verus! {

/// A content digest as callers hold it.
#[derive(Debug)]
pub struct TDigest {
    pub hash: String,
    pub size_in_bytes: i64,
}

/// A content digest as the wire carries it.
#[derive(Debug)]
pub struct Digest {
    pub hash: String,
    pub size_bytes: i64,
}

/// What a digest says, in either shape: a hash and a size.
pub type DigestValue = (Seq<char>, i64);

impl View for TDigest {
    type V = DigestValue;

    open spec fn view(&self) -> DigestValue {
        (self.hash@, self.size_in_bytes)
    }
}

impl DeepView for TDigest {
    type V = DigestValue;

    open spec fn deep_view(&self) -> DigestValue {
        self@
    }
}

impl View for Digest {
    type V = DigestValue;

    open spec fn view(&self) -> DigestValue {
        (self.hash@, self.size_bytes)
    }
}

impl DeepView for Digest {
    type V = DigestValue;

    open spec fn deep_view(&self) -> DigestValue {
        self@
    }
}

impl Clone for TDigest {
    fn clone(&self) -> (res: Self)
        ensures
            res == *self,
    {
        TDigest { hash: self.hash.clone(), size_in_bytes: self.size_in_bytes }
    }
}

impl Clone for Digest {
    fn clone(&self) -> (res: Self)
        ensures
            res == *self,
    {
        Digest { hash: self.hash.clone(), size_bytes: self.size_bytes }
    }
}

impl Default for TDigest {
    fn default() -> (res: Self)
        ensures
            res@ == (Seq::<char>::empty(), 0i64),
    {
        TDigest { hash: String::new(), size_in_bytes: 0 }
    }
}

impl Key for TDigest {
    fn same_key(&self, other: &Self) -> (same: bool) {
        self.hash == other.hash && self.size_in_bytes == other.size_in_bytes
    }
}

/// How a digest reads in messages: the hash, a colon and the size.
pub open spec fn digest_text(digest: DigestValue) -> Seq<char> {
    digest.0 + ":"@ + signed_decimal(digest.1 as int)
}

impl TDigest {
    /// The digest as it reads in messages.
    pub fn to_text(&self) -> (text: String)
        ensures
            text@ == digest_text(self@),
    {
        let mut text = self.hash.clone();
        text.append(":");
        text.append(signed_decimal_text(self.size_in_bytes).as_str());
        text
    }
}

/// The wire form of a digest.
pub fn tdigest_to(tdigest: TDigest) -> (digest: Digest)
    ensures
        digest.hash == tdigest.hash,
        digest.size_bytes == tdigest.size_in_bytes,
        digest@ == tdigest@,
{
    Digest { hash: tdigest.hash, size_bytes: tdigest.size_in_bytes }
}

/// The caller's form of a digest.
pub fn tdigest_from(digest: Digest) -> (tdigest: TDigest)
    ensures
        tdigest.hash == digest.hash,
        tdigest.size_in_bytes == digest.size_bytes,
        tdigest@ == digest@,
{
    TDigest { hash: digest.hash, size_in_bytes: digest.size_bytes }
}

/// The caller's form of a digest that may be absent.
pub fn optional_tdigest_from(digest: Option<Digest>) -> (tdigest: Option<TDigest>)
    ensures
        digest is None ==> tdigest is None,
        digest matches Some(d) ==> tdigest == Some(
            (TDigest { hash: d.hash, size_in_bytes: d.size_bytes }),
        ),
{
    match digest {
        Some(digest) => Some(tdigest_from(digest)),
        None => None,
    }
}

/// The wire form of a digest that may be absent.
pub fn optional_tdigest_to(tdigest: Option<TDigest>) -> (digest: Option<Digest>)
    ensures
        tdigest is None ==> digest is None,
        tdigest matches Some(t) ==> digest == Some(
            (Digest { hash: t.hash, size_bytes: t.size_in_bytes }),
        ),
{
    match tdigest {
        Some(tdigest) => Some(tdigest_to(tdigest)),
        None => None,
    }
}

/// A digest says the same on the wire as off it, and comes back as it was.
pub proof fn digests_come_back_as_they_were(tdigest: TDigest, wire: Digest, back: TDigest)
    requires
        call_ensures(tdigest_to, (tdigest,), wire),
        call_ensures(tdigest_from, (wire,), back),
    ensures
        wire.hash@ == tdigest.hash@,
        wire.size_bytes == tdigest.size_in_bytes,
        back.hash@ == tdigest.hash@,
        back.size_in_bytes == tdigest.size_in_bytes,
{
}

/// A digest that may be absent is absent on the wire exactly where it is off it.
pub proof fn absent_digests_stay_absent(
    tdigest: Option<TDigest>,
    wire: Option<Digest>,
    back: Option<TDigest>,
)
    requires
        call_ensures(optional_tdigest_to, (tdigest,), wire),
        call_ensures(optional_tdigest_from, (wire,), back),
    ensures
        tdigest is Some <==> wire is Some,
        back is Some <==> tdigest is Some,
        tdigest is Some ==> wire->0@ == tdigest->0@ && back->0@ == tdigest->0@,
{
}

/// In messages a digest reads as its hash, a colon and its size.
pub proof fn digests_read_as_hash_and_size(digest: TDigest, text: String)
    requires
        call_ensures(TDigest::to_text, (&digest,), text),
    ensures
        text@ == digest.hash@ + ":"@ + signed_decimal(digest.size_in_bytes as int),
{
}

/// Two digests are the same exactly where both their hashes and their sizes are.
pub proof fn digests_are_told_apart(one: TDigest, other: TDigest)
    ensures
        one@ == other@ <==> one.hash@ == other.hash@ && one.size_in_bytes == other.size_in_bytes,
{
}

} // verus!
