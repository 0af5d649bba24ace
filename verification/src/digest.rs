use vstd::prelude::*;

use vstd::string::StrSliceExecFns;
use vstd::string::StringSliceAdditionalSpecFns;

use sha2::Digest;

verus! {

/// The SHA-256 digest of a byte string.  The digest depends on the bytes
/// alone, so it carries a name here rather than a transcription of the
/// algorithm; the operation and record tags below are stated over it.
pub uninterp spec fn sha256_of(bytes: Seq<u8>) -> Seq<u8>;

/// Relies on sha2::Sha256::digest: the one-shot SHA-256 hash of the input;
/// the output is always 32 bytes and is a function of the input alone.
#[verifier::external_body]
fn sha256(bytes: &Vec<u8>) -> (digest: Vec<u8>)
    ensures
        digest@ == sha256_of(bytes@),
        digest@.len() == 32,
{
    sha2::Sha256::digest(bytes.as_slice()).to_vec()
}

/// The fixed-width tag that identifies an operation on the wire: the first
/// eight bytes of the digest of the namespaced operation name.
pub open spec fn spec_operation_tag(name: &str) -> Seq<u8> {
    sha256_of("global:".spec_bytes() + name.spec_bytes()).take(8)
}

/// Derive the eight-byte operation tag for a named operation.  Any two
/// implementations must agree on this derivation to be wire-compatible.
pub fn anchor_discriminator(name: &str) -> (tag: Vec<u8>)
    ensures
        tag@ == spec_operation_tag(name),
        tag@.len() == 8,
{
    let mut input = "global:".as_bytes_vec();
    let mut name_bytes = name.as_bytes_vec();
    input.append(&mut name_bytes);
    let digest = sha256(&input);
    let mut tag: Vec<u8> = Vec::new();
    let mut i: usize = 0;
    while i < 8
        invariant
            i <= 8,
            digest@ == sha256_of("global:".spec_bytes() + name.spec_bytes()),
            digest@.len() == 32,
            tag@ =~= digest@.take(i as int),
        decreases 8 - i,
    {
        tag.push(digest[i]);
        i = i + 1;
    }
    proof {
        assert(tag@ =~= spec_operation_tag(name));
    }
    tag
}

/// The fixed-width tag that identifies a record kind on the wire: the
/// first eight bytes of the digest of the namespaced record name.
pub open spec fn spec_record_tag(name: &str) -> Seq<u8> {
    sha256_of("account:".spec_bytes() + name.spec_bytes()).take(8)
}

/// Derive the eight-byte record tag for a named record kind.
pub fn account_discriminator(name: &str) -> (tag: Vec<u8>)
    ensures
        tag@ == spec_record_tag(name),
        tag@.len() == 8,
{
    let mut input = "account:".as_bytes_vec();
    let mut name_bytes = name.as_bytes_vec();
    input.append(&mut name_bytes);
    let digest = sha256(&input);
    let mut tag: Vec<u8> = Vec::new();
    let mut i: usize = 0;
    while i < 8
        invariant
            i <= 8,
            digest@ == sha256_of("account:".spec_bytes() + name.spec_bytes()),
            digest@.len() == 32,
            tag@ =~= digest@.take(i as int),
        decreases 8 - i,
    {
        tag.push(digest[i]);
        i = i + 1;
    }
    proof {
        assert(tag@ =~= spec_record_tag(name));
    }
    tag
}

} // verus!
