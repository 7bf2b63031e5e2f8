use vstd::prelude::*;
use vstd::string::StrSliceExecFns;
use vstd::utf8::encode_utf8;
use sha2::{Digest, Sha256};

verus! {

/// The SHA-256 digest of `data`.
pub uninterp spec fn sha256_of(data: Seq<u8>) -> Seq<u8>;

/// Relies on sha2's `Sha256` through digest's `Digest::input` and
/// `Digest::result`: the SHA-256 digest of `data`, 32 bytes long, which
/// depends on `data` alone.
#[verifier::external_body]
fn sha256(data: &[u8]) -> (r: Vec<u8>)
    ensures
        r@ == sha256_of(data@),
        r@.len() == 32,
{
    let mut hasher = Sha256::new();
    hasher.input(data);
    hasher.result().to_vec()
}

/// The first four bytes of `b`, read as a big-endian number.
pub open spec fn be_u32(b: Seq<u8>) -> u32 {
    (b[0] as int * 0x100_0000 + b[1] as int * 0x1_0000 + b[2] as int * 0x100 + b[3] as int) as u32
}

/// The identifier of a function: the first four bytes of the SHA-256 digest
/// of the UTF-8 form of its interface string, read as a big-endian number.
pub open spec fn function_id(name: Seq<char>) -> u32 {
    be_u32(sha256_of(encode_utf8(name)))
}

/// The identifier that a digest gives: its first four bytes, big-endian.
pub fn id_from_digest(digest: &[u8]) -> (r: u32)
    requires
        digest@.len() >= 4,
    ensures
        r == be_u32(digest@),
{
    (digest[0] as u32) * 0x100_0000 + (digest[1] as u32) * 0x1_0000 + (digest[2] as u32) * 0x100
        + (digest[3] as u32)
}

/// The identifier of the function with interface string `func_interface`.
pub fn calc_func_id(func_interface: &str) -> (r: u32)
    ensures
        r == function_id(func_interface@),
{
    let bytes = func_interface.as_bytes_vec();
    let digest = sha256(bytes.as_slice());
    id_from_digest(digest.as_slice())
}

} // verus!
