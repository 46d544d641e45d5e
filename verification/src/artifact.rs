//! Job ids, the keys under which a job is cached and its artifact stored,
//! and the packing of an artifact.
//!
//! A job id is a UUID. Reading and writing one, drawing a new one, gzip and
//! base64 are the work of outside crates; the functions at the end of this
//! file call them, and their contracts are taken on trust.

use vstd::prelude::*;
use crate::text::join2;

verus! {

/// The value of the UUID that a text spells, as `Uuid::try_parse` of the
/// `uuid` crate reads it; `None` where it reads none.
pub uninterp spec fn uuid_value(text: Seq<char>) -> Option<u128>;

/// The text of a UUID as the `uuid` crate displays it.
pub uninterp spec fn uuid_text(value: u128) -> Seq<char>;

/// The base64 text of bytes, as the standard engine of the `base64` crate
/// (standard alphabet, padded) encodes them.
pub uninterp spec fn base64_standard(bytes: Seq<u8>) -> Seq<char>;

/// The gzip member that the encoder of the `flate2` crate makes of bytes at
/// its default level, with the blank header that it writes unasked; `None`
/// where the encoder reports an error.
pub uninterp spec fn gzip_bytes(bytes: Seq<u8>) -> Option<Seq<u8>>;

/// The bytes that were packed, if any were.
pub open spec fn packed_bytes(packed: Option<Vec<u8>>) -> Option<Seq<u8>> {
    match packed {
        Some(bytes) => Some(bytes@),
        None => None,
    }
}

/// A UUID of version 4 in the variant of RFC 9562: the four bits of the
/// version are `0100`, the two bits of the variant `10`. The other 122 bits
/// are free.
pub open spec fn is_random_uuid(value: u128) -> bool {
    value & 0x0000_0000_0000_f000_c000_0000_0000_0000u128
        == 0x0000_0000_0000_4000_8000_0000_0000_0000u128
}

/// The cache key of a job's state.
pub open spec fn job_cache_key_text(job_id: Seq<char>) -> Seq<char> {
    "gen:job:"@ + job_id
}

/// The object key of a job's artifact.
pub open spec fn object_key_text(job_id: Seq<char>) -> Seq<char> {
    job_id + ".rapidl.gz"@
}

/// The first bytes of every gzip member: the magic number and the method
/// `deflate`.
pub open spec fn gzip_framed(bytes: Seq<u8>) -> bool {
    bytes.len() >= 18 && bytes[0] == 0x1f && bytes[1] == 0x8b && bytes[2] == 8
}

/// The cache key under which a job's state is kept.
pub fn job_cache_key(job_id: &str) -> (r: String)
    ensures
        r@ == job_cache_key_text(job_id@),
{
    join2("gen:job:", job_id)
}

/// The key under which a job's artifact is stored.
pub fn object_key(job_id: &str) -> (r: String)
    ensures
        r@ == object_key_text(job_id@),
{
    join2(job_id, ".rapidl.gz")
}

/// Reads a job id; `None` where the text is no UUID.
pub fn parse_job_id(text: &str) -> (r: Option<u128>)
    ensures
        r == uuid_value(text@),
{
    try_parse_uuid(text)
}

/// The job id that a text spells, written the one way in which keys hold
/// it; `None` where the text is no UUID.
pub fn canonical_job_id(text: &str) -> (r: Option<String>)
    ensures
        match uuid_value(text@) {
            Some(value) => r matches Some(id) && id@ == uuid_text(value),
            None => r is None,
        },
{
    match try_parse_uuid(text) {
        Some(value) => Some(uuid_to_string(value)),
        None => None,
    }
}

/// A fresh job id, as text: the text of a random UUID of version 4.
pub fn new_job_id() -> (r: String)
    ensures
        exists|value: u128| is_random_uuid(value) && r@ == #[trigger] uuid_text(value),
{
    let value = random_uuid();
    uuid_to_string(value)
}

/// Packs the bytes of an artifact for storage: what comes back is the gzip
/// member that the encoder makes of them, which starts as every gzip member
/// does; `None` where the encoder reported an error.
pub fn compress_artifact(bytes: &Vec<u8>) -> (r: Option<Vec<u8>>)
    ensures
        packed_bytes(r) == gzip_bytes(bytes@),
        r matches Some(packed) ==> gzip_framed(packed@),
{
    gzip(bytes)
}

/// The stored bytes of an artifact as the text that is sent to its owner;
/// `None` where the text would be longer than the machine can address.
pub fn encode_blob(bytes: &Vec<u8>) -> (r: Option<String>)
    ensures
        match r {
            Some(text) => bytes@.len() / 3 < usize::MAX / 4 && text@ == base64_standard(bytes@),
            None => bytes@.len() / 3 >= usize::MAX / 4,
        },
{
    if bytes.len() / 3 < usize::MAX / 4 {
        Some(base64_encode(bytes))
    } else {
        None
    }
}

/// `uuid::Uuid::try_parse`, with the UUID handed back as its 128-bit value.
/// Trusted: the result is what `uuid_value` names.
#[verifier::external_body]
fn try_parse_uuid(text: &str) -> (r: Option<u128>)
    ensures
        r == uuid_value(text@),
{
    match uuid::Uuid::try_parse(text) {
        Ok(id) => Some(id.as_u128()),
        Err(_) => None,
    }
}

/// The `Display` of `uuid::Uuid`, on the UUID of a 128-bit value. Trusted:
/// the result is what `uuid_text` names.
#[verifier::external_body]
fn uuid_to_string(value: u128) -> (r: String)
    ensures
        r@ == uuid_text(value),
{
    uuid::Uuid::from_u128(value).to_string()
}

/// `uuid::Uuid::new_v4`: a random UUID, as its 128-bit value. It takes 128
/// random bits from the operating system and overwrites six of them with
/// the version and the variant. Trusted: those six bits; of the others
/// nothing is claimed.
#[verifier::external_body]
fn random_uuid() -> (r: u128)
    ensures
        is_random_uuid(r),
{
    uuid::Uuid::new_v4().as_u128()
}

/// `flate2::write::GzEncoder` at the default level, fed all the bytes and
/// finished. The encoder reads no clock and no setting of the machine: its
/// header holds no time, no name and no system, so the same bytes are packed
/// to the same bytes. Trusted: the result is what `gzip_bytes` names, and
/// what it hands back starts with the ten-byte gzip header (magic number
/// `1f 8b`, method 8) and ends with the eight-byte trailer, so it is at
/// least 18 bytes long.
#[verifier::external_body]
fn gzip(bytes: &Vec<u8>) -> (r: Option<Vec<u8>>)
    ensures
        packed_bytes(r) == gzip_bytes(bytes@),
        r matches Some(packed) ==> gzip_framed(packed@),
{
    let mut encoder = flate2::write::GzEncoder::new(Vec::new(), flate2::Compression::default());
    match std::io::Write::write_all(&mut encoder, bytes) {
        Ok(()) => match encoder.finish() {
            Ok(packed) => Some(packed),
            Err(_) => None,
        },
        Err(_) => None,
    }
}

/// `base64::Engine::encode` of the crate's `STANDARD` engine. It panics
/// where the length of the text overflows `usize`; such inputs are left out.
/// Trusted: the result is what `base64_standard` names.
#[verifier::external_body]
fn base64_encode(bytes: &Vec<u8>) -> (r: String)
    requires
        bytes@.len() / 3 < usize::MAX / 4,
    ensures
        r@ == base64_standard(bytes@),
{
    base64::Engine::encode(&base64::engine::general_purpose::STANDARD, bytes)
}

} // verus!
