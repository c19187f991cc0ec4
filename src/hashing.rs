//! The content hash of a built program: a BLAKE2b-256 digest over the
//! artifact bytes followed by the settings that take part in the identity of a
//! program, in a canonical, length-prefixed encoding.

use crate::metadata::{opt_view, EntropyProgramMetadata};
use vstd::bytes::{spec_u64_to_le_bytes, u64_to_le_bytes, lemma_auto_spec_u64_to_from_le_bytes, spec_u64_from_le_bytes};
use vstd::prelude::*;
use vstd::utf8::{encode_utf8, encode_utf8_decode_utf8};

verus! {

/// The number of bytes in a content hash.
pub const HASH_LEN: usize = 32;

/// The BLAKE2b-256 digest of the given bytes.
pub uninterp spec fn blake2_256_of(data: Seq<u8>) -> Seq<u8>;

/// Relies on `sp_crypto_hashing::blake2_256`: the 32-byte BLAKE2b digest of
/// the data, which depends on the data alone.
#[verifier::external_body]
fn blake2_256(data: &[u8]) -> (r: [u8; 32])
    ensures
        r@ == blake2_256_of(data@),
{
    sp_crypto_hashing::blake2_256(data)
}

/// A byte string preceded by its length as eight little-endian bytes.
pub open spec fn length_prefixed(b: Seq<u8>) -> Seq<u8> {
    spec_u64_to_le_bytes(b.len() as u64) + b
}

/// The text of an optional setting, empty where it is absent.
pub open spec fn text_or_empty(o: Option<String>) -> Seq<char> {
    match opt_view(o) {
        Some(s) => s,
        None => Seq::empty(),
    }
}

/// The settings that take part in a program's hash: the configuration schema,
/// the auxiliary data schema, the oracle data pointer (each empty where
/// absent) and the version number (zero where absent). The build image does
/// not take part.
pub open spec fn hashed_settings(m: EntropyProgramMetadata) -> (Seq<char>, Seq<char>, Seq<char>, u8) {
    (
        text_or_empty(m.configuration_schema),
        text_or_empty(m.auxiliary_data_schema),
        text_or_empty(m.oracle_data_pointer),
        match m.version_number {
            Some(v) => v,
            None => 0u8,
        },
    )
}

/// The canonical encoding of the hashed settings: each text as its UTF-8
/// bytes with a length prefix, in a fixed order, then the version byte.
pub open spec fn settings_encoding(m: EntropyProgramMetadata) -> Seq<u8> {
    let (c, a, o, v) = hashed_settings(m);
    length_prefixed(encode_utf8(c)) + length_prefixed(encode_utf8(a)) + length_prefixed(encode_utf8(o))
        + seq![v]
}

/// The bytes that a program's hash is taken over.
pub open spec fn hash_input(binary: Seq<u8>, m: EntropyProgramMetadata) -> Seq<u8> {
    length_prefixed(binary) + settings_encoding(m)
}

/// The content hash of a program built to `binary` with settings `m`.
pub open spec fn content_hash(binary: Seq<u8>, m: EntropyProgramMetadata) -> Seq<u8> {
    blake2_256_of(hash_input(binary, m))
}

/// Appends `b` to `out`, preceded by its length.
fn push_length_prefixed(out: &mut Vec<u8>, b: &[u8])
    ensures
        final(out)@ == old(out)@ + length_prefixed(b@),
{
    let mut len = u64_to_le_bytes(b.len() as u64);
    out.append(&mut len);
    out.extend_from_slice(b);
    assert(final(out)@ =~= old(out)@ + length_prefixed(b@));
}

/// Appends the UTF-8 text of an optional setting, empty where it is absent,
/// preceded by its length.
fn push_setting(out: &mut Vec<u8>, setting: &Option<String>)
    ensures
        final(out)@ == old(out)@ + length_prefixed(encode_utf8(text_or_empty(*setting))),
{
    match setting {
        Some(s) => push_length_prefixed(out, s.as_str().as_bytes()),
        None => {
            let empty: Vec<u8> = Vec::new();
            assert(encode_utf8(Seq::<char>::empty()) =~= Seq::<u8>::empty());
            push_length_prefixed(out, empty.as_slice());
        },
    }
}

impl EntropyProgramMetadata {
    /// The canonical encoding of the settings that take part in the hash.
    pub fn to_bytes(&self) -> (r: Vec<u8>)
        ensures
            r@ == settings_encoding(*self),
    {
        let mut bytes: Vec<u8> = Vec::new();
        push_setting(&mut bytes, &self.configuration_schema);
        push_setting(&mut bytes, &self.auxiliary_data_schema);
        push_setting(&mut bytes, &self.oracle_data_pointer);
        let version: u8 = match self.version_number {
            Some(v) => v,
            None => 0,
        };
        bytes.push(version);
        assert(bytes@ =~= settings_encoding(*self));
        bytes
    }
}

/// Hashes a built artifact together with the settings it was built with.
pub fn program_hash(binary: &[u8], settings: &EntropyProgramMetadata) -> (r: [u8; 32])
    ensures
        r@ == content_hash(binary@, *settings),
        r@.len() == HASH_LEN,
{
    let mut input: Vec<u8> = Vec::new();
    push_length_prefixed(&mut input, binary);
    let mut tail = settings.to_bytes();
    input.append(&mut tail);
    assert(input@ =~= hash_input(binary@, *settings));
    blake2_256(input.as_slice())
}

/// Identical artifact bytes built with identical hashed settings always give
/// the identical content hash: the hash is a function of these inputs alone.
pub proof fn lemma_hash_deterministic(
    b1: Seq<u8>,
    m1: EntropyProgramMetadata,
    b2: Seq<u8>,
    m2: EntropyProgramMetadata,
)
    requires
        b1 == b2,
        hashed_settings(m1) == hashed_settings(m2),
    ensures
        content_hash(b1, m1) == content_hash(b2, m2),
{
    assert(settings_encoding(m1) == settings_encoding(m2));
}

/// A length-prefixed string followed by anything determines the string and
/// what follows it.
proof fn lemma_length_prefixed_split(x1: Seq<u8>, r1: Seq<u8>, x2: Seq<u8>, r2: Seq<u8>)
    requires
        x1.len() <= u64::MAX,
        x2.len() <= u64::MAX,
        length_prefixed(x1) + r1 == length_prefixed(x2) + r2,
    ensures
        x1 == x2,
        r1 == r2,
{
    lemma_auto_spec_u64_to_from_le_bytes();
    let s = length_prefixed(x1) + r1;
    let n1 = x1.len() as u64;
    let n2 = x2.len() as u64;
    assert(s.subrange(0, 8) =~= spec_u64_to_le_bytes(n1));
    assert(s.subrange(0, 8) =~= spec_u64_to_le_bytes(n2));
    assert(spec_u64_from_le_bytes(spec_u64_to_le_bytes(n1)) == n1);
    assert(spec_u64_from_le_bytes(spec_u64_to_le_bytes(n2)) == n2);
    assert(x1.len() == x2.len());
    assert(x1 =~= s.subrange(8, 8 + x1.len() as int));
    assert(x2 =~= s.subrange(8, 8 + x2.len() as int));
    assert(r1 =~= s.subrange(8 + x1.len() as int, s.len() as int));
    assert(r2 =~= s.subrange(8 + x2.len() as int, s.len() as int));
}

/// Where every hashed text's UTF-8 encoding, and the artifact, have a length
/// that a 64-bit prefix can hold.
pub open spec fn encodable(binary: Seq<u8>, m: EntropyProgramMetadata) -> bool {
    let (c, a, o, v) = hashed_settings(m);
    &&& binary.len() <= u64::MAX
    &&& encode_utf8(c).len() <= u64::MAX
    &&& encode_utf8(a).len() <= u64::MAX
    &&& encode_utf8(o).len() <= u64::MAX
}

/// The hash input is canonical: two builds whose artifacts differ, or whose
/// hashed settings differ, are hashed over different bytes.
pub proof fn lemma_hash_input_injective(
    b1: Seq<u8>,
    m1: EntropyProgramMetadata,
    b2: Seq<u8>,
    m2: EntropyProgramMetadata,
)
    requires
        encodable(b1, m1),
        encodable(b2, m2),
        hash_input(b1, m1) == hash_input(b2, m2),
    ensures
        b1 == b2,
        hashed_settings(m1) == hashed_settings(m2),
{
    broadcast use encode_utf8_decode_utf8;
    let (c1, a1, o1, v1) = hashed_settings(m1);
    let (c2, a2, o2, v2) = hashed_settings(m2);
    let e1 = encode_utf8(c1);
    let e2 = encode_utf8(c2);
    let f1 = encode_utf8(a1);
    let f2 = encode_utf8(a2);
    let g1 = encode_utf8(o1);
    let g2 = encode_utf8(o2);
    let rest1 = length_prefixed(f1) + (length_prefixed(g1) + seq![v1]);
    let rest2 = length_prefixed(f2) + (length_prefixed(g2) + seq![v2]);
    assert(settings_encoding(m1) =~= length_prefixed(e1) + rest1);
    assert(settings_encoding(m2) =~= length_prefixed(e2) + rest2);
    lemma_length_prefixed_split(b1, settings_encoding(m1), b2, settings_encoding(m2));
    lemma_length_prefixed_split(e1, rest1, e2, rest2);
    lemma_length_prefixed_split(f1, length_prefixed(g1) + seq![v1], f2, length_prefixed(g2) + seq![v2]);
    lemma_length_prefixed_split(g1, seq![v1], g2, seq![v2]);
    assert(seq![v1][0] == seq![v2][0]);
    assert(c1 == vstd::utf8::decode_utf8(e1));
    assert(c2 == vstd::utf8::decode_utf8(e2));
    assert(a1 == vstd::utf8::decode_utf8(f1));
    assert(a2 == vstd::utf8::decode_utf8(f2));
    assert(o1 == vstd::utf8::decode_utf8(g1));
    assert(o2 == vstd::utf8::decode_utf8(g2));
}

} // verus!
