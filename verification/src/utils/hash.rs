//! Digests (MD5, SHA-1, SHA-256) of data fed in chunks, spelled in
//! lower-case hexadecimal, and the comparison and display of digest texts.

use vstd::prelude::*;
use vstd::utf8::encode_utf8;
use vstd::utf8::is_char_boundary;
use vstd::utf8::is_ascii_chars;
use vstd::utf8::is_ascii_chars_encode_utf8;
use crate::state::events::HashType;
use crate::utils::text::{ascii_text, concat_text, hex_digits, hex_lower, lemma_encode_utf8_concat};

verus! {

/// The running state of an MD5 computation (an `md5::Md5`).
#[verifier::external_body]
pub struct Md5Hasher {
    inner: md5::Md5,
}

/// The running state of a SHA-1 computation (a `sha1::Sha1`).
#[verifier::external_body]
pub struct Sha1Hasher {
    inner: sha1::Sha1,
}

/// The running state of a SHA-256 computation (a `sha2::Sha256`).
#[verifier::external_body]
pub struct Sha256Hasher {
    inner: sha2::Sha256,
}

/// The bytes fed to an MD5 state so far.
pub uninterp spec fn md5_input(h: Md5Hasher) -> Seq<u8>;

/// The bytes fed to a SHA-1 state so far.
pub uninterp spec fn sha1_input(h: Sha1Hasher) -> Seq<u8>;

/// The bytes fed to a SHA-256 state so far.
pub uninterp spec fn sha256_input(h: Sha256Hasher) -> Seq<u8>;

/// The MD5 digest of `data` (RFC 1321).
pub uninterp spec fn md5_digest(data: Seq<u8>) -> Seq<u8>;

/// The SHA-1 digest of `data` (FIPS 180-4).
pub uninterp spec fn sha1_digest(data: Seq<u8>) -> Seq<u8>;

/// The SHA-256 digest of `data` (FIPS 180-4).
pub uninterp spec fn sha256_digest(data: Seq<u8>) -> Seq<u8>;

/// `<md5::Md5 as Digest>::new()`: a state that has been fed nothing.
#[verifier::external_body]
fn md5_start() -> (h: Md5Hasher)
    ensures
        md5_input(h) == Seq::<u8>::empty(),
{
    Md5Hasher { inner: <md5::Md5 as md5::Digest>::new() }
}

/// `Digest::update` on an `md5::Md5`: the state has been fed `data` after
/// what it had before (the crate buffers partial blocks and compresses full
/// ones, which only the digest can tell apart).
#[verifier::external_body]
fn md5_feed(h: &mut Md5Hasher, data: &[u8])
    ensures
        md5_input(*final(h)) == md5_input(*old(h)) + data@,
{
    md5::Digest::update(&mut h.inner, data);
}

/// `Digest::finalize` on an `md5::Md5`: the MD5 digest of everything fed,
/// sixteen bytes (the output size `U16` of `Md5Core`).
#[verifier::external_body]
fn md5_finish(h: Md5Hasher) -> (d: Vec<u8>)
    ensures
        d@ == md5_digest(md5_input(h)),
        d@.len() == 16,
{
    md5::Digest::finalize(h.inner).to_vec()
}

/// `<sha1::Sha1 as Digest>::new()`: a state that has been fed nothing.
#[verifier::external_body]
fn sha1_start() -> (h: Sha1Hasher)
    ensures
        sha1_input(h) == Seq::<u8>::empty(),
{
    Sha1Hasher { inner: <sha1::Sha1 as sha1::Digest>::new() }
}

/// `Digest::update` on a `sha1::Sha1`: the state has been fed `data` after
/// what it had before.
#[verifier::external_body]
fn sha1_feed(h: &mut Sha1Hasher, data: &[u8])
    ensures
        sha1_input(*final(h)) == sha1_input(*old(h)) + data@,
{
    sha1::Digest::update(&mut h.inner, data);
}

/// `Digest::finalize` on a `sha1::Sha1`: the SHA-1 digest of everything
/// fed, twenty bytes (the output size `U20` of `Sha1Core`).
#[verifier::external_body]
fn sha1_finish(h: Sha1Hasher) -> (d: Vec<u8>)
    ensures
        d@ == sha1_digest(sha1_input(h)),
        d@.len() == 20,
{
    sha1::Digest::finalize(h.inner).to_vec()
}

/// `<sha2::Sha256 as Digest>::new()`: a state that has been fed nothing.
#[verifier::external_body]
fn sha256_start() -> (h: Sha256Hasher)
    ensures
        sha256_input(h) == Seq::<u8>::empty(),
{
    Sha256Hasher { inner: <sha2::Sha256 as sha2::Digest>::new() }
}

/// `Digest::update` on a `sha2::Sha256`: the state has been fed `data`
/// after what it had before.
#[verifier::external_body]
fn sha256_feed(h: &mut Sha256Hasher, data: &[u8])
    ensures
        sha256_input(*final(h)) == sha256_input(*old(h)) + data@,
{
    sha2::Digest::update(&mut h.inner, data);
}

/// `Digest::finalize` on a `sha2::Sha256`: the SHA-256 digest of everything
/// fed, thirty-two bytes (the output size `U32` of `Sha256`).
#[verifier::external_body]
fn sha256_finish(h: Sha256Hasher) -> (d: Vec<u8>)
    ensures
        d@ == sha256_digest(sha256_input(h)),
        d@.len() == 32,
{
    sha2::Digest::finalize(h.inner).to_vec()
}

/// The digest of `data` under the chosen algorithm.
pub open spec fn digest_of(hash_type: HashType, data: Seq<u8>) -> Seq<u8> {
    match hash_type {
        HashType::Md5 => md5_digest(data),
        HashType::Sha1 => sha1_digest(data),
        HashType::Sha256 => sha256_digest(data),
    }
}

/// The length in bytes of a digest of the chosen algorithm.
pub open spec fn digest_len(hash_type: HashType) -> nat {
    match hash_type {
        HashType::Md5 => 16,
        HashType::Sha1 => 20,
        HashType::Sha256 => 32,
    }
}

/// The lower-case hexadecimal text of the digest of `data`, as
/// `format!("{:x}", hasher.finalize())` writes it.
pub open spec fn digest_text(hash_type: HashType, data: Seq<u8>) -> Seq<char> {
    ascii_text(hex_digits(digest_of(hash_type, data)))
}

/// A digest computation under one of the three algorithms, fed in chunks.
pub enum FileHasher {
    Md5(Md5Hasher),
    Sha1(Sha1Hasher),
    Sha256(Sha256Hasher),
}

impl FileHasher {
    /// The algorithm of this computation.
    pub open spec fn kind(self) -> HashType {
        match self {
            FileHasher::Md5(_) => HashType::Md5,
            FileHasher::Sha1(_) => HashType::Sha1,
            FileHasher::Sha256(_) => HashType::Sha256,
        }
    }

    /// The bytes fed so far.
    pub open spec fn input(self) -> Seq<u8> {
        match self {
            FileHasher::Md5(h) => md5_input(h),
            FileHasher::Sha1(h) => sha1_input(h),
            FileHasher::Sha256(h) => sha256_input(h),
        }
    }

    /// A computation under `hash_type` that has been fed nothing.
    pub fn new(hash_type: HashType) -> (h: Self)
        ensures
            h.kind() == hash_type,
            h.input() == Seq::<u8>::empty(),
    {
        match hash_type {
            HashType::Md5 => FileHasher::Md5(md5_start()),
            HashType::Sha1 => FileHasher::Sha1(sha1_start()),
            HashType::Sha256 => FileHasher::Sha256(sha256_start()),
        }
    }

    /// Feeds the next chunk.
    pub fn update(&mut self, chunk: &[u8])
        ensures
            final(self).kind() == old(self).kind(),
            final(self).input() == old(self).input() + chunk@,
    {
        match self {
            FileHasher::Md5(h) => md5_feed(h, chunk),
            FileHasher::Sha1(h) => sha1_feed(h, chunk),
            FileHasher::Sha256(h) => sha256_feed(h, chunk),
        }
    }

    /// The lower-case hexadecimal digest of everything fed.
    pub fn finish(self) -> (text: String)
        ensures
            text@ == digest_text(self.kind(), self.input()),
            text@.len() == 2 * digest_len(self.kind()),
    {
        let digest = match self {
            FileHasher::Md5(h) => md5_finish(h),
            FileHasher::Sha1(h) => sha1_finish(h),
            FileHasher::Sha256(h) => sha256_finish(h),
        };
        hex_lower(digest.as_slice())
    }
}

/// The digest text of `data` in one piece.
pub fn digest_hex(hash_type: HashType, data: &[u8]) -> (text: String)
    ensures
        text@ == digest_text(hash_type, data@),
        text@.len() == 2 * digest_len(hash_type),
{
    let mut h = FileHasher::new(hash_type);
    h.update(data);
    assert(h.input() =~= data@);
    h.finish()
}

/// ASCII upper-case letters lowered, other bytes kept
/// (`u8::to_ascii_lowercase`).
pub open spec fn ascii_lower(b: u8) -> u8 {
    if 65 <= b <= 90 {
        (b + 32) as u8
    } else {
        b
    }
}

/// Equal length and equal bytes up to ASCII case
/// (`str::eq_ignore_ascii_case`).
pub open spec fn equal_ignoring_ascii_case(a: Seq<u8>, b: Seq<u8>) -> bool {
    &&& a.len() == b.len()
    &&& forall|i: int| 0 <= i < a.len() ==> ascii_lower(#[trigger] a[i]) == ascii_lower(b[i])
}

/// Whether two digest texts are the same, ignoring ASCII case.
pub fn compare_hashes(hash1: &str, hash2: &str) -> (same: bool)
    ensures
        same == equal_ignoring_ascii_case(encode_utf8(hash1@), encode_utf8(hash2@)),
{
    let a = hash1.as_bytes();
    let b = hash2.as_bytes();
    if a.len() != b.len() {
        return false;
    }
    let mut i: usize = 0;
    while i < a.len()
        invariant
            a@ == encode_utf8(hash1@),
            b@ == encode_utf8(hash2@),
            a@.len() == b@.len(),
            i <= a@.len(),
            forall|j: int| 0 <= j < i ==> ascii_lower(#[trigger] a@[j]) == ascii_lower(b@[j]),
        decreases a@.len() - i,
    {
        let x = a[i];
        let y = b[i];
        let lx: u8 = if 65 <= x && x <= 90 { x + 32 } else { x };
        let ly: u8 = if 65 <= y && y <= 90 { y + 32 } else { y };
        if lx != ly {
            assert(ascii_lower(a@[i as int]) != ascii_lower(b@[i as int]));
            return false;
        }
        i = i + 1;
    }
    true
}

/// How many leading bytes a shortened digest text keeps: one more than
/// half of `max_length` (none when `max_length` is 0).
pub open spec fn head_len(max_length: nat) -> nat {
    if max_length == 0 {
        0
    } else {
        max_length / 2 + 1
    }
}

/// The UTF-8 bytes of `hash` shown in `max_length` bytes of the digest:
/// when longer, the first `head_len(max_length)` bytes and the last
/// `max_length - head_len(max_length)` bytes joined by "...".
pub open spec fn shortened_hash(bytes: Seq<u8>, max_length: nat) -> Seq<u8> {
    if bytes.len() > max_length {
        bytes.subrange(0, head_len(max_length) as int) + seq![46u8, 46u8, 46u8] + bytes.subrange(
            bytes.len() - (max_length - head_len(max_length)),
            bytes.len() as int,
        )
    } else {
        bytes
    }
}

/// A digest text shortened for display to `max_length` of its bytes.
/// Cutting a text inside a character panics, so the two cut points must
/// fall between characters (they always do in hexadecimal text).
pub fn format_hash(hash: &str, max_length: usize) -> (shown: String)
    requires
        encode_utf8(hash@).len() > max_length ==> {
            &&& is_char_boundary(encode_utf8(hash@), head_len(max_length as nat) as int)
            &&& is_char_boundary(
                encode_utf8(hash@),
                encode_utf8(hash@).len() - (max_length - head_len(max_length as nat)),
            )
        },
    ensures
        encode_utf8(shown@) == shortened_hash(encode_utf8(hash@), max_length as nat),
{
    let n = hash.as_bytes().len();
    if n > max_length {
        let head_n: usize = if max_length == 0 { 0 } else { max_length / 2 + 1 };
        let tail_n: usize = max_length - head_n;
        let (head, _) = hash.split_at(head_n);
        let (_, tail) = hash.split_at(n - tail_n);
        let dots = "...";
        let joined = concat_text(head, dots);
        let shown = concat_text(joined.as_str(), tail);
        proof {
            reveal_strlit("...");
            assert(dots@ =~= seq!['.', '.', '.']);
            assert(is_ascii_chars(dots@));
            is_ascii_chars_encode_utf8(dots@);
            assert(encode_utf8(dots@) =~= seq![46u8, 46u8, 46u8]);
            lemma_encode_utf8_concat(head@, dots@);
            lemma_encode_utf8_concat(head@ + dots@, tail@);
        }
        shown
    } else {
        String::from_str(hash)
    }
}

} // verus!
