//! Checking a written device against the source image: a full comparison
//! in 4 MiB chunks, a comparison of digests, and a comparison of randomly
//! chosen 64 KiB samples. The caller reads the files; these functions decide
//! what to read next and what the outcome is.

use std::sync::atomic::AtomicBool;
use vstd::prelude::*;
use vstd::string::StringExecFns;
use crate::utils::cancel::flag_is_set;
use crate::utils::random::shuffle_u64;
use crate::utils::hash::{digest_text, FileHasher};
use crate::state::events::HashType;

verus! {

/// Size of the chunks a full verification compares: 4 MiB.
pub const VERIFY_CHUNK_SIZE: u64 = 4194304;

/// Size of each sample a sampled verification compares: 64 KiB.
pub const SAMPLE_SIZE: u64 = 65536;

/// Verify that written data matches the source image.
pub struct WriteVerifier {
    pub source_path: String,
    pub device_path: String,
    pub cancel_flag: Option<AtomicBool>,
}

impl WriteVerifier {
    /// A verifier of `device_path` against `source_path`, not cancellable.
    pub fn new(source_path: String, device_path: String) -> (v: Self)
        ensures
            v.source_path@ == source_path@,
            v.device_path@ == device_path@,
            v.cancel_flag is None,
    {
        WriteVerifier { source_path, device_path, cancel_flag: None }
    }

    /// The same verifier, cancelled by `cancel_flag`.
    pub fn with_cancellation(self, cancel_flag: AtomicBool) -> (v: Self)
        ensures
            v.source_path@ == self.source_path@,
            v.device_path@ == self.device_path@,
            v.cancel_flag == Some(cancel_flag),
    {
        WriteVerifier { cancel_flag: Some(cancel_flag), ..self }
    }

    /// Whether cancellation is requested now; never without a flag.
    pub fn is_cancelled(&self) -> (c: bool)
        ensures
            self.cancel_flag is None ==> !c,
    {
        match &self.cancel_flag {
            Some(flag) => flag_is_set(flag),
            None => false,
        }
    }

    /// The outcome of a digest comparison: the digest of the whole source
    /// (a `FileHasher` fed the image) and the digest of the device's first
    /// image-length bytes (a `PrefixHasher` limited to the image size, fed
    /// the device), computed under the same algorithm, must be the same text.
    pub fn verify_hash(&self, source_hash: &str, device_hash: &str) -> (same: bool)
        ensures
            same == (source_hash@ == device_hash@),
    {
        let n = source_hash.unicode_len();
        if n != device_hash.unicode_len() {
            return false;
        }
        let mut i: usize = 0;
        while i < n
            invariant
                n == source_hash@.len(),
                n == device_hash@.len(),
                i <= n,
                forall|j: int| 0 <= j < i ==> source_hash@[j] == device_hash@[j],
            decreases n - i,
        {
            if source_hash.get_char(i) != device_hash.get_char(i) {
                return false;
            }
            i = i + 1;
        }
        assert(source_hash@ =~= device_hash@);
        true
    }
}

/// A digest computation that takes in only the first `limit` bytes fed to
/// it: the device is larger than the image, and only the part the image
/// was written to is compared.
pub struct PrefixHasher {
    pub hasher: FileHasher,
    pub remaining: u64,
}

impl PrefixHasher {
    /// A computation under `hash_type` that will take in `limit` bytes.
    pub fn new(hash_type: HashType, limit: u64) -> (h: Self)
        ensures
            h.hasher.kind() == hash_type,
            h.hasher.input() == Seq::<u8>::empty(),
            h.remaining == limit,
    {
        PrefixHasher { hasher: FileHasher::new(hash_type), remaining: limit }
    }

    /// Feeds the next chunk; of it, only what still fits under the limit is
    /// taken in.
    pub fn update(&mut self, chunk: &[u8])
        ensures
            final(self).hasher.kind() == old(self).hasher.kind(),
            old(self).remaining <= chunk@.len() ==> {
                &&& final(self).hasher.input() == old(self).hasher.input() + chunk@.subrange(
                    0,
                    old(self).remaining as int,
                )
                &&& final(self).remaining == 0
            },
            old(self).remaining > chunk@.len() ==> {
                &&& final(self).hasher.input() == old(self).hasher.input() + chunk@
                &&& final(self).remaining == old(self).remaining - chunk@.len()
            },
    {
        if self.remaining <= chunk.len() as u64 {
            let (head, _rest) = chunk.split_at(self.remaining as usize);
            self.hasher.update(head);
            self.remaining = 0;
        } else {
            self.hasher.update(chunk);
            self.remaining = self.remaining - chunk.len() as u64;
        }
    }

    /// The lower-case hexadecimal digest of what was taken in.
    pub fn finish(self) -> (text: String)
        ensures
            text@ == digest_text(self.hasher.kind(), self.hasher.input()),
    {
        self.hasher.finish()
    }
}

/// A correct write passes the digest check: where the device starts with
/// the image, the digest of the device's first `source.len()` bytes is the
/// digest of the image.
pub proof fn lemma_written_image_passes_digest(hash_type: HashType, source: Seq<u8>, device: Seq<u8>)
    requires
        source.len() <= device.len(),
        device.subrange(0, source.len() as int) == source,
    ensures
        digest_text(hash_type, device.subrange(0, source.len() as int)) == digest_text(hash_type, source),
{
}

/// What a full verification does next.
#[derive(Debug, Clone, Copy, PartialEq, Eq, Structural)]
pub enum FullStep {
    /// Cancellation was requested: stop with an error.
    Cancelled,
    /// The whole source has been compared: the device matches.
    Finished,
    /// Read this many bytes from both files and compare them.
    Read(u64),
}

/// The position of a full verification in a source of `source_size` bytes.
pub struct FullCheck {
    pub source_size: u64,
    pub position: u64,
}

/// The message a cancelled verification stops with.
pub open spec fn verification_cancelled_text() -> Seq<char> {
    "Verification cancelled"@
}

/// The length of the next chunk: at most 4 MiB, never past the end.
pub open spec fn next_chunk_len(source_size: u64, position: u64) -> u64 {
    if source_size - position < VERIFY_CHUNK_SIZE {
        (source_size - position) as u64
    } else {
        VERIFY_CHUNK_SIZE
    }
}

impl FullCheck {
    /// A full verification of a source of `source_size` bytes, at its start.
    pub fn new(source_size: u64) -> (c: Self)
        ensures
            c.source_size == source_size,
            c.position == 0,
    {
        FullCheck { source_size, position: 0 }
    }

    /// The position never passes the end of the source.
    pub open spec fn wf(self) -> bool {
        self.position <= self.source_size
    }

    /// What to do next: stop when cancelled, finish at the end of the
    /// source, else read the next chunk.
    pub fn next_step(&self, cancelled: bool) -> (s: FullStep)
        requires
            self.wf(),
        ensures
            cancelled ==> s == FullStep::Cancelled,
            !cancelled && self.position == self.source_size ==> s == FullStep::Finished,
            !cancelled && self.position < self.source_size ==> s == FullStep::Read(
                next_chunk_len(self.source_size, self.position),
            ),
    {
        if cancelled {
            return FullStep::Cancelled;
        }
        let left = self.source_size - self.position;
        let len = if left < VERIFY_CHUNK_SIZE { left } else { VERIFY_CHUNK_SIZE };
        if len == 0 {
            FullStep::Finished
        } else {
            FullStep::Read(len)
        }
    }

    /// The message a cancelled verification stops with.
    pub fn cancelled_message(&self) -> (m: String)
        ensures
            m@ == verification_cancelled_text(),
    {
        String::from_str("Verification cancelled")
    }

    /// Compares a chunk of the source with the chunk of the device read at
    /// the same position. Equal chunks advance the position by their length
    /// and return `true`; any difference, in length or bytes, returns
    /// `false`: the device does not match.
    pub fn record(&mut self, source: &[u8], device: &[u8]) -> (agree: bool)
        requires
            old(self).wf(),
            old(self).position + source@.len() <= old(self).source_size,
        ensures
            agree == (source@ == device@),
            final(self).source_size == old(self).source_size,
            agree ==> final(self).position == old(self).position + source@.len(),
            final(self).wf(),
    {
        if source.len() != device.len() {
            return false;
        }
        let mut i: usize = 0;
        while i < source.len()
            invariant
                source@.len() == device@.len(),
                i <= source@.len(),
                *self == *old(self),
                old(self).wf(),
                forall|j: int| 0 <= j < i ==> source@[j] == device@[j],
            decreases source@.len() - i,
        {
            if source[i] != device[i] {
                return false;
            }
            i = i + 1;
        }
        assert(source@ =~= device@);
        self.position = self.position + source.len() as u64;
        true
    }
}

/// The bytes a device read at `position` asking for `end - position` bytes
/// gives: those up to `end`, fewer where the device ends.
pub open spec fn device_chunk(device: Seq<u8>, position: int, end: int) -> Seq<u8> {
    if end <= device.len() {
        device.subrange(position, end)
    } else if position <= device.len() {
        device.subrange(position, device.len() as int)
    } else {
        Seq::<u8>::empty()
    }
}

/// The outcome of a full verification of `source` against `device` from
/// byte `position` on, chunk by chunk as `next_step` asks and `record`
/// compares: each chunk is at most 4 MiB, the device gives the bytes at the
/// same position (fewer where it ends), and the first unequal chunk ends
/// the check with a mismatch.
pub open spec fn full_check_outcome(source: Seq<u8>, device: Seq<u8>, position: int) -> bool
    decreases source.len() - position,
{
    if position < 0 || position >= source.len() {
        true
    } else {
        let n = if source.len() - position < VERIFY_CHUNK_SIZE {
            source.len() - position
        } else {
            VERIFY_CHUNK_SIZE as int
        };
        let end = position + n;
        if source.subrange(position, end) == device_chunk(device, position, end) {
            full_check_outcome(source, device, end)
        } else {
            false
        }
    }
}

/// A full verification passes exactly when the device starts with the
/// source: comparing chunk by chunk decides the same as comparing whole.
pub proof fn lemma_full_check_decides_prefix(source: Seq<u8>, device: Seq<u8>)
    ensures
        full_check_outcome(source, device, 0) <==> (source.len() <= device.len() && device.subrange(
            0,
            source.len() as int,
        ) == source),
{
    lemma_full_check_from(source, device, 0);
    assert(source.subrange(0, source.len() as int) =~= source);
    if source.len() == 0 {
        assert(device.subrange(0, 0) =~= source);
    }
}

/// From any position, the check passes exactly when the rest of the source
/// lies on the device at the same position.
proof fn lemma_full_check_from(source: Seq<u8>, device: Seq<u8>, position: int)
    requires
        0 <= position <= source.len(),
    ensures
        full_check_outcome(source, device, position) <==> (position == source.len() || (source.len()
            <= device.len() && device.subrange(position, source.len() as int) == source.subrange(
            position,
            source.len() as int,
        ))),
    decreases source.len() - position,
{
    if position < source.len() {
        let n = if source.len() - position < VERIFY_CHUNK_SIZE {
            source.len() - position
        } else {
            VERIFY_CHUNK_SIZE as int
        };
        let end = position + n;
        lemma_full_check_from(source, device, end);
        let chunk = device_chunk(device, position, end);
        let whole_ok = source.len() <= device.len() && device.subrange(position, source.len() as int)
            == source.subrange(position, source.len() as int);
        if whole_ok {
            assert(source.subrange(position, end) =~= source.subrange(position, source.len() as int).subrange(
                0,
                n,
            ));
            assert(chunk =~= device.subrange(position, source.len() as int).subrange(0, n));
            assert(device.subrange(end, source.len() as int) =~= device.subrange(position, source.len() as int).subrange(
                n,
                source.len() - position,
            ));
            assert(source.subrange(end, source.len() as int) =~= source.subrange(position, source.len() as int).subrange(
                n,
                source.len() - position,
            ));
        } else if full_check_outcome(source, device, position) {
            assert(source.subrange(position, end) == chunk);
            assert(source.subrange(position, end).len() == n);
            assert(end <= device.len());
            assert(device.subrange(position, source.len() as int) =~= device.subrange(position, end)
                + device.subrange(end, source.len() as int));
            assert(source.subrange(position, source.len() as int) =~= source.subrange(position, end)
                + source.subrange(end, source.len() as int));
        }
    }
}

/// The sample offsets are distinct multiples of 64 KiB, each with a whole
/// sample inside the source.
pub open spec fn valid_sample_offsets(offsets: Seq<u64>, source_size: u64) -> bool {
    &&& offsets.no_duplicates()
    &&& forall|i: int|
        0 <= i < offsets.len() ==> #[trigger] offsets[i] % SAMPLE_SIZE == 0 && offsets[i] + SAMPLE_SIZE
            <= source_size
}

/// How many samples are checked: as many as asked for, at most the number
/// of whole 64 KiB blocks in the source.
pub open spec fn sample_count_for(source_size: u64, sample_count: usize) -> nat {
    let blocks = source_size / SAMPLE_SIZE;
    if (sample_count as nat) < blocks {
        sample_count as nat
    } else {
        blocks as nat
    }
}

/// The offsets a sampled verification compares: the whole 64 KiB blocks of
/// the source in random order, the first `sample_count` of them.
pub fn sample_offsets(source_size: u64, sample_count: usize) -> (offsets: Vec<u64>)
    ensures
        offsets@.len() == sample_count_for(source_size, sample_count),
        valid_sample_offsets(offsets@, source_size),
{
    let blocks = source_size / SAMPLE_SIZE;
    let mut positions: Vec<u64> = Vec::new();
    let mut b: u64 = 0;
    while b < blocks
        invariant
            b <= blocks,
            blocks == source_size / SAMPLE_SIZE,
            positions@ == Seq::new(b as nat, |i: int| i as u64),
        decreases blocks - b,
    {
        positions.push(b);
        assert(positions@ =~= Seq::new((b + 1) as nat, |i: int| i as u64));
        b = b + 1;
    }
    let ghost ordered = positions@;
    proof {
        assert(ordered.no_duplicates());
        ordered.lemma_multiset_has_no_duplicates();
    }
    shuffle_u64(&mut positions);
    let shuffled = positions;
    proof {
        broadcast use vstd::seq_lib::group_to_multiset_ensures;
        assert forall|x: u64| shuffled@.to_multiset().contains(x) implies shuffled@.to_multiset().count(x)
            == 1 by {
            assert(ordered.to_multiset().contains(x));
        }
        shuffled@.lemma_multiset_has_no_duplicates_conv();
        assert forall|i: int| 0 <= i < shuffled@.len() implies shuffled@[i] < blocks by {
            assert(shuffled@.contains(shuffled@[i]));
            assert(shuffled@.to_multiset().count(shuffled@[i]) > 0);
            assert(ordered.to_multiset().count(shuffled@[i]) > 0);
            assert(ordered.contains(shuffled@[i]));
        }
    }
    let take: usize = if (sample_count as u64) < blocks { sample_count } else { shuffled.len() };
    let mut offsets: Vec<u64> = Vec::new();
    let mut i: usize = 0;
    while i < take
        invariant
            take <= shuffled@.len(),
            shuffled@.no_duplicates(),
            blocks == source_size / SAMPLE_SIZE,
            forall|k: int| 0 <= k < shuffled@.len() ==> shuffled@[k] < blocks,
            i <= take,
            offsets@ == Seq::new(i as nat, |k: int| (shuffled@[k] * SAMPLE_SIZE) as u64),
        decreases take - i,
    {
        let p = shuffled[i];
        assert(p * SAMPLE_SIZE <= source_size) by (nonlinear_arith)
            requires
                p < blocks,
                blocks == source_size / SAMPLE_SIZE,
        {
        }
        offsets.push(p * SAMPLE_SIZE);
        assert(offsets@ =~= Seq::new((i + 1) as nat, |k: int| (shuffled@[k] * SAMPLE_SIZE) as u64));
        i = i + 1;
    }
    proof {
        assert forall|k: int| 0 <= k < offsets@.len() implies #[trigger] offsets@[k] % SAMPLE_SIZE == 0
            && offsets@[k] + SAMPLE_SIZE <= source_size by {
            let p = shuffled@[k];
            assert((p * SAMPLE_SIZE) % (SAMPLE_SIZE as int) == 0 && p * SAMPLE_SIZE + SAMPLE_SIZE <= source_size)
                by (nonlinear_arith)
                requires
                    p < blocks,
                    blocks == source_size / SAMPLE_SIZE,
            {
            }
        }
        assert forall|a: int, c: int| 0 <= a < offsets@.len() && 0 <= c < offsets@.len() && a != c implies offsets@[a]
            != offsets@[c] by {
            assert(shuffled@[a] != shuffled@[c]);
        }
    }
    offsets
}

} // verus!
