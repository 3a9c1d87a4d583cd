//! A deterministic block generator keyed by a 32-byte seed, and the seed
//! derived from a passphrase by SHA-256.
//!
//! The generator is a seed expander for key material only: each block of
//! sixteen words is a fixed rearrangement of the seed bytes.
use vstd::prelude::*;
use sha2::{Digest, Sha256};
use vstd::string::StringSliceAdditionalSpecFns;

verus! {

/// Number of bytes in a seed.
pub const SEED_LEN: usize = 32;

/// Number of words in one generated block.
pub const BLOCK_WORDS: usize = 16;

/// SHA-256 digest of `data`.
pub uninterp spec fn sha256_of(data: Seq<u8>) -> Seq<u8>;

/// Relies on sha2::Sha256 (`Digest::update` then `finalize`): the 32-byte
/// SHA-256 digest of `data`.
#[verifier::external_body]
fn sha256(data: &[u8]) -> (r: [u8; 32])
    ensures
        r@ == sha256_of(data@),
{
    let mut hasher = Sha256::new();
    hasher.update(data);
    hasher.finalize().into()
}

/// The 32 bytes that key an [`AppRngCore`].
pub struct AppRngSeed(pub [u8; 32]);

impl AppRngSeed {
    /// The all-zero seed.
    pub fn default() -> (r: AppRngSeed)
        ensures
            r.0@ == Seq::new(32, |i: int| 0u8),
    {
        let r = AppRngSeed([0u8; 32]);
        assert(r.0@ =~= Seq::new(32, |i: int| 0u8));
        r
    }

    /// The seed of a passphrase: the SHA-256 digest of its UTF-8 bytes.
    pub fn from_phrase(phrase: &str) -> (r: AppRngSeed)
        ensures
            r.0@ == sha256_of(phrase.spec_bytes()),
    {
        AppRngSeed(sha256(phrase.as_bytes()))
    }

    /// The seed made of the first 32 bytes of `bytes`.
    pub fn from_bytes(bytes: &[u8]) -> (r: AppRngSeed)
        requires
            bytes@.len() >= 32,
        ensures
            r.0@ == bytes@.subrange(0, 32),
    {
        let mut a = [0u8; 32];
        let mut i: usize = 0;
        while i < SEED_LEN
            invariant
                i <= 32,
                bytes@.len() >= 32,
                a@.len() == 32,
                forall|k: int| 0 <= k < i ==> a@[k] == bytes@[k],
            decreases 32 - i,
        {
            a.set(i, bytes[i]);
            i = i + 1;
        }
        assert(a@ =~= bytes@.subrange(0, 32));
        AppRngSeed(a)
    }
}

/// Word `i` of every block generated from `seed`: the four-byte window
/// `c = (2 * i) mod 8` of the seed, bytes `[b1, b3, b0, b2]` read as a
/// little-endian word.
pub open spec fn block_word(seed: Seq<u8>, i: int) -> u32 {
    let c = 4 * ((2 * i) % 8);
    (seed[c + 1] as int + seed[c + 3] as int * 0x100 + seed[c] as int * 0x1_0000
        + seed[c + 2] as int * 0x100_0000) as u32
}

/// Byte `k` of a generated block laid out as little-endian words.
pub open spec fn block_byte(seed: Seq<u8>, k: int) -> u8 {
    let w = k / 4;
    let c = 4 * ((2 * w) % 8);
    let j = k % 4;
    if j == 0 {
        seed[c + 1]
    } else if j == 1 {
        seed[c + 3]
    } else if j == 2 {
        seed[c]
    } else {
        seed[c + 2]
    }
}

/// The block generator: a seed, kept as it was given.
pub struct AppRngCore {
    pub seed: AppRngSeed,
}

impl AppRngCore {
    pub fn from_seed(seed: AppRngSeed) -> (r: AppRngCore)
        ensures
            r.seed.0@ == seed.0@,
    {
        AppRngCore { seed }
    }

    /// Fills `results` with the next block. The seed is not advanced, so
    /// every block is the same.
    pub fn generate(&mut self, results: &mut [u32; 16])
        ensures
            final(self).seed.0@ == old(self).seed.0@,
            forall|i: int| 0 <= i < 16 ==> #[trigger] final(results)@[i] == block_word(old(self).seed.0@, i),
    {
        let mut i: usize = 0;
        while i < BLOCK_WORDS
            invariant
                i <= 16,
                results@.len() == 16,
                self.seed.0@.len() == 32,
                self.seed.0@ == old(self).seed.0@,
                forall|k: int| 0 <= k < i ==> #[trigger] results@[k] == block_word(self.seed.0@, k),
            decreases 16 - i,
        {
            let c: usize = 4 * ((2 * i) % 8);
            let b0 = self.seed.0[c] as u32;
            let b1 = self.seed.0[c + 1] as u32;
            let b2 = self.seed.0[c + 2] as u32;
            let b3 = self.seed.0[c + 3] as u32;
            let w: u32 = b1 + b3 * 0x100 + b0 * 0x1_0000 + b2 * 0x100_0000;
            results.set(i, w);
            i = i + 1;
        }
    }

    /// The first `n` bytes that a block generator over this seed hands out:
    /// its blocks, word by word, each word little-endian. Every block is the
    /// same, so the bytes repeat every 64.
    pub fn fill_bytes(&self, n: usize) -> (r: Vec<u8>)
        ensures
            r@.len() == n,
            forall|k: int| 0 <= k < n ==> #[trigger] r@[k] == block_byte(self.seed.0@, k % 64),
    {
        let mut r: Vec<u8> = Vec::new();
        let mut k: usize = 0;
        while k < n
            invariant
                k <= n,
                self.seed.0@.len() == 32,
                r@.len() == k,
                forall|t: int| 0 <= t < k ==> #[trigger] r@[t] == block_byte(self.seed.0@, t % 64),
            decreases n - k,
        {
            let m = k % 64;
            let w = m / 4;
            let c: usize = 4 * ((2 * w) % 8);
            let j = m % 4;
            let b = if j == 0 {
                self.seed.0[c + 1]
            } else if j == 1 {
                self.seed.0[c + 3]
            } else if j == 2 {
                self.seed.0[c]
            } else {
                self.seed.0[c + 2]
            };
            r.push(b);
            k = k + 1;
        }
        r
    }
}

/// Seed determinism: two blocks generated from equal seeds, as
/// [`AppRngCore::generate`] describes them, are the same sixteen words.
pub proof fn lemma_seed_determinism(seed_a: Seq<u8>, seed_b: Seq<u8>, words_a: Seq<u32>, words_b: Seq<u32>)
    requires
        seed_a.len() == 32,
        seed_a == seed_b,
        words_a.len() == 16,
        words_b.len() == 16,
        forall|i: int| 0 <= i < 16 ==> #[trigger] words_a[i] == block_word(seed_a, i),
        forall|i: int| 0 <= i < 16 ==> #[trigger] words_b[i] == block_word(seed_b, i),
    ensures
        words_a == words_b,
{
    assert(words_a =~= words_b);
}

} // verus!
