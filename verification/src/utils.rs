use base64::Engine;
use rand_core::{Rng, SeedableRng};
use sha2::{Digest, Sha256};
use vstd::prelude::*;
use vstd::slice::slice_to_vec;

verus! {

/// Byte length of a SHA-256 digest.
pub const SHA256_HASH_SIZE: usize = 32;

/// The SHA-256 digest of a byte sequence. The digest is a function of the
/// input alone; nothing further is assumed of it.
pub uninterp spec fn sha256_of(data: Seq<u8>) -> Seq<u8>;

/// The `i`-th 32-byte span of the ChaCha20 keystream for a 32-byte key,
/// beginning at byte 32·`i` of the stream. The span is a function of the key
/// and the index alone; nothing further is assumed of it.
pub uninterp spec fn chacha_block_at(key: Seq<u8>, i: int) -> Seq<u8>;

/// The standard base64 encoding (with padding) of a byte sequence.
pub uninterp spec fn base64_of(data: Seq<u8>) -> Seq<char>;

/// Relies on sha2's `Sha256::digest`: the 32-byte SHA-256 digest, a function
/// of the input bytes alone.
#[verifier::external_body]
pub fn sha_256(data: &[u8]) -> (r: [u8; SHA256_HASH_SIZE])
    ensures
        r@ == sha256_of(data@),
        r@.len() == 32,
{
    let hash = Sha256::digest(data);
    let mut result = [0u8; 32];
    result.copy_from_slice(&hash);
    result
}

/// Relies on rand_chacha's `ChaChaRng::from_seed` and `set_word_pos` and on
/// rand_core's `Rng::fill_bytes`: positioning the keyed ChaCha20 stream at
/// 32-bit word 8·`i` and reading 32 bytes yields the `i`-th 32-byte span of
/// the keystream, a function of the key and the index alone.
#[verifier::external_body]
fn chacha_block(key: &[u8; 32], i: u64) -> (r: [u8; 32])
    ensures
        r@ == chacha_block_at(key@, i as int),
        r@.len() == 32,
{
    let mut rng = rand_chacha::ChaChaRng::from_seed(*key);
    rng.set_word_pos(u128::from(i) * 8);
    let mut block = [0u8; 32];
    rng.fill_bytes(&mut block);
    block
}

/// Relies on base64's `Engine::encode` with the standard padded alphabet:
/// the encoding is a function of the input bytes alone, and padding makes it
/// four characters for every started group of three input bytes.
#[verifier::external_body]
pub(crate) fn base64_encode(data: &[u8]) -> (r: String)
    ensures
        r@ == base64_of(data@),
        r@.len() == 4 * ((data@.len() + 2) / 3),
{
    base64::engine::general_purpose::STANDARD.encode(data)
}

/// The character of one decimal digit.
pub open spec fn spec_digit(d: int) -> char
    recommends
        0 <= d <= 9,
{
    ((d + 48) as u8) as char
}

/// The decimal numeral of `n`: most significant digit first, no sign, no
/// leading zeros.
pub open spec fn dec_of(n: int) -> Seq<char>
    recommends
        n >= 0,
    decreases n,
{
    if n < 10 {
        seq![spec_digit(n)]
    } else {
        dec_of(n / 10).push(spec_digit(n % 10))
    }
}

/// Relies on u128's `Display` implementation, through `ToString::to_string`:
/// the plain decimal numeral of the value.
#[verifier::external_body]
pub fn u128_to_string(n: u128) -> (r: String)
    ensures
        r@ == dec_of(n as int),
{
    n.to_string()
}

/// What one draw of the entropy chain hands back: the stored entropy and the
/// caller's contribution are hashed into a ChaCha20 key, the stream's
/// leading 32 bytes are read, and they are hashed once more. The hashed
/// value is the draw: it both becomes the new stored entropy and selects the
/// house move, so no draw input is ever reused.
pub open spec fn draw_of(seed: Seq<u8>, entropy: Seq<u8>) -> Seq<u8> {
    sha256_of(chacha_block_at(sha256_of(seed + entropy), 0))
}

/// A pseudo-random generator keyed by a hash of seed material and a caller
/// contribution. Each read hands out the next 32 bytes of the keystream.
pub struct Prng {
    key: [u8; 32],
    next: u64,
}

impl Prng {
    /// The ChaCha20 key this generator was built over.
    pub closed spec fn spec_key(&self) -> Seq<u8> {
        self.key@
    }

    /// The index of the 32-byte keystream span the next read returns.
    pub closed spec fn spec_next(&self) -> u64 {
        self.next
    }

    /// Derives a generator keyed by the hash of `seed` followed by
    /// `entropy`, positioned at the start of the stream.
    pub fn new(seed: &[u8], entropy: &[u8]) -> (r: Self)
        ensures
            r.spec_key() == sha256_of(seed@ + entropy@),
            r.spec_next() == 0,
    {
        let mut data: Vec<u8> = Vec::new();
        data.extend_from_slice(seed);
        data.extend_from_slice(entropy);
        assert(data@ == seed@ + entropy@);
        let key = sha_256(data.as_slice());
        Prng { key, next: 0 }
    }

    /// Reads the next 32 bytes of the keystream and advances past them, so a
    /// following read returns the span after this one.
    pub fn rand_bytes(&mut self) -> (r: [u8; 32])
        requires
            old(self).spec_next() < u64::MAX,
        ensures
            final(self).spec_key() == old(self).spec_key(),
            final(self).spec_next() == old(self).spec_next() + 1,
            r@ == chacha_block_at(old(self).spec_key(), old(self).spec_next() as int),
    {
        let block = chacha_block(&self.key, self.next);
        self.next = self.next + 1;
        block
    }

    /// One full draw: derives a generator over `seed` and `entropy`, reads
    /// its leading 32 bytes, and hashes them.
    pub fn new_rand_bytes(seed: &[u8], entropy: &[u8]) -> (r: Vec<u8>)
        ensures
            r@ == draw_of(seed@, entropy@),
            r@.len() == 32,
    {
        let mut rng = Self::new(seed, entropy);
        let rand_slice = rng.rand_bytes();
        let hashed = sha_256(rand_slice.as_slice());
        slice_to_vec(hashed.as_slice())
    }
}

} // verus!
