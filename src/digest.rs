//! Digest engine: SHA-1 and MD5 over byte streams fed chunk by chunk,
//! rendered as lowercase hexadecimal.
use vstd::prelude::*;

verus! {

/// Width of the read buffer used when a whole byte slice is digested.
pub const CHUNK_SIZE: usize = 1024;

/// The lowercase hex SHA-1 digest of a byte sequence.
pub uninterp spec fn sha1_hex(data: Seq<u8>) -> Seq<char>;

/// The lowercase hex MD5 digest of a byte sequence.
pub uninterp spec fn md5_hex(data: Seq<u8>) -> Seq<char>;

/// The bytes fed so far into a SHA-1 hasher.
pub uninterp spec fn sha1_input(h: Sha1Hasher) -> Seq<u8>;

/// The bytes fed so far into an MD5 hasher.
pub uninterp spec fn md5_input(h: Md5Hasher) -> Seq<u8>;

/// A lowercase hexadecimal digit.
pub open spec fn is_lower_hex_digit(c: char) -> bool {
    ('0' <= c && c <= '9') || ('a' <= c && c <= 'f')
}

/// `n` lowercase hexadecimal digits.
pub open spec fn is_lower_hex(s: Seq<char>, n: nat) -> bool {
    s.len() == n && forall|i: int| 0 <= i < s.len() ==> is_lower_hex_digit(#[trigger] s[i])
}

/// Running SHA-1 state; it holds the bytes fed so far, as `sha1_input`.
/// (`sha1::Sha1` is a `CoreWrapper` whose `typenum` bounds Verus cannot
/// declare, so the hasher is held here.)
#[verifier::external_body]
pub struct Sha1Hasher {
    inner: sha1::Sha1,
}

/// Running MD5 state; it holds the bytes fed so far, as `md5_input`.
/// (Held here for the same reason as `Sha1Hasher`.)
#[verifier::external_body]
pub struct Md5Hasher {
    inner: md5::Md5,
}

/// Relies on `sha1::Sha1::new` (digest 0.10 `Digest::new`): a hasher that has seen no input.
#[verifier::external_body]
fn sha1_start() -> (r: Sha1Hasher)
    ensures
        sha1_input(r) == Seq::<u8>::empty(),
{
    Sha1Hasher { inner: <sha1::Sha1 as sha1::Digest>::new() }
}

/// Relies on `Digest::update` of `sha1::Sha1`: appends `data` to the hashed input.
#[verifier::external_body]
fn sha1_update(h: &mut Sha1Hasher, data: &[u8])
    ensures
        sha1_input(*final(h)) == sha1_input(*old(h)) + data@,
{
    sha1::Digest::update(&mut h.inner, data)
}

/// Relies on `Digest::finalize` of `sha1::Sha1` and the `LowerHex` rendering of its
/// output (two lowercase digits per byte of the 20-byte digest).
#[verifier::external_body]
fn sha1_finish(h: Sha1Hasher) -> (r: String)
    ensures
        r@ == sha1_hex(sha1_input(h)),
        is_lower_hex(r@, 40),
{
    format!("{:x}", sha1::Digest::finalize(h.inner))
}

/// Relies on `md5::Md5::new` (digest 0.10 `Digest::new`): a hasher that has seen no input.
#[verifier::external_body]
fn md5_start() -> (r: Md5Hasher)
    ensures
        md5_input(r) == Seq::<u8>::empty(),
{
    Md5Hasher { inner: <md5::Md5 as md5::Digest>::new() }
}

/// Relies on `Digest::update` of `md5::Md5`: appends `data` to the hashed input.
#[verifier::external_body]
fn md5_update(h: &mut Md5Hasher, data: &[u8])
    ensures
        md5_input(*final(h)) == md5_input(*old(h)) + data@,
{
    md5::Digest::update(&mut h.inner, data)
}

/// Relies on `Digest::finalize` of `md5::Md5` and the `LowerHex` rendering of its
/// output (two lowercase digits per byte of the 16-byte digest).
#[verifier::external_body]
fn md5_finish(h: Md5Hasher) -> (r: String)
    ensures
        r@ == md5_hex(md5_input(h)),
        is_lower_hex(r@, 32),
{
    format!("{:x}", md5::Digest::finalize(h.inner))
}

/// Hash algorithm selector.
#[derive(Clone, Copy, Debug, PartialEq, Eq, Structural)]
pub enum Algorithm {
    Sha1,
    Md5,
}

/// The lowercase hex digest of `data` under `alg`.
pub open spec fn hex_digest(alg: Algorithm, data: Seq<u8>) -> Seq<char> {
    match alg {
        Algorithm::Sha1 => sha1_hex(data),
        Algorithm::Md5 => md5_hex(data),
    }
}

/// Number of hex digits in a digest of `alg`.
pub open spec fn hex_len(alg: Algorithm) -> nat {
    match alg {
        Algorithm::Sha1 => 40,
        Algorithm::Md5 => 32,
    }
}

/// An incremental digest computation under one algorithm.
pub enum DigestState {
    Sha1(Sha1Hasher),
    Md5(Md5Hasher),
}

impl DigestState {
    pub open spec fn algorithm(&self) -> Algorithm {
        match self {
            DigestState::Sha1(_) => Algorithm::Sha1,
            DigestState::Md5(_) => Algorithm::Md5,
        }
    }

    /// The bytes fed so far.
    pub open spec fn input(&self) -> Seq<u8> {
        match self {
            DigestState::Sha1(h) => sha1_input(*h),
            DigestState::Md5(h) => md5_input(*h),
        }
    }

    /// A computation under `alg` that has seen no bytes.
    pub fn new(alg: Algorithm) -> (r: DigestState)
        ensures
            r.algorithm() == alg,
            r.input() == Seq::<u8>::empty(),
    {
        match alg {
            Algorithm::Sha1 => DigestState::Sha1(sha1_start()),
            Algorithm::Md5 => DigestState::Md5(md5_start()),
        }
    }

    /// Feeds one chunk.
    pub fn update(&mut self, chunk: &[u8])
        ensures
            final(self).algorithm() == old(self).algorithm(),
            final(self).input() == old(self).input() + chunk@,
    {
        match self {
            DigestState::Sha1(h) => sha1_update(h, chunk),
            DigestState::Md5(h) => md5_update(h, chunk),
        }
    }

    /// The lowercase hex digest of everything fed.
    pub fn finish(self) -> (r: String)
        ensures
            r@ == hex_digest(self.algorithm(), self.input()),
            is_lower_hex(r@, hex_len(self.algorithm())),
    {
        match self {
            DigestState::Sha1(h) => sha1_finish(h),
            DigestState::Md5(h) => md5_finish(h),
        }
    }
}

/// Digests `data` by feeding it in chunks of at most `CHUNK_SIZE` bytes.
pub fn digest(alg: Algorithm, data: &[u8]) -> (r: String)
    ensures
        r@ == hex_digest(alg, data@),
        is_lower_hex(r@, hex_len(alg)),
{
    let mut state = DigestState::new(alg);
    let mut pos: usize = 0;
    while pos < data.len()
        invariant
            pos <= data@.len(),
            state.algorithm() == alg,
            state.input() == data@.subrange(0, pos as int),
        decreases data@.len() - pos,
    {
        let end: usize = if data.len() - pos > CHUNK_SIZE {
            pos + CHUNK_SIZE
        } else {
            data.len()
        };
        state.update(&data[pos..end]);
        assert(data@.subrange(0, pos as int) + data@.subrange(pos as int, end as int)
            =~= data@.subrange(0, end as int));
        pos = end;
    }
    assert(data@.subrange(0, pos as int) =~= data@);
    state.finish()
}

/// The SHA-1 digest of `data`, in lowercase hex.
pub fn sha1_digest(data: &[u8]) -> (r: String)
    ensures
        r@ == sha1_hex(data@),
        is_lower_hex(r@, 40),
{
    digest(Algorithm::Sha1, data)
}

/// The MD5 digest of `data`, in lowercase hex.
pub fn md5_digest(data: &[u8]) -> (r: String)
    ensures
        r@ == md5_hex(data@),
        is_lower_hex(r@, 32),
{
    digest(Algorithm::Md5, data)
}

} // verus!
