//! Integrity checker: does a byte source match a variant's expected digest?
use vstd::prelude::*;

use crate::digest::{hex_digest, md5_hex, sha1_hex, Algorithm, DigestState, CHUNK_SIZE};
use crate::types::DownloadStruct;

verus! {

/// The digest that a variant asks for: SHA-1 when it names one, else MD5 when it
/// names one, else none.
pub open spec fn expected_spec(v: &DownloadStruct) -> Option<(Algorithm, Seq<char>)> {
    match v.sha1 {
        Some(h) => Some((Algorithm::Sha1, h@)),
        None => match v.md5 {
            Some(h) => Some((Algorithm::Md5, h@)),
            None => None,
        },
    }
}

/// Whether `data` passes the check of variant `v`: the digest it asks for equals
/// the digest of `data` exactly (case included); a variant with no digest passes
/// everything.
pub open spec fn verifies(v: &DownloadStruct, data: Seq<u8>) -> bool {
    match expected_spec(v) {
        Some((alg, h)) => h == hex_digest(alg, data),
        None => true,
    }
}

/// The algorithm a variant is checked with, if any.
pub fn expected_algorithm(v: &DownloadStruct) -> (r: Option<Algorithm>)
    ensures
        r == (match expected_spec(v) {
            Some((alg, _)) => Some(alg),
            None => None::<Algorithm>,
        }),
{
    if v.sha1.is_some() {
        Some(Algorithm::Sha1)
    } else if v.md5.is_some() {
        Some(Algorithm::Md5)
    } else {
        None
    }
}

/// Compares a computed digest against the one that `v` expects, where
/// `actual` was computed with `expected_algorithm(v)`.
pub fn digest_matches(v: &DownloadStruct, actual: &String) -> (r: bool)
    requires
        expected_spec(v) is Some,
    ensures
        r == (expected_spec(v).unwrap().1 == actual@),
{
    match &v.sha1 {
        Some(h) => *h == *actual,
        None => match &v.md5 {
            Some(h) => *h == *actual,
            None => false,
        },
    }
}

/// An integrity check in progress over a byte stream.
pub struct Checker {
    expected: Option<String>,
    state: Option<DigestState>,
    fed: Ghost<Seq<u8>>,
    variant: Ghost<Option<(Algorithm, Seq<char>)>>,
}

impl Checker {
    /// The digest being checked for.
    pub closed spec fn expected(&self) -> Option<(Algorithm, Seq<char>)> {
        self.variant@
    }

    /// The bytes fed so far.
    pub closed spec fn input(&self) -> Seq<u8> {
        self.fed@
    }

    pub closed spec fn wf(&self) -> bool {
        match self.variant@ {
            Some((alg, h)) => {
                &&& self.expected matches Some(e) && e@ == h
                &&& self.state matches Some(s) && s.algorithm() == alg && s.input() == self.fed@
            },
            None => self.expected is None && self.state is None,
        }
    }

    /// A check against variant `v`, with nothing fed yet.
    pub fn new(v: &DownloadStruct) -> (r: Checker)
        ensures
            r.wf(),
            r.expected() == expected_spec(v),
            r.input() == Seq::<u8>::empty(),
    {
        let expected = if v.sha1.is_some() {
            v.sha1.clone()
        } else {
            v.md5.clone()
        };
        let state = match expected_algorithm(v) {
            Some(alg) => Some(DigestState::new(alg)),
            None => None,
        };
        Checker { expected, state, fed: Ghost(Seq::empty()), variant: Ghost(expected_spec(v)) }
    }

    /// Feeds one chunk of the source.
    pub fn update(&mut self, chunk: &[u8])
        requires
            old(self).wf(),
        ensures
            final(self).wf(),
            final(self).expected() == old(self).expected(),
            final(self).input() == old(self).input() + chunk@,
    {
        match &mut self.state {
            Some(s) => s.update(chunk),
            None => {},
        }
        self.fed = Ghost(self.fed@ + chunk@);
    }

    /// Whether everything fed matches the expected digest.
    pub fn finish(self) -> (r: bool)
        requires
            self.wf(),
        ensures
            r == match self.expected() {
                Some((alg, h)) => h == hex_digest(alg, self.input()),
                None => true,
            },
    {
        match (self.expected, self.state) {
            (Some(e), Some(s)) => {
                let actual = s.finish();
                e == actual
            },
            _ => true,
        }
    }
}

/// Checks `data` against variant `v`, reading it in chunks of `CHUNK_SIZE`.
pub fn check_data_validity(v: &DownloadStruct, data: &[u8]) -> (r: bool)
    ensures
        r == verifies(v, data@),
{
    let mut checker = Checker::new(v);
    let mut pos: usize = 0;
    while pos < data.len()
        invariant
            pos <= data@.len(),
            checker.wf(),
            checker.expected() == expected_spec(v),
            checker.input() == data@.subrange(0, pos as int),
        decreases data@.len() - pos,
    {
        let end: usize = if data.len() - pos > CHUNK_SIZE {
            pos + CHUNK_SIZE
        } else {
            data.len()
        };
        checker.update(&data[pos..end]);
        assert(data@.subrange(0, pos as int) + data@.subrange(pos as int, end as int)
            =~= data@.subrange(0, end as int));
        pos = end;
    }
    assert(data@.subrange(0, pos as int) =~= data@);
    checker.finish()
}

/// A variant that names no digest accepts every byte source.
pub proof fn lemma_no_digest_accepts_all(v: &DownloadStruct, data: Seq<u8>)
    requires
        v.sha1 is None,
        v.md5 is None,
    ensures
        verifies(v, data),
{
}

/// A variant that names a SHA-1 digest accepts exactly the sources whose SHA-1
/// digest equals it, character for character, whatever MD5 it also names.
pub proof fn lemma_sha1_decides(v: &DownloadStruct, data: Seq<u8>)
    requires
        v.sha1 is Some,
    ensures
        verifies(v, data) <==> v.sha1.unwrap()@ == sha1_hex(data),
{
}

/// A variant that names only an MD5 digest accepts exactly the sources whose
/// MD5 digest equals it.
pub proof fn lemma_md5_decides(v: &DownloadStruct, data: Seq<u8>)
    requires
        v.sha1 is None,
        v.md5 is Some,
    ensures
        verifies(v, data) <==> v.md5.unwrap()@ == md5_hex(data),
{
}

} // verus!
