use hb_api::digest::{digest, md5_digest, sha1_digest, Algorithm, DigestState};

#[test]
fn sha1_of_empty_input() {
    assert_eq!(sha1_digest(b""), "da39a3ee5e6b4b0d3255bfef95601890afd80709");
}

#[test]
fn sha1_of_abc() {
    assert_eq!(sha1_digest(b"abc"), "a9993e364706816aba3e25717850c26c9cd0d89d");
}

#[test]
fn sha1_of_sentence() {
    assert_eq!(
        sha1_digest(b"The quick brown fox jumps over the lazy dog"),
        "2fd4e1c67a2d28fced849ee1bb76e7391b93eb12"
    );
}

#[test]
fn sha1_of_million_a_spans_many_chunks() {
    let data = vec![b'a'; 1_000_000];
    assert_eq!(sha1_digest(&data), "34aa973cd4c4daa4f61eeb2bdbad27316534016f");
}

#[test]
fn md5_of_empty_input() {
    assert_eq!(md5_digest(b""), "d41d8cd98f00b204e9800998ecf8427e");
}

#[test]
fn md5_of_abc() {
    assert_eq!(md5_digest(b"abc"), "900150983cd24fb0d6963f7d28e17f72");
}

#[test]
fn md5_of_million_a() {
    let data = vec![b'a'; 1_000_000];
    assert_eq!(md5_digest(&data), "7707d6ae4e027c70eea2a935c2296f21");
}

#[test]
fn digest_selects_algorithm() {
    assert_eq!(digest(Algorithm::Sha1, b"abc"), "a9993e364706816aba3e25717850c26c9cd0d89d");
    assert_eq!(digest(Algorithm::Md5, b"abc"), "900150983cd24fb0d6963f7d28e17f72");
}

#[test]
fn chunked_feeding_equals_one_shot() {
    let data: Vec<u8> = (0..5000u32).map(|i| (i % 251) as u8).collect();
    let mut state = DigestState::new(Algorithm::Sha1);
    for chunk in data.chunks(7) {
        state.update(chunk);
    }
    assert_eq!(state.finish(), sha1_digest(&data));
}

#[test]
fn chunk_boundary_of_exactly_one_buffer() {
    let data = vec![0u8; 1024];
    let mut state = DigestState::new(Algorithm::Md5);
    state.update(&data[..1000]);
    state.update(&data[1000..]);
    assert_eq!(state.finish(), md5_digest(&data));
    assert_eq!(md5_digest(&data).len(), 32);
}
