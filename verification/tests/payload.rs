use hawk_payload::digest::Algorithm;
use hawk_payload::payload::PayloadHasher;

#[test]
fn hash_consistency() {
    let mut hasher1 = PayloadHasher::new("text/plain".as_bytes(), Algorithm::Sha256);
    hasher1.update("pày".as_bytes());
    hasher1.update("load".as_bytes());
    let hash1 = hasher1.finish();

    let mut hasher2 = PayloadHasher::new("text/plain".as_bytes(), Algorithm::Sha256);
    hasher2.update("pàyload".as_bytes());
    let hash2 = hasher2.finish();

    let hash3 = PayloadHasher::hash("text/plain".as_bytes(), Algorithm::Sha256, "pàyload".as_bytes());

    // "pàyload" as utf-8 bytes
    let bytes: Vec<u8> = vec![112, 195, 160, 121, 108, 111, 97, 100];
    let hash4 = PayloadHasher::hash("text/plain".as_bytes(), Algorithm::Sha256, &bytes);

    assert_eq!(
        hash1,
        vec![
            228, 238, 241, 224, 235, 114, 158, 112, 211, 254, 118, 89, 25, 236, 87, 176, 181, 54,
            61, 135, 42, 223, 188, 103, 194, 59, 83, 36, 136, 31, 198, 50
        ]
    );
    assert_eq!(hash2, hash1);
    assert_eq!(hash3, hash1);
    assert_eq!(hash4, hash1);
}

#[test]
fn chunking_invariance_every_split() {
    let payload = "some message body bytes".as_bytes();
    let whole = PayloadHasher::hash("text/plain".as_bytes(), Algorithm::Sha256, payload);
    for split in 0..=payload.len() {
        let mut hasher = PayloadHasher::new("text/plain".as_bytes(), Algorithm::Sha256);
        hasher.update(&payload[..split]);
        hasher.update(&payload[split..]);
        assert_eq!(hasher.finish(), whole);
    }
}

#[test]
fn update_zero_times_matches_empty_payload() {
    let hasher = PayloadHasher::new("text/plain".as_bytes(), Algorithm::Sha256);
    let no_updates = hasher.finish();
    let empty = PayloadHasher::hash("text/plain".as_bytes(), Algorithm::Sha256, &[]);
    assert_eq!(no_updates, empty);
}

#[test]
fn one_shot_equals_manual_sequence() {
    for alg in [Algorithm::Sha256, Algorithm::Sha384, Algorithm::Sha512] {
        let mut hasher = PayloadHasher::new("application/json".as_bytes(), alg);
        hasher.update("{\"a\": 1}".as_bytes());
        let manual = hasher.finish();
        let one_shot =
            PayloadHasher::hash("application/json".as_bytes(), alg, "{\"a\": 1}".as_bytes());
        assert_eq!(one_shot, manual);
    }
}

#[test]
fn repeated_calls_are_deterministic() {
    let first = PayloadHasher::hash("text/plain".as_bytes(), Algorithm::Sha512, "body".as_bytes());
    let second = PayloadHasher::hash("text/plain".as_bytes(), Algorithm::Sha512, "body".as_bytes());
    assert_eq!(first, second);
}

#[test]
fn output_length_matches_algorithm() {
    for (alg, len) in [
        (Algorithm::Sha256, 32),
        (Algorithm::Sha384, 48),
        (Algorithm::Sha512, 64),
    ] {
        assert_eq!(alg.output_len(), len);
        let of_body = PayloadHasher::hash("text/plain".as_bytes(), alg, "body".as_bytes());
        assert_eq!(of_body.len(), len);
        let of_empty = PayloadHasher::hash("".as_bytes(), alg, &[]);
        assert_eq!(of_empty.len(), len);
    }
}

#[test]
fn content_type_changes_digest() {
    let payload = "body".as_bytes();
    let plain = PayloadHasher::hash("text/plain".as_bytes(), Algorithm::Sha256, payload);
    let plaim = PayloadHasher::hash("text/plaim".as_bytes(), Algorithm::Sha256, payload);
    let html = PayloadHasher::hash("text/html".as_bytes(), Algorithm::Sha256, payload);
    assert_ne!(plain, plaim);
    assert_ne!(plain, html);
    assert_ne!(plaim, html);
}

#[test]
fn digest_matches_ring_over_framed_message() {
    let mut framed: Vec<u8> = Vec::new();
    framed.extend_from_slice("hawk.1.payload\n".as_bytes());
    framed.extend_from_slice("text/plain".as_bytes());
    framed.push(b'\n');
    framed.extend_from_slice("pàyload".as_bytes());
    framed.push(b'\n');
    let direct = ring::digest::digest(&ring::digest::SHA256, &framed);
    let hashed = PayloadHasher::hash("text/plain".as_bytes(), Algorithm::Sha256, "pàyload".as_bytes());
    assert_eq!(hashed.as_slice(), direct.as_ref());
}

#[test]
fn payload_bytes_equal_payload_text() {
    let as_text = PayloadHasher::hash("text/plain".as_bytes(), Algorithm::Sha256, "pàyload".as_bytes());
    let as_bytes = PayloadHasher::hash(
        "text/plain".as_bytes(),
        Algorithm::Sha256,
        &[112, 195, 160, 121, 108, 111, 97, 100],
    );
    assert_eq!(as_text, as_bytes);
}
