use peercrypt::{CryptoContext, CryptoPacket, Error, PublicContext};

fn context(seed: u8) -> CryptoContext {
    CryptoContext::new(
        Some((vec![seed; 8], vec![seed.wrapping_add(1); 8])),
        Some((vec![seed.wrapping_add(2); 8], vec![seed.wrapping_add(3); 8])),
    )
    .unwrap()
}

fn shared_secret(seed: u8) -> Vec<u8> {
    (0..32u8).map(|i| i.wrapping_mul(7).wrapping_add(seed)).collect()
}

fn seal(sender: &CryptoContext, recipient: &CryptoContext, data: &[u8], secret: &[u8]) -> CryptoPacket {
    let sealed = sender
        .encrypt(recipient.as_public(), data, Some((vec![9, 9, 9], secret.to_vec())))
        .unwrap();
    sealed.sign(Some(vec![0xAA, 0xBB])).unwrap()
}

fn rebuild(p: &CryptoPacket, nonce: [u8; 12], body: Vec<u8>, signature: Vec<u8>) -> CryptoPacket {
    CryptoPacket::from_parts(
        PublicContext::copy_of(p.target()),
        PublicContext::copy_of(p.sender()),
        nonce,
        p.key().clone(),
        body,
        signature,
    )
}

#[test]
fn public_context_needs_both_keys() {
    assert!(PublicContext::new(vec![], vec![1]).is_none());
    assert!(PublicContext::new(vec![1], vec![]).is_none());
    let p = PublicContext::new(vec![1, 2], vec![3]).unwrap();
    assert_eq!(p.encryption_key(), vec![1, 2]);
    assert_eq!(p.signing_key(), vec![3]);
}

#[test]
fn fingerprint_is_encryption_key_then_signing_key() {
    let p = PublicContext::new(vec![1, 2, 3], vec![4, 5]).unwrap();
    assert_eq!(p.as_bytes(), vec![1, 2, 3, 4, 5]);
    let q = PublicContext::new(vec![4, 5], vec![1, 2, 3]).unwrap();
    assert_ne!(p.as_bytes(), q.as_bytes());
}

#[test]
fn context_rejects_failed_key_generation() {
    let pair = || Some((vec![1u8], vec![2u8]));
    assert_eq!(CryptoContext::new(None, pair()).err(), Some(Error::KeyGeneration));
    assert_eq!(CryptoContext::new(pair(), None).err(), Some(Error::KeyGeneration));
    assert_eq!(
        CryptoContext::new(Some((vec![], vec![2])), pair()).err(),
        Some(Error::KeyGeneration)
    );
    let c = CryptoContext::new(pair(), Some((vec![3], vec![4]))).unwrap();
    assert_eq!(c.as_public().as_bytes(), vec![1, 3]);
    assert_eq!(c.encryption_secret_key(), &vec![2]);
    assert_eq!(c.signing_secret_key(), &vec![4]);
}

#[test]
fn encrypt_fails_without_encapsulation() {
    let s = context(10);
    let r = context(20);
    let res = s.encrypt(r.as_public(), b"hello", None);
    assert_eq!(res.err(), Some(Error::KeyEncapsulation));
}

#[test]
fn encrypt_rejects_shared_secret_of_wrong_length() {
    let s = context(10);
    let r = context(20);
    let res = s.encrypt(r.as_public(), b"hello", Some((vec![1], vec![7; 31])));
    assert_eq!(res.err(), Some(Error::AeadKeyLength));
}

#[test]
fn failed_signing_is_reported() {
    let s = context(10);
    let r = context(20);
    let sealed = s.encrypt(r.as_public(), b"hello", Some((vec![1], shared_secret(1)))).unwrap();
    assert_eq!(sealed.sign(None).err(), Some(Error::Signing));
}

#[test]
fn envelope_carries_recipient_sender_and_sealed_body() {
    let s = context(10);
    let r = context(20);
    let p = seal(&s, &r, b"hello", &shared_secret(3));
    assert_eq!(p.target().as_bytes(), r.as_public().as_bytes());
    assert_eq!(p.sender().as_bytes(), s.as_public().as_bytes());
    assert_eq!(p.key(), &vec![9, 9, 9]);
    assert_eq!(p.signature(), &vec![0xAA, 0xBB]);
    assert_eq!(p.body().len(), 5 + 16);
    assert_ne!(&p.body()[..5], b"hello");
}

#[test]
fn round_trip_returns_plaintext() {
    let s = context(10);
    let r = context(20);
    let secret = shared_secret(5);
    for data in [&b""[..], &b"hello"[..], &[0u8; 1000][..]] {
        let p = seal(&s, &r, data, &secret);
        let authed = p.authenticate(true).unwrap();
        assert_eq!(authed.key(), &vec![9, 9, 9]);
        assert_eq!(r.decrypt(authed, Some(secret.clone())).unwrap(), data.to_vec());
    }
}

#[test]
fn end_to_end_hello_and_tampered_body() {
    let s = context(1);
    let r = context(2);
    let secret = shared_secret(8);
    let e = seal(&s, &r, b"hello", &secret);
    let opened = r.decrypt(e.clone().authenticate(true).unwrap(), Some(secret.clone()));
    assert_eq!(opened.unwrap(), b"hello".to_vec());
    let mut body = e.body().clone();
    let last = body.len() - 1;
    body[last] ^= 0x01;
    let tampered = rebuild(&e, e.nonce(), body, e.signature().clone());
    let res = r.decrypt(tampered.authenticate(true).unwrap(), Some(secret));
    assert_eq!(res.err(), Some(Error::AeadTagInvalid));
}

#[test]
fn tampered_nonce_is_rejected() {
    let s = context(1);
    let r = context(2);
    let secret = shared_secret(8);
    let e = seal(&s, &r, b"hello", &secret);
    let mut nonce = e.nonce();
    nonce[0] ^= 0x80;
    let tampered = rebuild(&e, nonce, e.body().clone(), e.signature().clone());
    let res = r.decrypt(tampered.authenticate(true).unwrap(), Some(secret));
    assert_eq!(res.err(), Some(Error::AeadTagInvalid));
}

#[test]
fn unverified_signature_stops_before_opening() {
    let s = context(1);
    let r = context(2);
    let e = seal(&s, &r, b"hello", &shared_secret(8));
    assert_eq!(e.authenticate(false).err(), Some(Error::SignatureInvalid));
}

#[test]
fn wrong_or_missing_shared_secret_is_rejected() {
    let s = context(1);
    let r = context(2);
    let e = seal(&s, &r, b"hello", &shared_secret(8));
    let other = r.decrypt(e.clone().authenticate(true).unwrap(), Some(shared_secret(9)));
    assert_eq!(other.err(), Some(Error::AeadTagInvalid));
    let missing = r.decrypt(e.clone().authenticate(true).unwrap(), None);
    assert_eq!(missing.err(), Some(Error::Decapsulation));
    let short = r.decrypt(e.authenticate(true).unwrap(), Some(vec![1; 16]));
    assert_eq!(short.err(), Some(Error::AeadKeyLength));
}

#[test]
fn repeated_encryption_draws_fresh_nonces() {
    let s = context(1);
    let r = context(2);
    let secret = shared_secret(4);
    let a = seal(&s, &r, b"same", &secret);
    let b = seal(&s, &r, b"same", &secret);
    assert_ne!(a.nonce(), b.nonce());
    assert_ne!(a.body(), b.body());
}

#[test]
fn object_round_trip_with_optional_fields() {
    let s = context(1);
    let r = context(2);
    let secret = shared_secret(6);
    let value: (u32, Option<String>, Option<Vec<String>>) =
        (42, None, Some(vec!["they".to_string(), "them".to_string()]));
    let encoded = rmp_serde::to_vec(&value).unwrap();
    let e = seal(&s, &r, &encoded, &secret);
    let opened = r.decrypt(e.authenticate(true).unwrap(), Some(secret)).unwrap();
    let back: (u32, Option<String>, Option<Vec<String>>) = rmp_serde::from_slice(&opened).unwrap();
    assert_eq!(back, value);
}
