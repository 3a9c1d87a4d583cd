use aead::rand_core::RngCore;
use aead::OsRng;
use howler::cipher::{get_aes_cipher, get_cha_cipher, AesNonce, AesSpec, ChaSpec, CipherHandle, Encryption};
use howler::err::ErrorKind;
use howler::rng::{AppRngCore, AppRngSeed};

const TEST_PHRASE: &str = "alpha test phrase";
const TEST_STRING: &str = "alpha test string";

fn os_seed() -> AppRngSeed {
    let mut s = [0u8; 32];
    OsRng.fill_bytes(&mut s);
    AppRngSeed(s)
}

fn aes_default() -> Encryption {
    Encryption::AES { cipher: AesSpec::default(), nonce: AesNonce::default() }
}

fn cha_default() -> Encryption {
    Encryption::ChaCha { cipher: ChaSpec::default() }
}

fn check_aes_works() {
    let cipher = CipherHandle::new(&aes_default(), os_seed());
    let res = cipher
        .decrypt(cipher.encrypt(TEST_STRING.as_bytes()).unwrap().as_ref())
        .unwrap();
    assert_eq!(res.as_slice(), TEST_STRING.as_bytes());

    let res = cipher.encrypt_at(&[0u8; 16], &[], &mut vec![0u8; 24]);
    assert!(res.is_err());
}

fn check_cha_works() {
    let cipher = CipherHandle::new(&cha_default(), os_seed());
    let res = cipher
        .decrypt(cipher.encrypt(TEST_STRING.as_bytes()).unwrap().as_ref())
        .unwrap();
    assert_eq!(res.as_slice(), TEST_STRING.as_bytes());

    let res = cipher.encrypt_at(&[0u8; 24], &[], &mut vec![0u8; 24]);
    assert!(res.is_err());
}

fn check_cipher_integrity() {
    let aes = CipherHandle::new(&aes_default(), os_seed());
    let cha = CipherHandle::new(&cha_default(), os_seed());

    let aes_res = aes.encrypt(TEST_STRING.as_bytes()).unwrap();
    let cha_res = cha.encrypt(TEST_STRING.as_bytes()).unwrap();
    // ciphers produce different output
    assert_ne!(aes_res, cha_res);

    let cha_aes = cha.decrypt(aes_res.as_ref());
    let aes_cha = aes.decrypt(cha_res.as_ref());
    // different ciphers can't decrypt each other
    assert!(cha_aes.is_err());
    assert!(aes_cha.is_err());

    let aes_res = aes.decrypt(aes_res.as_ref()).unwrap();
    let cha_res = cha.decrypt(cha_res.as_ref()).unwrap();
    // ciphers are operating on the same data
    assert_eq!(aes_res, cha_res);
}

#[test]
fn lib_aes_works() {
    check_aes_works();
}

#[test]
fn cipher_aes_works() {
    check_aes_works();
}

#[test]
fn lib_cha_works() {
    check_cha_works();
}

#[test]
fn cipher_cha_works() {
    check_cha_works();
}

#[test]
fn lib_cipher_integrity() {
    check_cipher_integrity();
}

#[test]
fn cipher_cipher_integrity() {
    check_cipher_integrity();
}

#[test]
fn rng_seeding_works() {
    let buf = AppRngCore::from_seed(AppRngSeed::from_phrase(TEST_PHRASE)).fill_bytes(16);
    // byte filling is properly seeded
    assert_ne!(buf, vec![0u8; 16]);

    let buf = AppRngCore::from_seed(AppRngSeed::default()).fill_bytes(16);
    // blank seed produces blank fills
    assert_eq!(buf, vec![0u8; 16]);
}

#[test]
fn rng_seeding_same() {
    let aes_a = CipherHandle::seeded(&aes_default(), AppRngSeed::from_phrase(TEST_PHRASE));
    let aes_b = CipherHandle::seeded(&aes_default(), AppRngSeed::from_phrase(TEST_PHRASE));

    let txt_a = aes_a.encrypt(TEST_STRING.as_bytes()).unwrap();
    let txt_b = aes_b.encrypt(TEST_STRING.as_bytes()).unwrap();

    let res_a = aes_a.decrypt(txt_b.as_ref());
    let res_b = aes_b.decrypt(txt_a.as_ref());
    // ciphers with same seeds may be interchanged
    assert!(res_a.is_ok());
    assert!(res_b.is_ok());
    assert_eq!(res_a.unwrap(), TEST_STRING.as_bytes());
}

#[test]
fn rng_seeding_diff() {
    let aes_a = CipherHandle::new(&aes_default(), os_seed());
    let aes_b = CipherHandle::new(&aes_default(), os_seed());

    let txt_a = aes_a.encrypt(TEST_STRING.as_bytes()).unwrap();
    let txt_b = aes_b.encrypt(TEST_STRING.as_bytes()).unwrap();

    let res_a = aes_a.decrypt(txt_b.as_ref());
    let res_b = aes_b.decrypt(txt_a.as_ref());
    // ciphers with diff seeds can't be interchanged
    assert!(res_a.is_err());
    assert!(res_b.is_err());
}

fn all_encryptions() -> Vec<Encryption> {
    let mut v = Vec::new();
    for c in [AesSpec::Aes128, AesSpec::Aes192, AesSpec::Aes256] {
        for n in [AesNonce::U12, AesNonce::U13, AesNonce::U14, AesNonce::U15, AesNonce::U16] {
            v.push(Encryption::AES { cipher: c, nonce: n });
        }
    }
    v.push(Encryption::ChaCha { cipher: ChaSpec::ChaCha20 });
    v.push(Encryption::ChaCha { cipher: ChaSpec::XChaCha20 });
    v
}

#[test]
fn round_trip_every_algorithm() {
    for cfg in all_encryptions() {
        let c = CipherHandle::new(&cfg, os_seed());
        for p in [vec![], vec![7u8], vec![0x41u8; 1000]] {
            let ct = c.encrypt(&p).unwrap();
            assert_eq!(ct.len(), c.nonce_size() + p.len() + 16);
            assert_ne!(&ct[c.nonce_size()..], p.as_slice());
            assert_eq!(c.decrypt(&ct).unwrap(), p);
        }
    }
}

#[test]
fn nonce_sizes_per_algorithm() {
    let sizes: Vec<usize> = all_encryptions()
        .iter()
        .map(|cfg| CipherHandle::new(cfg, AppRngSeed::default()).nonce_size())
        .collect();
    assert_eq!(sizes, vec![12, 13, 14, 15, 16, 12, 13, 14, 15, 16, 12, 13, 14, 15, 16, 12, 24]);
}

#[test]
fn cross_cipher_rejection() {
    let encs = all_encryptions();
    for (i, a) in encs.iter().enumerate() {
        for (j, b) in encs.iter().enumerate() {
            if i == j {
                continue;
            }
            let ca = CipherHandle::new(a, os_seed());
            let cb = CipherHandle::new(b, os_seed());
            let ct = ca.encrypt(TEST_STRING.as_bytes()).unwrap();
            let e = cb.decrypt(&ct).unwrap_err();
            assert_eq!(e.kind, ErrorKind::UnexpectedAEAD);
        }
    }
}

#[test]
fn short_ciphertext_is_invalid_input() {
    for cfg in all_encryptions() {
        let c = CipherHandle::new(&cfg, os_seed());
        let short = vec![0u8; c.nonce_size() - 1];
        assert_eq!(c.decrypt(&short).unwrap_err().kind, ErrorKind::InvalidInput);
        assert_eq!(c.decrypt(&[]).unwrap_err().kind, ErrorKind::InvalidInput);
        // a nonce without a whole tag is still too short
        let just_nonce = vec![0u8; c.nonce_size()];
        assert_eq!(c.decrypt(&just_nonce).unwrap_err().kind, ErrorKind::InvalidInput);
        let no_tag = vec![0u8; c.nonce_size() + 15];
        assert_eq!(c.decrypt(&no_tag).unwrap_err().kind, ErrorKind::InvalidInput);
        // long enough for a nonce and a tag: the tag check decides
        let forged = vec![0u8; c.nonce_size() + 16];
        assert_eq!(c.decrypt(&forged).unwrap_err().kind, ErrorKind::UnexpectedAEAD);
    }
}

#[test]
fn tampered_ciphertext_is_rejected() {
    let c = CipherHandle::new(&aes_default(), os_seed());
    let mut ct = c.encrypt(TEST_STRING.as_bytes()).unwrap();
    let last = ct.len() - 1;
    ct[last] ^= 1;
    assert_eq!(c.decrypt(&ct).unwrap_err().kind, ErrorKind::UnexpectedAEAD);
}

#[test]
fn in_place_round_trip_with_associated_data() {
    let c = CipherHandle::new(&Encryption::AES { cipher: AesSpec::Aes128, nonce: AesNonce::U16 }, os_seed());
    let nonce = [3u8; 16];
    let mut buf = TEST_STRING.as_bytes().to_vec();
    c.encrypt_at(&nonce, b"header", &mut buf).unwrap();
    assert_eq!(buf.len(), TEST_STRING.len() + 16);
    assert_ne!(&buf[..TEST_STRING.len()], TEST_STRING.as_bytes());
    let mut wrong = buf.clone();
    assert_eq!(c.decrypt_at(&nonce, b"other", &mut wrong).unwrap_err().kind, ErrorKind::UnexpectedAEAD);
    c.decrypt_at(&nonce, b"header", &mut buf).unwrap();
    assert_eq!(buf, TEST_STRING.as_bytes());
    let mut b2 = vec![1u8, 2, 3];
    assert_eq!(c.decrypt_at(&[0u8; 12], &[], &mut b2).unwrap_err().kind, ErrorKind::UnexpectedAEAD);
    assert_eq!(b2, vec![1u8, 2, 3]);
}

#[test]
fn encrypt_with_given_nonce_is_deterministic() {
    let c = CipherHandle::seeded(&cha_default(), AppRngSeed::from_phrase(TEST_PHRASE));
    let nonce = [9u8; 12];
    let a = c.encrypt_with_nonce(&nonce, TEST_STRING.as_bytes()).unwrap();
    let b = c.encrypt_with_nonce(&nonce, TEST_STRING.as_bytes()).unwrap();
    assert_eq!(a, b);
    assert_eq!(&a[..12], &nonce);
    assert_eq!(c.decrypt(&a).unwrap(), TEST_STRING.as_bytes());
    assert_eq!(
        c.encrypt_with_nonce(&[0u8; 24], b"x").unwrap_err().kind,
        ErrorKind::UnexpectedAEAD
    );
}

#[test]
fn builders_match_configuration() {
    let a = get_aes_cipher(&AesSpec::Aes192, &AesNonce::U14, AppRngSeed::from_phrase(TEST_PHRASE));
    assert_eq!(a.encryption(), Encryption::AES { cipher: AesSpec::Aes192, nonce: AesNonce::U14 });
    assert_eq!(a.nonce_size(), 14);
    let b = CipherHandle::new(
        &Encryption::AES { cipher: AesSpec::Aes192, nonce: AesNonce::U14 },
        AppRngSeed::from_phrase(TEST_PHRASE),
    );
    assert_eq!(b.decrypt(&a.encrypt(b"abc").unwrap()).unwrap(), b"abc");
    let x = get_cha_cipher(&ChaSpec::XChaCha20, os_seed());
    assert_eq!(x.nonce_size(), 24);
    assert_eq!(x.decrypt(&x.encrypt(b"abc").unwrap()).unwrap(), b"abc");
}

#[test]
fn in_place_output_length() {
    for cfg in all_encryptions() {
        let c = CipherHandle::new(&cfg, os_seed());
        let nonce = vec![1u8; c.nonce_size()];
        let mut buf = vec![5u8; 40];
        c.encrypt_at(&nonce, b"aad", &mut buf).unwrap();
        assert_eq!(buf.len(), 56);
        c.decrypt_at(&nonce, b"aad", &mut buf).unwrap();
        assert_eq!(buf, vec![5u8; 40]);
    }
}

#[test]
fn generator_bytes_repeat_every_block() {
    let core = AppRngCore::from_seed(AppRngSeed::from_phrase(TEST_PHRASE));
    let bytes = core.fill_bytes(200);
    assert_eq!(bytes.len(), 200);
    assert_eq!(&bytes[..64], &bytes[64..128]);
    assert_eq!(&bytes[..72], &bytes[128..200]);
}
