use notary::crypto_sign::{AsBytes, B64Err, KeyPair, KpErr, B64};
use notary::b64::DecodeError;

fn hex(s: &str) -> Vec<u8> {
    (0..s.len() / 2)
        .map(|i| u8::from_str_radix(&s[2 * i..2 * i + 2], 16).unwrap())
        .collect()
}

const SECRET: &str = "9d61b19deffd5a60ba844af492ec2cc44449c5697b326919703bac031cae7f60";
const PUBLIC: &str = "d75a980182b10ab7d54bfed3c964073a0ee172f3daa62325af021a68f707511a";
const SIGNATURE_OF_EMPTY: &str = "e5564300c360ac729086e2cc806e828a84877f1eb8e5d974d873e06522490155\
5fb8821590a33bacc61e39701cf9b46bd25bf5f0595bbe24655141438e7a100b";

fn known_pair() -> KeyPair {
    let mut bytes = hex(SECRET);
    bytes.extend(hex(PUBLIC));
    KeyPair::from_bytes(&bytes).unwrap()
}

#[test]
fn known_key_signs_the_known_signature() {
    let pair = known_pair();
    assert_eq!(pair.sign(b"").to_vec(), hex(SIGNATURE_OF_EMPTY));
    assert!(pair.verify(b"", &hex(SIGNATURE_OF_EMPTY)));
    assert!(!pair.verify(b"x", &hex(SIGNATURE_OF_EMPTY)));
}

#[test]
fn public_key_is_the_second_half() {
    let pair = known_pair();
    assert_eq!(pair.pubkey().to_vec(), hex(PUBLIC));
    assert_eq!(pair.pubkey().len(), 32);
    assert_eq!(pair.to_bytes()[32..].to_vec(), hex(PUBLIC));
    assert_eq!(pair.to_bytes()[..32].to_vec(), hex(SECRET));
}

#[test]
fn known_pair_is_consistent() {
    assert!(known_pair().is_consistent());
}

#[test]
fn pair_with_foreign_public_half_is_not_consistent() {
    let other = KeyPair::generate();
    let mut bytes = hex(SECRET);
    bytes.extend(other.pubkey());
    let mixed = KeyPair::from_bytes(&bytes).unwrap();
    assert!(!mixed.is_consistent());
    assert_eq!(mixed.pubkey(), other.pubkey());
}

#[test]
fn generated_pair_signs_what_it_verifies() {
    let pair = KeyPair::generate();
    assert!(pair.is_consistent());
    let message = b"any message at all";
    let signature = pair.sign(message);
    assert!(pair.verify(message, &signature));
    assert!(!pair.verify(b"another message", &signature));
    let mut bent = signature;
    bent[0] ^= 1;
    assert!(!pair.verify(message, &bent));
}

#[test]
fn generated_pairs_differ() {
    assert_ne!(KeyPair::generate().to_bytes(), KeyPair::generate().to_bytes());
}

#[test]
fn signature_of_wrong_length_is_refused() {
    let pair = KeyPair::generate();
    let signature = pair.sign(b"m");
    assert!(!pair.verify(b"m", &signature[..63]));
    assert!(!pair.verify(b"m", &[]));
    let mut longer = signature.to_vec();
    longer.push(0);
    assert!(!pair.verify(b"m", &longer));
}

#[test]
fn signature_with_high_bits_set_is_refused() {
    let pair = KeyPair::generate();
    let mut signature = pair.sign(b"m");
    signature[63] |= 0b1110_0000;
    assert!(!pair.verify(b"m", &signature));
}

#[test]
fn bytes_of_wrong_length_are_no_key_pair() {
    match KeyPair::from_bytes(&[0u8; 63]) {
        Err(KpErr::BytesLengthErr { expected, got }) => {
            assert_eq!(expected, 64);
            assert_eq!(got, 63);
        }
        other => panic!("unexpected: {:?}", other),
    }
    assert!(matches!(
        KeyPair::from_bytes(&[]),
        Err(KpErr::BytesLengthErr { expected: 64, got: 0 })
    ));
}

#[test]
fn bytes_off_the_curve_are_no_key_pair() {
    let mut refused = 0;
    for y in 0..=255u8 {
        let mut bytes = hex(SECRET);
        let mut public = [0u8; 32];
        public[0] = y;
        bytes.extend(public);
        match KeyPair::from_bytes(&bytes) {
            Ok(pair) => assert_eq!(pair.to_bytes().to_vec(), bytes),
            Err(KpErr::SignatureErr(text)) => {
                assert!(!text.is_empty());
                refused += 1;
            }
            Err(other) => panic!("unexpected: {:?}", other),
        }
    }
    assert!(refused > 0);
}

#[test]
fn text_form_is_base64_of_the_bytes() {
    let pair = known_pair();
    let text = pair.to_str();
    assert_eq!(
        text,
        "nWGxne/9WmC6hEr0kuwsxERJxWl7MmkZcDusAxyuf2DXWpgBgrEKt9VL/tPJZAc6DuFy89qmIyWvAhpo9wdRGg=="
    );
    assert_eq!(text.len(), 88);
    assert_eq!(text, base64::encode(pair.to_bytes()));
    let back = KeyPair::from_str(&text).unwrap();
    assert_eq!(back.to_bytes(), pair.to_bytes());
}

#[test]
fn text_that_is_no_base64_is_no_key_pair() {
    match KeyPair::from_str("not base64") {
        Err(KpErr::B64Err(B64Err::Base64DecodeErr(e))) => {
            assert_eq!(e, DecodeError::InvalidByte(3, 32))
        }
        other => panic!("unexpected: {:?}", other),
    }
    assert!(matches!(
        KeyPair::from_str("aGVsbG8="),
        Err(KpErr::BytesLengthErr { expected: 64, got: 5 })
    ));
}

#[test]
fn key_file_that_holds_a_pair_is_kept() {
    let pair = KeyPair::generate();
    let (loaded, to_write) = KeyPair::from_file_or_new(Ok(pair.to_str()));
    assert_eq!(loaded.to_bytes(), pair.to_bytes());
    assert_eq!(to_write, None);
}

#[test]
fn missing_or_broken_key_file_gives_a_fresh_pair() {
    let (fresh, to_write) =
        KeyPair::from_file_or_new(Err(KpErr::IoErr("No such file or directory".to_string())));
    assert_eq!(to_write, Some(fresh.to_str()));
    assert!(fresh.is_consistent());

    let (fresh, to_write) = KeyPair::from_file_or_new(Ok("garbage".to_string()));
    let text = to_write.unwrap();
    assert_eq!(KeyPair::from_str(&text).unwrap().to_bytes(), fresh.to_bytes());

    let (fresh, to_write) = KeyPair::from_file_or_new(Ok("aGVsbG8=".to_string()));
    assert_eq!(to_write, Some(fresh.to_str()));
}

// The public key that the service hands out is the one of its key pair, and
// 32 bytes long.
#[test]
#[allow(non_snake_case)]
fn test__pubkey__OK() {
    let pair = KeyPair::generate();
    let pubkey = pair.pubkey();
    assert_eq!(
        pubkey.to_vec(),
        pair.to_bytes()[32..].to_vec(),
        "pubkey should be same as in config"
    );
    assert_eq!(pubkey.len(), 32, "pubkey should be 32 bytes long");
}

#[test]
fn curve_library_refusal_is_kept_as_its_text() {
    let short = ed25519_dalek::PublicKey::from_bytes(&[0u8; 31]).unwrap_err();
    match KpErr::from_signature_error(short) {
        KpErr::SignatureErr(text) => {
            assert_eq!(text, "signature error: PublicKey must be 32 bytes in length")
        }
        other => panic!("unexpected: {:?}", other),
    }
    let mut off_curve = None;
    for y in 0..=255u8 {
        let mut public = [0u8; 32];
        public[0] = y;
        if let Err(e) = ed25519_dalek::PublicKey::from_bytes(&public) {
            off_curve = Some((e.to_string(), KpErr::from_signature_error(e)));
            break;
        }
    }
    match off_curve {
        Some((said, KpErr::SignatureErr(text))) => {
            assert_eq!(text, said);
            assert_eq!(text, "signature error: Cannot decompress Edwards point");
        }
        other => panic!("unexpected: {:?}", other),
    }
}

#[test]
fn text_of_bytes_of_another_length_is_refused_by_length() {
    for len in [0usize, 1, 32, 63, 65, 128] {
        let text = base64::encode(vec![7u8; len]);
        match KeyPair::from_str(&text) {
            Err(KpErr::BytesLengthErr { expected, got }) => {
                assert_eq!(expected, 64);
                assert_eq!(got, len);
            }
            other => panic!("unexpected: {:?}", other),
        }
    }
}

#[test]
fn bytes_that_parse_as_no_signature_are_refused() {
    let pair = known_pair();
    let good = hex(SIGNATURE_OF_EMPTY);
    assert!(pair.verify(b"", &good));
    for bit in [0x20u8, 0x40, 0x80] {
        let mut bent = good.clone();
        bent[63] |= bit;
        assert!(!pair.verify(b"", &bent));
    }
    assert!(!pair.verify(b"", &[0u8; 64]));
}
