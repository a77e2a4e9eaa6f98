use base64::engine::general_purpose::STANDARD;
use base64::Engine;
use rumble_tools::config::{
    build_tls_config, parse_fingerprint, resolve_tls_trust, BridgeConfig, RumbleTlsTrust, TrustError,
};
use rumble_tools::identity::{
    create_identity, decode_seed, load_identity, public_key_b64, seed_line, SeedError,
};
use rumble_tools::mumble_tls::{
    create_identity_file, identity_file, keep_identity, load_identity_file, pem_decode,
    pem_encode, TlsFileError,
};
use rumble_tools::signing::SigningKey;

#[test]
fn identity_is_written_and_loaded() {
    let (first, contents) = create_identity();
    assert_eq!(contents, format!("{}\n", hex::encode(first.to_bytes())));
    let second = load_identity(&contents).unwrap();
    assert_eq!(first.to_bytes(), second.to_bytes(), "reloaded identity must match the persisted one");
    assert_ne!(create_identity().0.to_bytes(), first.to_bytes());
    assert_eq!(seed_line(&SigningKey::from_bytes(&[0xA0; 32])), format!("{}\n", "a0".repeat(32)));
}

#[test]
fn broken_seeds_are_refused() {
    assert_eq!(decode_seed("ab"), Err(SeedError::Length(2)));
    assert_eq!(
        decode_seed("ab").unwrap_err().message(),
        "identity seed must be 64 hex chars (32 bytes), got 2"
    );
    assert_eq!(decode_seed(&"zz".repeat(32)), Err(SeedError::Hex));
    assert_eq!(decode_seed(&"é".repeat(32)), Err(SeedError::Hex));
    assert_eq!(SeedError::Hex.message(), "invalid hex in identity seed");
    assert_eq!(decode_seed(&"+f".repeat(32)), Err(SeedError::Hex));
    assert_eq!(decode_seed(&format!("+f{}", "0".repeat(62))), Err(SeedError::Hex));
    assert_eq!(decode_seed(&"Fe".repeat(32)), Ok([0xFEu8; 32]));
}

#[test]
fn public_keys_in_base64() {
    let key = SigningKey::from_bytes(&[3u8; 32]);
    let expected = ed25519_dalek::SigningKey::from_bytes(&[3u8; 32]).verifying_key().to_bytes();
    assert_eq!(public_key_b64(&key), STANDARD.encode(expected));
}

#[test]
fn pem_round_trip() {
    let der = vec![0u8, 1, 2, 255, 128, 64];
    let pem = pem_encode("CERTIFICATE", &der);
    assert_eq!(pem_decode(&pem, "CERTIFICATE").unwrap(), der);
}

#[test]
fn pem_lines_have_64_characters() {
    let der: Vec<u8> = (0..100).collect();
    let pem = pem_encode("X", &der);
    let lines: Vec<&str> = pem.lines().collect();
    assert_eq!(lines[0], "-----BEGIN X-----");
    assert_eq!(lines[1].len(), 64);
    assert_eq!(lines[2].len(), 64);
    assert_eq!(lines[3], &STANDARD.encode(&der)[128..]);
    assert_eq!(lines[4], "-----END X-----");
    assert_eq!(pem_decode(&pem.replace('\n', "\r\n \u{a0}"), "X").unwrap(), der);
    assert_eq!(pem_encode("X", &[]), "-----BEGIN X-----\n-----END X-----\n");
}

#[test]
fn certificate_and_key_are_kept_in_one_file() {
    let text = identity_file(&[1, 2, 3], &[4, 5]);
    assert_eq!(load_identity_file(&text), Ok((vec![1, 2, 3], vec![4, 5])));
    assert_eq!(load_identity_file("nothing"), Err(TlsFileError::NoCertificate));
    assert_eq!(
        load_identity_file(&pem_encode("CERTIFICATE", &[1])),
        Err(TlsFileError::NoPrivateKey)
    );
    assert_eq!(TlsFileError::NoPrivateKey.message(), "no PRIVATE KEY block");
    assert!(pem_decode("-----BEGIN X-----\n!!!\n-----END X-----", "X").is_none());
}

#[test]
fn certificates_are_kept_where_they_were_made() {
    let (pair, text) = keep_identity(Some((vec![1, 2, 3], vec![4, 5]))).unwrap();
    assert_eq!(pair, (vec![1, 2, 3], vec![4, 5]));
    assert_eq!(text, identity_file(&[1, 2, 3], &[4, 5]));
    assert!(keep_identity(None).is_none());
}

#[test]
fn new_certificates_are_kept() {
    let ((cert, key), text) = create_identity_file().unwrap();
    assert!(cert.len() > 100 && key.len() > 100);
    assert!(cert.windows(13).any(|part| part == b"mumble-bridge"));
    assert!(cert.windows(20).any(|part| part == b"Rumble Mumble Bridge"));
    assert_eq!(load_identity_file(&text), Ok((cert, key)));
}

#[test]
fn fingerprints_with_colons() {
    let plain = "ab".repeat(32);
    let colons = vec!["AB"; 32].join(": ");
    assert_eq!(parse_fingerprint(&plain), Ok([0xAB; 32]));
    assert_eq!(parse_fingerprint(&colons), Ok([0xAB; 32]));
    assert_eq!(parse_fingerprint("abcd"), Err(TrustError::WrongLength));
    assert_eq!(parse_fingerprint("abc"), Err(TrustError::InvalidHex));
    assert_eq!(parse_fingerprint("xy"), Err(TrustError::InvalidHex));
    assert_eq!(
        parse_fingerprint(&format!("+f{}", "0".repeat(62))),
        Err(TrustError::InvalidHex)
    );
    assert_eq!(TrustError::InvalidHex.message(), "invalid hex in fingerprint");
}

#[test]
fn trust_is_exclusive() {
    let path = Some("ca.pem".to_string());
    let print = Some("00".repeat(32));
    assert!(matches!(resolve_tls_trust(&None, &None, false), Ok(RumbleTlsTrust::WebPki)));
    assert!(matches!(resolve_tls_trust(&None, &None, true), Ok(RumbleTlsTrust::Insecure)));
    assert!(matches!(
        resolve_tls_trust(&path, &None, false),
        Ok(RumbleTlsTrust::CertFile(p)) if p == "ca.pem"
    ));
    assert!(matches!(
        resolve_tls_trust(&None, &print, false),
        Ok(RumbleTlsTrust::Fingerprint(f)) if f == [0u8; 32]
    ));
    assert!(matches!(
        resolve_tls_trust(&None, &Some("0".to_string()), false),
        Err(TrustError::InvalidHex)
    ));
    for (cert, fingerprint, insecure) in
        [(&path, &print, false), (&path, &None, true), (&None, &print, true), (&path, &print, true)]
    {
        assert!(matches!(
            resolve_tls_trust(cert, fingerprint, insecure),
            Err(TrustError::Exclusive)
        ));
    }
}

#[test]
fn what_is_checked_of_a_certificate() {
    let config = build_tls_config(&RumbleTlsTrust::WebPki, vec![]);
    assert!(!config.accept_invalid_certs);
    assert!(config.additional_ca_certs.is_empty());
    let config = build_tls_config(&RumbleTlsTrust::CertFile("x".to_string()), vec![1, 2]);
    assert_eq!(config.additional_ca_certs, vec![vec![1u8, 2]]);
    let config = build_tls_config(&RumbleTlsTrust::Fingerprint([9; 32]), vec![]);
    assert_eq!(config.accepted_fingerprints, vec![[9u8; 32]]);
    assert!(build_tls_config(&RumbleTlsTrust::Insecure, vec![]).accept_invalid_certs);
    let defaults = BridgeConfig::default();
    assert_eq!(defaults.mumble_port, 64738);
    assert_eq!(defaults.max_bandwidth, 558000);
}
