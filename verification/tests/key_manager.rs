use argon2::Argon2;
use chacha20poly1305::aead::{Aead, KeyInit};
use ed25519_dalek::{Signature, Verifier, VerifyingKey};
use rand::rngs::OsRng;
use rumble_tools::key_manager::{
    check_signature, compute_fingerprint, decrypt_key, encrypt_key, encrypt_key_with, find_identity,
    generate_agent_key, get_agent_path, list_ed25519_keys, parse_agent_binding, AgentBinding,
    AgentIdentity, KeyConfig, KeyError, KeyInfo, KeyManager, KeySource,
};
use rumble_tools::signing::{parse_signing_key, SigningKey};
use sha2::{Digest, Sha256};

#[test]
fn test_compute_fingerprint() {
    let key = [0u8; 32];
    let fp = compute_fingerprint(&key);
    assert!(fp.starts_with("SHA256:"));
}

#[test]
fn fingerprint_is_half_a_hash() {
    let key = [7u8; 32];
    let hash = Sha256::digest(key);
    let pairs: Vec<String> = hash.iter().take(16).map(|b| format!("{:02x}", b)).collect();
    assert_eq!(compute_fingerprint(&key), format!("SHA256:{}", pairs.join(":")));
    let info = KeyInfo::from_public_key(key, "laptop".to_string());
    assert_eq!(info.fingerprint, compute_fingerprint(&key));
    assert_eq!(info.comment, "laptop");
}

#[test]
fn test_encrypt_decrypt_roundtrip() {
    let key = [42u8; 32];
    let password = "test_password";

    let (encrypted, salt, nonce) = encrypt_key(&key, password).unwrap();
    let decrypted = decrypt_key(&encrypted, &salt, &nonce, password).unwrap();

    assert_eq!(key, decrypted);
}

#[test]
fn test_decrypt_wrong_password() {
    let key = [42u8; 32];
    let password = "correct_password";
    let wrong_password = "wrong_password";

    let (encrypted, salt, nonce) = encrypt_key(&key, password).unwrap();
    let result = decrypt_key(&encrypted, &salt, &nonce, wrong_password);

    assert!(result.is_err());
    assert_eq!(result.unwrap_err(), KeyError::Decryption);
}

#[test]
fn test_parse_signing_key() {
    let key = ed25519_dalek::SigningKey::generate(&mut OsRng);
    let hex = hex::encode(key.to_bytes());

    let parsed = parse_signing_key(&hex).unwrap();
    assert_eq!(key.to_bytes(), parsed.to_bytes());
}

#[test]
fn encryption_is_argon2_and_chacha() {
    let key = [9u8; 32];
    let nonce = [5u8; 12];
    let text = encrypt_key_with(&key, "pw", "some-long-salt", &nonce).unwrap();
    let mut derived = [0u8; 32];
    Argon2::default().hash_password_into(b"pw", b"some-long-salt", &mut derived).unwrap();
    let cipher = chacha20poly1305::ChaCha20Poly1305::new_from_slice(&derived).unwrap();
    let expected = cipher
        .encrypt(chacha20poly1305::Nonce::from_slice(&nonce), key.as_slice())
        .unwrap();
    assert_eq!(text, hex::encode(expected));
}

#[test]
fn every_way_to_fail_to_decrypt() {
    let key = [42u8; 32];
    let (encrypted, salt, nonce) = encrypt_key(&key, "pw").unwrap();
    assert_eq!(decrypt_key("xyz", &salt, &nonce, "pw"), Err(KeyError::InvalidHex));
    assert_eq!(decrypt_key(&encrypted, &salt, "zz", "pw"), Err(KeyError::InvalidHex));
    assert_eq!(decrypt_key(&encrypted, &salt, "00", "pw"), Err(KeyError::InvalidNonce));
    assert_eq!(decrypt_key(&encrypted, "short", &nonce, "pw"), Err(KeyError::KeyDerivation));
    let mut derived = [0u8; 32];
    Argon2::default().hash_password_into(b"pw", b"some-long-salt", &mut derived).unwrap();
    let cipher = chacha20poly1305::ChaCha20Poly1305::new_from_slice(&derived).unwrap();
    let sealed = cipher
        .encrypt(chacha20poly1305::Nonce::from_slice(&[1u8; 12]), b"too short".as_slice())
        .unwrap();
    assert_eq!(
        decrypt_key(&hex::encode(sealed), "some-long-salt", &hex::encode([1u8; 12]), "pw"),
        Err(KeyError::InvalidKeyLength)
    );
    assert_eq!(encrypt_key_with(&key, "pw", "short", &[0u8; 12]), Err(KeyError::KeyDerivation));
    assert_eq!(KeyError::Encryption.message(), "Encryption failed");
    assert_eq!(KeyError::Decryption.message(), "Decryption failed - wrong password?");
}

#[test]
fn plaintext_key_survives_a_restart() {
    let mut manager = KeyManager::new(None);
    assert!(manager.needs_setup());
    assert!(manager.create_signer().is_none());
    let info = manager.generate_local_key(None).unwrap();
    assert_eq!(info.comment, "Rumble Identity");
    let key = manager.signing_key().unwrap();
    let restarted = KeyManager::new(manager.config().cloned());
    assert!(!restarted.needs_setup());
    assert!(!restarted.needs_unlock());
    assert_eq!(restarted.signing_key().unwrap().to_bytes(), key.to_bytes());
    assert_eq!(restarted.public_key_bytes(), Some(info.public_key));
    let signature = restarted.create_signer().unwrap().sign_locally(b"payload").unwrap();
    VerifyingKey::from_bytes(&info.public_key)
        .unwrap()
        .verify(b"payload", &Signature::from_bytes(&signature))
        .unwrap();
}

#[test]
fn password_brings_the_key_back() {
    let mut manager = KeyManager::new(None);
    manager.generate_local_key(Some("secret")).unwrap();
    let key = manager.signing_key().unwrap();
    assert!(manager.create_signer().is_some());
    let mut restarted = KeyManager::new(manager.config().cloned());
    assert!(restarted.needs_unlock());
    assert!(restarted.create_signer().is_none());
    assert_eq!(restarted.unlock_local_key("guess"), Err(KeyError::Decryption));
    assert!(restarted.needs_unlock());
    assert_eq!(restarted.unlock_local_key("secret"), Ok(()));
    assert_eq!(restarted.signing_key().unwrap().to_bytes(), key.to_bytes());
    assert!(!restarted.needs_unlock());
}

#[test]
fn only_keys_under_a_password_are_unlocked() {
    let mut manager = KeyManager::new(None);
    assert_eq!(manager.unlock_local_key("x"), Err(KeyError::NotConfigured));
    manager.generate_local_key(Some("")).unwrap();
    assert!(matches!(manager.config().unwrap().source, KeySource::LocalPlaintext { .. }));
    assert_eq!(manager.unlock_local_key("x"), Err(KeyError::NotEncrypted));
    manager.set_config(
        KeyConfig {
            source: KeySource::LocalPlaintext { private_key_hex: "00".to_string() },
            public_key_hex: "00".to_string(),
        },
        None,
    );
    assert!(manager.public_key_bytes().is_none());
    assert!(manager.create_signer().is_none());
}

#[test]
fn keys_of_the_agent() {
    let identities = vec![
        AgentIdentity { ed25519: None, comment: "rsa".to_string() },
        AgentIdentity { ed25519: Some([1u8; 32]), comment: "one".to_string() },
        AgentIdentity { ed25519: Some([2u8; 32]), comment: "two".to_string() },
    ];
    let keys = list_ed25519_keys(&identities);
    let comments: Vec<&str> = keys.iter().map(|k| k.comment.as_str()).collect();
    assert_eq!(comments, vec!["one", "two"]);
    assert_eq!(find_identity(&identities, &keys[1].fingerprint), Ok(2));
    assert_eq!(
        find_identity(&identities, "SHA256:00").unwrap_err(),
        "Key with fingerprint SHA256:00 not found in agent"
    );
    let mut manager = KeyManager::new(None);
    manager.select_agent_key(&keys[1]);
    assert!(manager.signing_key().is_none());
    assert_eq!(manager.public_key_hex(), Some(hex::encode([2u8; 32])));
    assert!(manager.create_signer().unwrap().sign_locally(b"x").is_none());
}

#[test]
fn signatures_of_the_agent_are_checked() {
    assert_eq!(check_signature(&vec![3u8; 64]).unwrap(), [3u8; 64]);
    assert_eq!(
        check_signature(&vec![3u8; 63]).unwrap_err(),
        "Invalid signature format: expected 64 bytes for Ed25519, got 63"
    );
}

#[test]
fn where_the_agent_listens() {
    assert_eq!(get_agent_path(Some("/run/agent".to_string()), false).unwrap(), "/run/agent");
    assert_eq!(get_agent_path(None, true).unwrap(), r"\\.\pipe\openssh-ssh-agent");
    assert_eq!(
        get_agent_path(None, false).unwrap_err(),
        "SSH_AUTH_SOCK not set - is ssh-agent running?"
    );
    assert!(matches!(parse_agent_binding(r"\\.\pipe\a", true), Ok(AgentBinding::NamedPipe(_))));
    assert!(matches!(parse_agent_binding("npipe://a", false), Ok(AgentBinding::Url(_))));
    assert!(matches!(parse_agent_binding("/run/agent", true), Ok(AgentBinding::Socket(_))));
    assert_eq!(
        parse_agent_binding("/run/agent", false).unwrap_err(),
        "Unix socket paths not supported on Windows: /run/agent"
    );
}

#[test]
fn new_keys_for_the_agent() {
    let (key, info) = generate_agent_key("rumble-identity".to_string());
    assert_eq!(key.public_key(), info.public_key);
    assert_eq!(info.comment, "rumble-identity");
    let (other, _) = generate_agent_key("x".to_string());
    assert_ne!(key.to_bytes(), other.to_bytes());
}

#[test]
fn imported_keys_are_stored_in_plain_text() {
    let key = SigningKey::from_bytes(&[8u8; 32]);
    let mut manager = KeyManager::new(None);
    manager.import_signing_key(key);
    assert!(matches!(
        &manager.config().unwrap().source,
        KeySource::LocalPlaintext { private_key_hex } if *private_key_hex == hex::encode([8u8; 32])
    ));
    assert_eq!(manager.public_key_hex(), Some(hex::encode(key.public_key())));
}
