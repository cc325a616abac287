use mcp_ssh_manager::model::{mask_accounts, Account};
use mcp_ssh_manager::secret::{
    decrypt, encrypt, generate_master_key, seal_with_nonce, CryptoError, MasterKey,
};
use mcp_ssh_manager::vault::seal_account;

fn key(b: u8) -> MasterKey {
    MasterKey { bytes: [b; 32] }
}

#[test]
fn round_trip() {
    let k = key(7);
    for p in ["", "hunter2", "pässwörd ✓", "/home/me/.ssh/id_ed25519"] {
        let c = encrypt(&k, p).unwrap();
        assert_ne!(c, p);
        assert_eq!(decrypt(&k, &c).unwrap(), p);
    }
}

#[test]
fn ciphertext_is_hex_with_nonce_and_tag() {
    let c = encrypt(&key(1), "abc").unwrap();
    assert_eq!(c.len(), 2 * (12 + 3 + 16));
    assert!(c.chars().all(|ch| ch.is_ascii_hexdigit() && !ch.is_ascii_uppercase()));
}

#[test]
fn fresh_nonce_each_time() {
    let k = key(3);
    let a = encrypt(&k, "same").unwrap();
    let b = encrypt(&k, "same").unwrap();
    assert_ne!(a, b);
    assert_eq!(decrypt(&k, &a).unwrap(), decrypt(&k, &b).unwrap());
}

#[test]
fn wrong_key_is_rejected() {
    let c = encrypt(&key(1), "secret").unwrap();
    assert_eq!(decrypt(&key(2), &c), Err(CryptoError::Rejected));
}

#[test]
fn corrupted_ciphertext_is_rejected() {
    let k = key(1);
    let mut c = encrypt(&k, "secret").unwrap();
    let last = c.pop().unwrap();
    c.push(if last == '0' { '1' } else { '0' });
    assert_eq!(decrypt(&k, &c), Err(CryptoError::Rejected));
}

#[test]
fn plaintext_is_not_ciphertext() {
    let k = key(1);
    assert_eq!(decrypt(&k, "hunter2"), Err(CryptoError::NotCiphertext));
    assert_eq!(decrypt(&k, "abc"), Err(CryptoError::NotCiphertext));
    assert_eq!(decrypt(&k, "00ff"), Err(CryptoError::NotCiphertext));
    assert_eq!(decrypt(&k, ""), Err(CryptoError::NotCiphertext));
}

#[test]
fn key_hex_round_trip() {
    let k = generate_master_key();
    let h = k.to_hex();
    assert_eq!(h.len(), 64);
    let back = MasterKey::from_hex(&h).unwrap();
    assert_eq!(back.bytes, k.bytes);
    assert_eq!(key(0xab).to_hex(), "ab".repeat(32));
    assert!(MasterKey::from_hex("abcd").is_none());
    assert!(MasterKey::from_hex(&"zz".repeat(32)).is_none());
    assert_eq!(MasterKey::from_hex(&"AB".repeat(32)).unwrap().bytes, [0xab; 32]);
}

#[test]
fn generated_keys_differ() {
    assert_ne!(generate_master_key().bytes, generate_master_key().bytes);
}

#[test]
fn listing_masks_credentials() {
    let k = key(9);
    let plain = Account {
        id: Some(4),
        machine_id: 2,
        username: "root".to_string(),
        auth_type: "password".to_string(),
        credential: "hunter2".to_string(),
    };
    let stored = seal_account(&k, &plain).unwrap();
    assert_eq!(decrypt(&k, &stored.credential).unwrap(), "hunter2");
    assert_eq!(stored.username, "root");
    let listed = mask_accounts(&vec![stored.clone(), plain.clone()]);
    assert_eq!(listed.len(), 2);
    for a in &listed {
        assert_eq!(a.credential, "[ENCRYPTED/RESTRICTED]");
        assert_ne!(a.credential, plain.credential);
        assert_ne!(a.credential, stored.credential);
    }
    assert_eq!(listed[0].id, Some(4));
    assert_eq!(listed[0].machine_id, 2);
    assert_eq!(listed[1].auth_type, "password");
}

#[test]
fn sealing_with_a_given_nonce() {
    let k = key(11);
    let nonce = vec![0u8; 12];
    let a = seal_with_nonce(&k, &nonce, "hunter2").unwrap();
    let b = seal_with_nonce(&k, &nonce, "hunter2").unwrap();
    assert_eq!(a, b);
    assert!(a.starts_with(&"00".repeat(12)));
    assert_eq!(a.len(), 2 * (12 + 7 + 16));
    assert_ne!(a, "hunter2");
    assert_eq!(decrypt(&k, &a).unwrap(), "hunter2");
    let other = seal_with_nonce(&k, &vec![1u8; 12], "hunter2").unwrap();
    assert_ne!(a, other);
    assert_eq!(decrypt(&key(12), &a), Err(CryptoError::Rejected));
}

#[test]
fn stored_text_never_equals_plaintext() {
    let k = key(13);
    for p in ["", "00", "0123456789abcdef0123456789abcdef0123456789abcdef0123456789ab"] {
        let c = encrypt(&k, p).unwrap();
        assert_ne!(c, p);
        assert_eq!(c.len(), 2 * (12 + p.len() + 16));
    }
}
