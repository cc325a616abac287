use mcp_ssh_manager::secret::{decrypt, encrypt, CryptoError, MasterKey};
use mcp_ssh_manager::vault::{
    changed_rows, migrate_credentials, reencrypt_credentials, KeyRotation, RotationAction,
    RotationError, RotationPhase,
};

fn key(b: u8) -> MasterKey {
    MasterKey { bytes: [b; 32] }
}

#[test]
fn migration_encrypts_legacy_plaintext_only() {
    let k = key(5);
    let already = encrypt(&k, "kept").unwrap();
    let rows = vec![(1, "legacy".to_string()), (2, already.clone())];
    let after = migrate_credentials(&k, &rows).unwrap();
    assert_eq!(after.len(), 2);
    assert_eq!(after[0].0, 1);
    assert_eq!(decrypt(&k, &after[0].1).unwrap(), "legacy");
    assert_eq!(after[1], (2, already));
    let changed = changed_rows(&rows, &after);
    assert_eq!(changed.len(), 1);
    assert_eq!(changed[0].0, 1);
}

#[test]
fn migration_is_idempotent() {
    let k = key(6);
    let rows = vec![(1, "a".to_string()), (2, "b".to_string()), (3, encrypt(&k, "c").unwrap())];
    let once = migrate_credentials(&k, &rows).unwrap();
    let twice = migrate_credentials(&k, &once).unwrap();
    assert_eq!(once, twice);
    assert!(changed_rows(&once, &twice).is_empty());
}

#[test]
fn migration_of_empty_store() {
    assert!(migrate_credentials(&key(1), &Vec::new()).unwrap().is_empty());
}

#[test]
fn foreign_ciphertext_is_taken_for_plaintext() {
    let foreign = encrypt(&key(1), "other").unwrap();
    let k = key(2);
    let after = migrate_credentials(&k, &vec![(9, foreign.clone())]).unwrap();
    assert_eq!(decrypt(&k, &after[0].1).unwrap(), foreign);
}

#[test]
fn rotation_carries_every_plaintext() {
    let old = key(1);
    let new = key(2);
    let rows = vec![(1, encrypt(&old, "pw-one").unwrap()), (7, encrypt(&old, "pw-seven").unwrap())];
    let after = reencrypt_credentials(&old, &new, &rows).unwrap();
    assert_eq!(after.len(), 2);
    assert_eq!(after[0].0, 1);
    assert_eq!(after[1].0, 7);
    assert_eq!(decrypt(&new, &after[0].1).unwrap(), "pw-one");
    assert_eq!(decrypt(&new, &after[1].1).unwrap(), "pw-seven");
    assert_eq!(decrypt(&old, &after[0].1), Err(CryptoError::Rejected));
}

#[test]
fn rotation_stops_at_first_undecryptable_row() {
    let old = key(1);
    let rows = vec![
        (1, encrypt(&old, "ok").unwrap()),
        (2, "plain".to_string()),
        (3, encrypt(&key(4), "foreign").unwrap()),
    ];
    let e = reencrypt_credentials(&old, &key(2), &rows).unwrap_err();
    assert_eq!(e, RotationError { account_id: 2, cause: CryptoError::NotCiphertext });
    let e = reencrypt_credentials(&old, &key(2), &rows[2..].to_vec()).unwrap_err();
    assert_eq!(e, RotationError { account_id: 3, cause: CryptoError::Rejected });
}

#[test]
fn failed_commit_abandons_rotation() {
    let mut r = KeyRotation::begin(key(1), key(2));
    assert_eq!(r.phase, RotationPhase::Staged);
    assert!(matches!(r.on_commit(false), RotationAction::Abandon));
    assert_eq!(r.phase, RotationPhase::Aborted);
    assert_eq!(r.old_key.bytes, [1; 32]);
}

#[test]
fn successful_rotation_stores_then_swaps() {
    let mut r = KeyRotation::begin(key(1), key(0x2f));
    match r.on_commit(true) {
        RotationAction::StoreKey(h) => assert_eq!(h, "2f".repeat(32)),
        _ => panic!("expected the new key to be stored"),
    }
    assert_eq!(r.phase, RotationPhase::Committed);
    assert!(matches!(r.on_store(true), RotationAction::SwapKey));
    assert_eq!(r.phase, RotationPhase::Finished);
}

#[test]
fn failed_store_reports_new_key() {
    let mut r = KeyRotation::begin(key(1), key(0x0c));
    let _ = r.on_commit(true);
    match r.on_store(false) {
        RotationAction::ReportKey(h) => assert_eq!(h, "0c".repeat(32)),
        _ => panic!("expected the new key to be reported"),
    }
    assert_eq!(r.phase, RotationPhase::Stranded);
}
