//! Key rotation with a mocked remote service: interruption, resumption, and
//! the verification guard.

use kaws::rotation::{KeyEpoch, RotationLedger, StoredSecret};

fn old_key(data: &[u8]) -> Vec<u8> {
    data.iter().map(|b| b ^ 0x11).collect()
}

fn new_key(data: &[u8]) -> Vec<u8> {
    data.iter().map(|b| b ^ 0x77).collect()
}

fn decryptable(secret: &StoredSecret) -> Vec<u8> {
    match secret.epoch {
        KeyEpoch::Old => old_key(&secret.ciphertext),
        KeyEpoch::New => new_key(&secret.ciphertext),
    }
}

#[test]
fn interrupted_rotation_leaves_every_secret_decryptable() {
    let plaintexts: Vec<Vec<u8>> = vec![
        b"etcd ca key".to_vec(),
        b"etcd peer ca key".to_vec(),
        b"kubernetes ca key".to_vec(),
        b"master key".to_vec(),
        b"node key".to_vec(),
    ];
    let mut store: Vec<StoredSecret> = plaintexts
        .iter()
        .map(|p| StoredSecret { ciphertext: old_key(p), epoch: KeyEpoch::Old })
        .collect();
    let mut ledger = RotationLedger::new(store.len());

    // Migrate the first two secrets, then stop: an interruption.
    for i in 0..2usize {
        let plaintext = decryptable(&store[i]);
        let fresh = new_key(&plaintext);
        let roundtrip = new_key(&fresh);
        let committed = ledger.commit_secret(i, &mut store, fresh, &plaintext, &roundtrip);
        assert!(committed);
    }

    // Every secret is still decryptable, under one key or the other.
    for (i, secret) in store.iter().enumerate() {
        assert_eq!(decryptable(secret), plaintexts[i]);
    }
    assert_eq!(store[0].epoch, KeyEpoch::New);
    assert_eq!(store[1].epoch, KeyEpoch::New);
    assert_eq!(store[2].epoch, KeyEpoch::Old);

    // A resumed rotation processes exactly the pending secrets.
    assert_eq!(ledger.remaining(), vec![2usize, 3, 4]);
    for i in ledger.remaining() {
        let plaintext = decryptable(&store[i]);
        let fresh = new_key(&plaintext);
        let roundtrip = new_key(&fresh);
        assert!(ledger.commit_secret(i, &mut store, fresh, &plaintext, &roundtrip));
    }
    assert!(ledger.remaining().is_empty());
    for (i, secret) in store.iter().enumerate() {
        assert_eq!(secret.epoch, KeyEpoch::New);
        assert_eq!(decryptable(secret), plaintexts[i]);
    }
}

#[test]
fn failed_verification_changes_nothing() {
    let plaintext = b"the secret".to_vec();
    let mut store = vec![StoredSecret { ciphertext: old_key(&plaintext), epoch: KeyEpoch::Old }];
    let mut ledger = RotationLedger::new(1);
    let fresh = new_key(&plaintext);
    let corrupted_roundtrip = b"the secreX".to_vec();
    let committed = ledger.commit_secret(0, &mut store, fresh, &plaintext, &corrupted_roundtrip);
    assert!(!committed);
    assert_eq!(store[0].epoch, KeyEpoch::Old);
    assert_eq!(store[0].ciphertext, old_key(&plaintext));
    assert_eq!(ledger.remaining(), vec![0usize]);
}

#[test]
fn committed_secrets_are_never_reprocessed() {
    let plaintext = b"once only".to_vec();
    let mut store = vec![StoredSecret { ciphertext: old_key(&plaintext), epoch: KeyEpoch::Old }];
    let mut ledger = RotationLedger::new(1);
    let fresh = new_key(&plaintext);
    assert!(ledger.commit_secret(0, &mut store, fresh.clone(), &plaintext, &plaintext));
    assert!(ledger.is_committed(0));
    let first_result = store[0].ciphertext.clone();
    // A second attempt at the same index is refused and changes nothing.
    assert!(!ledger.commit_secret(0, &mut store, b"other".to_vec(), &plaintext, &plaintext));
    assert_eq!(store[0].ciphertext, first_result);
    assert!(ledger.remaining().is_empty());
}

#[test]
fn ledger_survives_a_round_trip_through_its_persisted_form() {
    let mut store = vec![
        StoredSecret { ciphertext: old_key(b"one"), epoch: KeyEpoch::Old },
        StoredSecret { ciphertext: old_key(b"two"), epoch: KeyEpoch::Old },
        StoredSecret { ciphertext: old_key(b"three"), epoch: KeyEpoch::Old },
    ];
    let mut ledger = RotationLedger::new(3);
    let plaintext = b"two".to_vec();
    let fresh = new_key(&plaintext);
    assert!(ledger.commit_secret(1, &mut store, fresh, &plaintext, &plaintext));
    let bytes = ledger.serialize();
    assert_eq!(bytes, b"010".to_vec());
    let reloaded = RotationLedger::deserialize(&bytes).unwrap();
    assert_eq!(reloaded.committed, vec![false, true, false]);
    assert_eq!(reloaded.remaining(), vec![0usize, 2]);
}

#[test]
fn malformed_ledgers_are_rejected() {
    assert!(RotationLedger::deserialize(b"01X").is_err());
    assert_eq!(
        RotationLedger::deserialize(b"01X").unwrap_err().kind,
        kaws::error::KawsErrorKind::Parse
    );
    assert!(RotationLedger::deserialize(b"").unwrap().committed.is_empty());
}
