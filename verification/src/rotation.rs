//! The key-rotation protocol: re-encrypting a fixed set of secrets under a
//! new master key without ever corrupting one.
//!
//! For each secret the sequence is: decrypt under the old key, encrypt under
//! the new key, decrypt the fresh ciphertext again and compare it with the
//! original plaintext, and only when they match overwrite the persisted
//! ciphertext and record the secret as committed. The ledger is resumable: an
//! interrupted rotation leaves every secret either untouched (still under the
//! old key) or fully committed (verified under the new key), and a resumed
//! rotation works exactly through the uncommitted secrets.
//!
//! The remote calls happen in the surrounding application; the condition
//! that permits an overwrite, the ledger bookkeeping and the store update
//! are all fixed here.

use vstd::prelude::*;
use vstd::pervasive::VecAdditionalExecFns;
use vstd::string::StringExecFns;

use crate::error::{KawsError, KawsErrorKind};
use crate::json::bytes_eq;

verus! {

/// Which master key a persisted ciphertext was produced under during one
/// rotation: the key being retired or its replacement.
#[derive(PartialEq, Eq, Structural, Clone, Copy, Debug)]
pub enum KeyEpoch {
    Old,
    New,
}

/// One persisted secret as the rotation sees it: its current ciphertext and
/// the key epoch that produced it.
pub struct StoredSecret {
    pub ciphertext: Vec<u8>,
    pub epoch: KeyEpoch,
}

/// The resumable ledger of one rotation: which secrets have been committed
/// to the new key. Indices follow the store being rotated.
#[derive(Debug)]
pub struct RotationLedger {
    pub committed: Vec<bool>,
}

/// The states an interrupted rotation may leave behind: every secret is
/// either untouched since the start or committed under the new key — never
/// half-written, and old ciphertext is never gone before its replacement was
/// verified.
pub open spec fn rotation_state_ok(
    initial: Seq<StoredSecret>,
    store: Seq<StoredSecret>,
    committed: Seq<bool>,
) -> bool {
    &&& store.len() == initial.len()
    &&& committed.len() == initial.len()
    &&& forall|i: int|
        0 <= i < store.len() ==> if committed[i] {
            store[i].epoch is New
        } else {
            store[i] == initial[i]
        }
}

impl RotationLedger {
    /// A fresh ledger for `count` secrets, none committed yet.
    pub fn new(count: usize) -> (r: RotationLedger)
        ensures
            r.committed@.len() == count,
            forall|i: int| 0 <= i < count ==> !r.committed@[i],
    {
        let mut committed: Vec<bool> = Vec::new();
        let mut i: usize = 0;
        while i < count
            invariant
                i <= count,
                committed@.len() == i,
                forall|k: int| 0 <= k < i ==> !committed@[k],
            decreases count - i,
        {
            committed.push(false);
            i = i + 1;
        }
        RotationLedger { committed }
    }

    /// Whether a secret has already been migrated to the new key.
    pub fn is_committed(&self, i: usize) -> (r: bool)
        requires
            i < self.committed@.len(),
        ensures
            r == self.committed@[i as int],
    {
        self.committed[i]
    }

    /// The secrets a resumed rotation still has to process: exactly the
    /// uncommitted indices, in ascending order — already-migrated secrets are
    /// never processed again.
    pub fn remaining(&self) -> (r: Vec<usize>)
        ensures
            forall|k: int|
                0 <= k < r@.len() ==> r@[k] < self.committed@.len()
                    && !self.committed@[r@[k] as int],
            forall|i: int|
                0 <= i < self.committed@.len() && !self.committed@[i] ==> exists|k: int|
                    0 <= k < r@.len() && r@[k] == i,
            forall|k: int, l: int| 0 <= k < l < r@.len() ==> r@[k] < r@[l],
    {
        let len: usize = self.committed.len();
        let mut r: Vec<usize> = Vec::new();
        let mut i: usize = 0;
        while i < len
            invariant
                i <= len,
                len == self.committed@.len(),
                forall|k: int|
                    0 <= k < r@.len() ==> r@[k] < i && !self.committed@[r@[k] as int],
                forall|j: int|
                    0 <= j < i && !self.committed@[j] ==> exists|k: int|
                        0 <= k < r@.len() && r@[k] == j,
                forall|k: int, l: int| 0 <= k < l < r@.len() ==> r@[k] < r@[l],
            decreases len - i,
        {
            if !self.committed[i] {
                let ghost pre = r@;
                r.push(i);
                proof {
                    assert(r@[pre.len() as int] == i);
                    assert(forall|k: int| 0 <= k < pre.len() ==> r@[k] == pre[k]);
                    assert forall|j: int| 0 <= j < i + 1 && !self.committed@[j] implies exists|
                        k: int,
                    | 0 <= k < r@.len() && r@[k] == j by {
                        if j < i {
                            let k0 = choose|k0: int| 0 <= k0 < pre.len() && pre[k0] == j;
                            assert(r@[k0] == j);
                        } else {
                            assert(r@[pre.len() as int] == j);
                        }
                    }
                }
            }
            i = i + 1;
        }
        r
    }

    /// The guard of the whole rotation. A secret's persisted ciphertext is
    /// overwritten and the secret recorded as committed exactly when it is
    /// still pending and the plaintext read back from the fresh ciphertext
    /// matches the original plaintext byte for byte; otherwise nothing
    /// changes anywhere.
    pub fn commit_secret(
        &mut self,
        i: usize,
        store: &mut Vec<StoredSecret>,
        new_ciphertext: Vec<u8>,
        original_plaintext: &[u8],
        roundtrip_plaintext: &[u8],
    ) -> (r: bool)
        requires
            old(self).committed@.len() == old(store)@.len(),
            i < old(store)@.len(),
        ensures
            r == (original_plaintext@ == roundtrip_plaintext@ && !old(self).committed@[i as int]),
            final(self).committed@.len() == old(self).committed@.len(),
            final(store)@.len() == old(store)@.len(),
            r ==> {
                &&& final(self).committed@ == old(self).committed@.update(i as int, true)
                &&& final(store)@[i as int].ciphertext@ == new_ciphertext@
                &&& final(store)@[i as int].epoch is New
                &&& forall|j: int|
                    0 <= j < old(store)@.len() && j != i ==> final(store)@[j] == old(store)@[j]
            },
            !r ==> final(self).committed@ == old(self).committed@ && final(store)@ == old(
                store,
            )@,
    {
        if self.committed[i] {
            return false;
        }
        if !bytes_eq(original_plaintext, roundtrip_plaintext) {
            return false;
        }
        self.committed.set(i, true);
        store.set(i, StoredSecret { ciphertext: new_ciphertext, epoch: KeyEpoch::New });
        true
    }

    /// The persisted form of the ledger, written after every commit so that
    /// a crash can resume: one byte per secret, `1` for committed, `0` for
    /// pending.
    pub fn serialize(&self) -> (r: Vec<u8>)
        ensures
            r@ == ledger_bytes(self.committed@),
    {
        let len: usize = self.committed.len();
        let mut r: Vec<u8> = Vec::new();
        let mut i: usize = 0;
        while i < len
            invariant
                i <= len,
                len == self.committed@.len(),
                r@ =~= ledger_bytes(self.committed@.take(i as int)),
            decreases len - i,
        {
            if self.committed[i] {
                r.push(49);
            } else {
                r.push(48);
            }
            proof {
                assert(r@ =~= ledger_bytes(self.committed@.take(i + 1)));
            }
            i = i + 1;
        }
        proof {
            assert(self.committed@.take(len as int) =~= self.committed@);
        }
        r
    }

    /// Reads a persisted ledger back: exactly the sequences of `0` and `1`
    /// bytes are accepted, and the recorded commitments come back unchanged.
    pub fn deserialize(bytes: &[u8]) -> (r: Result<RotationLedger, KawsError>)
        ensures
            match r {
                Ok(ledger) => ledger_bytes(ledger.committed@) == bytes@,
                Err(e) => {
                    &&& exists|i: int| 0 <= i < bytes@.len() && bytes@[i] != 48 && bytes@[i] != 49
                    &&& e.kind == KawsErrorKind::Parse
                },
            },
    {
        let len: usize = bytes.len();
        let mut committed: Vec<bool> = Vec::new();
        let mut i: usize = 0;
        while i < len
            invariant
                i <= len,
                len == bytes@.len(),
                committed@.len() == i,
                ledger_bytes(committed@) =~= bytes@.take(i as int),
            decreases len - i,
        {
            if bytes[i] == 49 {
                committed.push(true);
            } else if bytes[i] == 48 {
                committed.push(false);
            } else {
                return Err(
                    KawsError::parse(String::from_str("malformed rotation ledger")),
                );
            }
            proof {
                assert(ledger_bytes(committed@) =~= bytes@.take(i + 1));
            }
            i = i + 1;
        }
        proof {
            assert(bytes@.take(len as int) =~= bytes@);
        }
        Ok(RotationLedger { committed })
    }
}

/// The persisted ledger bytes: `1` where a secret is committed, `0` where it
/// is pending.
pub open spec fn ledger_bytes(committed: Seq<bool>) -> Seq<u8> {
    Seq::new(
        committed.len(),
        |i: int|
            if committed[i] {
                49u8
            } else {
                48u8
            },
    )
}

/// One committed step keeps the rotation in a safe state: starting from a
/// store where every secret is untouched or committed, overwriting one
/// pending secret with verified new ciphertext and recording it leaves every
/// secret untouched or committed still.
pub proof fn lemma_commit_keeps_rotation_state(
    initial: Seq<StoredSecret>,
    store: Seq<StoredSecret>,
    committed: Seq<bool>,
    i: int,
    entry: StoredSecret,
)
    requires
        rotation_state_ok(initial, store, committed),
        0 <= i < store.len(),
        entry.epoch is New,
    ensures
        rotation_state_ok(initial, store.update(i, entry), committed.update(i, true)),
{
}

/// A rotation that never committed anything has corrupted nothing: with no secret
/// committed, every secret still holds its initial ciphertext under the old
/// key.
pub proof fn lemma_untouched_rotation(initial: Seq<StoredSecret>, committed: Seq<bool>)
    requires
        committed.len() == initial.len(),
        forall|i: int| 0 <= i < committed.len() ==> !committed[i],
    ensures
        rotation_state_ok(initial, initial, committed),
{
}

} // verus!
