//! Envelope encryption of key material through a remote key-management
//! service, and the registry that guarantees plaintext cleanup.
//!
//! The remote `Encrypt` and `Decrypt` calls and all file traffic happen in
//! the surrounding application; this module fixes everything around them:
//! what goes into a request, what the persisted artifact holds (the base64
//! encoding of the returned ciphertext, nothing else), how each possible
//! outcome of a remote call is judged, and which paths must be deleted when
//! the `Encryptor`'s scope ends. A deletion failure other than "already
//! absent" is fatal: leaving key material exposed is strictly worse than
//! stopping.

use vstd::prelude::*;
use vstd::string::StringExecFns;

use crate::base64::{b64_decode, b64_encode, base64_decode, base64_encode};
use crate::error::{KawsError, KawsErrorKind};

verus! {

/// A remote `Encrypt` request: the plaintext to wrap and the master key that
/// wraps it. No encryption context and no grant tokens are used.
pub struct EncryptRequest {
    pub plaintext: Vec<u8>,
    pub key_id: String,
}

/// A remote `Decrypt` request: the ciphertext blob alone; the service
/// recognizes the wrapping key itself. No encryption context and no grant
/// tokens are used.
pub struct DecryptRequest {
    pub ciphertext_blob: Vec<u8>,
}

/// What one remote call came back with: an answer (whose payload the service
/// may leave empty), or a service failure with the text shown to the
/// operator.
pub enum RemoteCallOutcome {
    Returned(Option<Vec<u8>>),
    ServiceError(String),
}

/// What one attempt to remove a plaintext file came to. A path that was
/// already absent counts as removed; any other failure carries its text.
pub enum RemovalOutcome {
    Removed,
    AlreadyAbsent,
    Failed(String),
}

/// The judgment on a finished cleanup: `Fatal` means plaintext may still be
/// on disk and the process must stop.
#[derive(PartialEq, Eq, Structural, Clone, Copy, Debug)]
pub enum CleanupVerdict {
    Clean,
    Fatal,
}

/// Wraps key bytes through the remote service and tracks every plaintext
/// file produced on the way, so that the owning scope can delete them all
/// when it ends.
pub struct Encryptor {
    pub kms_master_key_id: Option<String>,
    pub decrypted_files: Vec<String>,
}

impl Encryptor {
    /// A fresh encryptor: the master key id is required to encrypt and may
    /// be absent for decrypt-only use; no plaintext files exist yet.
    pub fn new(kms_master_key_id: Option<String>) -> (r: Encryptor)
        ensures
            r.kms_master_key_id == kms_master_key_id,
            r.decrypted_files@ =~= Seq::<String>::empty(),
    {
        Encryptor { kms_master_key_id, decrypted_files: Vec::new() }
    }

    /// The remote request that wraps `plaintext` under this encryptor's
    /// master key. Encrypting without a master key is a caller error, ruled
    /// out here rather than discovered remotely.
    pub fn encrypt_request(&self, plaintext: Vec<u8>) -> (r: EncryptRequest)
        requires
            self.kms_master_key_id is Some,
        ensures
            r.plaintext@ == plaintext@,
            r.key_id@ == self.kms_master_key_id.unwrap()@,
    {
        let key_id = match &self.kms_master_key_id {
            Some(k) => k.clone(),
            None => unreached(),
        };
        EncryptRequest { plaintext, key_id }
    }

    /// Records one plaintext file that now exists on disk and must be
    /// deleted when this encryptor's scope ends.
    pub fn register_decrypted_file(&mut self, path: String)
        ensures
            final(self).kms_master_key_id == old(self).kms_master_key_id,
            final(self).decrypted_files@ == old(self).decrypted_files@.push(path),
    {
        self.decrypted_files.push(path);
    }
}

/// What the persisted artifact must hold after a successful `Encrypt` call
/// that returned `blob`: exactly the base64 encoding of the blob.
pub open spec fn envelope_contents(blob: Seq<u8>) -> Seq<u8> {
    b64_encode(blob)
}

/// Judges the remote answer to an `Encrypt` call and produces the bytes to
/// persist: the base64 encoding of the returned ciphertext. An answer
/// without ciphertext and a service failure are errors, each with its own
/// kind.
pub fn encrypted_file_contents(outcome: RemoteCallOutcome) -> (r: Result<Vec<u8>, KawsError>)
    ensures
        match outcome {
            RemoteCallOutcome::Returned(Some(blob)) => r matches Ok(c) && c@ == envelope_contents(
                blob@,
            ),
            RemoteCallOutcome::Returned(None) => r matches Err(e) && e.kind
                == KawsErrorKind::General && e.message@
                == "No ciphertext was returned from KMS"@,
            RemoteCallOutcome::ServiceError(m) => r matches Err(e) && e.kind
                == KawsErrorKind::RemoteService && e.message@ == m@,
        },
{
    match outcome {
        RemoteCallOutcome::Returned(Some(blob)) => Ok(base64_encode(blob.as_slice())),
        RemoteCallOutcome::Returned(None) => Err(
            KawsError::new(String::from_str("No ciphertext was returned from KMS")),
        ),
        RemoteCallOutcome::ServiceError(m) => Err(KawsError::remote_service(m)),
    }
}

/// Decodes a persisted artifact back into the ciphertext blob for a remote
/// `Decrypt` call. Exactly the canonical base64 artifacts are accepted.
pub fn decode_encrypted_file(contents: &[u8]) -> (r: Result<Vec<u8>, KawsError>)
    ensures
        match r {
            Ok(blob) => b64_decode(contents@) == Some(blob@),
            Err(e) => b64_decode(contents@) is None && e.kind == KawsErrorKind::Parse,
        },
{
    base64_decode(contents)
}

/// Judges the remote answer to a `Decrypt` call: the plaintext to write. An
/// answer without plaintext and a service failure are errors, each with its
/// own kind.
pub fn decrypted_plaintext(outcome: RemoteCallOutcome) -> (r: Result<Vec<u8>, KawsError>)
    ensures
        match outcome {
            RemoteCallOutcome::Returned(Some(p)) => r matches Ok(c) && c@ == p@,
            RemoteCallOutcome::Returned(None) => r matches Err(e) && e.kind
                == KawsErrorKind::General && e.message@ == "No plaintext was returned from KMS"@,
            RemoteCallOutcome::ServiceError(m) => r matches Err(e) && e.kind
                == KawsErrorKind::RemoteService && e.message@ == m@,
        },
{
    match outcome {
        RemoteCallOutcome::Returned(Some(p)) => Ok(p),
        RemoteCallOutcome::Returned(None) => Err(
            KawsError::new(String::from_str("No plaintext was returned from KMS")),
        ),
        RemoteCallOutcome::ServiceError(m) => Err(KawsError::remote_service(m)),
    }
}

/// Whether some removal in the cleanup failed outright.
pub open spec fn any_removal_failed(outcomes: Seq<RemovalOutcome>) -> bool {
    exists|i: int| 0 <= i < outcomes.len() && outcomes[i] is Failed
}

/// Judges a finished cleanup, one outcome per registered path: clean when
/// every path was removed or already absent, fatal as soon as any removal
/// failed for another reason.
pub fn cleanup_verdict(outcomes: &Vec<RemovalOutcome>) -> (r: CleanupVerdict)
    ensures
        (r == CleanupVerdict::Fatal) <==> any_removal_failed(outcomes@),
{
    let len: usize = outcomes.len();
    let mut i: usize = 0;
    while i < len
        invariant
            i <= len,
            len == outcomes@.len(),
            forall|k: int| 0 <= k < i ==> !(outcomes@[k] is Failed),
        decreases len - i,
    {
        if let RemovalOutcome::Failed(_) = &outcomes[i] {
            return CleanupVerdict::Fatal;
        }
        i = i + 1;
    }
    CleanupVerdict::Clean
}

/// The round trip behind every artifact: what `decrypt_file_to_file` reads
/// back from a file that `encrypt_and_write_file` persisted is the very
/// ciphertext blob the service returned, and the artifact itself is valid
/// base64.
pub proof fn lemma_envelope_round_trip(blob: Seq<u8>)
    ensures
        b64_decode(envelope_contents(blob)) == Some(blob),
{
    crate::base64::lemma_base64_round_trip(blob);
}

} // verus!
