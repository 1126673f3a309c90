//! Decrypt-for-the-duration-of-use, the narrower sibling of the
//! `Encryptor` registry for the local-keyring backend: exactly one plaintext
//! file exists while an enclosing operation runs, and it must be gone when
//! that scope ends — also when the decryption itself failed and only partial
//! output could be on disk.

use vstd::prelude::*;

use crate::encryption::{CleanupVerdict, RemovalOutcome};

verus! {

/// One plaintext file under a scope's cleanup obligation.
pub struct ScopedDecryption {
    pub unencrypted_path: String,
}

impl ScopedDecryption {
    /// Takes the obligation for the plaintext that is about to be written to
    /// `unencrypted_path`.
    pub fn acquire(unencrypted_path: String) -> (r: ScopedDecryption)
        ensures
            r.unencrypted_path@ == unencrypted_path@,
    {
        ScopedDecryption { unencrypted_path }
    }

    /// The one path this scope must delete when it ends.
    pub fn path(&self) -> (r: &str)
        ensures
            r@ == self.unencrypted_path@,
    {
        self.unencrypted_path.as_str()
    }

    /// Judges the removal that ends the scope: a path that was removed or
    /// was never written is clean; any other failure means plaintext may
    /// still be on disk, and the process must stop.
    pub fn release_verdict(outcome: &RemovalOutcome) -> (r: CleanupVerdict)
        ensures
            (r == CleanupVerdict::Fatal) <==> outcome is Failed,
    {
        match outcome {
            RemovalOutcome::Failed(_) => CleanupVerdict::Fatal,
            _ => CleanupVerdict::Clean,
        }
    }
}

} // verus!
