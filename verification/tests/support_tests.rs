//! Errors, process judgment, dependencies, the administrator workflow, key
//! export, scoped decryption and the logger switch.

use kaws::admin::Admin;
use kaws::dependencies::ensure_dependencies;
use kaws::encryption::{CleanupVerdict, RemovalOutcome};
use kaws::error::{KawsError, KawsErrorKind};
use kaws::key::Key;
use kaws::log::Logger;
use kaws::process::{process_outcome, ProcessOutput};
use kaws::scoped::ScopedDecryption;

#[test]
fn errors_keep_their_kind_and_message() {
    let e = KawsError::new("something went wrong".to_owned());
    assert_eq!(e.kind, KawsErrorKind::General);
    assert_eq!(e.message, "something went wrong");
    assert!(e.stdout.is_none() && e.stderr.is_none());
    assert_eq!(e.display_string(), "something went wrong");

    let e = KawsError::with_std_streams("tool failed".to_owned(), "out".to_owned(), "err".to_owned());
    assert_eq!(e.kind, KawsErrorKind::ToolExecution);
    assert_eq!(e.display_string(), "tool failed\n\nstdout:\nout\n\nstderr:\nerr");

    assert_eq!(KawsError::io("disk".to_owned()).kind, KawsErrorKind::Io);
    assert_eq!(KawsError::parse("bad".to_owned()).kind, KawsErrorKind::Parse);
    assert_eq!(
        KawsError::remote_service("kms".to_owned()).kind,
        KawsErrorKind::RemoteService
    );
    assert_eq!(KawsError::utf8("binary".to_owned()).kind, KawsErrorKind::Utf8);
}

#[test]
fn successful_processes_are_silent() {
    let output = ProcessOutput {
        success: true,
        stdout: b"ignored".to_vec(),
        stdout_text: "ignored".to_owned(),
        stderr_text: String::new(),
    };
    assert!(process_outcome("gpg2 --export", &output).unwrap().is_none());
}

#[test]
fn failed_processes_surface_their_streams() {
    let output = ProcessOutput {
        success: false,
        stdout: Vec::new(),
        stdout_text: "partial".to_owned(),
        stderr_text: "gpg: key not found".to_owned(),
    };
    let e = process_outcome("gpg2 --export", &output).unwrap_err();
    assert_eq!(e.kind, KawsErrorKind::ToolExecution);
    assert_eq!(e.message, "Execution of `gpg2 --export` failed.");
    assert_eq!(e.stdout.as_deref(), Some("partial"));
    assert_eq!(e.stderr.as_deref(), Some("gpg: key not found"));
}

#[test]
fn missing_dependencies_are_reported_in_order() {
    assert!(ensure_dependencies(true, true, true).unwrap().is_none());
    assert_eq!(
        ensure_dependencies(false, false, false).unwrap_err().message,
        "cfssl must be installed"
    );
    assert_eq!(
        ensure_dependencies(true, false, false).unwrap_err().message,
        "kubectl must be installed"
    );
    assert_eq!(
        ensure_dependencies(true, true, false).unwrap_err().message,
        "terraform must be installed"
    );
}

#[test]
fn admin_creation_plans_paths_and_message() {
    let admin = Admin::new("alice".to_owned(), "production".to_owned(), None);
    let plan = admin.create();
    assert_eq!(plan.directory, "clusters/production");
    assert_eq!(plan.csr_path, "clusters/production/alice-csr.pem");
    assert_eq!(plan.key_path, "clusters/production/alice-key.pem");
    assert_eq!(
        plan.message,
        "Certificate signing request created! Commit changes to Git and ask an\nadministrator to generate your client certificate."
    );
}

#[test]
fn admin_signing_plans_paths_and_message() {
    let admin = Admin::new(
        "alice".to_owned(),
        "production".to_owned(),
        Some(vec!["ops".to_owned()]),
    );
    let plan = admin.sign();
    assert_eq!(plan.csr_path, "clusters/production/alice-csr.pem");
    assert_eq!(plan.cert_path, "clusters/production/alice.pem");
    assert_eq!(plan.ca_cert_path, "clusters/production/ca.pem");
    assert_eq!(
        plan.encrypted_ca_key_path,
        "clusters/production/ca-key-encrypted.base64"
    );
    assert_eq!(
        plan.message,
        "Client certificate for administrator \"alice\" created for cluster \"production\"!\nCommit changes to Git and ask the administrator to run `kaws admin install`."
    );
}

#[test]
fn key_export_plans_the_tool_invocation() {
    let key = Key::new("carol@example.com".to_owned());
    let export = key.export();
    assert_eq!(
        export.args,
        vec![
            "--output".to_owned(),
            "pubkeys/carol@example.com.asc".to_owned(),
            "--armor".to_owned(),
            "--export".to_owned(),
            "carol@example.com".to_owned(),
        ]
    );
    assert_eq!(
        export.message,
        "OpenPGP public key exported to pubkeys/carol@example.com.asc! Check this file into Git."
    );
}

#[test]
fn scoped_decryption_holds_one_path() {
    let scope = ScopedDecryption::acquire("clusters/production/ca-key.pem".to_owned());
    assert_eq!(scope.path(), "clusters/production/ca-key.pem");
    assert_eq!(
        ScopedDecryption::release_verdict(&RemovalOutcome::Removed),
        CleanupVerdict::Clean
    );
    assert_eq!(
        ScopedDecryption::release_verdict(&RemovalOutcome::AlreadyAbsent),
        CleanupVerdict::Clean
    );
    assert_eq!(
        ScopedDecryption::release_verdict(&RemovalOutcome::Failed("busy".to_owned())),
        CleanupVerdict::Fatal
    );
}

#[test]
fn logger_keeps_its_switch() {
    assert!(Logger::new(true).enabled);
    assert!(!Logger::new(false).enabled);
}
