//! The CA tool protocol: request shapes, response decoding, and how a failed
//! tool invocation surfaces.

use kaws::error::KawsErrorKind;
use kaws::pki::{cert_request, CertificateAuthority, CertificateSigningRequest};
use kaws::process::ProcessOutput;

fn output(success: bool, stdout: &str, stderr: &str) -> ProcessOutput {
    ProcessOutput {
        success,
        stdout: stdout.as_bytes().to_vec(),
        stdout_text: stdout.to_owned(),
        stderr_text: stderr.to_owned(),
    }
}

#[test]
fn ca_generation_request_shape() {
    let request = CertificateAuthority::generate_request(b"kaws-k8s-ca-test");
    assert_eq!(
        String::from_utf8(request.clone()).unwrap(),
        "{\"CN\":\"kaws-k8s-ca-test\",\"key\":{\"algo\":\"rsa\",\"size\":2048}}"
    );
    let v: serde_json::Value = serde_json::from_slice(&request).unwrap();
    assert_eq!(v["CN"].as_str().unwrap(), "kaws-k8s-ca-test");
    assert_eq!(v["key"]["algo"].as_str().unwrap(), "rsa");
    assert_eq!(v["key"]["size"].as_i64().unwrap(), 2048);
}

#[test]
fn master_cert_request_carries_exact_hosts() {
    let san: Vec<Vec<u8>> = vec![
        b"kubernetes".to_vec(),
        b"kubernetes.default".to_vec(),
        b"10.3.0.1".to_vec(),
    ];
    let request = cert_request(b"kaws-k8s-master-test", Some(&san), None);
    let v: serde_json::Value = serde_json::from_slice(&request).unwrap();
    let hosts: Vec<&str> = v["hosts"]
        .as_array()
        .unwrap()
        .iter()
        .map(|h| h.as_str().unwrap())
        .collect();
    assert_eq!(hosts, vec!["kubernetes", "kubernetes.default", "10.3.0.1"]);
    assert_eq!(v["names"].as_array().unwrap().len(), 0);
}

#[test]
fn node_cert_request_has_no_hosts_and_one_group() {
    let groups: Vec<Vec<u8>> = vec![b"system:nodes".to_vec()];
    let request = cert_request(b"kaws-k8s-node-test", None, Some(&groups));
    assert_eq!(
        String::from_utf8(request.clone()).unwrap(),
        "{\"CN\":\"kaws-k8s-node-test\",\"key\":{\"algo\":\"rsa\",\"size\":2048},\"names\":[{\"O\":\"system:nodes\"}]}"
    );
    let v: serde_json::Value = serde_json::from_slice(&request).unwrap();
    assert!(v.get("hosts").is_none());
    assert_eq!(v["names"][0]["O"].as_str().unwrap(), "system:nodes");
}

#[test]
fn csr_generation_request_matches_cert_request() {
    let groups: Vec<Vec<u8>> = vec![b"ops".to_vec(), b"dev".to_vec()];
    let from_csr = CertificateSigningRequest::generate_request(b"alice", Some(&groups));
    let direct = cert_request(b"alice", None, Some(&groups));
    assert_eq!(from_csr, direct);
    let v: serde_json::Value = serde_json::from_slice(&from_csr).unwrap();
    assert_eq!(v["names"][0]["O"].as_str().unwrap(), "ops");
    assert_eq!(v["names"][1]["O"].as_str().unwrap(), "dev");
}

#[test]
fn ca_generation_reads_cert_and_key() {
    let ca = CertificateAuthority::generate_outcome(&output(
        true,
        "{\"cert\":\"CA CERT\\n\",\"csr\":\"ignored\",\"key\":\"CA KEY\\n\"}",
        "",
    ))
    .unwrap();
    assert_eq!(ca.cert.0, b"CA CERT\n".to_vec());
    assert_eq!(ca.key.0, b"CA KEY\n".to_vec());
    assert_eq!(ca.as_bytes(), b"CA CERT\n");
}

#[test]
fn issuance_reads_cert_and_key() {
    let (cert, key) = CertificateAuthority::generate_cert_outcome(&output(
        true,
        "{\"cert\":\"LEAF\",\"key\":\"LEAF KEY\"}",
        "",
    ))
    .unwrap();
    assert_eq!(cert.as_bytes(), b"LEAF");
    assert_eq!(key.as_bytes(), b"LEAF KEY");
}

#[test]
fn signing_reads_cert_only() {
    let cert = CertificateAuthority::sign_outcome(&output(true, "{\"cert\":\"SIGNED\"}", ""))
        .unwrap();
    assert_eq!(cert.as_bytes(), b"SIGNED");
}

#[test]
fn key_generation_reads_csr_and_key() {
    let (csr, key) = CertificateSigningRequest::generate_outcome(&output(
        true,
        "{\"csr\":\"REQ\",\"key\":\"REQ KEY\"}",
        "",
    ))
    .unwrap();
    assert_eq!(csr.as_bytes(), b"REQ");
    assert_eq!(key.as_bytes(), b"REQ KEY");
}

#[test]
fn missing_fields_are_parse_errors() {
    let e = CertificateAuthority::generate_outcome(&output(true, "{\"cert\":\"only\"}", ""))
        .unwrap_err();
    assert_eq!(e.kind, KawsErrorKind::Parse);
    let e = CertificateAuthority::sign_outcome(&output(true, "{\"key\":\"wrong\"}", ""))
        .unwrap_err();
    assert_eq!(e.kind, KawsErrorKind::Parse);
    let e = CertificateAuthority::generate_outcome(&output(true, "not json at all", ""))
        .unwrap_err();
    assert_eq!(e.kind, KawsErrorKind::Parse);
}

#[test]
fn failed_tool_surfaces_its_own_diagnostics() {
    let e = CertificateAuthority::generate_outcome(&output(
        false,
        "",
        "{\"code\":5200,\"message\":\"Invalid or unknown policy\"}",
    ))
    .unwrap_err();
    assert_eq!(e.kind, KawsErrorKind::ToolExecution);
    assert_eq!(e.message, "Execution of `cfssl genkey` failed.");
    assert!(e.stderr.as_ref().unwrap().contains("Invalid or unknown policy"));
    let shown = e.display_string();
    assert!(shown.contains("Invalid or unknown policy"));
    assert!(shown.contains("Execution of `cfssl genkey` failed."));
}

#[test]
fn failed_issuance_and_signing_surface_streams() {
    let e = CertificateAuthority::generate_cert_outcome(&output(false, "out", "gencert broke"))
        .unwrap_err();
    assert_eq!(e.kind, KawsErrorKind::ToolExecution);
    assert_eq!(e.message, "Execution of `cfssl gencert` failed.");
    assert_eq!(e.stdout.as_deref(), Some("out"));
    assert_eq!(e.stderr.as_deref(), Some("gencert broke"));
    let e = CertificateAuthority::sign_outcome(&output(false, "", "sign broke")).unwrap_err();
    assert_eq!(e.message, "Execution of `cfssl cert` failed.");
    assert_eq!(e.stderr.as_deref(), Some("sign broke"));
}
