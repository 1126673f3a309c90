//! PKI value types and the external CA tool's protocol.
//!
//! `Certificate`, `CertificateSigningRequest` and `PrivateKey` are immutable
//! byte-holding values. `CertificateAuthority` aggregates one certificate and
//! one private key; the two are only ever created and handed on together.
//!
//! The CA tool itself runs as a subprocess outside this crate. What is
//! defined and verified here is the whole protocol around it: the JSON
//! request written to the tool's stdin (`{"CN": ..., "hosts": [...],
//! "key": {"algo": "rsa", "size": 2048}, "names": [{"O": ...}]}`, compact,
//! keys in that order), the decoding of the tool's JSON response, and the
//! judgment on its exit: a nonzero exit surfaces the tool's own captured
//! streams, and a response that cannot be decoded is a parse error.

use vstd::prelude::*;
use vstd::slice::slice_to_vec;
use vstd::string::StringExecFns;

use crate::error::{KawsError, KawsErrorKind};
use crate::json::{
    json_string, parse_flat_object, object_get, spec_object_get, spec_parse_flat_object,
    write_json_string,
};
use crate::process::ProcessOutput;

verus! {

/// Raw certificate bytes (PEM), a public artifact.
#[derive(Debug)]
pub struct Certificate(pub Vec<u8>);

/// Raw certificate-signing-request bytes (PEM), a public artifact.
#[derive(Debug)]
pub struct CertificateSigningRequest(pub Vec<u8>);

/// Raw private key bytes (PEM). Never written to a durable path in the
/// clear except through the one deliberate administrator workflow.
#[derive(Debug)]
pub struct PrivateKey(pub Vec<u8>);

/// A certificate authority: its certificate and its private key, generated,
/// persisted and rotated together, never partially.
#[derive(Debug)]
pub struct CertificateAuthority {
    pub cert: Certificate,
    pub key: PrivateKey,
}

impl View for Certificate {
    type V = Seq<u8>;

    open spec fn view(&self) -> Seq<u8> {
        self.0@
    }
}

impl View for CertificateSigningRequest {
    type V = Seq<u8>;

    open spec fn view(&self) -> Seq<u8> {
        self.0@
    }
}

impl View for PrivateKey {
    type V = Seq<u8>;

    open spec fn view(&self) -> Seq<u8> {
        self.0@
    }
}

impl Certificate {
    pub fn new(bytes: Vec<u8>) -> (r: Certificate)
        ensures
            r@ == bytes@,
    {
        Certificate(bytes)
    }

    pub fn as_bytes(&self) -> (r: &[u8])
        ensures
            r@ == self@,
    {
        self.0.as_slice()
    }
}

impl CertificateSigningRequest {
    pub fn new(bytes: Vec<u8>) -> (r: CertificateSigningRequest)
        ensures
            r@ == bytes@,
    {
        CertificateSigningRequest(bytes)
    }

    pub fn as_bytes(&self) -> (r: &[u8])
        ensures
            r@ == self@,
    {
        self.0.as_slice()
    }
}

impl PrivateKey {
    pub fn new(bytes: Vec<u8>) -> (r: PrivateKey)
        ensures
            r@ == bytes@,
    {
        PrivateKey(bytes)
    }

    pub fn as_bytes(&self) -> (r: &[u8])
        ensures
            r@ == self@,
    {
        self.0.as_slice()
    }
}

/// `{"CN":`
pub open spec fn cn_prefix() -> Seq<u8> {
    seq![123u8, 34u8, 67u8, 78u8, 34u8, 58u8]
}

/// `,"hosts":[`
pub open spec fn hosts_prefix() -> Seq<u8> {
    seq![44u8, 34u8, 104u8, 111u8, 115u8, 116u8, 115u8, 34u8, 58u8, 91u8]
}

/// `,"key":{"algo":"rsa","size":2048}`
pub open spec fn key_object() -> Seq<u8> {
    seq![
        44u8, 34u8, 107u8, 101u8, 121u8, 34u8, 58u8, 123u8, 34u8, 97u8, 108u8, 103u8, 111u8,
        34u8, 58u8, 34u8, 114u8, 115u8, 97u8, 34u8, 44u8, 34u8, 115u8, 105u8, 122u8, 101u8,
        34u8, 58u8, 50u8, 48u8, 52u8, 56u8, 125u8,
    ]
}

/// `,"names":[`
pub open spec fn names_prefix() -> Seq<u8> {
    seq![44u8, 34u8, 110u8, 97u8, 109u8, 101u8, 115u8, 34u8, 58u8, 91u8]
}

/// `{"O":`
pub open spec fn org_prefix() -> Seq<u8> {
    seq![123u8, 34u8, 79u8, 34u8, 58u8]
}

/// JSON strings joined with commas.
pub open spec fn str_list(items: Seq<Seq<u8>>) -> Seq<u8>
    decreases items.len(),
{
    if items.len() == 0 {
        Seq::empty()
    } else if items.len() == 1 {
        json_string(items[0])
    } else {
        json_string(items[0]) + seq![44u8] + str_list(items.skip(1))
    }
}

/// One `{"O": ...}` name entry.
pub open spec fn org_object(org: Seq<u8>) -> Seq<u8> {
    org_prefix() + json_string(org) + seq![125u8]
}

/// Name entries joined with commas.
pub open spec fn names_list(orgs: Seq<Seq<u8>>) -> Seq<u8>
    decreases orgs.len(),
{
    if orgs.len() == 0 {
        Seq::empty()
    } else if orgs.len() == 1 {
        org_object(orgs[0])
    } else {
        org_object(orgs[0]) + seq![44u8] + names_list(orgs.skip(1))
    }
}

/// The request that asks the tool to create a self-signed CA.
pub open spec fn ca_init_request_spec(cn: Seq<u8>) -> Seq<u8> {
    cn_prefix() + json_string(cn) + key_object() + seq![125u8]
}

/// The request that asks the tool for a fresh key and a certificate (or a
/// certificate signing request): common name, optional host names, the fixed
/// RSA-2048 key profile, and optional organization entries.
pub open spec fn cert_request_spec(
    cn: Seq<u8>,
    san: Option<Seq<Seq<u8>>>,
    orgs: Seq<Seq<u8>>,
) -> Seq<u8> {
    cn_prefix() + json_string(cn) + (match san {
        Some(hs) => hosts_prefix() + str_list(hs) + seq![93u8],
        None => Seq::<u8>::empty(),
    }) + key_object() + names_prefix() + names_list(orgs) + seq![93u8, 125u8]
}

proof fn lemma_str_list_snoc(s: Seq<Seq<u8>>, x: Seq<u8>)
    ensures
        s.len() == 0 ==> str_list(s.push(x)) == json_string(x),
        s.len() > 0 ==> str_list(s.push(x)) == str_list(s) + seq![44u8] + json_string(x),
    decreases s.len(),
{
    let t = s.push(x);
    if s.len() == 0 {
        assert(t.len() == 1 && t[0] == x);
    } else {
        assert(t[0] == s[0]);
        assert(t.skip(1) =~= s.skip(1).push(x));
        lemma_str_list_snoc(s.skip(1), x);
        assert(str_list(t) =~= str_list(s) + seq![44u8] + json_string(x));
    }
}

proof fn lemma_names_list_snoc(s: Seq<Seq<u8>>, x: Seq<u8>)
    ensures
        s.len() == 0 ==> names_list(s.push(x)) == org_object(x),
        s.len() > 0 ==> names_list(s.push(x)) == names_list(s) + seq![44u8] + org_object(x),
    decreases s.len(),
{
    let t = s.push(x);
    if s.len() == 0 {
        assert(t.len() == 1 && t[0] == x);
    } else {
        assert(t[0] == s[0]);
        assert(t.skip(1) =~= s.skip(1).push(x));
        lemma_names_list_snoc(s.skip(1), x);
        assert(names_list(t) =~= names_list(s) + seq![44u8] + org_object(x));
    }
}

fn write_cn_prefix(out: &mut Vec<u8>)
    ensures
        final(out)@ == old(out)@ + cn_prefix(),
{
    let chunk: [u8; 6] = [123, 34, 67, 78, 34, 58];
    out.extend_from_slice(chunk.as_slice());
    proof {
        assert(chunk@ =~= cn_prefix());
    }
}

fn write_hosts_prefix(out: &mut Vec<u8>)
    ensures
        final(out)@ == old(out)@ + hosts_prefix(),
{
    let chunk: [u8; 10] = [44, 34, 104, 111, 115, 116, 115, 34, 58, 91];
    out.extend_from_slice(chunk.as_slice());
    proof {
        assert(chunk@ =~= hosts_prefix());
    }
}

fn write_key_object(out: &mut Vec<u8>)
    ensures
        final(out)@ == old(out)@ + key_object(),
{
    let chunk: [u8; 33] = [
        44, 34, 107, 101, 121, 34, 58, 123, 34, 97, 108, 103, 111, 34, 58, 34, 114, 115, 97, 34,
        44, 34, 115, 105, 122, 101, 34, 58, 50, 48, 52, 56, 125,
    ];
    out.extend_from_slice(chunk.as_slice());
    proof {
        assert(chunk@ =~= key_object());
    }
}

fn write_names_prefix(out: &mut Vec<u8>)
    ensures
        final(out)@ == old(out)@ + names_prefix(),
{
    let chunk: [u8; 10] = [44, 34, 110, 97, 109, 101, 115, 34, 58, 91];
    out.extend_from_slice(chunk.as_slice());
    proof {
        assert(chunk@ =~= names_prefix());
    }
}

fn write_org_object(out: &mut Vec<u8>, org: &[u8])
    ensures
        final(out)@ == old(out)@ + org_object(org@),
{
    let chunk: [u8; 5] = [123, 34, 79, 34, 58];
    out.extend_from_slice(chunk.as_slice());
    write_json_string(out, org);
    out.push(125);
    proof {
        assert(chunk@ =~= org_prefix());
        assert(final(out)@ =~= old(out)@ + org_object(org@));
    }
}

fn write_str_list(out: &mut Vec<u8>, items: &Vec<Vec<u8>>)
    ensures
        final(out)@ == old(out)@ + str_list(items.deep_view()),
{
    let ghost base = old(out)@;
    let ghost dv = items.deep_view();
    let len: usize = items.len();
    let mut idx: usize = 0;
    while idx < len
        invariant
            idx <= len,
            len == items@.len(),
            dv == items.deep_view(),
            dv.len() == len,
            out@ == base + str_list(dv.take(idx as int)),
        decreases len - idx,
    {
        if idx > 0 {
            out.push(44);
        }
        write_json_string(out, items[idx].as_slice());
        proof {
            assert(dv[idx as int] =~= items@[idx as int]@);
            assert(dv.take(idx + 1) =~= dv.take(idx as int).push(dv[idx as int]));
            lemma_str_list_snoc(dv.take(idx as int), dv[idx as int]);
            assert(out@ =~= base + str_list(dv.take(idx + 1)));
        }
        idx = idx + 1;
    }
    proof {
        assert(dv.take(len as int) =~= dv);
    }
}

fn write_names_list(out: &mut Vec<u8>, orgs: &Vec<Vec<u8>>)
    ensures
        final(out)@ == old(out)@ + names_list(orgs.deep_view()),
{
    let ghost base = old(out)@;
    let ghost dv = orgs.deep_view();
    let len: usize = orgs.len();
    let mut idx: usize = 0;
    while idx < len
        invariant
            idx <= len,
            len == orgs@.len(),
            dv == orgs.deep_view(),
            dv.len() == len,
            out@ == base + names_list(dv.take(idx as int)),
        decreases len - idx,
    {
        if idx > 0 {
            out.push(44);
        }
        write_org_object(out, orgs[idx].as_slice());
        proof {
            assert(dv[idx as int] =~= orgs@[idx as int]@);
            assert(dv.take(idx + 1) =~= dv.take(idx as int).push(dv[idx as int]));
            lemma_names_list_snoc(dv.take(idx as int), dv[idx as int]);
            assert(out@ =~= base + names_list(dv.take(idx + 1)));
        }
        idx = idx + 1;
    }
    proof {
        assert(dv.take(len as int) =~= dv);
    }
}

/// Builds the stdin request for issuing a fresh key and certificate (or
/// certificate signing request) with the given common name, optional host
/// names and optional organization entries; an absent organization list and
/// an empty one ask for the same thing.
pub fn cert_request(
    common_name: &[u8],
    san: Option<&Vec<Vec<u8>>>,
    groups: Option<&Vec<Vec<u8>>>,
) -> (r: Vec<u8>)
    ensures
        r@ == cert_request_spec(
            common_name@,
            match san {
                Some(hs) => Some(hs.deep_view()),
                None => None,
            },
            match groups {
                Some(gs) => gs.deep_view(),
                None => Seq::<Seq<u8>>::empty(),
            },
        ),
{
    let mut out: Vec<u8> = Vec::new();
    write_cn_prefix(&mut out);
    write_json_string(&mut out, common_name);
    if let Some(hs) = san {
        write_hosts_prefix(&mut out);
        write_str_list(&mut out, hs);
        out.push(93);
    }
    write_key_object(&mut out);
    write_names_prefix(&mut out);
    match groups {
        Some(gs) => {
            write_names_list(&mut out, gs);
        },
        None => {
            proof {
                assert(names_list(Seq::<Seq<u8>>::empty()) =~= Seq::<u8>::empty());
            }
        },
    }
    out.push(93);
    out.push(125);
    proof {
        assert(out@ =~= cert_request_spec(
            common_name@,
            match san {
                Some(hs) => Some(hs.deep_view()),
                None => None,
            },
            match groups {
                Some(gs) => gs.deep_view(),
                None => Seq::<Seq<u8>>::empty(),
            },
        ));
    }
    out
}

/// `cert`
pub open spec fn cert_field() -> Seq<u8> {
    seq![99u8, 101u8, 114u8, 116u8]
}

/// `key`
pub open spec fn key_field() -> Seq<u8> {
    seq![107u8, 101u8, 121u8]
}

/// `csr`
pub open spec fn csr_field() -> Seq<u8> {
    seq![99u8, 115u8, 114u8]
}

/// The certificate and key a CA-generation or certificate-issuance response
/// carries, or `None` for a response that is not a flat JSON object of
/// strings holding both fields.
pub open spec fn gencert_parsed(stdout: Seq<u8>) -> Option<(Seq<u8>, Seq<u8>)> {
    match spec_parse_flat_object(stdout) {
        Some(ps) => match (spec_object_get(ps, cert_field()), spec_object_get(ps, key_field())) {
            (Some(c), Some(k)) => Some((c, k)),
            _ => None,
        },
        None => None,
    }
}

/// The certificate a signing response carries, or `None`.
pub open spec fn sign_parsed(stdout: Seq<u8>) -> Option<Seq<u8>> {
    match spec_parse_flat_object(stdout) {
        Some(ps) => spec_object_get(ps, cert_field()),
        None => None,
    }
}

/// The certificate signing request and key a key-generation response
/// carries, or `None`.
pub open spec fn genkey_parsed(stdout: Seq<u8>) -> Option<(Seq<u8>, Seq<u8>)> {
    match spec_parse_flat_object(stdout) {
        Some(ps) => match (spec_object_get(ps, csr_field()), spec_object_get(ps, key_field())) {
            (Some(c), Some(k)) => Some((c, k)),
            _ => None,
        },
        None => None,
    }
}

fn parse_cert_and_key(stdout: &Vec<u8>, first_field: &[u8]) -> (r: Result<
    (Vec<u8>, Vec<u8>),
    KawsError,
>)
    ensures
        match r {
            Ok((c, k)) => {
                &&& spec_parse_flat_object(stdout@) matches Some(ps)
                    && spec_object_get(ps, first_field@) == Some(c@)
                    && spec_object_get(ps, key_field()) == Some(k@)
            },
            Err(e) => {
                &&& e.kind == KawsErrorKind::Parse
                &&& match spec_parse_flat_object(stdout@) {
                    Some(ps) => spec_object_get(ps, first_field@) is None || spec_object_get(
                        ps,
                        key_field(),
                    ) is None,
                    None => true,
                }
            },
        },
{
    let pairs = match parse_flat_object(stdout.as_slice()) {
        Ok(ps) => ps,
        Err(e) => {
            return Err(e);
        },
    };
    let key_name: [u8; 3] = [107, 101, 121];
    proof {
        assert(key_name@ =~= key_field());
    }
    let first = match object_get(&pairs, first_field) {
        Some(v) => v,
        None => {
            return Err(
                KawsError::parse(String::from_str("CA tool response is missing a field")),
            );
        },
    };
    match object_get(&pairs, key_name.as_slice()) {
        Some(k) => Ok((slice_to_vec(first.as_slice()), slice_to_vec(k.as_slice()))),
        None => Err(KawsError::parse(String::from_str("CA tool response is missing a field"))),
    }
}

impl CertificateAuthority {
    /// Assembles a CA from a certificate and key obtained together.
    pub fn new(cert: Certificate, key: PrivateKey) -> (r: CertificateAuthority)
        ensures
            r.cert@ == cert@,
            r.key@ == key@,
    {
        CertificateAuthority { cert, key }
    }

    /// The CA certificate bytes, the public half.
    pub fn as_bytes(&self) -> (r: &[u8])
        ensures
            r@ == self.cert@,
    {
        self.cert.as_bytes()
    }

    /// Builds the stdin request that asks the tool to create a self-signed
    /// CA with this common name and the fixed RSA-2048 key profile.
    pub fn generate_request(common_name: &[u8]) -> (r: Vec<u8>)
        ensures
            r@ == ca_init_request_spec(common_name@),
    {
        let mut out: Vec<u8> = Vec::new();
        write_cn_prefix(&mut out);
        write_json_string(&mut out, common_name);
        write_key_object(&mut out);
        out.push(125);
        proof {
            assert(out@ =~= ca_init_request_spec(common_name@));
        }
        out
    }

    /// Judges the tool's answer to a CA-generation request: on a successful
    /// exit the response must carry the new certificate and key, which become
    /// the CA; a nonzero exit surfaces the tool's own streams; a response
    /// that cannot be decoded is a parse error.
    pub fn generate_outcome(output: &ProcessOutput) -> (r: Result<CertificateAuthority, KawsError>)
        ensures
            output.success ==> match r {
                Ok(ca) => gencert_parsed(output.stdout@) == Some((ca.cert@, ca.key@)),
                Err(e) => gencert_parsed(output.stdout@) is None && e.kind
                    == KawsErrorKind::Parse,
            },
            !output.success ==> (r matches Err(e) && {
                &&& e.kind == KawsErrorKind::ToolExecution
                &&& e.message@ == "Execution of `cfssl genkey` failed."@
                &&& e.stdout matches Some(o) && o@ == output.stdout_text@
                &&& e.stderr matches Some(s) && s@ == output.stderr_text@
            }),
    {
        if !output.success {
            return Err(
                KawsError::with_std_streams(
                    String::from_str("Execution of `cfssl genkey` failed."),
                    output.stdout_text.clone(),
                    output.stderr_text.clone(),
                ),
            );
        }
        let cert_name: [u8; 4] = [99, 101, 114, 116];
        proof {
            assert(cert_name@ =~= cert_field());
        }
        match parse_cert_and_key(&output.stdout, cert_name.as_slice()) {
            Ok((cert, key)) => Ok(
                CertificateAuthority {
                    cert: Certificate(cert),
                    key: PrivateKey(key),
                },
            ),
            Err(e) => Err(e),
        }
    }

    /// Judges the tool's answer to a certificate-issuance request: on a
    /// successful exit the response must carry the fresh certificate and its
    /// private key.
    pub fn generate_cert_outcome(output: &ProcessOutput) -> (r: Result<
        (Certificate, PrivateKey),
        KawsError,
    >)
        ensures
            output.success ==> match r {
                Ok((cert, key)) => gencert_parsed(output.stdout@) == Some((cert@, key@)),
                Err(e) => gencert_parsed(output.stdout@) is None && e.kind
                    == KawsErrorKind::Parse,
            },
            !output.success ==> (r matches Err(e) && {
                &&& e.kind == KawsErrorKind::ToolExecution
                &&& e.message@ == "Execution of `cfssl gencert` failed."@
                &&& e.stdout matches Some(o) && o@ == output.stdout_text@
                &&& e.stderr matches Some(s) && s@ == output.stderr_text@
            }),
    {
        if !output.success {
            return Err(
                KawsError::with_std_streams(
                    String::from_str("Execution of `cfssl gencert` failed."),
                    output.stdout_text.clone(),
                    output.stderr_text.clone(),
                ),
            );
        }
        let cert_name: [u8; 4] = [99, 101, 114, 116];
        proof {
            assert(cert_name@ =~= cert_field());
        }
        match parse_cert_and_key(&output.stdout, cert_name.as_slice()) {
            Ok((cert, key)) => Ok((Certificate(cert), PrivateKey(key))),
            Err(e) => Err(e),
        }
    }

    /// Judges the tool's answer to a signing request for an externally
    /// supplied certificate signing request: on a successful exit the
    /// response must carry the signed certificate; no key is generated.
    pub fn sign_outcome(output: &ProcessOutput) -> (r: Result<Certificate, KawsError>)
        ensures
            output.success ==> match r {
                Ok(cert) => sign_parsed(output.stdout@) == Some(cert@),
                Err(e) => sign_parsed(output.stdout@) is None && e.kind == KawsErrorKind::Parse,
            },
            !output.success ==> (r matches Err(e) && {
                &&& e.kind == KawsErrorKind::ToolExecution
                &&& e.message@ == "Execution of `cfssl cert` failed."@
                &&& e.stdout matches Some(o) && o@ == output.stdout_text@
                &&& e.stderr matches Some(s) && s@ == output.stderr_text@
            }),
    {
        if !output.success {
            return Err(
                KawsError::with_std_streams(
                    String::from_str("Execution of `cfssl cert` failed."),
                    output.stdout_text.clone(),
                    output.stderr_text.clone(),
                ),
            );
        }
        let pairs = match parse_flat_object(output.stdout.as_slice()) {
            Ok(ps) => ps,
            Err(e) => {
                return Err(e);
            },
        };
        let cert_name: [u8; 4] = [99, 101, 114, 116];
        proof {
            assert(cert_name@ =~= cert_field());
        }
        match object_get(&pairs, cert_name.as_slice()) {
            Some(c) => Ok(Certificate(slice_to_vec(c.as_slice()))),
            None => Err(
                KawsError::parse(String::from_str("CA tool response is missing a field")),
            ),
        }
    }
}

impl CertificateSigningRequest {
    /// Builds the stdin request that asks the tool for a fresh key and
    /// certificate signing request: a common name, the fixed RSA-2048 key
    /// profile, and optional organization entries, with no host names.
    pub fn generate_request(common_name: &[u8], groups: Option<&Vec<Vec<u8>>>) -> (r: Vec<u8>)
        ensures
            r@ == cert_request_spec(
                common_name@,
                None,
                match groups {
                    Some(gs) => gs.deep_view(),
                    None => Seq::<Seq<u8>>::empty(),
                },
            ),
    {
        cert_request(common_name, None, groups)
    }

    /// Judges the tool's answer to a key-generation request: on a successful
    /// exit the response must carry the certificate signing request and its
    /// private key.
    pub fn generate_outcome(output: &ProcessOutput) -> (r: Result<
        (CertificateSigningRequest, PrivateKey),
        KawsError,
    >)
        ensures
            output.success ==> match r {
                Ok((csr, key)) => genkey_parsed(output.stdout@) == Some((csr@, key@)),
                Err(e) => genkey_parsed(output.stdout@) is None && e.kind
                    == KawsErrorKind::Parse,
            },
            !output.success ==> (r matches Err(e) && {
                &&& e.kind == KawsErrorKind::ToolExecution
                &&& e.message@ == "Execution of `cfssl genkey` failed."@
                &&& e.stdout matches Some(o) && o@ == output.stdout_text@
                &&& e.stderr matches Some(s) && s@ == output.stderr_text@
            }),
    {
        if !output.success {
            return Err(
                KawsError::with_std_streams(
                    String::from_str("Execution of `cfssl genkey` failed."),
                    output.stdout_text.clone(),
                    output.stderr_text.clone(),
                ),
            );
        }
        let csr_name: [u8; 3] = [99, 115, 114];
        proof {
            assert(csr_name@ =~= csr_field());
        }
        match parse_cert_and_key(&output.stdout, csr_name.as_slice()) {
            Ok((csr, key)) => Ok((CertificateSigningRequest(csr), PrivateKey(key))),
            Err(e) => Err(e),
        }
    }
}

} // verus!
