//! Clusters on disk and the PKI material each one carries.
//!
//! A cluster's artifacts all live under `clusters/{name}`; the path of every
//! one of them is fixed here. For an existing cluster the module plans the
//! PKI generation work — which certificate authorities are generated or
//! loaded, and which leaf certificates are issued with which names, host
//! names and groups, depending on the subject of the run. For a new cluster
//! it plans initialization: the directory, the ignore rules, the variable
//! file and the empty PKI stub files. Carrying the plans out — subprocess,
//! remote encryption and file writes — is the surrounding application's
//! work.

use vstd::prelude::*;
use vstd::string::StringExecFns;
use vstd::string::StringSliceAdditionalSpecFns;

use crate::json::bytes_eq;

verus! {

/// A cluster, named and placed in a region.
pub struct Cluster {
    pub name: String,
    pub region: String,
}

/// `clusters/{name}{tail}`
pub open spec fn cluster_file(name: Seq<char>, tail: Seq<char>) -> Seq<char> {
    "clusters/"@ + name + tail
}

impl Cluster {
    pub fn new(name: String, region: String) -> (r: Cluster)
        ensures
            r.name@ == name@,
            r.region@ == region@,
    {
        Cluster { name, region }
    }

    fn file_path(&self, tail: &str) -> (r: String)
        ensures
            r@ == cluster_file(self.name@, tail@),
    {
        let mut r = String::from_str("clusters/");
        r.append(self.name.as_str());
        r.append(tail);
        r
    }

    pub fn name(&self) -> (r: &str)
        ensures
            r@ == self.name@,
    {
        self.name.as_str()
    }

    pub fn region(&self) -> (r: &str)
        ensures
            r@ == self.region@,
    {
        self.region.as_str()
    }

    pub fn etcd_ca_cert_path(&self) -> (r: String)
        ensures
            r@ == cluster_file(self.name@, "/etcd-ca.pem"@),
    {
        self.file_path("/etcd-ca.pem")
    }

    pub fn etcd_encrypted_ca_key_path(&self) -> (r: String)
        ensures
            r@ == cluster_file(self.name@, "/etcd-ca-key-encrypted.base64"@),
    {
        self.file_path("/etcd-ca-key-encrypted.base64")
    }

    pub fn etcd_server_cert_path(&self) -> (r: String)
        ensures
            r@ == cluster_file(self.name@, "/etcd-server.pem"@),
    {
        self.file_path("/etcd-server.pem")
    }

    pub fn etcd_encrypted_server_key_path(&self) -> (r: String)
        ensures
            r@ == cluster_file(self.name@, "/etcd-server-key-encrypted.base64"@),
    {
        self.file_path("/etcd-server-key-encrypted.base64")
    }

    pub fn etcd_client_cert_path(&self) -> (r: String)
        ensures
            r@ == cluster_file(self.name@, "/etcd-client.pem"@),
    {
        self.file_path("/etcd-client.pem")
    }

    pub fn etcd_encrypted_client_key_path(&self) -> (r: String)
        ensures
            r@ == cluster_file(self.name@, "/etcd-client-key-encrypted.base64"@),
    {
        self.file_path("/etcd-client-key-encrypted.base64")
    }

    pub fn etcd_peer_ca_cert_path(&self) -> (r: String)
        ensures
            r@ == cluster_file(self.name@, "/etcd-peer-ca.pem"@),
    {
        self.file_path("/etcd-peer-ca.pem")
    }

    pub fn etcd_peer_encrypted_ca_key_path(&self) -> (r: String)
        ensures
            r@ == cluster_file(self.name@, "/etcd-peer-ca-key-encrypted.base64"@),
    {
        self.file_path("/etcd-peer-ca-key-encrypted.base64")
    }

    pub fn etcd_peer_cert_path(&self) -> (r: String)
        ensures
            r@ == cluster_file(self.name@, "/etcd-peer.pem"@),
    {
        self.file_path("/etcd-peer.pem")
    }

    pub fn etcd_peer_encrypted_key_path(&self) -> (r: String)
        ensures
            r@ == cluster_file(self.name@, "/etcd-peer-key-encrypted.base64"@),
    {
        self.file_path("/etcd-peer-key-encrypted.base64")
    }

    pub fn k8s_ca_cert_path(&self) -> (r: String)
        ensures
            r@ == cluster_file(self.name@, "/k8s-ca.pem"@),
    {
        self.file_path("/k8s-ca.pem")
    }

    pub fn k8s_encrypted_ca_key_path(&self) -> (r: String)
        ensures
            r@ == cluster_file(self.name@, "/k8s-ca-key-encrypted.base64"@),
    {
        self.file_path("/k8s-ca-key-encrypted.base64")
    }

    pub fn k8s_master_cert_path(&self) -> (r: String)
        ensures
            r@ == cluster_file(self.name@, "/k8s-master.pem"@),
    {
        self.file_path("/k8s-master.pem")
    }

    pub fn k8s_encrypted_master_key_path(&self) -> (r: String)
        ensures
            r@ == cluster_file(self.name@, "/k8s-master-key-encrypted.base64"@),
    {
        self.file_path("/k8s-master-key-encrypted.base64")
    }

    pub fn k8s_node_cert_path(&self) -> (r: String)
        ensures
            r@ == cluster_file(self.name@, "/k8s-node.pem"@),
    {
        self.file_path("/k8s-node.pem")
    }

    pub fn k8s_encrypted_node_key_path(&self) -> (r: String)
        ensures
            r@ == cluster_file(self.name@, "/k8s-node-key-encrypted.base64"@),
    {
        self.file_path("/k8s-node-key-encrypted.base64")
    }

    pub fn gitignore_path(&self) -> (r: String)
        ensures
            r@ == cluster_file(self.name@, "/.gitignore"@),
    {
        self.file_path("/.gitignore")
    }

    pub fn tfvars_path(&self) -> (r: String)
        ensures
            r@ == cluster_file(self.name@, "/terraform.tfvars"@),
    {
        self.file_path("/terraform.tfvars")
    }
}

/// Whose PKI material one generation run is about: everything (`Ca`), one
/// kind of leaf certificate, or — for any other requested subject — nothing
/// beyond loading the existing CA.
#[derive(PartialEq, Eq, Structural, Clone, Copy, Debug)]
pub enum Subject {
    Ca,
    Server,
    Client,
    Masters,
    Nodes,
    Other,
}

/// Which subject a requested name stands for; anything unknown is `Other`.
pub open spec fn spec_subject_of(s: Seq<u8>) -> Subject {
    if s == seq![99u8, 97u8] {
        Subject::Ca
    } else if s == seq![115u8, 101u8, 114u8, 118u8, 101u8, 114u8] {
        Subject::Server
    } else if s == seq![99u8, 108u8, 105u8, 101u8, 110u8, 116u8] {
        Subject::Client
    } else if s == seq![109u8, 97u8, 115u8, 116u8, 101u8, 114u8, 115u8] {
        Subject::Masters
    } else if s == seq![110u8, 111u8, 100u8, 101u8, 115u8] {
        Subject::Nodes
    } else {
        Subject::Other
    }
}

/// Reads a requested subject name: `ca`, `server`, `client`, `masters` or
/// `nodes`; anything else is `Other`.
pub fn subject_of(s: &str) -> (r: Subject)
    ensures
        r == spec_subject_of(s.spec_bytes()),
{
    let b = s.as_bytes();
    let ca: [u8; 2] = [99, 97];
    let server: [u8; 6] = [115, 101, 114, 118, 101, 114];
    let client: [u8; 6] = [99, 108, 105, 101, 110, 116];
    let masters: [u8; 7] = [109, 97, 115, 116, 101, 114, 115];
    let nodes: [u8; 5] = [110, 111, 100, 101, 115];
    proof {
        assert(ca@ =~= seq![99u8, 97u8]);
        assert(server@ =~= seq![115u8, 101u8, 114u8, 118u8, 101u8, 114u8]);
        assert(client@ =~= seq![99u8, 108u8, 105u8, 101u8, 110u8, 116u8]);
        assert(masters@ =~= seq![109u8, 97u8, 115u8, 116u8, 101u8, 114u8, 115u8]);
        assert(nodes@ =~= seq![110u8, 111u8, 100u8, 101u8, 115u8]);
    }
    if bytes_eq(b, ca.as_slice()) {
        Subject::Ca
    } else if bytes_eq(b, server.as_slice()) {
        Subject::Server
    } else if bytes_eq(b, client.as_slice()) {
        Subject::Client
    } else if bytes_eq(b, masters.as_slice()) {
        Subject::Masters
    } else if bytes_eq(b, nodes.as_slice()) {
        Subject::Nodes
    } else {
        Subject::Other
    }
}

/// An existing cluster whose PKI material is generated or reissued: the
/// cluster, the domain its API is served under (needed only when master
/// certificates are issued), the master key that wraps private keys at rest,
/// and the subject of the run.
pub struct ExistingCluster {
    pub cluster: Cluster,
    pub domain: Option<String>,
    pub kms_master_key_id: String,
    pub subject: Subject,
}

/// Where one generation run gets its CA from: generated fresh under a common
/// name, or loaded from the persisted pair.
pub enum CaSource {
    Generate(String),
    Load,
}

/// One leaf certificate to issue: its subject common name, optional host
/// names, optional organization groups, and where the certificate and the
/// encrypted key are persisted.
pub struct CertPlan {
    pub common_name: String,
    pub san: Option<Vec<String>>,
    pub groups: Option<Vec<String>>,
    pub cert_path: String,
    pub key_path: String,
}

/// One suite's planned PKI work: the CA (generated or loaded, with its
/// persisted pair of paths) and the leaf certificates to issue in order.
pub struct PkiPlan {
    pub ca: CaSource,
    pub ca_cert_path: String,
    pub ca_key_path: String,
    pub certs: Vec<CertPlan>,
}

/// The etcd host addresses that server and peer certificates are valid for.
pub open spec fn etcd_sans() -> Seq<Seq<char>> {
    seq!["10.0.1.4"@, "10.0.1.5"@, "10.0.1.6"@]
}

/// The host names a master API certificate is valid for, ending with the
/// cluster's public API name and the in-cluster service address.
pub open spec fn k8s_master_sans(domain: Seq<char>) -> Seq<Seq<char>> {
    seq![
        "kubernetes"@,
        "kubernetes.default"@,
        "kubernetes.default.svc"@,
        "kubernetes.default.svc.cluster.local"@,
        "kubernetes."@ + domain,
        "10.3.0.1"@,
    ]
}

/// The CA part of a plan: generated under `cn` when the run's subject is
/// `Ca`, loaded otherwise.
pub open spec fn ca_source_ok(ca: CaSource, subject: Subject, cn: Seq<char>) -> bool {
    if subject == Subject::Ca {
        ca matches CaSource::Generate(c) && c@ == cn
    } else {
        ca is Load
    }
}

/// The etcd server certificate of a cluster.
pub open spec fn etcd_server_cert_ok(c: CertPlan, name: Seq<char>) -> bool {
    &&& c.common_name@ == "kaws-etcd-server-"@ + name
    &&& c.san matches Some(v) && v.deep_view() == etcd_sans()
    &&& c.groups is None
    &&& c.cert_path@ == cluster_file(name, "/etcd-server.pem"@)
    &&& c.key_path@ == cluster_file(name, "/etcd-server-key-encrypted.base64"@)
}

/// The etcd client certificate of a cluster.
pub open spec fn etcd_client_cert_ok(c: CertPlan, name: Seq<char>) -> bool {
    &&& c.common_name@ == "kaws-etcd-client-"@ + name
    &&& c.san is None
    &&& c.groups is None
    &&& c.cert_path@ == cluster_file(name, "/etcd-client.pem"@)
    &&& c.key_path@ == cluster_file(name, "/etcd-client-key-encrypted.base64"@)
}

/// The etcd peer certificate of a cluster.
pub open spec fn etcd_peer_cert_ok(c: CertPlan, name: Seq<char>) -> bool {
    &&& c.common_name@ == "kaws-etcd-peer-"@ + name
    &&& c.san matches Some(v) && v.deep_view() == etcd_sans()
    &&& c.groups is None
    &&& c.cert_path@ == cluster_file(name, "/etcd-peer.pem"@)
    &&& c.key_path@ == cluster_file(name, "/etcd-peer-key-encrypted.base64"@)
}

/// The master API certificate of a cluster.
pub open spec fn k8s_master_cert_ok(c: CertPlan, name: Seq<char>, domain: Seq<char>) -> bool {
    &&& c.common_name@ == "kaws-k8s-master-"@ + name
    &&& c.san matches Some(v) && v.deep_view() == k8s_master_sans(domain)
    &&& c.groups is None
    &&& c.cert_path@ == cluster_file(name, "/k8s-master.pem"@)
    &&& c.key_path@ == cluster_file(name, "/k8s-master-key-encrypted.base64"@)
}

/// The node certificate of a cluster, issued into the nodes group.
pub open spec fn k8s_node_cert_ok(c: CertPlan, name: Seq<char>) -> bool {
    &&& c.common_name@ == "kaws-k8s-node-"@ + name
    &&& c.san is None
    &&& c.groups matches Some(v) && v.deep_view() == seq!["system:nodes"@]
    &&& c.cert_path@ == cluster_file(name, "/k8s-node.pem"@)
    &&& c.key_path@ == cluster_file(name, "/k8s-node-key-encrypted.base64"@)
}

/// The whole etcd suite plan of one run.
pub open spec fn etcd_pki_plan_ok(plan: PkiPlan, c: ExistingCluster) -> bool {
    let name = c.cluster.name@;
    &&& ca_source_ok(plan.ca, c.subject, "kaws-etcd-ca-"@ + name)
    &&& plan.ca_cert_path@ == cluster_file(name, "/etcd-ca.pem"@)
    &&& plan.ca_key_path@ == cluster_file(name, "/etcd-ca-key-encrypted.base64"@)
    &&& c.subject == Subject::Ca ==> plan.certs@.len() == 2 && etcd_server_cert_ok(
        plan.certs@[0],
        name,
    ) && etcd_client_cert_ok(plan.certs@[1], name)
    &&& c.subject == Subject::Server ==> plan.certs@.len() == 1 && etcd_server_cert_ok(
        plan.certs@[0],
        name,
    )
    &&& c.subject == Subject::Client ==> plan.certs@.len() == 1 && etcd_client_cert_ok(
        plan.certs@[0],
        name,
    )
    &&& (c.subject != Subject::Ca && c.subject != Subject::Server && c.subject != Subject::Client)
        ==> plan.certs@.len() == 0
}

/// The whole etcd peer suite plan of one run: the peer certificate is issued
/// whatever the subject.
pub open spec fn etcd_peer_pki_plan_ok(plan: PkiPlan, c: ExistingCluster) -> bool {
    let name = c.cluster.name@;
    &&& ca_source_ok(plan.ca, c.subject, "kaws-etcd-peer-ca-"@ + name)
    &&& plan.ca_cert_path@ == cluster_file(name, "/etcd-peer-ca.pem"@)
    &&& plan.ca_key_path@ == cluster_file(name, "/etcd-peer-ca-key-encrypted.base64"@)
    &&& plan.certs@.len() == 1 && etcd_peer_cert_ok(plan.certs@[0], name)
}

/// The whole Kubernetes suite plan of one run.
pub open spec fn k8s_pki_plan_ok(plan: PkiPlan, c: ExistingCluster) -> bool {
    let name = c.cluster.name@;
    &&& ca_source_ok(plan.ca, c.subject, "kaws-k8s-ca-"@ + name)
    &&& plan.ca_cert_path@ == cluster_file(name, "/k8s-ca.pem"@)
    &&& plan.ca_key_path@ == cluster_file(name, "/k8s-ca-key-encrypted.base64"@)
    &&& c.subject == Subject::Ca ==> plan.certs@.len() == 2 && k8s_master_cert_ok(
        plan.certs@[0],
        name,
        c.domain.unwrap()@,
    ) && k8s_node_cert_ok(plan.certs@[1], name)
    &&& c.subject == Subject::Masters ==> plan.certs@.len() == 1 && k8s_master_cert_ok(
        plan.certs@[0],
        name,
        c.domain.unwrap()@,
    )
    &&& c.subject == Subject::Nodes ==> plan.certs@.len() == 1 && k8s_node_cert_ok(
        plan.certs@[0],
        name,
    )
    &&& (c.subject != Subject::Ca && c.subject != Subject::Masters && c.subject != Subject::Nodes)
        ==> plan.certs@.len() == 0
}

fn prefixed_name(prefix: &str, name: &str) -> (r: String)
    ensures
        r@ == prefix@ + name@,
{
    let mut r = String::from_str(prefix);
    r.append(name);
    r
}

fn etcd_san_list() -> (r: Vec<String>)
    ensures
        r.deep_view() == etcd_sans(),
{
    let mut r: Vec<String> = Vec::new();
    r.push(String::from_str("10.0.1.4"));
    r.push(String::from_str("10.0.1.5"));
    r.push(String::from_str("10.0.1.6"));
    proof {
        assert(r.deep_view() =~= etcd_sans());
    }
    r
}

impl ExistingCluster {
    pub fn new(
        cluster: Cluster,
        domain: Option<String>,
        kms_master_key_id: String,
        subject: Subject,
    ) -> (r: ExistingCluster)
        ensures
            r.cluster == cluster,
            r.domain == domain,
            r.kms_master_key_id@ == kms_master_key_id@,
            r.subject == subject,
    {
        ExistingCluster { cluster, domain, kms_master_key_id, subject }
    }

    /// Plans the etcd suite: its CA (generated only when the run is about the
    /// CA), a server certificate for the etcd hosts, and a client
    /// certificate, as the subject asks.
    pub fn generate_etcd_pki(&self) -> (plan: PkiPlan)
        ensures
            etcd_pki_plan_ok(plan, *self),
    {
        let name = self.cluster.name.as_str();
        let ca = if let Subject::Ca = self.subject {
            CaSource::Generate(prefixed_name("kaws-etcd-ca-", name))
        } else {
            CaSource::Load
        };
        let mut certs: Vec<CertPlan> = Vec::new();
        if let Subject::Ca | Subject::Server = self.subject {
            certs.push(
                CertPlan {
                    common_name: prefixed_name("kaws-etcd-server-", name),
                    san: Some(etcd_san_list()),
                    groups: None,
                    cert_path: self.cluster.etcd_server_cert_path(),
                    key_path: self.cluster.etcd_encrypted_server_key_path(),
                },
            );
        }
        if let Subject::Ca | Subject::Client = self.subject {
            certs.push(
                CertPlan {
                    common_name: prefixed_name("kaws-etcd-client-", name),
                    san: None,
                    groups: None,
                    cert_path: self.cluster.etcd_client_cert_path(),
                    key_path: self.cluster.etcd_encrypted_client_key_path(),
                },
            );
        }
        PkiPlan {
            ca,
            ca_cert_path: self.cluster.etcd_ca_cert_path(),
            ca_key_path: self.cluster.etcd_encrypted_ca_key_path(),
            certs,
        }
    }

    /// Plans the etcd peer suite: its CA as the subject asks, and the peer
    /// certificate, which every run issues.
    pub fn generate_etcd_peer_pki(&self) -> (plan: PkiPlan)
        ensures
            etcd_peer_pki_plan_ok(plan, *self),
    {
        let name = self.cluster.name.as_str();
        let ca = if let Subject::Ca = self.subject {
            CaSource::Generate(prefixed_name("kaws-etcd-peer-ca-", name))
        } else {
            CaSource::Load
        };
        let mut certs: Vec<CertPlan> = Vec::new();
        certs.push(
            CertPlan {
                common_name: prefixed_name("kaws-etcd-peer-", name),
                san: Some(etcd_san_list()),
                groups: None,
                cert_path: self.cluster.etcd_peer_cert_path(),
                key_path: self.cluster.etcd_peer_encrypted_key_path(),
            },
        );
        PkiPlan {
            ca,
            ca_cert_path: self.cluster.etcd_peer_ca_cert_path(),
            ca_key_path: self.cluster.etcd_peer_encrypted_ca_key_path(),
            certs,
        }
    }

    /// Plans the Kubernetes suite: its CA, the master API certificate (which
    /// needs the cluster's domain) and the node certificate, as the subject
    /// asks.
    pub fn generate_kubernetes_pki(&self) -> (plan: PkiPlan)
        requires
            self.subject == Subject::Ca || self.subject == Subject::Masters
                ==> self.domain is Some,
        ensures
            k8s_pki_plan_ok(plan, *self),
    {
        let name = self.cluster.name.as_str();
        let ca = if let Subject::Ca = self.subject {
            CaSource::Generate(prefixed_name("kaws-k8s-ca-", name))
        } else {
            CaSource::Load
        };
        let mut certs: Vec<CertPlan> = Vec::new();
        if let Subject::Ca | Subject::Masters = self.subject {
            let domain = match &self.domain {
                Some(d) => d,
                None => unreached(),
            };
            let mut san: Vec<String> = Vec::new();
            san.push(String::from_str("kubernetes"));
            san.push(String::from_str("kubernetes.default"));
            san.push(String::from_str("kubernetes.default.svc"));
            san.push(String::from_str("kubernetes.default.svc.cluster.local"));
            san.push(prefixed_name("kubernetes.", domain.as_str()));
            san.push(String::from_str("10.3.0.1"));
            proof {
                assert(san.deep_view() =~= k8s_master_sans(self.domain.unwrap()@));
            }
            certs.push(
                CertPlan {
                    common_name: prefixed_name("kaws-k8s-master-", name),
                    san: Some(san),
                    groups: None,
                    cert_path: self.cluster.k8s_master_cert_path(),
                    key_path: self.cluster.k8s_encrypted_master_key_path(),
                },
            );
        }
        if let Subject::Ca | Subject::Nodes = self.subject {
            let mut groups: Vec<String> = Vec::new();
            groups.push(String::from_str("system:nodes"));
            proof {
                assert(groups.deep_view() =~= seq!["system:nodes"@]);
            }
            certs.push(
                CertPlan {
                    common_name: prefixed_name("kaws-k8s-node-", name),
                    san: None,
                    groups: Some(groups),
                    cert_path: self.cluster.k8s_node_cert_path(),
                    key_path: self.cluster.k8s_encrypted_node_key_path(),
                },
            );
        }
        PkiPlan {
            ca,
            ca_cert_path: self.cluster.k8s_ca_cert_path(),
            ca_key_path: self.cluster.k8s_encrypted_ca_key_path(),
            certs,
        }
    }

    /// Plans all three suites of one run, in the order they are carried
    /// out — etcd, etcd peer, Kubernetes.
    pub fn generate_pki_all(&self) -> (plans: Vec<PkiPlan>)
        requires
            self.subject == Subject::Ca || self.subject == Subject::Masters
                ==> self.domain is Some,
        ensures
            plans@.len() == 3,
            etcd_pki_plan_ok(plans@[0], *self),
            etcd_peer_pki_plan_ok(plans@[1], *self),
            k8s_pki_plan_ok(plans@[2], *self),
    {
        let mut plans: Vec<PkiPlan> = Vec::new();
        plans.push(self.generate_etcd_pki());
        plans.push(self.generate_etcd_peer_pki());
        plans.push(self.generate_kubernetes_pki());
        plans
    }
}

/// A cluster about to be initialized on disk, with everything its variable
/// file records.
pub struct NewCluster {
    pub availability_zone: String,
    pub aws_account_id: String,
    pub cluster: Cluster,
    pub coreos_ami: String,
    pub domain: String,
    pub iam_users: Vec<String>,
    pub instance_size: String,
    pub kubernetes_version: String,
    pub masters_max_size: String,
    pub masters_min_size: String,
    pub nodes_max_size: String,
    pub nodes_min_size: String,
    pub ssh_keys: Vec<String>,
    pub zone_id: String,
}

/// One planned file write.
pub struct FileWrite {
    pub path: String,
    pub contents: String,
}

/// The planned initialization of a new cluster: its directory, the ignore
/// rules that keep plaintext keys out of version control, the variable file,
/// the empty PKI stub files, and the message for the operator.
pub struct InitPlan {
    pub directory: String,
    pub gitignore: FileWrite,
    pub tfvars: FileWrite,
    pub pki_stub_paths: Vec<String>,
    pub message: String,
}

/// Items each between double quotes, joined with `, `.
pub open spec fn quoted_join(items: Seq<Seq<char>>) -> Seq<char>
    decreases items.len(),
{
    if items.len() == 0 {
        Seq::empty()
    } else if items.len() == 1 {
        "\""@ + items[0] + "\""@
    } else {
        ("\""@ + items[0] + "\""@) + ", "@ + quoted_join(items.skip(1))
    }
}

proof fn lemma_quoted_join_snoc(s: Seq<Seq<char>>, x: Seq<char>)
    ensures
        s.len() == 0 ==> quoted_join(s.push(x)) == "\""@ + x + "\""@,
        s.len() > 0 ==> quoted_join(s.push(x)) == quoted_join(s) + ", "@ + ("\""@ + x + "\""@),
    decreases s.len(),
{
    let t = s.push(x);
    if s.len() == 0 {
        assert(t.len() == 1 && t[0] == x);
    } else {
        assert(t[0] == s[0]);
        assert(t.skip(1) =~= s.skip(1).push(x));
        lemma_quoted_join_snoc(s.skip(1), x);
        assert(quoted_join(t) =~= quoted_join(s) + ", "@ + ("\""@ + x + "\""@));
    }
}

fn append_quoted_join(out: &mut String, items: &Vec<String>)
    ensures
        final(out)@ == old(out)@ + quoted_join(items.deep_view()),
{
    let ghost base = old(out)@;
    let ghost dv = items.deep_view();
    let len: usize = items.len();
    let mut idx: usize = 0;
    while idx < len
        invariant
            idx <= len,
            len == items@.len(),
            dv == items.deep_view(),
            dv.len() == len,
            out@ == base + quoted_join(dv.take(idx as int)),
        decreases len - idx,
    {
        if idx > 0 {
            out.append(", ");
        }
        out.append("\"");
        out.append(items[idx].as_str());
        out.append("\"");
        proof {
            assert(dv[idx as int] =~= items@[idx as int]@);
            assert(dv.take(idx + 1) =~= dv.take(idx as int).push(dv[idx as int]));
            lemma_quoted_join_snoc(dv.take(idx as int), dv[idx as int]);
            assert(out@ =~= base + quoted_join(dv.take(idx + 1)));
        }
        idx = idx + 1;
    }
    proof {
        assert(dv.take(len as int) =~= dv);
    }
}

/// The variable file of a new cluster, line by line in its fixed order; the
/// user and key lists are quoted and comma-joined.
pub open spec fn tfvars_contents_spec(c: NewCluster) -> Seq<char> {
    "kaws_account_id = \""@ + c.aws_account_id@ + "\"\nkaws_availability_zone = \""@
        + c.availability_zone@ + "\"\nkaws_cluster = \""@ + c.cluster.name@
        + "\"\nkaws_coreos_ami = \""@ + c.coreos_ami@ + "\"\nkaws_domain = \""@ + c.domain@
        + "\"\nkaws_iam_users = ["@ + quoted_join(c.iam_users.deep_view())
        + "]\nkaws_instance_size = \""@ + c.instance_size@ + "\"\nkaws_masters_max_size = \""@
        + c.masters_max_size@ + "\"\nkaws_masters_min_size = \""@ + c.masters_min_size@
        + "\"\nkaws_nodes_max_size = \""@ + c.nodes_max_size@
        + "\"\nkaws_nodes_min_size = \""@ + c.nodes_min_size@
        + "\"\nkaws_propagating_vgws = []\nkaws_region = \""@ + c.cluster.region@
        + "\"\nkaws_ssh_keys = ["@ + quoted_join(c.ssh_keys.deep_view())
        + "]\nkaws_version = \""@ + c.kubernetes_version@ + "\"\nkaws_zone_id = \""@
        + c.zone_id@ + "\"\n"@
}

/// The empty PKI artifact files a new cluster starts with, in the order they
/// are created.
pub open spec fn pki_stub_files(name: Seq<char>) -> Seq<Seq<char>> {
    seq![
        cluster_file(name, "/etcd-ca.pem"@),
        cluster_file(name, "/etcd-ca-key-encrypted.base64"@),
        cluster_file(name, "/etcd-server.pem"@),
        cluster_file(name, "/etcd-server-key-encrypted.base64"@),
        cluster_file(name, "/etcd-client.pem"@),
        cluster_file(name, "/etcd-client-key-encrypted.base64"@),
        cluster_file(name, "/etcd-peer-ca.pem"@),
        cluster_file(name, "/etcd-peer-ca-key-encrypted.base64"@),
        cluster_file(name, "/etcd-peer.pem"@),
        cluster_file(name, "/etcd-peer-key-encrypted.base64"@),
        cluster_file(name, "/k8s-ca.pem"@),
        cluster_file(name, "/k8s-ca-key-encrypted.base64"@),
        cluster_file(name, "/k8s-master.pem"@),
        cluster_file(name, "/k8s-master-key-encrypted.base64"@),
        cluster_file(name, "/k8s-node.pem"@),
        cluster_file(name, "/k8s-node-key-encrypted.base64"@),
    ]
}

/// The message once a new cluster is initialized.
pub open spec fn init_message(name: Seq<char>) -> Seq<char> {
    "Cluster \""@ + name + "\" initialized! Commit clusters/"@ + name + " to Git."@
}

impl NewCluster {
    pub fn new(
        availability_zone: String,
        aws_account_id: String,
        cluster: Cluster,
        coreos_ami: String,
        domain: String,
        iam_users: Vec<String>,
        instance_size: String,
        kubernetes_version: String,
        masters_max_size: String,
        masters_min_size: String,
        nodes_max_size: String,
        nodes_min_size: String,
        ssh_keys: Vec<String>,
        zone_id: String,
    ) -> (r: NewCluster)
        ensures
            r.availability_zone@ == availability_zone@,
            r.aws_account_id@ == aws_account_id@,
            r.cluster == cluster,
            r.coreos_ami@ == coreos_ami@,
            r.domain@ == domain@,
            r.iam_users == iam_users,
            r.instance_size@ == instance_size@,
            r.kubernetes_version@ == kubernetes_version@,
            r.masters_max_size@ == masters_max_size@,
            r.masters_min_size@ == masters_min_size@,
            r.nodes_max_size@ == nodes_max_size@,
            r.nodes_min_size@ == nodes_min_size@,
            r.ssh_keys == ssh_keys,
            r.zone_id@ == zone_id@,
    {
        NewCluster {
            availability_zone,
            aws_account_id,
            cluster,
            coreos_ami,
            domain,
            iam_users,
            instance_size,
            kubernetes_version,
            masters_max_size,
            masters_min_size,
            nodes_max_size,
            nodes_min_size,
            ssh_keys,
            zone_id,
        }
    }

    /// The variable file this cluster is initialized with.
    pub fn tfvars_contents(&self) -> (r: String)
        ensures
            r@ == tfvars_contents_spec(*self),
    {
        let mut out = String::from_str("kaws_account_id = \"");
        out.append(self.aws_account_id.as_str());
        out.append("\"\nkaws_availability_zone = \"");
        out.append(self.availability_zone.as_str());
        out.append("\"\nkaws_cluster = \"");
        out.append(self.cluster.name.as_str());
        out.append("\"\nkaws_coreos_ami = \"");
        out.append(self.coreos_ami.as_str());
        out.append("\"\nkaws_domain = \"");
        out.append(self.domain.as_str());
        out.append("\"\nkaws_iam_users = [");
        append_quoted_join(&mut out, &self.iam_users);
        out.append("]\nkaws_instance_size = \"");
        out.append(self.instance_size.as_str());
        out.append("\"\nkaws_masters_max_size = \"");
        out.append(self.masters_max_size.as_str());
        out.append("\"\nkaws_masters_min_size = \"");
        out.append(self.masters_min_size.as_str());
        out.append("\"\nkaws_nodes_max_size = \"");
        out.append(self.nodes_max_size.as_str());
        out.append("\"\nkaws_nodes_min_size = \"");
        out.append(self.nodes_min_size.as_str());
        out.append("\"\nkaws_propagating_vgws = []\nkaws_region = \"");
        out.append(self.cluster.region.as_str());
        out.append("\"\nkaws_ssh_keys = [");
        append_quoted_join(&mut out, &self.ssh_keys);
        out.append("]\nkaws_version = \"");
        out.append(self.kubernetes_version.as_str());
        out.append("\"\nkaws_zone_id = \"");
        out.append(self.zone_id.as_str());
        out.append("\"\n");
        proof {
            assert(out@ =~= tfvars_contents_spec(*self));
        }
        out
    }

    /// The empty PKI artifact files this cluster starts with.
    pub fn pki_stub_paths(&self) -> (r: Vec<String>)
        ensures
            r.deep_view() == pki_stub_files(self.cluster.name@),
    {
        let mut r: Vec<String> = Vec::new();
        r.push(self.cluster.etcd_ca_cert_path());
        r.push(self.cluster.etcd_encrypted_ca_key_path());
        r.push(self.cluster.etcd_server_cert_path());
        r.push(self.cluster.etcd_encrypted_server_key_path());
        r.push(self.cluster.etcd_client_cert_path());
        r.push(self.cluster.etcd_encrypted_client_key_path());
        r.push(self.cluster.etcd_peer_ca_cert_path());
        r.push(self.cluster.etcd_peer_encrypted_ca_key_path());
        r.push(self.cluster.etcd_peer_cert_path());
        r.push(self.cluster.etcd_peer_encrypted_key_path());
        r.push(self.cluster.k8s_ca_cert_path());
        r.push(self.cluster.k8s_encrypted_ca_key_path());
        r.push(self.cluster.k8s_master_cert_path());
        r.push(self.cluster.k8s_encrypted_master_key_path());
        r.push(self.cluster.k8s_node_cert_path());
        r.push(self.cluster.k8s_encrypted_node_key_path());
        proof {
            assert(r.deep_view() =~= pki_stub_files(self.cluster.name@));
        }
        r
    }

    /// Plans the initialization: the cluster directory, the ignore rules
    /// that keep plaintext keys out of version control, the variable file,
    /// the empty PKI stubs, and the message for the operator.
    pub fn init(&self) -> (r: InitPlan)
        ensures
            r.directory@ == "clusters/"@ + self.cluster.name@,
            r.gitignore.path@ == cluster_file(self.cluster.name@, "/.gitignore"@),
            r.gitignore.contents@ == "*-key.pem"@,
            r.tfvars.path@ == cluster_file(self.cluster.name@, "/terraform.tfvars"@),
            r.tfvars.contents@ == tfvars_contents_spec(*self),
            r.pki_stub_paths.deep_view() == pki_stub_files(self.cluster.name@),
            r.message@ == init_message(self.cluster.name@),
    {
        let mut directory = String::from_str("clusters/");
        directory.append(self.cluster.name.as_str());
        let mut message = String::from_str("Cluster \"");
        message.append(self.cluster.name.as_str());
        message.append("\" initialized! Commit clusters/");
        message.append(self.cluster.name.as_str());
        message.append(" to Git.");
        InitPlan {
            directory,
            gitignore: FileWrite {
                path: self.cluster.gitignore_path(),
                contents: String::from_str("*-key.pem"),
            },
            tfvars: FileWrite {
                path: self.cluster.tfvars_path(),
                contents: self.tfvars_contents(),
            },
            pki_stub_paths: self.pki_stub_paths(),
            message,
        }
    }
}

} // verus!
