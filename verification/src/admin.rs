//! The administrator certificate workflow: a requesting administrator
//! creates a key and certificate signing request, and a cluster
//! administrator signs it against the cluster CA. The external tool calls
//! and file writes run in the surrounding application; the paths under the
//! cluster directory and the operator messages are fixed here.

use vstd::prelude::*;
use vstd::string::StringExecFns;

verus! {

/// One administrator of one cluster, with the groups their certificate is
/// requested for.
pub struct Admin {
    pub admin: String,
    pub cluster: String,
    pub groups: Option<Vec<String>>,
}

/// The planned creation of an administrator's credentials: the cluster
/// directory, where the fresh signing request and (unencrypted, handed over
/// out-of-band) private key go, and the message afterwards.
pub struct AdminCreatePlan {
    pub directory: String,
    pub csr_path: String,
    pub key_path: String,
    pub message: String,
}

/// The planned signing of an administrator's request: where the request and
/// the cluster CA material live, where the signed certificate goes, and the
/// message afterwards.
pub struct AdminSignPlan {
    pub csr_path: String,
    pub cert_path: String,
    pub ca_cert_path: String,
    pub encrypted_ca_key_path: String,
    pub message: String,
}

/// `clusters/{cluster}/{admin}-csr.pem`
pub open spec fn admin_csr_path(cluster: Seq<char>, admin: Seq<char>) -> Seq<char> {
    "clusters/"@ + cluster + "/"@ + admin + "-csr.pem"@
}

/// `clusters/{cluster}/{admin}-key.pem`
pub open spec fn admin_key_path(cluster: Seq<char>, admin: Seq<char>) -> Seq<char> {
    "clusters/"@ + cluster + "/"@ + admin + "-key.pem"@
}

/// `clusters/{cluster}/{admin}.pem`
pub open spec fn admin_cert_path(cluster: Seq<char>, admin: Seq<char>) -> Seq<char> {
    "clusters/"@ + cluster + "/"@ + admin + ".pem"@
}

impl Admin {
    pub fn new(admin: String, cluster: String, groups: Option<Vec<String>>) -> (r: Admin)
        ensures
            r.admin@ == admin@,
            r.cluster@ == cluster@,
            r.groups == groups,
    {
        Admin { admin, cluster, groups }
    }

    /// Plans the creation of this administrator's credentials.
    pub fn create(&self) -> (r: AdminCreatePlan)
        ensures
            r.directory@ == "clusters/"@ + self.cluster@,
            r.csr_path@ == admin_csr_path(self.cluster@, self.admin@),
            r.key_path@ == admin_key_path(self.cluster@, self.admin@),
            r.message@
                == "Certificate signing request created! Commit changes to Git and ask an\nadministrator to generate your client certificate."@,
    {
        let mut directory = String::from_str("clusters/");
        directory.append(self.cluster.as_str());
        let mut csr_path = directory.clone();
        csr_path.append("/");
        csr_path.append(self.admin.as_str());
        csr_path.append("-csr.pem");
        let mut key_path = directory.clone();
        key_path.append("/");
        key_path.append(self.admin.as_str());
        key_path.append("-key.pem");
        let message = String::from_str(
            "Certificate signing request created! Commit changes to Git and ask an\nadministrator to generate your client certificate.",
        );
        AdminCreatePlan { directory, csr_path, key_path, message }
    }

    /// Plans the signing of this administrator's request against the cluster
    /// CA.
    pub fn sign(&self) -> (r: AdminSignPlan)
        ensures
            r.csr_path@ == admin_csr_path(self.cluster@, self.admin@),
            r.cert_path@ == admin_cert_path(self.cluster@, self.admin@),
            r.ca_cert_path@ == "clusters/"@ + self.cluster@ + "/ca.pem"@,
            r.encrypted_ca_key_path@ == "clusters/"@ + self.cluster@
                + "/ca-key-encrypted.base64"@,
            r.message@ == "Client certificate for administrator \""@ + self.admin@
                + "\" created for cluster \""@ + self.cluster@
                + "\"!\nCommit changes to Git and ask the administrator to run `kaws admin install`."@,
    {
        let mut base = String::from_str("clusters/");
        base.append(self.cluster.as_str());
        let mut csr_path = base.clone();
        csr_path.append("/");
        csr_path.append(self.admin.as_str());
        csr_path.append("-csr.pem");
        let mut cert_path = base.clone();
        cert_path.append("/");
        cert_path.append(self.admin.as_str());
        cert_path.append(".pem");
        let mut ca_cert_path = base.clone();
        ca_cert_path.append("/ca.pem");
        let mut encrypted_ca_key_path = base.clone();
        encrypted_ca_key_path.append("/ca-key-encrypted.base64");
        let mut message = String::from_str("Client certificate for administrator \"");
        message.append(self.admin.as_str());
        message.append("\" created for cluster \"");
        message.append(self.cluster.as_str());
        message.append(
            "\"!\nCommit changes to Git and ask the administrator to run `kaws admin install`.",
        );
        AdminSignPlan { csr_path, cert_path, ca_cert_path, encrypted_ca_key_path, message }
    }
}

} // verus!
