//! Cluster paths, PKI generation plans and the initialization plan.

use kaws::cluster::{subject_of, CaSource, Cluster, ExistingCluster, NewCluster, Subject};

fn cluster() -> Cluster {
    Cluster::new("production".to_owned(), "us-east-1".to_owned())
}

#[test]
fn artifact_paths_live_under_the_cluster_directory() {
    let c = cluster();
    assert_eq!(c.name(), "production");
    assert_eq!(c.region(), "us-east-1");
    assert_eq!(c.etcd_ca_cert_path(), "clusters/production/etcd-ca.pem");
    assert_eq!(
        c.etcd_encrypted_ca_key_path(),
        "clusters/production/etcd-ca-key-encrypted.base64"
    );
    assert_eq!(c.etcd_server_cert_path(), "clusters/production/etcd-server.pem");
    assert_eq!(c.etcd_client_cert_path(), "clusters/production/etcd-client.pem");
    assert_eq!(c.etcd_peer_ca_cert_path(), "clusters/production/etcd-peer-ca.pem");
    assert_eq!(
        c.etcd_peer_encrypted_key_path(),
        "clusters/production/etcd-peer-key-encrypted.base64"
    );
    assert_eq!(c.k8s_ca_cert_path(), "clusters/production/k8s-ca.pem");
    assert_eq!(
        c.k8s_encrypted_master_key_path(),
        "clusters/production/k8s-master-key-encrypted.base64"
    );
    assert_eq!(c.k8s_node_cert_path(), "clusters/production/k8s-node.pem");
    assert_eq!(c.gitignore_path(), "clusters/production/.gitignore");
    assert_eq!(c.tfvars_path(), "clusters/production/terraform.tfvars");
}

#[test]
fn subjects_parse_by_name() {
    assert_eq!(subject_of("ca"), Subject::Ca);
    assert_eq!(subject_of("server"), Subject::Server);
    assert_eq!(subject_of("client"), Subject::Client);
    assert_eq!(subject_of("masters"), Subject::Masters);
    assert_eq!(subject_of("nodes"), Subject::Nodes);
    assert_eq!(subject_of("everything"), Subject::Other);
    assert_eq!(subject_of(""), Subject::Other);
}

fn existing(subject: Subject) -> ExistingCluster {
    ExistingCluster::new(
        cluster(),
        Some("example.com".to_owned()),
        "arn:aws:kms:mykey".to_owned(),
        subject,
    )
}

#[test]
fn ca_run_plans_everything_for_etcd() {
    let plan = existing(Subject::Ca).generate_etcd_pki();
    match &plan.ca {
        CaSource::Generate(cn) => assert_eq!(cn, "kaws-etcd-ca-production"),
        CaSource::Load => panic!("a CA run generates the CA"),
    }
    assert_eq!(plan.ca_cert_path, "clusters/production/etcd-ca.pem");
    assert_eq!(plan.ca_key_path, "clusters/production/etcd-ca-key-encrypted.base64");
    assert_eq!(plan.certs.len(), 2);
    assert_eq!(plan.certs[0].common_name, "kaws-etcd-server-production");
    assert_eq!(
        plan.certs[0].san.as_ref().unwrap(),
        &vec!["10.0.1.4".to_owned(), "10.0.1.5".to_owned(), "10.0.1.6".to_owned()]
    );
    assert!(plan.certs[0].groups.is_none());
    assert_eq!(plan.certs[1].common_name, "kaws-etcd-client-production");
    assert!(plan.certs[1].san.is_none());
}

#[test]
fn narrow_runs_reissue_only_their_subject() {
    let plan = existing(Subject::Server).generate_etcd_pki();
    assert!(matches!(plan.ca, CaSource::Load));
    assert_eq!(plan.certs.len(), 1);
    assert_eq!(plan.certs[0].common_name, "kaws-etcd-server-production");

    let plan = existing(Subject::Client).generate_etcd_pki();
    assert_eq!(plan.certs.len(), 1);
    assert_eq!(plan.certs[0].common_name, "kaws-etcd-client-production");

    let plan = existing(Subject::Other).generate_etcd_pki();
    assert!(matches!(plan.ca, CaSource::Load));
    assert!(plan.certs.is_empty());
}

#[test]
fn peer_certificates_are_issued_on_every_run() {
    let plan = existing(Subject::Nodes).generate_etcd_peer_pki();
    assert!(matches!(plan.ca, CaSource::Load));
    assert_eq!(plan.certs.len(), 1);
    assert_eq!(plan.certs[0].common_name, "kaws-etcd-peer-production");
    assert_eq!(plan.certs[0].san.as_ref().unwrap().len(), 3);
}

#[test]
fn master_certificates_carry_the_cluster_domain() {
    let plan = existing(Subject::Ca).generate_kubernetes_pki();
    assert_eq!(plan.certs.len(), 2);
    let master = &plan.certs[0];
    assert_eq!(master.common_name, "kaws-k8s-master-production");
    assert_eq!(
        master.san.as_ref().unwrap(),
        &vec![
            "kubernetes".to_owned(),
            "kubernetes.default".to_owned(),
            "kubernetes.default.svc".to_owned(),
            "kubernetes.default.svc.cluster.local".to_owned(),
            "kubernetes.example.com".to_owned(),
            "10.3.0.1".to_owned(),
        ]
    );
    let node = &plan.certs[1];
    assert_eq!(node.common_name, "kaws-k8s-node-production");
    assert!(node.san.is_none());
    assert_eq!(node.groups.as_ref().unwrap(), &vec!["system:nodes".to_owned()]);
}

#[test]
fn full_runs_plan_all_three_suites() {
    let plans = existing(Subject::Ca).generate_pki_all();
    assert_eq!(plans.len(), 3);
    assert_eq!(plans[0].ca_cert_path, "clusters/production/etcd-ca.pem");
    assert_eq!(plans[1].ca_cert_path, "clusters/production/etcd-peer-ca.pem");
    assert_eq!(plans[2].ca_cert_path, "clusters/production/k8s-ca.pem");
}

#[test]
fn initialization_plans_the_whole_cluster_directory() {
    let new_cluster = NewCluster::new(
        "us-east-1a".to_owned(),
        "12345678".to_owned(),
        cluster(),
        "ami-1234abcd".to_owned(),
        "example.com".to_owned(),
        vec!["alice".to_owned(), "bob".to_owned()],
        "m3.medium".to_owned(),
        "1.4.0".to_owned(),
        "3".to_owned(),
        "2".to_owned(),
        "10".to_owned(),
        "2".to_owned(),
        vec!["ssh-rsa AAAA".to_owned()],
        "Z111111QQQQQQQ".to_owned(),
    );
    let plan = new_cluster.init();
    assert_eq!(plan.directory, "clusters/production");
    assert_eq!(plan.gitignore.path, "clusters/production/.gitignore");
    assert_eq!(plan.gitignore.contents, "*-key.pem");
    assert_eq!(plan.tfvars.path, "clusters/production/terraform.tfvars");
    assert_eq!(
        plan.tfvars.contents,
        "kaws_account_id = \"12345678\"\n\
         kaws_availability_zone = \"us-east-1a\"\n\
         kaws_cluster = \"production\"\n\
         kaws_coreos_ami = \"ami-1234abcd\"\n\
         kaws_domain = \"example.com\"\n\
         kaws_iam_users = [\"alice\", \"bob\"]\n\
         kaws_instance_size = \"m3.medium\"\n\
         kaws_masters_max_size = \"3\"\n\
         kaws_masters_min_size = \"2\"\n\
         kaws_nodes_max_size = \"10\"\n\
         kaws_nodes_min_size = \"2\"\n\
         kaws_propagating_vgws = []\n\
         kaws_region = \"us-east-1\"\n\
         kaws_ssh_keys = [\"ssh-rsa AAAA\"]\n\
         kaws_version = \"1.4.0\"\n\
         kaws_zone_id = \"Z111111QQQQQQQ\"\n"
    );
    assert_eq!(plan.pki_stub_paths.len(), 16);
    assert_eq!(plan.pki_stub_paths[0], "clusters/production/etcd-ca.pem");
    assert_eq!(
        plan.pki_stub_paths[15],
        "clusters/production/k8s-node-key-encrypted.base64"
    );
    assert_eq!(
        plan.message,
        "Cluster \"production\" initialized! Commit clusters/production to Git."
    );
}

#[test]
fn initialization_with_empty_lists() {
    let new_cluster = NewCluster::new(
        "eu-west-1a".to_owned(),
        "0".to_owned(),
        Cluster::new("empty".to_owned(), "eu-west-1".to_owned()),
        "ami-0".to_owned(),
        "example.org".to_owned(),
        vec![],
        "t2.micro".to_owned(),
        "1.0.0".to_owned(),
        "1".to_owned(),
        "1".to_owned(),
        "1".to_owned(),
        "1".to_owned(),
        vec![],
        "Z0".to_owned(),
    );
    let plan = new_cluster.init();
    assert!(plan.tfvars.contents.contains("kaws_iam_users = []\n"));
    assert!(plan.tfvars.contents.contains("kaws_ssh_keys = []\n"));
}
