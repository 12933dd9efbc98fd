use etcdrs::server_config::{EtcdClusterConfig, EtcdServerConfig, LaunchArg, ServerName};
use std::path::PathBuf;

fn is_generated(text: &str, prefix: &str) -> bool {
    text.len() == prefix.len() + 4
        && text.starts_with(prefix)
        && text[prefix.len()..].chars().all(|c| c.is_ascii_lowercase())
}

fn texts(config: &EtcdServerConfig) -> Vec<String> {
    config
        .launch_args()
        .into_iter()
        .map(|arg| match arg {
            LaunchArg::Text(t) => t,
            LaunchArg::Path(p) => format!("<{}>", p.display()),
        })
        .collect()
}

#[test]
fn generated_server_names() {
    let name = ServerName::generate();
    assert!(is_generated(name.as_str(), "etcd-srvr-"), "{}", name.as_str());
}

#[test]
fn single_server_command_line() {
    let name = ServerName::generate();
    let shown = name.as_str().to_string();
    let config = EtcdServerConfig::from_parts(name, PathBuf::from("/tmp/data"), 2379, 12380);
    assert_eq!(config.connect_string(), "http://127.0.0.1:2379");
    assert_eq!(config.cluster_token(), None);
    assert_eq!(
        texts(&config),
        vec![
            "--name".to_string(),
            shown,
            "--data-dir".to_string(),
            "</tmp/data>".to_string(),
            "--listen-client-urls".to_string(),
            "http://127.0.0.1:2379".to_string(),
            "--advertise-client-urls".to_string(),
            "http://127.0.0.1:2379".to_string(),
            "--listen-peer-urls".to_string(),
            "http://127.0.0.1:12380".to_string(),
        ]
    );
}

#[test]
fn cluster_members_share_token_and_initial_cluster() {
    let a = EtcdServerConfig::from_parts(ServerName::generate(), PathBuf::from("/tmp/a"), 1, 2);
    let b = EtcdServerConfig::from_parts(ServerName::generate(), PathBuf::from("/tmp/b"), 3, 65535);
    let expected = format!(
        "{}=http://127.0.0.1:2,{}=http://127.0.0.1:65535",
        a.name().as_str(),
        b.name().as_str()
    );
    let distinct = a.name().as_str() != b.name().as_str();
    let cluster = EtcdClusterConfig::with_peers(vec![a, b]);
    assert!(is_generated(cluster.cluster_token(), "cluster-"));
    if distinct {
        assert_eq!(cluster.configs().len(), 2);
    }
    for config in cluster.configs() {
        assert_eq!(config.cluster_token(), Some(cluster.cluster_token()));
        assert_eq!(config.initial_cluster(), Some(expected.as_str()));
        let args = texts(config);
        assert_eq!(args.len(), 16);
        assert_eq!(args[10], "--initial-cluster-token");
        assert_eq!(args[12], "--initial-cluster");
        assert_eq!(args[13], expected);
        assert_eq!(args[14], "--initial-advertise-peer-urls");
    }
}

#[test]
fn empty_cluster() {
    let cluster = EtcdClusterConfig::with_peers(vec![]);
    assert!(cluster.configs().is_empty());
    let (token, configs) = cluster.into_parts();
    assert!(token.starts_with("cluster-"));
    assert!(configs.is_empty());
}
