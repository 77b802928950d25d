use rex::dev::{DevCommand, DevError, DEFAULT_ADDRESS};

fn command() -> DevCommand {
    DevCommand {
        project_dir: ".".to_string(),
        artifact_path: None,
        address: DEFAULT_ADDRESS.to_string(),
        runtime_config: vec!["foo=bar".to_string()],
        blobstore_root: None,
        tls_cert: None,
        tls_key: None,
        tls_ca: None,
    }
}

#[test]
fn plain_command_has_no_tls() {
    let c = command();
    assert!(matches!(c.tls_files(), Ok(None)));
    assert!(!c.uses_tls());
    assert_eq!(c.handle(), "Development command executed successfully");
    assert_eq!(c.parsed_runtime_config().unwrap().get("foo"), Some("bar".to_string()));
    assert_eq!(c.blobstore_root_or("/data/blobs"), "/data/blobs");
}

#[test]
fn tls_files_come_in_pairs() {
    let mut c = command();
    c.tls_cert = Some("c.pem".to_string());
    assert_eq!(c.tls_files().err(), Some(DevError::TlsCertWithoutKey));
    c.tls_key = Some("k.pem".to_string());
    c.tls_ca = Some("ca.pem".to_string());
    let f = c.tls_files().unwrap().unwrap();
    assert_eq!(f.cert, "c.pem");
    assert_eq!(f.key, "k.pem");
    assert_eq!(f.ca, Some("ca.pem".to_string()));
    assert!(c.uses_tls());
    c.tls_cert = None;
    assert_eq!(c.tls_files().err(), Some(DevError::TlsKeyWithoutCert));
    c.blobstore_root = Some("/b".to_string());
    assert_eq!(c.blobstore_root_or("/data"), "/b");
}
