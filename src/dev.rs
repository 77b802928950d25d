//! The options of the development server command.
use vstd::prelude::*;
use crate::runtime_config::{
    RuntimeConfig, RuntimeConfigError, parse_runtime_config, config_model, entry_views,
    has_separator,
};

verus! {

/// The options of the development server. Paths are held as text.
pub struct DevCommand {
    /// The project directory.
    pub project_dir: String,
    /// The built component to serve, when not the project's default.
    pub artifact_path: Option<String>,
    /// The `host:port` to listen on.
    pub address: String,
    /// Runtime configuration as `key=value` entries.
    pub runtime_config: Vec<String>,
    /// The blobstore root, when not the default one.
    pub blobstore_root: Option<String>,
    /// The certificate file (PEM).
    pub tls_cert: Option<String>,
    /// The private key file (PEM).
    pub tls_key: Option<String>,
    /// The CA bundle (PEM) for client certificates.
    pub tls_ca: Option<String>,
}

/// The address listened on unless another is given.
pub const DEFAULT_ADDRESS: &'static str = "0.0.0.0:8000";

/// The text that the command reports on success.
pub const DEV_SUCCESS: &'static str = "Development command executed successfully";

/// The TLS files to load: certificate and key always come together.
pub struct TlsFiles {
    pub cert: String,
    pub key: String,
    pub ca: Option<String>,
}

/// Why the options were refused.
#[derive(Debug, Clone, Copy, PartialEq, Eq, Structural)]
pub enum DevError {
    /// A certificate was given without a key.
    TlsCertWithoutKey,
    /// A key was given without a certificate.
    TlsKeyWithoutCert,
}

fn copy_string(s: &String) -> (r: String)
    ensures
        r@ == s@,
{
    s.clone()
}

fn copy_optional(s: &Option<String>) -> (r: Option<String>)
    ensures
        match (r, s) {
            (Some(a), Some(b)) => a@ == b@,
            (None, None) => true,
            _ => false,
        },
{
    match s {
        Some(v) => Some(v.clone()),
        None => None,
    }
}

impl DevCommand {
    /// Reports success.
    pub fn handle(&self) -> (r: String)
        ensures
            r@ == DEV_SUCCESS@,
    {
        String::from_str(DEV_SUCCESS)
    }

    /// The TLS files, when TLS is asked for. A certificate without a key,
    /// or a key without a certificate, is refused; the CA bundle is only
    /// read together with the other two.
    pub fn tls_files(&self) -> (r: Result<Option<TlsFiles>, DevError>)
        ensures
            match (self.tls_cert, self.tls_key) {
                (Some(c), Some(k)) => r matches Ok(Some(f)) && f.cert@ == c@ && f.key@ == k@ && (
                match (f.ca, self.tls_ca) {
                    (Some(a), Some(b)) => a@ == b@,
                    (None, None) => true,
                    _ => false,
                }),
                (Some(_), None) => r == Err::<Option<TlsFiles>, DevError>(
                    DevError::TlsCertWithoutKey,
                ),
                (None, Some(_)) => r == Err::<Option<TlsFiles>, DevError>(
                    DevError::TlsKeyWithoutCert,
                ),
                (None, None) => r matches Ok(None),
            },
    {
        match (&self.tls_cert, &self.tls_key) {
            (Some(c), Some(k)) => Ok(
                Some(TlsFiles { cert: copy_string(c), key: copy_string(k), ca: copy_optional(&self.tls_ca) }),
            ),
            (Some(_), None) => Err(DevError::TlsCertWithoutKey),
            (None, Some(_)) => Err(DevError::TlsKeyWithoutCert),
            (None, None) => Ok(None),
        }
    }

    /// The runtime configuration that the entries denote.
    pub fn parsed_runtime_config(&self) -> (r: Result<RuntimeConfig, RuntimeConfigError>)
        ensures
            match r {
                Ok(c) => {
                    &&& forall|i: int|
                        0 <= i < self.runtime_config@.len() ==> has_separator(
                            #[trigger] self.runtime_config@[i]@,
                        )
                    &&& c@ == config_model(entry_views(self.runtime_config@))
                },
                Err(RuntimeConfigError::MissingSeparator(k)) => {
                    &&& k < self.runtime_config@.len()
                    &&& !has_separator(self.runtime_config@[k as int]@)
                    &&& forall|j: int|
                        0 <= j < k ==> has_separator(#[trigger] self.runtime_config@[j]@)
                },
            },
    {
        parse_runtime_config(&self.runtime_config)
    }

    /// The blobstore root: the one given, else `default_root`.
    pub fn blobstore_root_or(&self, default_root: &str) -> (r: String)
        ensures
            r@ == match self.blobstore_root {
                Some(p) => p@,
                None => default_root@,
            },
    {
        match &self.blobstore_root {
            Some(p) => copy_string(p),
            None => String::from_str(default_root),
        }
    }

    /// Whether requests will be served over TLS.
    pub fn uses_tls(&self) -> (r: bool)
        ensures
            r == (self.tls_cert is Some && self.tls_key is Some),
    {
        self.tls_cert.is_some() && self.tls_key.is_some()
    }
}

} // verus!
