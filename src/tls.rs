//! TLS material for the listener: a certificate chain, one private key and
//! an optional CA bundle, each already decoded from PEM. Material that
//! cannot serve a listener is refused, so that the server never starts
//! plaintext-only or broken in its place.
use vstd::prelude::*;

verus! {

/// Why TLS material was refused; each stops the server from starting.
#[derive(Debug, Clone, Copy, PartialEq, Eq, Structural)]
pub enum TlsError {
    /// The certificate file holds no certificate.
    NoCertificates,
    /// The key file holds no private key.
    NoPrivateKey,
    /// A CA bundle was given and holds no certificate.
    NoCaCertificates,
}

/// The text that precedes the offending file's path in a TLS error.
pub open spec fn tls_error_text(e: TlsError) -> Seq<char> {
    match e {
        TlsError::NoCertificates => "No certificates found in file: "@,
        TlsError::NoPrivateKey => "No private key found in file: "@,
        TlsError::NoCaCertificates => "No CA certificates found in file: "@,
    }
}

impl TlsError {
    /// A message naming the file that the material came from.
    pub fn describe(&self, path: &str) -> (r: String)
        ensures
            r@ == tls_error_text(*self) + path@,
    {
        let head = match self {
            TlsError::NoCertificates => String::from_str("No certificates found in file: "),
            TlsError::NoPrivateKey => String::from_str("No private key found in file: "),
            TlsError::NoCaCertificates => String::from_str("No CA certificates found in file: "),
        };
        head.concat(path)
    }
}

/// Validated TLS material, fixed once the listener starts.
pub struct TlsMaterial {
    cert_chain: Vec<Vec<u8>>,
    key: Vec<u8>,
    ca_chain: Option<Vec<Vec<u8>>>,
}

pub open spec fn optional_chain(c: Option<Vec<Vec<u8>>>) -> Option<Seq<Seq<u8>>> {
    match c {
        Some(v) => Some(v.deep_view()),
        None => None,
    }
}

pub open spec fn optional_key(k: Option<Vec<u8>>) -> Option<Seq<u8>> {
    match k {
        Some(v) => Some(v@),
        None => None,
    }
}

/// The outcome of validating TLS material. Certificates are checked first,
/// then the key, then the CA bundle.
pub open spec fn tls_check(
    cert_chain: Seq<Seq<u8>>,
    key: Option<Seq<u8>>,
    ca_chain: Option<Seq<Seq<u8>>>,
) -> Option<TlsError> {
    if cert_chain.len() == 0 {
        Some(TlsError::NoCertificates)
    } else if key is None {
        Some(TlsError::NoPrivateKey)
    } else if ca_chain matches Some(c) && c.len() == 0 {
        Some(TlsError::NoCaCertificates)
    } else {
        None
    }
}

impl TlsMaterial {
    /// The DER of each certificate of the chain, leaf first.
    pub closed spec fn certs(&self) -> Seq<Seq<u8>> {
        self.cert_chain.deep_view()
    }

    /// The DER of the private key.
    pub closed spec fn private_key(&self) -> Seq<u8> {
        self.key@
    }

    /// The DER of each certificate of the CA bundle, if one was given.
    pub closed spec fn client_ca(&self) -> Option<Seq<Seq<u8>>> {
        optional_chain(self.ca_chain)
    }

    /// The chain is non-empty, and so is the CA bundle where there is one.
    pub open spec fn wf(&self) -> bool {
        &&& self.certs().len() > 0
        &&& (self.client_ca() matches Some(c) ==> c.len() > 0)
    }

    /// Validates decoded material: `key` is the first private key found in
    /// the key file, `ca_chain` the certificates of the CA bundle if one
    /// was given.
    pub fn new(
        cert_chain: Vec<Vec<u8>>,
        key: Option<Vec<u8>>,
        ca_chain: Option<Vec<Vec<u8>>>,
    ) -> (r: Result<TlsMaterial, TlsError>)
        ensures
            match r {
                Ok(m) => {
                    &&& tls_check(cert_chain.deep_view(), optional_key(key), optional_chain(ca_chain)) is None
                    &&& m.wf()
                    &&& m.certs() == cert_chain.deep_view()
                    &&& key matches Some(k) && m.private_key() == k@
                    &&& m.client_ca() == optional_chain(ca_chain)
                },
                Err(e) => tls_check(cert_chain.deep_view(), optional_key(key), optional_chain(ca_chain)) == Some(e),
            },
    {
        if cert_chain.len() == 0 {
            return Err(TlsError::NoCertificates);
        }
        let key = match key {
            Some(k) => k,
            None => {
                return Err(TlsError::NoPrivateKey);
            },
        };
        match &ca_chain {
            Some(c) => {
                if c.len() == 0 {
                    return Err(TlsError::NoCaCertificates);
                }
            },
            None => {},
        }
        Ok(TlsMaterial { cert_chain, key, ca_chain })
    }

    /// The certificate chain, leaf first.
    pub fn cert_chain(&self) -> (r: &Vec<Vec<u8>>)
        ensures
            r.deep_view() == self.certs(),
    {
        &self.cert_chain
    }

    /// The private key.
    pub fn key(&self) -> (r: &Vec<u8>)
        ensures
            r@ == self.private_key(),
    {
        &self.key
    }

    /// The CA bundle, if one was given.
    pub fn ca_chain(&self) -> (r: Option<&Vec<Vec<u8>>>)
        ensures
            match r {
                Some(c) => self.client_ca() == Some(c.deep_view()),
                None => self.client_ca() is None,
            },
    {
        match &self.ca_chain {
            Some(c) => Some(c),
            None => None,
        }
    }
}

/// The DER of each certificate section of a PEM text, in order; `None`
/// where a section cannot be read.
pub uninterp spec fn pem_certificates(pem: Seq<u8>) -> Option<Seq<Seq<u8>>>;

/// The DER of the first private key section of a PEM text, `Some(None)`
/// where it holds none; `None` where a section cannot be read.
pub uninterp spec fn pem_private_key(pem: Seq<u8>) -> Option<Option<Seq<u8>>>;

/// Relies on rustls_pemfile::certs: the certificate sections of `pem` in
/// order, skipping sections of other kinds; an error on a malformed section.
#[verifier::external_body]
fn decode_certificates(pem: &[u8]) -> (r: Option<Vec<Vec<u8>>>)
    ensures
        match r {
            Some(v) => pem_certificates(pem@) == Some(v.deep_view()),
            None => pem_certificates(pem@) is None,
        },
{
    let mut rd: &[u8] = pem;
    rustls_pemfile::certs(&mut rd).map(|c| c.map(|c| c.to_vec())).collect::<Result<Vec<_>, _>>().ok()
}

/// Relies on rustls_pemfile::private_key: the first PKCS#1, PKCS#8 or SEC1
/// key section of `pem`; an error on a malformed section.
#[verifier::external_body]
fn decode_private_key(pem: &[u8]) -> (r: Option<Option<Vec<u8>>>)
    ensures
        match r {
            Some(Some(k)) => pem_private_key(pem@) == Some(Some(k@)),
            Some(None) => pem_private_key(pem@) == Some(None::<Seq<u8>>),
            None => pem_private_key(pem@) is None,
        },
{
    let mut rd: &[u8] = pem;
    match rustls_pemfile::private_key(&mut rd) {
        Ok(Some(k)) => Some(Some(k.secret_der().to_vec())),
        Ok(None) => Some(None),
        Err(_) => None,
    }
}

/// Which of the TLS files a failure concerns.
#[derive(Debug, Clone, Copy, PartialEq, Eq, Structural)]
pub enum TlsFile {
    Certificate,
    PrivateKey,
    CaBundle,
}

/// Why TLS material could not be loaded.
#[derive(Debug, Clone, Copy, PartialEq, Eq, Structural)]
pub enum TlsLoadError {
    /// The file is not well-formed PEM.
    Malformed(TlsFile),
    /// The file was read but its contents cannot serve.
    Refused(TlsError),
}

/// What loading the three PEM texts gives, in the order the files are
/// taken: the certificate file, then the key file, then the CA bundle.
pub open spec fn tls_load_outcome(
    cert_pem: Seq<u8>,
    key_pem: Seq<u8>,
    ca_pem: Option<Seq<u8>>,
) -> Result<(Seq<Seq<u8>>, Seq<u8>, Option<Seq<Seq<u8>>>), TlsLoadError> {
    match pem_certificates(cert_pem) {
        None => Err(TlsLoadError::Malformed(TlsFile::Certificate)),
        Some(c) => if c.len() == 0 {
            Err(TlsLoadError::Refused(TlsError::NoCertificates))
        } else {
            match pem_private_key(key_pem) {
                None => Err(TlsLoadError::Malformed(TlsFile::PrivateKey)),
                Some(None) => Err(TlsLoadError::Refused(TlsError::NoPrivateKey)),
                Some(Some(k)) => match ca_pem {
                    None => Ok((c, k, None)),
                    Some(p) => match pem_certificates(p) {
                        None => Err(TlsLoadError::Malformed(TlsFile::CaBundle)),
                        Some(a) => if a.len() == 0 {
                            Err(TlsLoadError::Refused(TlsError::NoCaCertificates))
                        } else {
                            Ok((c, k, Some(a)))
                        },
                    },
                },
            }
        },
    }
}

/// A certificate file without certificates stops startup with
/// `NoCertificates`, whatever the other files hold; a certificate chain with
/// a private key and no CA bundle is accepted as it is.
pub proof fn lemma_tls_startup(
    cert_pem: Seq<u8>,
    key_pem: Seq<u8>,
    certs: Seq<Seq<u8>>,
    key: Option<Seq<u8>>,
    ca: Option<Seq<Seq<u8>>>,
)
    ensures
        certs.len() == 0 ==> tls_check(certs, key, ca) == Some(TlsError::NoCertificates),
        certs.len() > 0 && key is Some && ca is None ==> tls_check(certs, key, ca) is None,
        pem_certificates(cert_pem) == Some(Seq::<Seq<u8>>::empty()) ==> forall|ca_pem: Option<Seq<u8>>|
            #[trigger] tls_load_outcome(cert_pem, key_pem, ca_pem) == Err::<
                (Seq<Seq<u8>>, Seq<u8>, Option<Seq<Seq<u8>>>),
                TlsLoadError,
            >(TlsLoadError::Refused(TlsError::NoCertificates)),
        (pem_certificates(cert_pem) matches Some(c) && c.len() > 0) && (pem_private_key(
            key_pem,
        ) matches Some(Some(k))) ==> tls_load_outcome(cert_pem, key_pem, None) == Ok::<
            (Seq<Seq<u8>>, Seq<u8>, Option<Seq<Seq<u8>>>),
            TlsLoadError,
        >((pem_certificates(cert_pem)->0, pem_private_key(key_pem)->0->0, None)),
{
}

pub open spec fn optional_bytes(b: Option<&[u8]>) -> Option<Seq<u8>> {
    match b {
        Some(s) => Some(s@),
        None => None,
    }
}

/// Decodes and validates the contents of the certificate file, the key file
/// and, if given, the CA bundle.
pub fn decode_tls_material(cert_pem: &[u8], key_pem: &[u8], ca_pem: Option<&[u8]>) -> (r: Result<
    TlsMaterial,
    TlsLoadError,
>)
    ensures
        match r {
            Ok(m) => tls_load_outcome(cert_pem@, key_pem@, optional_bytes(ca_pem)) == Ok::<
                (Seq<Seq<u8>>, Seq<u8>, Option<Seq<Seq<u8>>>),
                TlsLoadError,
            >((m.certs(), m.private_key(), m.client_ca())),
            Err(e) => tls_load_outcome(cert_pem@, key_pem@, optional_bytes(ca_pem)) == Err::<
                (Seq<Seq<u8>>, Seq<u8>, Option<Seq<Seq<u8>>>),
                TlsLoadError,
            >(e),
        },
{
    let certs = match decode_certificates(cert_pem) {
        Some(c) => c,
        None => {
            return Err(TlsLoadError::Malformed(TlsFile::Certificate));
        },
    };
    if certs.len() == 0 {
        return Err(TlsLoadError::Refused(TlsError::NoCertificates));
    }
    let key = match decode_private_key(key_pem) {
        Some(Some(k)) => k,
        Some(None) => {
            return Err(TlsLoadError::Refused(TlsError::NoPrivateKey));
        },
        None => {
            return Err(TlsLoadError::Malformed(TlsFile::PrivateKey));
        },
    };
    let ca = match ca_pem {
        Some(p) => match decode_certificates(p) {
            Some(a) => {
                if a.len() == 0 {
                    return Err(TlsLoadError::Refused(TlsError::NoCaCertificates));
                }
                Some(a)
            },
            None => {
                return Err(TlsLoadError::Malformed(TlsFile::CaBundle));
            },
        },
        None => None,
    };
    match TlsMaterial::new(certs, Some(key), ca) {
        Ok(m) => Ok(m),
        Err(e) => Err(TlsLoadError::Refused(e)),
    }
}

} // verus!
