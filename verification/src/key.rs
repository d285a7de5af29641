//! The device's key material: a certificate and a private key in DER
//! encoding, and the fingerprint by which peers pin the certificate.

use crate::digest::{compute_fingerprint, fingerprint_text, is_lower_hex_digit};
use vstd::prelude::*;
use vstd::string::StringExecFns;

verus! {

/// The name of the directory, below the application's data directory, that
/// holds the key files.
pub const KEY_DIRECTORY: &'static str = "key";

pub const CERT_DER_FILE: &'static str = "cert.der";

pub const KEY_DER_FILE: &'static str = "key.der";

pub const CERT_PEM_FILE: &'static str = "cert.pem";

pub const KEY_PEM_FILE: &'static str = "key.pem";

/// How keys are named and where they are kept.
#[derive(Debug, Clone)]
pub struct KeyConfig {
    /// A name that every certificate carries beside the host's.
    pub common_name: String,
    /// Where the keys are kept; the application's data directory if none is
    /// given.
    pub storage_dir: Option<String>,
}

impl Default for KeyConfig {
    fn default() -> (c: Self)
        ensures
            c.common_name@ == "Nekoshare"@,
            c.storage_dir is None,
    {
        KeyConfig { common_name: String::from_str("Nekoshare"), storage_dir: None }
    }
}

/// A certificate, its private key, and the certificate's fingerprint.
#[derive(Debug, Clone)]
pub struct KeyDer {
    pub cert_der: Vec<u8>,
    pub key_der: Vec<u8>,
    pub fingerprint: String,
}

impl KeyDer {
    /// The fingerprint is that of the certificate.
    pub open spec fn consistent(&self) -> bool {
        self.fingerprint@ == fingerprint_text(self.cert_der@)
    }

    pub fn new(cert_der: Vec<u8>, key_der: Vec<u8>) -> (key: Self)
        ensures
            key.cert_der == cert_der,
            key.key_der == key_der,
            key.consistent(),
            key.fingerprint@.len() == 64,
            forall|i: int| 0 <= i < 64 ==> is_lower_hex_digit(#[trigger] key.fingerprint@[i]),
    {
        let fingerprint = Self::compute_fingerprint(cert_der.as_slice());
        KeyDer { cert_der, key_der, fingerprint }
    }

    /// The SHA-256 digest of the certificate in lower-case hexadecimal.
    pub fn compute_fingerprint(cert_der: &[u8]) -> (fingerprint: String)
        ensures
            fingerprint@ == fingerprint_text(cert_der@),
            fingerprint@.len() == 64,
            forall|i: int| 0 <= i < 64 ==> is_lower_hex_digit(#[trigger] fingerprint@[i]),
    {
        compute_fingerprint(cert_der)
    }
}

/// The keeper of the device's key: it hands the certificate, the private key
/// and the fingerprint to whoever sets up a TLS session.
#[derive(Debug)]
pub struct DeviceManager {
    key_der: KeyDer,
}

impl DeviceManager {
    pub closed spec fn key_view(&self) -> KeyDer {
        self.key_der
    }

    pub fn new(key_der: KeyDer) -> (m: Self)
        ensures
            m.key_view() == key_der,
    {
        DeviceManager { key_der }
    }

    /// A copy of the device's key.
    pub fn key(&self) -> (key: KeyDer)
        ensures
            key.cert_der@ == self.key_view().cert_der@,
            key.key_der@ == self.key_view().key_der@,
            key.fingerprint@ == self.key_view().fingerprint@,
    {
        KeyDer {
            cert_der: self.key_der.cert_der.clone(),
            key_der: self.key_der.key_der.clone(),
            fingerprint: self.key_der.fingerprint.clone(),
        }
    }

    /// The fingerprint of the device's certificate.
    pub fn fingerprint(&self) -> (fingerprint: &str)
        ensures
            fingerprint@ == self.key_view().fingerprint@,
    {
        self.key_der.fingerprint.as_str()
    }
}

/// What the key manager wants done next.
#[derive(Debug)]
pub enum KeyStep {
    /// The stored key is in use.
    Ready(KeyDer),
    /// No key is stored: one is to be generated for these subject names, and
    /// handed to `generate_certificates`.
    Generate { subject_names: Vec<String> },
}

/// Decides whether the device's key is loaded or made anew.
#[derive(Debug)]
pub struct KeyManager {
    config: KeyConfig,
}

impl KeyManager {
    pub closed spec fn config(&self) -> KeyConfig {
        self.config
    }

    /// The subject names of a new certificate: the host, then the common
    /// name.
    pub open spec fn subject_names(&self, host: Seq<char>) -> Seq<Seq<char>> {
        seq![host, self.config().common_name@]
    }

    /// A manager with the given configuration, or with the default one.
    pub fn new(config: Option<KeyConfig>) -> (m: Self)
        ensures
            match config {
                Some(c) => m.config() == c,
                None => m.config().common_name@ == "Nekoshare"@ && m.config().storage_dir is None,
            },
    {
        match config {
            Some(c) => KeyManager { config: c },
            None => KeyManager { config: KeyConfig::default() },
        }
    }

    /// Where the keys are kept, if the configuration says so.
    pub fn storage_dir(&self) -> (dir: &Option<String>)
        ensures
            *dir == self.config().storage_dir,
    {
        &self.config.storage_dir
    }

    /// With a stored certificate and key, they are the device's key. With
    /// none, a key is to be generated for `host`.
    pub fn get_or_create(&self, stored: Option<(Vec<u8>, Vec<u8>)>, host: String) -> (step:
        KeyStep)
        ensures
            match stored {
                Some((cert, key)) => step matches KeyStep::Ready(k) && k.cert_der == cert
                    && k.key_der == key && k.consistent(),
                None => step matches KeyStep::Generate { subject_names } && subject_names@.len()
                    == 2 && subject_names@[0] == host && subject_names@[1]@
                    == self.config().common_name@,
            },
    {
        match stored {
            Some((cert, key)) => KeyStep::Ready(KeyDer::new(cert, key)),
            None => {
                let mut names: Vec<String> = Vec::new();
                names.push(host);
                names.push(self.config.common_name.clone());
                KeyStep::Generate { subject_names: names }
            },
        }
    }

    /// Takes a newly generated certificate and key into use.
    pub fn generate_certificates(&self, cert_der: Vec<u8>, key_der: Vec<u8>) -> (key: KeyDer)
        ensures
            key.cert_der == cert_der,
            key.key_der == key_der,
            key.consistent(),
    {
        KeyDer::new(cert_der, key_der)
    }
}

} // verus!
