//! What a device says of itself and of the failures of its key store.

use crate::error::IoFailure;
use crate::text::concat2;
use vstd::prelude::*;
use vstd::string::StringExecFns;

verus! {

/// What can go wrong with a device's identity and keys.
#[derive(Debug)]
pub enum DeviceError {
    MachineId(String),
    Io(IoFailure),
    CertificateParams(String),
    KeyGeneration(String),
    CertificateGeneration(String),
    CertificatesNotFound { path: String },
    StorageDirectoryCreation { path: String, source: IoFailure },
}

impl DeviceError {
    pub fn machine_id(reason: &str) -> (e: Self)
        ensures
            e matches DeviceError::MachineId(m) && m@ == reason@,
    {
        DeviceError::MachineId(String::from_str(reason))
    }

    pub fn cert_params(reason: &str) -> (e: Self)
        ensures
            e matches DeviceError::CertificateParams(m) && m@ == reason@,
    {
        DeviceError::CertificateParams(String::from_str(reason))
    }

    pub fn key_gen(reason: &str) -> (e: Self)
        ensures
            e matches DeviceError::KeyGeneration(m) && m@ == reason@,
    {
        DeviceError::KeyGeneration(String::from_str(reason))
    }

    pub fn cert_gen(reason: &str) -> (e: Self)
        ensures
            e matches DeviceError::CertificateGeneration(m) && m@ == reason@,
    {
        DeviceError::CertificateGeneration(String::from_str(reason))
    }

    pub fn certs_not_found(path: &str) -> (e: Self)
        ensures
            e matches DeviceError::CertificatesNotFound { path: p } && p@ == path@,
    {
        DeviceError::CertificatesNotFound { path: String::from_str(path) }
    }

    pub fn storage_dir(path: &str, source: IoFailure) -> (e: Self)
        ensures
            e matches DeviceError::StorageDirectoryCreation { path: p, source: s } && p@ == path@
                && s == source,
    {
        DeviceError::StorageDirectoryCreation { path: String::from_str(path), source }
    }

    /// The code by which a command reports the error.
    pub open spec fn code_text(self) -> Seq<char> {
        match self {
            DeviceError::MachineId(_) => "MACHINE_ID_ERROR"@,
            DeviceError::Io(_) => "IO_ERROR"@,
            DeviceError::CertificateParams(_) => "CERT_PARAMS_ERROR"@,
            DeviceError::KeyGeneration(_) => "KEY_GEN_ERROR"@,
            DeviceError::CertificateGeneration(_) => "CERT_GEN_ERROR"@,
            DeviceError::CertificatesNotFound { .. } => "CERTS_NOT_FOUND"@,
            DeviceError::StorageDirectoryCreation { .. } => "STORAGE_DIR_ERROR"@,
        }
    }

    /// The human-readable description of the error.
    pub open spec fn message_text(self) -> Seq<char> {
        match self {
            DeviceError::MachineId(m) => "Failed to retrieve machine ID: "@ + m@,
            DeviceError::Io(e) => "IO error during key operation: "@ + e.message@,
            DeviceError::CertificateParams(m) => "Certificate parameter error: "@ + m@,
            DeviceError::KeyGeneration(m) => "Key generation error: "@ + m@,
            DeviceError::CertificateGeneration(m) => "Certificate generation error: "@ + m@,
            DeviceError::CertificatesNotFound { path } => "Certificates not found at path: "@
                + path@,
            DeviceError::StorageDirectoryCreation { path, .. } =>
                "Failed to create storage directory: "@ + path@,
        }
    }

    pub fn code(&self) -> (c: &'static str)
        ensures
            c@ == self.code_text(),
    {
        match self {
            DeviceError::MachineId(_) => "MACHINE_ID_ERROR",
            DeviceError::Io(_) => "IO_ERROR",
            DeviceError::CertificateParams(_) => "CERT_PARAMS_ERROR",
            DeviceError::KeyGeneration(_) => "KEY_GEN_ERROR",
            DeviceError::CertificateGeneration(_) => "CERT_GEN_ERROR",
            DeviceError::CertificatesNotFound { .. } => "CERTS_NOT_FOUND",
            DeviceError::StorageDirectoryCreation { .. } => "STORAGE_DIR_ERROR",
        }
    }

    pub fn message(&self) -> (m: String)
        ensures
            m@ == self.message_text(),
    {
        match self {
            DeviceError::MachineId(m) => concat2("Failed to retrieve machine ID: ", m.as_str()),
            DeviceError::Io(e) => concat2("IO error during key operation: ", e.message.as_str()),
            DeviceError::CertificateParams(m) => concat2(
                "Certificate parameter error: ",
                m.as_str(),
            ),
            DeviceError::KeyGeneration(m) => concat2("Key generation error: ", m.as_str()),
            DeviceError::CertificateGeneration(m) => concat2(
                "Certificate generation error: ",
                m.as_str(),
            ),
            DeviceError::CertificatesNotFound { path } => concat2(
                "Certificates not found at path: ",
                path.as_str(),
            ),
            DeviceError::StorageDirectoryCreation { path, .. } => concat2(
                "Failed to create storage directory: ",
                path.as_str(),
            ),
        }
    }
}

/// An error as a command hands it to its caller.
#[derive(Debug)]
pub struct CommandError {
    pub code: String,
    pub message: String,
    pub details: Option<String>,
}

impl CommandError {
    pub fn new(code: &str, message: &str) -> (e: Self)
        ensures
            e.code@ == code@,
            e.message@ == message@,
            e.details is None,
    {
        CommandError {
            code: String::from_str(code),
            message: String::from_str(message),
            details: None,
        }
    }
}

impl From<DeviceError> for CommandError {
    /// The error with the code and the description of the device error.
    fn from(err: DeviceError) -> (e: Self)
        ensures
            e.code@ == err.code_text(),
            e.message@ == err.message_text(),
            e.details is None,
    {
        let message = err.message();
        CommandError::new(err.code(), message.as_str())
    }
}

impl vstd::std_specs::convert::FromSpecImpl<DeviceError> for CommandError {
    /// The strings of the result are new ones, so it is described by the
    /// clauses of `from` and not by a value.
    open spec fn obeys_from_spec() -> bool {
        false
    }

    open spec fn from_spec(err: DeviceError) -> Self {
        arbitrary()
    }
}

impl From<String> for CommandError {
    /// An error without a kind: the code is "ERROR".
    fn from(msg: String) -> (e: Self)
        ensures
            e.code@ == "ERROR"@,
            e.message@ == msg@,
            e.details is None,
    {
        CommandError::new("ERROR", msg.as_str())
    }
}

impl vstd::std_specs::convert::FromSpecImpl<String> for CommandError {
    /// The strings of the result are new ones, so it is described by the
    /// clauses of `from` and not by a value.
    open spec fn obeys_from_spec() -> bool {
        false
    }

    open spec fn from_spec(msg: String) -> Self {
        arbitrary()
    }
}

/// The operating system of a device.
#[derive(Debug, Clone)]
pub struct PlatformInfo {
    pub os: String,
    pub version: String,
    pub long_version: String,
}

/// The address of a device.
#[derive(Debug, Clone)]
pub struct IpInfo {
    pub ipv4: String,
    pub ipv6: Option<String>,
    pub is_tailscale: bool,
    /// Why the address is not known, where it is not.
    pub error: Option<String>,
}

impl Default for IpInfo {
    fn default() -> (info: Self)
        ensures
            info.ipv4@ == "Unknown"@,
            info.ipv6 is None,
            !info.is_tailscale,
            info.error is None,
    {
        IpInfo {
            ipv4: String::from_str("Unknown"),
            ipv6: None,
            is_tailscale: false,
            error: None,
        }
    }
}

impl IpInfo {
    /// An unknown address, with the reason why it is not known.
    pub fn with_error(error: &str) -> (info: Self)
        ensures
            info.ipv4@ == "Unknown"@,
            info.ipv6 is None,
            !info.is_tailscale,
            info.error matches Some(e) && e@ == error@,
    {
        IpInfo {
            ipv4: String::from_str("Unknown"),
            ipv6: None,
            is_tailscale: false,
            error: Some(String::from_str(error)),
        }
    }
}

} // verus!
