//! Configuration of clients, servers and transfers.

use crate::text::{concat3, decimal_string, decimal_text};
use vstd::prelude::*;
use vstd::string::StringExecFns;

verus! {

/// How a client reaches its peer.
#[derive(Debug, Clone)]
pub struct SocketClientConfig {
    pub device_id: String,
    pub target_id: Option<String>,
    pub target_address: String,
    pub use_tls: bool,
    pub fingerprint: Option<String>,
}

impl SocketClientConfig {
    /// A configuration with TLS on, no target id and no pinned fingerprint.
    pub fn new(device_id: String, target_address: String) -> (c: Self)
        ensures
            c.device_id == device_id,
            c.target_id is None,
            c.target_address == target_address,
            c.use_tls,
            c.fingerprint is None,
    {
        SocketClientConfig {
            device_id,
            target_id: None,
            target_address,
            use_tls: true,
            fingerprint: None,
        }
    }

    pub fn with_target_id(self, target_id: String) -> (c: Self)
        ensures
            c == (SocketClientConfig { target_id: Some(target_id), ..self }),
    {
        let mut c = self;
        c.target_id = Some(target_id);
        c
    }

    pub fn with_tls(self, enabled: bool) -> (c: Self)
        ensures
            c == (SocketClientConfig { use_tls: enabled, ..self }),
    {
        let mut c = self;
        c.use_tls = enabled;
        c
    }

    /// Pins the peer's certificate. A pin makes no sense without TLS, so TLS
    /// is switched on with it.
    pub fn with_fingerprint(self, fingerprint: String) -> (c: Self)
        ensures
            c == (SocketClientConfig { fingerprint: Some(fingerprint), use_tls: true, ..self }),
    {
        let mut c = self;
        c.fingerprint = Some(fingerprint);
        c.use_tls = true;
        c
    }
}

/// Where a server listens.
#[derive(Debug, Clone)]
pub struct ServerConfig {
    pub host: String,
    pub port: u16,
}

impl ServerConfig {
    /// All interfaces, and a port that the operating system picks.
    pub fn new() -> (c: Self)
        ensures
            c.host@ == "0.0.0.0"@,
            c.port == 0,
    {
        ServerConfig { host: String::from_str("0.0.0.0"), port: 0 }
    }

    /// The address to bind: the host, a colon, the port in decimal.
    pub fn bind_address(&self) -> (address: String)
        ensures
            address@ == self.host@ + ":"@ + decimal_text(self.port as nat),
    {
        let port = decimal_string(self.port as u64);
        concat3(self.host.as_str(), ":", port.as_str())
    }
}

impl Default for ServerConfig {
    fn default() -> (c: Self)
        ensures
            c.host@ == "0.0.0.0"@,
            c.port == 0,
    {
        ServerConfig::new()
    }
}

/// How files are cut, buffered and flushed.
#[derive(Debug, Clone, Copy, PartialEq, Eq, Structural)]
pub struct TransferConfig {
    /// Most bytes of file data in one chunk packet.
    pub chunk_size: usize,
    pub write_buffer_size: usize,
    pub read_buffer_size: usize,
    /// Bytes written since the last flush that force the next one.
    pub flush_threshold: usize,
    /// Milliseconds after which pending bytes are flushed.
    pub flush_interval_ms: u64,
    pub tcp_nodelay: bool,
    pub preallocate_files: bool,
    pub sync_on_complete: bool,
    pub outgoing_channel_size: usize,
    pub incoming_channel_size: usize,
    /// Most chunk packets that may be queued and not yet written.
    pub max_in_flight_chunks: usize,
}

impl TransferConfig {
    pub open spec fn spec_lan_optimized() -> TransferConfig {
        TransferConfig {
            chunk_size: 1048576,
            write_buffer_size: 2097152,
            read_buffer_size: 2097152,
            flush_threshold: 4194304,
            flush_interval_ms: 50,
            tcp_nodelay: true,
            preallocate_files: false,
            sync_on_complete: true,
            outgoing_channel_size: 64,
            incoming_channel_size: 64,
            max_in_flight_chunks: 8,
        }
    }

    pub open spec fn spec_low_memory() -> TransferConfig {
        TransferConfig {
            chunk_size: 262144,
            write_buffer_size: 262144,
            read_buffer_size: 262144,
            flush_threshold: 524288,
            flush_interval_ms: 100,
            tcp_nodelay: true,
            preallocate_files: false,
            sync_on_complete: false,
            outgoing_channel_size: 16,
            incoming_channel_size: 16,
            max_in_flight_chunks: 2,
        }
    }

    pub open spec fn spec_wan_optimized() -> TransferConfig {
        TransferConfig {
            chunk_size: 65536,
            write_buffer_size: 524288,
            read_buffer_size: 524288,
            flush_threshold: 262144,
            flush_interval_ms: 200,
            tcp_nodelay: false,
            preallocate_files: true,
            sync_on_complete: true,
            outgoing_channel_size: 128,
            incoming_channel_size: 128,
            max_in_flight_chunks: 32,
        }
    }

    /// For a local network: 1 MiB chunks, 2 MiB buffers, a flush every 4 MiB
    /// or 50 ms, eight chunks in flight.
    #[verifier::when_used_as_spec(spec_lan_optimized)]
    pub fn lan_optimized() -> (c: Self)
        ensures
            c == Self::spec_lan_optimized(),
    {
        TransferConfig {
            chunk_size: 1024 * 1024,
            write_buffer_size: 2 * 1024 * 1024,
            read_buffer_size: 2 * 1024 * 1024,
            flush_threshold: 4 * 1024 * 1024,
            flush_interval_ms: 50,
            tcp_nodelay: true,
            preallocate_files: false,
            sync_on_complete: true,
            outgoing_channel_size: 64,
            incoming_channel_size: 64,
            max_in_flight_chunks: 8,
        }
    }

    /// For little memory: 256 KiB chunks and buffers, two chunks in flight,
    /// no sync at the end.
    #[verifier::when_used_as_spec(spec_low_memory)]
    pub fn low_memory() -> (c: Self)
        ensures
            c == Self::spec_low_memory(),
    {
        TransferConfig {
            chunk_size: 256 * 1024,
            write_buffer_size: 256 * 1024,
            read_buffer_size: 256 * 1024,
            flush_threshold: 512 * 1024,
            flush_interval_ms: 100,
            tcp_nodelay: true,
            preallocate_files: false,
            sync_on_complete: false,
            outgoing_channel_size: 16,
            incoming_channel_size: 16,
            max_in_flight_chunks: 2,
        }
    }

    /// For a wide network: 64 KiB chunks, Nagle's algorithm left on, files
    /// preallocated, thirty-two chunks in flight.
    #[verifier::when_used_as_spec(spec_wan_optimized)]
    pub fn wan_optimized() -> (c: Self)
        ensures
            c == Self::spec_wan_optimized(),
    {
        TransferConfig {
            chunk_size: 64 * 1024,
            write_buffer_size: 512 * 1024,
            read_buffer_size: 512 * 1024,
            flush_threshold: 256 * 1024,
            flush_interval_ms: 200,
            tcp_nodelay: false,
            preallocate_files: true,
            sync_on_complete: true,
            outgoing_channel_size: 128,
            incoming_channel_size: 128,
            max_in_flight_chunks: 32,
        }
    }

    /// The configuration in force: the one for a local network.
    pub fn global() -> (c: Self)
        ensures
            c == Self::spec_lan_optimized(),
    {
        TransferConfig::lan_optimized()
    }
}

impl Default for TransferConfig {
    fn default() -> (c: Self)
        ensures
            c == Self::spec_lan_optimized(),
    {
        TransferConfig::lan_optimized()
    }
}

} // verus!
