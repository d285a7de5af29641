//! The packet types and the frame that carries a packet on the wire.
//!
//! A frame is a four-byte little-endian body length followed by the body: one
//! byte of packet type, four bytes of little-endian request id, and the
//! payload.

use crate::binary::{
    bits_i32, encode_i32, encode_u32, i32_bits, le_value, lemma_le_bytes, lemma_le_value, lemma_pow256_values, BinaryReader, BinaryWriter,
};
use crate::error::{SocketError, SocketResult};
use vstd::prelude::*;
use vstd::slice::{slice_subrange, slice_to_vec};

verus! {

/// Bytes of a frame's body before the payload: the type and the request id.
pub const HEADER_SIZE: usize = 5;

/// Bytes of a tunnelled frame's header.
pub const TUNNEL_HEADER_SIZE: usize = 13;

/// The largest payload a frame may carry: 16 MiB.
pub const MAX_PAYLOAD_SIZE: usize = 16 * 1024 * 1024;

/// The type of a packet: an eight-bit tag whose high bits name its family.
#[derive(Debug, Clone, Copy, PartialEq, Eq, Hash, Structural)]
pub enum PacketType {
    // 0x00 - 0x0F: System and connection
    /// Code `0x00`.
    SystemHandshake,
    /// Code `0x01`.
    SystemHeartbeat,
    /// Code `0x02`.
    SystemKick,
    /// Code `0x03`.
    SystemVersion,
    /// Code `0x04`.
    SystemCapabilities,
    // 0x10 - 0x1F: Authentication
    /// Code `0x10`.
    AuthLoginRequest,
    /// Code `0x11`.
    AuthLoginResponse,
    /// Code `0x12`.
    AuthTokenRefresh,
    /// Code `0x13`.
    AuthTokenRevoke,
    /// Code `0x14`.
    AuthLogout,
    // 0x20 - 0x2F: User and state
    /// Code `0x20`.
    UserGetProfile,
    /// Code `0x21`.
    UserUpdateProfile,
    /// Code `0x22`.
    UserUpdateDevice,
    /// Code `0x23`.
    UserStatusChange,
    // 0x30 - 0x3F: Peer discovery and signaling
    /// Code `0x30`.
    PeerListRequest,
    /// Code `0x31`.
    PeerConnectRequest,
    /// Code `0x32`.
    PeerConnectResponse,
    /// Code `0x33`.
    PeerSocketReady,
    /// Code `0x34`.
    PeerConnectionInfo,
    /// Code `0x35`.
    PeerIncomingRequest,
    /// Code `0x36`.
    PeerSignalingData,
    /// Code `0x37`.
    PeerConnectionConfirm,
    /// Code `0x38`.
    PeerDisconnect,
    /// Code `0x39`.
    PeerDisconnected,
    /// Code `0x3A`.
    Ack,
    // 0x40 - 0x4F: File transfer, control plane
    /// Code `0x40`.
    FileOffer,
    /// Code `0x41`.
    FileAccept,
    /// Code `0x42`.
    FileReject,
    /// Code `0x43`.
    FilePause,
    /// Code `0x44`.
    FileResume,
    /// Code `0x45`.
    FileAck,
    /// Code `0x46`.
    FileFinish,
    // 0x50 - 0x5F: File transfer, data plane
    /// Code `0x50`.
    FileChunk,
    // 0x60 - 0x6F: Clipboard and text
    /// Code `0x60`.
    TextMessage,
    /// Code `0x61`.
    ClipboardCopy,
    // 0x70 - 0x7F: Input
    /// Code `0x70`.
    InputKeyDown,
    /// Code `0x71`.
    InputMouseMove,
    // 0x90 - 0x9F: Device management
    /// Code `0x90`.
    DeviceRename,
    /// Code `0x91`.
    DeviceDelete,
    /// Code `0x92`.
    DeviceUpdated,
    /// Code `0x93`.
    DeviceRemoved,
    /// Code `0x94`.
    DeviceAdded,
    // 0xE0 - 0xEF: Debug and metrics
    /// Code `0xE0`.
    DebugLog,
    /// Code `0xE1`.
    DebugPerformance,
    // 0xF0 - 0xFF: Errors and termination
    /// Code `0xF0`.
    ErrorGeneric,
    /// Code `0xF1`.
    ErrorPermission,
    /// Code `0xF2`.
    ErrorNotFound,
    /// Code `0xF3`.
    ErrorServerFull,
    /// Code `0xFF`.
    Unknown,
}

impl PacketType {
    /// The code that stands for the type on the wire.
    pub open spec fn spec_code(&self) -> u8 {
        match self {
            PacketType::SystemHandshake => 0x00,
            PacketType::SystemHeartbeat => 0x01,
            PacketType::SystemKick => 0x02,
            PacketType::SystemVersion => 0x03,
            PacketType::SystemCapabilities => 0x04,
            PacketType::AuthLoginRequest => 0x10,
            PacketType::AuthLoginResponse => 0x11,
            PacketType::AuthTokenRefresh => 0x12,
            PacketType::AuthTokenRevoke => 0x13,
            PacketType::AuthLogout => 0x14,
            PacketType::UserGetProfile => 0x20,
            PacketType::UserUpdateProfile => 0x21,
            PacketType::UserUpdateDevice => 0x22,
            PacketType::UserStatusChange => 0x23,
            PacketType::PeerListRequest => 0x30,
            PacketType::PeerConnectRequest => 0x31,
            PacketType::PeerConnectResponse => 0x32,
            PacketType::PeerSocketReady => 0x33,
            PacketType::PeerConnectionInfo => 0x34,
            PacketType::PeerIncomingRequest => 0x35,
            PacketType::PeerSignalingData => 0x36,
            PacketType::PeerConnectionConfirm => 0x37,
            PacketType::PeerDisconnect => 0x38,
            PacketType::PeerDisconnected => 0x39,
            PacketType::Ack => 0x3A,
            PacketType::FileOffer => 0x40,
            PacketType::FileAccept => 0x41,
            PacketType::FileReject => 0x42,
            PacketType::FilePause => 0x43,
            PacketType::FileResume => 0x44,
            PacketType::FileAck => 0x45,
            PacketType::FileFinish => 0x46,
            PacketType::FileChunk => 0x50,
            PacketType::TextMessage => 0x60,
            PacketType::ClipboardCopy => 0x61,
            PacketType::InputKeyDown => 0x70,
            PacketType::InputMouseMove => 0x71,
            PacketType::DeviceRename => 0x90,
            PacketType::DeviceDelete => 0x91,
            PacketType::DeviceUpdated => 0x92,
            PacketType::DeviceRemoved => 0x93,
            PacketType::DeviceAdded => 0x94,
            PacketType::DebugLog => 0xE0,
            PacketType::DebugPerformance => 0xE1,
            PacketType::ErrorGeneric => 0xF0,
            PacketType::ErrorPermission => 0xF1,
            PacketType::ErrorNotFound => 0xF2,
            PacketType::ErrorServerFull => 0xF3,
            PacketType::Unknown => 0xFF,
        }
    }

    /// The type that a code stands for; a code that stands for none is
    /// `Unknown`.
    pub open spec fn of_code(value: u8) -> PacketType {
        match value {
            0x00 => PacketType::SystemHandshake,
            0x01 => PacketType::SystemHeartbeat,
            0x02 => PacketType::SystemKick,
            0x03 => PacketType::SystemVersion,
            0x04 => PacketType::SystemCapabilities,
            0x10 => PacketType::AuthLoginRequest,
            0x11 => PacketType::AuthLoginResponse,
            0x12 => PacketType::AuthTokenRefresh,
            0x13 => PacketType::AuthTokenRevoke,
            0x14 => PacketType::AuthLogout,
            0x20 => PacketType::UserGetProfile,
            0x21 => PacketType::UserUpdateProfile,
            0x22 => PacketType::UserUpdateDevice,
            0x23 => PacketType::UserStatusChange,
            0x30 => PacketType::PeerListRequest,
            0x31 => PacketType::PeerConnectRequest,
            0x32 => PacketType::PeerConnectResponse,
            0x33 => PacketType::PeerSocketReady,
            0x34 => PacketType::PeerConnectionInfo,
            0x35 => PacketType::PeerIncomingRequest,
            0x36 => PacketType::PeerSignalingData,
            0x37 => PacketType::PeerConnectionConfirm,
            0x38 => PacketType::PeerDisconnect,
            0x39 => PacketType::PeerDisconnected,
            0x3A => PacketType::Ack,
            0x40 => PacketType::FileOffer,
            0x41 => PacketType::FileAccept,
            0x42 => PacketType::FileReject,
            0x43 => PacketType::FilePause,
            0x44 => PacketType::FileResume,
            0x45 => PacketType::FileAck,
            0x46 => PacketType::FileFinish,
            0x50 => PacketType::FileChunk,
            0x60 => PacketType::TextMessage,
            0x61 => PacketType::ClipboardCopy,
            0x70 => PacketType::InputKeyDown,
            0x71 => PacketType::InputMouseMove,
            0x90 => PacketType::DeviceRename,
            0x91 => PacketType::DeviceDelete,
            0x92 => PacketType::DeviceUpdated,
            0x93 => PacketType::DeviceRemoved,
            0x94 => PacketType::DeviceAdded,
            0xE0 => PacketType::DebugLog,
            0xE1 => PacketType::DebugPerformance,
            0xF0 => PacketType::ErrorGeneric,
            0xF1 => PacketType::ErrorPermission,
            0xF2 => PacketType::ErrorNotFound,
            0xF3 => PacketType::ErrorServerFull,
            _ => PacketType::Unknown,
        }
    }

    #[verifier::when_used_as_spec(spec_code)]
    pub fn code(&self) -> (c: u8)
        ensures
            c == self.spec_code(),
    {
        match self {
            PacketType::SystemHandshake => 0x00,
            PacketType::SystemHeartbeat => 0x01,
            PacketType::SystemKick => 0x02,
            PacketType::SystemVersion => 0x03,
            PacketType::SystemCapabilities => 0x04,
            PacketType::AuthLoginRequest => 0x10,
            PacketType::AuthLoginResponse => 0x11,
            PacketType::AuthTokenRefresh => 0x12,
            PacketType::AuthTokenRevoke => 0x13,
            PacketType::AuthLogout => 0x14,
            PacketType::UserGetProfile => 0x20,
            PacketType::UserUpdateProfile => 0x21,
            PacketType::UserUpdateDevice => 0x22,
            PacketType::UserStatusChange => 0x23,
            PacketType::PeerListRequest => 0x30,
            PacketType::PeerConnectRequest => 0x31,
            PacketType::PeerConnectResponse => 0x32,
            PacketType::PeerSocketReady => 0x33,
            PacketType::PeerConnectionInfo => 0x34,
            PacketType::PeerIncomingRequest => 0x35,
            PacketType::PeerSignalingData => 0x36,
            PacketType::PeerConnectionConfirm => 0x37,
            PacketType::PeerDisconnect => 0x38,
            PacketType::PeerDisconnected => 0x39,
            PacketType::Ack => 0x3A,
            PacketType::FileOffer => 0x40,
            PacketType::FileAccept => 0x41,
            PacketType::FileReject => 0x42,
            PacketType::FilePause => 0x43,
            PacketType::FileResume => 0x44,
            PacketType::FileAck => 0x45,
            PacketType::FileFinish => 0x46,
            PacketType::FileChunk => 0x50,
            PacketType::TextMessage => 0x60,
            PacketType::ClipboardCopy => 0x61,
            PacketType::InputKeyDown => 0x70,
            PacketType::InputMouseMove => 0x71,
            PacketType::DeviceRename => 0x90,
            PacketType::DeviceDelete => 0x91,
            PacketType::DeviceUpdated => 0x92,
            PacketType::DeviceRemoved => 0x93,
            PacketType::DeviceAdded => 0x94,
            PacketType::DebugLog => 0xE0,
            PacketType::DebugPerformance => 0xE1,
            PacketType::ErrorGeneric => 0xF0,
            PacketType::ErrorPermission => 0xF1,
            PacketType::ErrorNotFound => 0xF2,
            PacketType::ErrorServerFull => 0xF3,
            PacketType::Unknown => 0xFF,
        }
    }

    pub fn from_u8(value: u8) -> (t: Self)
        ensures
            t == PacketType::of_code(value),
    {
        match value {
            0x00 => PacketType::SystemHandshake,
            0x01 => PacketType::SystemHeartbeat,
            0x02 => PacketType::SystemKick,
            0x03 => PacketType::SystemVersion,
            0x04 => PacketType::SystemCapabilities,
            0x10 => PacketType::AuthLoginRequest,
            0x11 => PacketType::AuthLoginResponse,
            0x12 => PacketType::AuthTokenRefresh,
            0x13 => PacketType::AuthTokenRevoke,
            0x14 => PacketType::AuthLogout,
            0x20 => PacketType::UserGetProfile,
            0x21 => PacketType::UserUpdateProfile,
            0x22 => PacketType::UserUpdateDevice,
            0x23 => PacketType::UserStatusChange,
            0x30 => PacketType::PeerListRequest,
            0x31 => PacketType::PeerConnectRequest,
            0x32 => PacketType::PeerConnectResponse,
            0x33 => PacketType::PeerSocketReady,
            0x34 => PacketType::PeerConnectionInfo,
            0x35 => PacketType::PeerIncomingRequest,
            0x36 => PacketType::PeerSignalingData,
            0x37 => PacketType::PeerConnectionConfirm,
            0x38 => PacketType::PeerDisconnect,
            0x39 => PacketType::PeerDisconnected,
            0x3A => PacketType::Ack,
            0x40 => PacketType::FileOffer,
            0x41 => PacketType::FileAccept,
            0x42 => PacketType::FileReject,
            0x43 => PacketType::FilePause,
            0x44 => PacketType::FileResume,
            0x45 => PacketType::FileAck,
            0x46 => PacketType::FileFinish,
            0x50 => PacketType::FileChunk,
            0x60 => PacketType::TextMessage,
            0x61 => PacketType::ClipboardCopy,
            0x70 => PacketType::InputKeyDown,
            0x71 => PacketType::InputMouseMove,
            0x90 => PacketType::DeviceRename,
            0x91 => PacketType::DeviceDelete,
            0x92 => PacketType::DeviceUpdated,
            0x93 => PacketType::DeviceRemoved,
            0x94 => PacketType::DeviceAdded,
            0xE0 => PacketType::DebugLog,
            0xE1 => PacketType::DebugPerformance,
            0xF0 => PacketType::ErrorGeneric,
            0xF1 => PacketType::ErrorPermission,
            0xF2 => PacketType::ErrorNotFound,
            0xF3 => PacketType::ErrorServerFull,
            _ => PacketType::Unknown,
        }
    }

    pub fn is_error(&self) -> (b: bool)
        ensures
            b == (self.spec_code() >= 0xF0),
    {
        self.code() >= 0xF0
    }

    pub fn is_system(&self) -> (b: bool)
        ensures
            b == (self.spec_code() <= 0x0F),
    {
        self.code() <= 0x0F
    }

    pub fn is_auth(&self) -> (b: bool)
        ensures
            b == (0x10 <= self.spec_code() <= 0x1F),
    {
        let val = self.code();
        val >= 0x10 && val <= 0x1F
    }

    pub fn is_peer(&self) -> (b: bool)
        ensures
            b == (0x30 <= self.spec_code() <= 0x3F),
    {
        let val = self.code();
        val >= 0x30 && val <= 0x3F
    }

    pub fn is_file(&self) -> (b: bool)
        ensures
            b == (0x40 <= self.spec_code() <= 0x5F),
    {
        let val = self.code();
        (val >= 0x40 && val <= 0x4F) || (val >= 0x50 && val <= 0x5F)
    }

    pub fn is_tunnel(&self) -> (b: bool)
        ensures
            b == (0x80 <= self.spec_code() <= 0x8F),
    {
        let val = self.code();
        val >= 0x80 && val <= 0x8F
    }

    pub fn is_data(&self) -> (b: bool)
        ensures
            b == (0x50 <= self.spec_code() <= 0x5F),
    {
        let val = self.code();
        val >= 0x50 && val <= 0x5F
    }

    /// The name of the type, as it is written in logs.
    pub open spec fn name_text(&self) -> Seq<char> {
        match self {
            PacketType::SystemHandshake => "SystemHandshake"@,
            PacketType::SystemHeartbeat => "SystemHeartbeat"@,
            PacketType::SystemKick => "SystemKick"@,
            PacketType::SystemVersion => "SystemVersion"@,
            PacketType::SystemCapabilities => "SystemCapabilities"@,
            PacketType::AuthLoginRequest => "AuthLoginRequest"@,
            PacketType::AuthLoginResponse => "AuthLoginResponse"@,
            PacketType::AuthTokenRefresh => "AuthTokenRefresh"@,
            PacketType::AuthTokenRevoke => "AuthTokenRevoke"@,
            PacketType::AuthLogout => "AuthLogout"@,
            PacketType::UserGetProfile => "UserGetProfile"@,
            PacketType::UserUpdateProfile => "UserUpdateProfile"@,
            PacketType::UserUpdateDevice => "UserUpdateDevice"@,
            PacketType::UserStatusChange => "UserStatusChange"@,
            PacketType::PeerListRequest => "PeerListRequest"@,
            PacketType::PeerConnectRequest => "PeerConnectRequest"@,
            PacketType::PeerConnectResponse => "PeerConnectResponse"@,
            PacketType::PeerSocketReady => "PeerSocketReady"@,
            PacketType::PeerConnectionInfo => "PeerConnectionInfo"@,
            PacketType::PeerIncomingRequest => "PeerIncomingRequest"@,
            PacketType::PeerSignalingData => "PeerSignalingData"@,
            PacketType::PeerConnectionConfirm => "PeerConnectionConfirm"@,
            PacketType::PeerDisconnect => "PeerDisconnect"@,
            PacketType::PeerDisconnected => "PeerDisconnected"@,
            PacketType::Ack => "Ack"@,
            PacketType::FileOffer => "FileOffer"@,
            PacketType::FileAccept => "FileAccept"@,
            PacketType::FileReject => "FileReject"@,
            PacketType::FilePause => "FilePause"@,
            PacketType::FileResume => "FileResume"@,
            PacketType::FileAck => "FileAck"@,
            PacketType::FileFinish => "FileFinish"@,
            PacketType::FileChunk => "FileChunk"@,
            PacketType::TextMessage => "TextMessage"@,
            PacketType::ClipboardCopy => "ClipboardCopy"@,
            PacketType::InputKeyDown => "InputKeyDown"@,
            PacketType::InputMouseMove => "InputMouseMove"@,
            PacketType::DeviceRename => "DeviceRename"@,
            PacketType::DeviceDelete => "DeviceDelete"@,
            PacketType::DeviceUpdated => "DeviceUpdated"@,
            PacketType::DeviceRemoved => "DeviceRemoved"@,
            PacketType::DeviceAdded => "DeviceAdded"@,
            PacketType::DebugLog => "DebugLog"@,
            PacketType::DebugPerformance => "DebugPerformance"@,
            PacketType::ErrorGeneric => "ErrorGeneric"@,
            PacketType::ErrorPermission => "ErrorPermission"@,
            PacketType::ErrorNotFound => "ErrorNotFound"@,
            PacketType::ErrorServerFull => "ErrorServerFull"@,
            PacketType::Unknown => "Unknown"@,
        }
    }

    /// The name of the type, as it is written in logs.
    pub fn name(&self) -> (s: &'static str)
        ensures
            s@ == self.name_text(),
    {
        match self {
            PacketType::SystemHandshake => "SystemHandshake",
            PacketType::SystemHeartbeat => "SystemHeartbeat",
            PacketType::SystemKick => "SystemKick",
            PacketType::SystemVersion => "SystemVersion",
            PacketType::SystemCapabilities => "SystemCapabilities",
            PacketType::AuthLoginRequest => "AuthLoginRequest",
            PacketType::AuthLoginResponse => "AuthLoginResponse",
            PacketType::AuthTokenRefresh => "AuthTokenRefresh",
            PacketType::AuthTokenRevoke => "AuthTokenRevoke",
            PacketType::AuthLogout => "AuthLogout",
            PacketType::UserGetProfile => "UserGetProfile",
            PacketType::UserUpdateProfile => "UserUpdateProfile",
            PacketType::UserUpdateDevice => "UserUpdateDevice",
            PacketType::UserStatusChange => "UserStatusChange",
            PacketType::PeerListRequest => "PeerListRequest",
            PacketType::PeerConnectRequest => "PeerConnectRequest",
            PacketType::PeerConnectResponse => "PeerConnectResponse",
            PacketType::PeerSocketReady => "PeerSocketReady",
            PacketType::PeerConnectionInfo => "PeerConnectionInfo",
            PacketType::PeerIncomingRequest => "PeerIncomingRequest",
            PacketType::PeerSignalingData => "PeerSignalingData",
            PacketType::PeerConnectionConfirm => "PeerConnectionConfirm",
            PacketType::PeerDisconnect => "PeerDisconnect",
            PacketType::PeerDisconnected => "PeerDisconnected",
            PacketType::Ack => "Ack",
            PacketType::FileOffer => "FileOffer",
            PacketType::FileAccept => "FileAccept",
            PacketType::FileReject => "FileReject",
            PacketType::FilePause => "FilePause",
            PacketType::FileResume => "FileResume",
            PacketType::FileAck => "FileAck",
            PacketType::FileFinish => "FileFinish",
            PacketType::FileChunk => "FileChunk",
            PacketType::TextMessage => "TextMessage",
            PacketType::ClipboardCopy => "ClipboardCopy",
            PacketType::InputKeyDown => "InputKeyDown",
            PacketType::InputMouseMove => "InputMouseMove",
            PacketType::DeviceRename => "DeviceRename",
            PacketType::DeviceDelete => "DeviceDelete",
            PacketType::DeviceUpdated => "DeviceUpdated",
            PacketType::DeviceRemoved => "DeviceRemoved",
            PacketType::DeviceAdded => "DeviceAdded",
            PacketType::DebugLog => "DebugLog",
            PacketType::DebugPerformance => "DebugPerformance",
            PacketType::ErrorGeneric => "ErrorGeneric",
            PacketType::ErrorPermission => "ErrorPermission",
            PacketType::ErrorNotFound => "ErrorNotFound",
            PacketType::ErrorServerFull => "ErrorServerFull",
            PacketType::Unknown => "Unknown",
        }
    }
}

impl From<u8> for PacketType {
    fn from(value: u8) -> (t: Self) {
        PacketType::from_u8(value)
    }
}

impl vstd::std_specs::convert::FromSpecImpl<u8> for PacketType {
    open spec fn obeys_from_spec() -> bool {
        true
    }

    open spec fn from_spec(value: u8) -> Self {
        PacketType::of_code(value)
    }
}

impl From<PacketType> for u8 {
    fn from(value: PacketType) -> (c: Self) {
        value.code()
    }
}

impl vstd::std_specs::convert::FromSpecImpl<PacketType> for u8 {
    open spec fn obeys_from_spec() -> bool {
        true
    }

    open spec fn from_spec(value: PacketType) -> Self {
        value.spec_code()
    }
}

/// Every type is the type that its own code stands for.
pub proof fn law_packet_type_round_trip(t: PacketType)
    ensures
        PacketType::of_code(t.spec_code()) == t,
{
}

/// A code either stands for `Unknown` or for a type that has that code.
pub proof fn law_packet_code_round_trip(value: u8)
    ensures
        PacketType::of_code(value) == PacketType::Unknown || PacketType::of_code(value).spec_code()
            == value,
{
}

/// A packet as a frame carries it.
#[derive(Debug)]
pub struct Frame {
    pub packet_type: PacketType,
    pub request_id: i32,
    pub payload: Vec<u8>,
}

/// The body of a frame: the type, the request id, the payload.
pub open spec fn frame_body(t: PacketType, request_id: i32, payload: Seq<u8>) -> Seq<u8> {
    seq![t.spec_code()] + encode_i32(request_id) + payload
}

/// A frame on the wire: the length of its body, then the body.
pub open spec fn frame_bytes(t: PacketType, request_id: i32, payload: Seq<u8>) -> Seq<u8> {
    encode_u32((HEADER_SIZE + payload.len()) as u32) + frame_body(t, request_id, payload)
}

/// The packet that a body holds. A body shorter than the header holds none.
pub open spec fn parse_body(body: Seq<u8>) -> Option<(PacketType, i32, Seq<u8>)> {
    if body.len() < HEADER_SIZE {
        None
    } else {
        Some(
            (
                PacketType::of_code(body[0]),
                bits_i32(le_value(body.subrange(1, 5)) as u32),
                body.skip(5),
            ),
        )
    }
}

/// Frames a packet: a placeholder for the length is written first and
/// patched once the body is complete. A payload above `MAX_PAYLOAD_SIZE` is
/// refused.
pub fn encode_frame(packet_type: PacketType, request_id: i32, payload: &[u8]) -> (res:
    SocketResult<Vec<u8>>)
    ensures
        match res {
            Ok(bytes) => payload@.len() <= MAX_PAYLOAD_SIZE && bytes@ == frame_bytes(
                packet_type,
                request_id,
                payload@,
            ),
            Err(e) => payload@.len() > MAX_PAYLOAD_SIZE && e == SocketError::PacketTooLarge(
                payload@.len() as usize,
            ),
        },
{
    if payload.len() > MAX_PAYLOAD_SIZE {
        return Err(SocketError::PacketTooLarge(payload.len()));
    }
    let mut writer = BinaryWriter::with_capacity(4 + HEADER_SIZE + payload.len());
    writer.write_u32(0);
    let body_start = writer.len();
    proof {
        lemma_le_bytes(0, 4);
        lemma_le_bytes(i32_bits(request_id) as nat, 4);
    }
    writer.write_u8(packet_type.code());
    writer.write_i32(request_id);
    writer.write_bytes(payload);
    let body_len = (writer.len() - body_start) as u32;
    writer.write_u32_at(0, body_len);
    proof {
        lemma_le_bytes(body_len as nat, 4);
        assert(writer@ =~= frame_bytes(packet_type, request_id, payload@));
    }
    Ok(writer.into_bytes())
}

/// Takes a body apart. A body shorter than the header is no packet; a type
/// code that stands for no type gives `Unknown`.
pub fn decode_frame(body: &[u8]) -> (res: Option<Frame>)
    ensures
        match res {
            Some(frame) => parse_body(body@) == Some(
                (frame.packet_type, frame.request_id, frame.payload@),
            ),
            None => parse_body(body@) is None,
        },
{
    if body.len() < HEADER_SIZE {
        return None;
    }
    let packet_type = PacketType::from_u8(body[0]);
    let id_bytes = slice_subrange(body, 1, HEADER_SIZE);
    let mut reader = BinaryReader::new(id_bytes);
    let request_id = match reader.read_i32() {
        Ok(v) => v,
        Err(_) => {
            return None;
        },
    };
    assert(id_bytes@.take(4) =~= body@.subrange(1, 5));
    let payload = slice_to_vec(slice_subrange(body, HEADER_SIZE, body.len()));
    assert(payload@ =~= body@.skip(5));
    Some(Frame { packet_type, request_id, payload })
}

/// The length that a frame's four-byte prefix announces for its body.
pub fn decode_frame_length(prefix: &[u8; 4]) -> (len: u32)
    ensures
        len == le_value(prefix@),
{
    let bytes = prefix.as_slice();
    let mut reader = BinaryReader::new(bytes);
    proof {
        lemma_pow256_values();
        lemma_le_value(prefix@);
        assert(prefix@.len() == 4);
        assert(bytes@ == prefix@);
        assert(prefix@.take(4) =~= prefix@);
    }
    match reader.read_u32() {
        Ok(v) => v,
        Err(_) => 0,
    }
}

/// A body that was encoded decodes to the type, the request id and the
/// payload it was made of.
pub proof fn law_frame_round_trip(t: PacketType, request_id: i32, payload: Seq<u8>)
    ensures
        parse_body(frame_body(t, request_id, payload)) == Some((t, request_id, payload)),
{
    let body = frame_body(t, request_id, payload);
    lemma_le_bytes(i32_bits(request_id) as nat, 4);
    lemma_pow256_values();
    assert(body.subrange(1, 5) =~= encode_i32(request_id));
    assert(body.skip(5) =~= payload);
    assert(body[0] == t.spec_code());
}

/// The prefix of a frame announces the length of its body, and the body
/// follows the prefix.
pub proof fn law_frame_prefix(t: PacketType, request_id: i32, payload: Seq<u8>)
    requires
        payload.len() <= MAX_PAYLOAD_SIZE,
    ensures
        frame_bytes(t, request_id, payload).len() == 4 + HEADER_SIZE + payload.len(),
        le_value(frame_bytes(t, request_id, payload).take(4)) == HEADER_SIZE + payload.len(),
        frame_bytes(t, request_id, payload).skip(4) == frame_body(t, request_id, payload),
{
    let n = (HEADER_SIZE + payload.len()) as u32;
    lemma_le_bytes(n as nat, 4);
    lemma_le_bytes(i32_bits(request_id) as nat, 4);
    lemma_pow256_values();
    let all = frame_bytes(t, request_id, payload);
    assert(all.take(4) =~= encode_u32(n));
    assert(all.skip(4) =~= frame_body(t, request_id, payload));
}

} // verus!
