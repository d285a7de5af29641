//! The receiving side of a file transfer: an offer opens a transfer, chunks
//! fill it, and the chunk that completes it, or an explicit finish, closes
//! it. At most one transfer is active for a connection and a file id.
//!
//! The table decides and keeps the books; opening, writing, flushing and
//! syncing the file are left to the caller, who is told what to do.

use crate::binary::{decode_string, BinaryReader};
use crate::config::TransferConfig;
use crate::error::SocketResult;
use crate::text::{before_colon, text_before_colon};
use vstd::prelude::*;
use vstd::string::StringExecFns;

verus! {

/// The progress that has to be made since the last report for the next
/// report to be due: 256 KiB.
pub const RECEIVE_PROGRESS_EMIT_STEP: u64 = 256 * 1024;

/// What an offer says of a file.
#[derive(Debug)]
pub struct FileMetadata {
    pub id: String,
    pub name: String,
    pub size: u64,
}

/// The id of the transfer that a file belongs to: the file's id up to its
/// first colon, or all of it if it has none.
pub open spec fn transfer_id_text(file_id: Seq<char>) -> Seq<char> {
    text_before_colon(file_id)
}

/// The id of the transfer that a file belongs to.
pub fn parse_transfer_id(file_id: &str) -> (id: String)
    ensures
        id@ == transfer_id_text(file_id@),
{
    before_colon(file_id)
}

/// What is known of a transfer that is being received.
#[derive(Debug, Clone)]
pub struct TransferState {
    pub file_path: String,
    pub file_name: String,
    pub file_id: String,
    pub transfer_id: String,
    /// The size that the offer announced.
    pub expected_size: u64,
    /// The bytes written to the file so far.
    pub received_size: u64,
    /// The bytes that had been received when progress was last reported.
    pub last_emitted_size: u64,
}

/// A transfer as contracts see it.
pub struct TransferStateView {
    pub file_path: Seq<char>,
    pub file_name: Seq<char>,
    pub file_id: Seq<char>,
    pub transfer_id: Seq<char>,
    pub expected_size: u64,
    pub received_size: u64,
    pub last_emitted_size: u64,
}

impl View for TransferState {
    type V = TransferStateView;

    open spec fn view(&self) -> TransferStateView {
        TransferStateView {
            file_path: self.file_path@,
            file_name: self.file_name@,
            file_id: self.file_id@,
            transfer_id: self.transfer_id@,
            expected_size: self.expected_size,
            received_size: self.received_size,
            last_emitted_size: self.last_emitted_size,
        }
    }
}

/// How a transfer stands.
#[derive(Debug, Clone, Copy, PartialEq, Eq, Structural)]
pub enum TransferStatus {
    Processing,
    Success,
    Failed,
}

/// Whether a file comes in or goes out.
#[derive(Debug, Clone, Copy, PartialEq, Eq, Structural)]
pub enum TransferDirection {
    Receive,
    Send,
}

/// A report on a transfer for whoever shows progress.
#[derive(Debug)]
pub struct TransferProgress {
    pub transfer_id: String,
    pub file_id: String,
    pub file_path: String,
    pub file_name: String,
    pub direction: TransferDirection,
    pub total_bytes: u64,
    pub sent_bytes: u64,
    pub status: TransferStatus,
    /// What went wrong, in a report of failure.
    pub error: Option<String>,
}

impl TransferProgress {
    /// The report is on the given transfer as it is received, with the
    /// given count and status.
    pub open spec fn reports(&self, t: TransferStateView, sent: u64, status: TransferStatus)
        -> bool {
        &&& self.direction == TransferDirection::Receive
        &&& self.error is None
        &&& self.transfer_id@ == t.transfer_id
        &&& self.file_id@ == t.file_id
        &&& self.file_path@ == t.file_path
        &&& self.file_name@ == t.file_name
        &&& self.total_bytes == t.expected_size
        &&& self.sent_bytes == sent
        &&& self.status == status
    }
}

fn report(state: &TransferState, sent: u64, status: TransferStatus) -> (p: TransferProgress)
    ensures
        p.reports(state@, sent, status),
{
    TransferProgress {
        transfer_id: state.transfer_id.clone(),
        file_id: state.file_id.clone(),
        file_path: state.file_path.clone(),
        file_name: state.file_name.clone(),
        direction: TransferDirection::Receive,
        total_bytes: state.expected_size,
        sent_bytes: sent,
        status,
        error: None,
    }
}

/// Whether progress is to be reported: when the transfer is complete to the
/// byte, or when a step's worth of bytes has come in since the last report.
pub open spec fn progress_due(current: u64, total: u64, last_emitted: u64) -> bool {
    current == total || (current >= last_emitted && current - last_emitted
        >= RECEIVE_PROGRESS_EMIT_STEP)
}

/// Whether progress is to be reported.
pub fn should_emit_progress(current: u64, total: u64, last_emitted: u64) -> (b: bool)
    ensures
        b == progress_due(current, total, last_emitted),
{
    current == total || (current >= last_emitted && current - last_emitted
        >= RECEIVE_PROGRESS_EMIT_STEP)
}

/// The count of received bytes after `chunk_len` more; it wraps round at
/// `u64::MAX`.
pub open spec fn received_after(received: u64, chunk_len: u64) -> u64 {
    if received + chunk_len > u64::MAX {
        (received + chunk_len - u64::MAX - 1) as u64
    } else {
        (received + chunk_len) as u64
    }
}

/// The transfer after a chunk of `chunk_len` bytes was written.
pub open spec fn after_chunk(t: TransferStateView, chunk_len: u64) -> TransferStateView {
    let current = received_after(t.received_size, chunk_len);
    TransferStateView {
        received_size: current,
        last_emitted_size: if progress_due(current, t.expected_size, t.last_emitted_size) {
            current
        } else {
            t.last_emitted_size
        },
        ..t
    }
}

/// The transfer that an offer opens.
pub open spec fn offered(metadata: FileMetadata, file_path: Seq<char>) -> TransferStateView {
    TransferStateView {
        file_path,
        file_name: metadata.name@,
        file_id: metadata.id@,
        transfer_id: transfer_id_text(metadata.id@),
        expected_size: metadata.size,
        received_size: 0,
        last_emitted_size: 0,
    }
}

/// `DashMap` of the `dashmap` crate: a hash map that can be shared among
/// threads. Nothing is said of what a value of it is made of; what it holds
/// is named by `transfer_entries`.
#[verifier::external_type_specification]
#[verifier::external_body]
#[verifier::reject_recursive_types(K)]
#[verifier::reject_recursive_types(V)]
#[verifier::reject_recursive_types(S)]
pub struct ExDashMap<K, V, S>(dashmap::DashMap<K, V, S>);

/// The map that holds the transfers, keyed by connection id and file id.
pub type TransferMap = dashmap::DashMap<(String, String), TransferState>;

/// What a map of transfers holds: the transfer of each connection id and
/// file id that has one.
pub uninterp spec fn transfer_entries(
    transfers: TransferMap,
) -> Map<(Seq<char>, Seq<char>), TransferStateView>;

/// No transfer at all.
pub open spec fn no_transfers() -> Map<(Seq<char>, Seq<char>), TransferStateView> {
    Map::empty()
}

/// `DashMap::new` of the `dashmap` crate: a map that holds nothing.
#[verifier::external_body]
fn transfers_new() -> (transfers: TransferMap)
    ensures
        transfer_entries(transfers) == no_transfers(),
{
    dashmap::DashMap::new()
}

/// `DashMap::insert` of the `dashmap` crate: the value is put under the key,
/// in place of any that was there.
#[verifier::external_body]
fn transfers_insert(
    transfers: &mut TransferMap,
    conn_id: String,
    file_id: String,
    state: TransferState,
)
    ensures
        transfer_entries(*final(transfers)) == transfer_entries(*old(transfers)).insert(
            (conn_id@, file_id@),
            state@,
        ),
{
    transfers.insert((conn_id, file_id), state);
}

/// `DashMap::get` of the `dashmap` crate: a copy of the value under the key,
/// if there is one.
#[verifier::external_body]
fn transfers_get(
    transfers: &TransferMap,
    conn_id: &str,
    file_id: &str,
) -> (found: Option<TransferState>)
    ensures
        match found {
            Some(state) => transfer_entries(*transfers).contains_key((conn_id@, file_id@)) && state@
                == transfer_entries(*transfers)[(conn_id@, file_id@)],
            None => !transfer_entries(*transfers).contains_key((conn_id@, file_id@)),
        },
{
    transfers.get(&(conn_id.to_string(), file_id.to_string())).map(|entry| entry.value().clone())
}

/// `DashMap::remove` of the `dashmap` crate: the value under the key is
/// taken out, if there is one.
#[verifier::external_body]
fn transfers_remove(
    transfers: &mut TransferMap,
    conn_id: &str,
    file_id: &str,
) -> (removed: Option<TransferState>)
    ensures
        transfer_entries(*final(transfers)) == transfer_entries(*old(transfers)).remove(
            (conn_id@, file_id@),
        ),
        match removed {
            Some(state) => transfer_entries(*old(transfers)).contains_key((conn_id@, file_id@))
                && state@ == transfer_entries(*old(transfers))[(conn_id@, file_id@)],
            None => !transfer_entries(*old(transfers)).contains_key((conn_id@, file_id@)),
        },
{
    transfers.remove(&(conn_id.to_string(), file_id.to_string())).map(|(_, state)| state)
}

/// What is to be done about an offer.
#[derive(Debug)]
pub struct OfferOutcome {
    /// The length to give the file before the first chunk, if it is to be
    /// preallocated.
    pub preallocate: Option<u64>,
    /// The first report: nothing received yet.
    pub progress: TransferProgress,
}

/// What a chunk packet holds.
#[derive(Debug)]
pub struct ChunkHeader {
    pub file_id: String,
    /// Where in the payload the file's bytes begin; they run to its end.
    pub data_offset: usize,
}

/// What is to be done once a transfer is complete.
#[derive(Debug)]
pub struct Completion {
    /// Whether the file is to be synced to disk after the flush.
    pub sync: bool,
    /// The last report.
    pub progress: TransferProgress,
}

/// What is to be done after a chunk was written.
#[derive(Debug)]
pub struct ChunkOutcome {
    /// The report to make, if one is due.
    pub progress: Option<TransferProgress>,
    /// With the transfer complete: flush the file, and close the transfer.
    pub completion: Option<Completion>,
}

/// The payload of a chunk packet: the file's id as a string, then the file's
/// bytes to the end of the payload.
pub fn parse_chunk(payload: &[u8]) -> (res: SocketResult<ChunkHeader>)
    ensures
        match res {
            Ok(header) => decode_string(payload@) == Some(
                (header.file_id@, header.data_offset as nat),
            ) && header.data_offset <= payload@.len(),
            Err(e) => decode_string(payload@) is None && e is ParseError,
        },
{
    let mut reader = BinaryReader::new(payload);
    match reader.read_string() {
        Ok(file_id) => {
            let data_offset = reader.offset();
            Ok(ChunkHeader { file_id, data_offset })
        },
        Err(e) => Err(e),
    }
}

/// The payload of a finish packet: the file's id as a string.
pub fn parse_finish(payload: &[u8]) -> (res: SocketResult<String>)
    ensures
        match res {
            Ok(file_id) => decode_string(payload@) matches Some((text, _)) && text == file_id@,
            Err(e) => decode_string(payload@) is None && e is ParseError,
        },
{
    let mut reader = BinaryReader::new(payload);
    reader.read_string()
}

/// The transfers that are being received, by connection id and file id.
pub struct TransferTable {
    map: TransferMap,
}

impl View for TransferTable {
    type V = Map<(Seq<char>, Seq<char>), TransferStateView>;

    closed spec fn view(&self) -> Map<(Seq<char>, Seq<char>), TransferStateView> {
        transfer_entries(self.map)
    }
}

impl TransferTable {
    pub fn new() -> (t: Self)
        ensures
            t@ == no_transfers(),
    {
        TransferTable { map: transfers_new() }
    }

    /// Whether a transfer is active for the connection and the file.
    pub fn is_active(&self, conn_id: &str, file_id: &str) -> (b: bool)
        ensures
            b == self@.contains_key((conn_id@, file_id@)),
    {
        transfers_get(&self.map, conn_id, file_id).is_some()
    }

    /// Opens the transfer that an offer announces, in place of any that was
    /// active for the same connection and file. The file is to be given its
    /// full length beforehand if the configuration says so and the file is
    /// not empty.
    pub fn offer(
        &mut self,
        conn_id: &str,
        metadata: FileMetadata,
        file_path: String,
        config: &TransferConfig,
    ) -> (outcome: OfferOutcome)
        ensures
            final(self)@ == old(self)@.insert(
                (conn_id@, metadata.id@),
                offered(metadata, file_path@),
            ),
            outcome.preallocate == if config.preallocate_files && metadata.size > 0 {
                Some(metadata.size)
            } else {
                None
            },
            outcome.progress.reports(
                offered(metadata, file_path@),
                0,
                TransferStatus::Processing,
            ),
    {
        let transfer_id = parse_transfer_id(metadata.id.as_str());
        let state = TransferState {
            file_path,
            file_name: metadata.name.clone(),
            file_id: metadata.id.clone(),
            transfer_id,
            expected_size: metadata.size,
            received_size: 0,
            last_emitted_size: 0,
        };
        let progress = report(&state, 0, TransferStatus::Processing);
        let preallocate = if config.preallocate_files && metadata.size > 0 {
            Some(metadata.size)
        } else {
            None
        };
        transfers_insert(&mut self.map, String::from_str(conn_id), metadata.id, state);
        OfferOutcome { preallocate, progress }
    }

    /// Takes note of a chunk of `chunk_len` bytes that was written to the
    /// file. For a file without an active transfer, nothing happens. Else the
    /// bytes are counted, a report is made if one is due, and the transfer is
    /// closed if all the bytes that the offer announced are there.
    pub fn chunk_written(
        &mut self,
        conn_id: &str,
        file_id: &str,
        chunk_len: u64,
        config: &TransferConfig,
    ) -> (outcome: Option<ChunkOutcome>)
        ensures
            ({
                let key = (conn_id@, file_id@);
                if !old(self)@.contains_key(key) {
                    outcome is None && final(self)@ == old(self)@
                } else {
                    let before = old(self)@[key];
                    let after = after_chunk(before, chunk_len);
                    let complete = after.received_size >= after.expected_size;
                    &&& outcome is Some
                    &&& final(self)@ == if complete {
                        old(self)@.remove(key)
                    } else {
                        old(self)@.insert(key, after)
                    }
                    &&& match outcome->0.progress {
                        Some(p) => progress_due(
                            after.received_size,
                            before.expected_size,
                            before.last_emitted_size,
                        ) && p.reports(before, after.received_size, TransferStatus::Processing),
                        None => !progress_due(
                            after.received_size,
                            before.expected_size,
                            before.last_emitted_size,
                        ),
                    }
                    &&& match outcome->0.completion {
                        Some(c) => complete && c.sync == config.sync_on_complete
                            && c.progress.reports(
                            before,
                            before.expected_size,
                            TransferStatus::Success,
                        ),
                        None => !complete,
                    }
                }
            }),
    {
        let mut state = match transfers_get(&self.map, conn_id, file_id) {
            None => {
                return None;
            },
            Some(state) => state,
        };
        let ghost before = state@;
        let current = state.received_size.wrapping_add(chunk_len);
        let total = state.expected_size;
        state.received_size = current;
        let progress = if should_emit_progress(current, total, state.last_emitted_size) {
            state.last_emitted_size = current;
            Some(report(&state, current, TransferStatus::Processing))
        } else {
            None
        };
        assert(state@ == after_chunk(before, chunk_len));
        if current >= total {
            let completion = Completion {
                sync: config.sync_on_complete,
                progress: report(&state, total, TransferStatus::Success),
            };
            let _ = transfers_remove(&mut self.map, conn_id, file_id);
            Some(ChunkOutcome { progress, completion: Some(completion) })
        } else {
            transfers_insert(
                &mut self.map,
                String::from_str(conn_id),
                String::from_str(file_id),
                state,
            );
            Some(ChunkOutcome { progress, completion: None })
        }
    }

    /// Closes the transfer of a file at the sender's word. For a file without
    /// an active transfer, nothing happens. Else the file is to be flushed,
    /// and the last report says how many bytes were received.
    pub fn finish(&mut self, conn_id: &str, file_id: &str, config: &TransferConfig) -> (outcome:
        Option<Completion>)
        ensures
            final(self)@ == old(self)@.remove((conn_id@, file_id@)),
            match outcome {
                Some(c) => old(self)@.contains_key((conn_id@, file_id@)) && c.sync
                    == config.sync_on_complete && c.progress.reports(
                    old(self)@[(conn_id@, file_id@)],
                    old(self)@[(conn_id@, file_id@)].received_size,
                    TransferStatus::Success,
                ),
                None => !old(self)@.contains_key((conn_id@, file_id@)),
            },
    {
        match transfers_remove(&mut self.map, conn_id, file_id) {
            None => None,
            Some(state) => Some(
                Completion {
                    sync: config.sync_on_complete,
                    progress: report(&state, state.received_size, TransferStatus::Success),
                },
            ),
        }
    }
}

/// A transfer that a chunk completes without going beyond the announced size
/// has received exactly the announced size: the file is as long as the offer
/// said.
pub proof fn law_completed_length(t: TransferStateView, chunk_len: u64)
    requires
        t.received_size + chunk_len <= t.expected_size,
        after_chunk(t, chunk_len).received_size >= t.expected_size,
    ensures
        after_chunk(t, chunk_len).received_size == t.expected_size,
{
}

/// Chunks that stay within the announced size leave the count of received
/// bytes within it, so that the next chunk can be judged in the same way.
pub proof fn law_received_within(t: TransferStateView, chunk_len: u64)
    requires
        t.received_size + chunk_len <= t.expected_size,
    ensures
        after_chunk(t, chunk_len).received_size == t.received_size + chunk_len,
        after_chunk(t, chunk_len).received_size <= t.expected_size,
        after_chunk(t, chunk_len).last_emitted_size <= after_chunk(t, chunk_len).received_size
            || after_chunk(t, chunk_len).last_emitted_size == t.last_emitted_size,
{
}

} // verus!
