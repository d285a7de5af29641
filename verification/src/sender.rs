//! The sending side of a file transfer: the ids and payloads of its packets,
//! and the books of what was sent.
//!
//! Reading the file and handing the packets to the connection are the
//! driver's: it opens a batch on the connection, and for each file sends the
//! offer, a chunk for every read, and the finish, then ends the batch.

use crate::binary::{encode_string, law_round_trip_string, decode_string, BinaryWriter};
use crate::ids::{fresh_id, hyphenated_text};
use crate::text::lemma_before_colon_of_joined;
use crate::transfer::{
    progress_due, should_emit_progress, transfer_id_text, TransferDirection, TransferProgress,
    TransferStatus,
};
use vstd::prelude::*;
use vstd::string::StringExecFns;
use vstd::utf8::*;

verus! {

/// The id of a file in a transfer: the transfer's id, a colon, and what
/// tells the file from the others.
pub open spec fn file_id_text(transfer_id: Seq<char>, unique: Seq<char>) -> Seq<char> {
    transfer_id + seq![':'] + unique
}

/// The id of a file in a transfer.
pub fn compose_file_id(transfer_id: &str, unique: &str) -> (file_id: String)
    ensures
        file_id@ == file_id_text(transfer_id@, unique@),
{
    proof {
        reveal_strlit(":");
    }
    let mut s = String::from_str(transfer_id);
    s.append(":");
    s.append(unique);
    assert(":"@ =~= seq![':']);
    s
}

/// A new id for a file in a transfer: the transfer's id, a colon, and a
/// random UUID.
pub fn next_file_id(transfer_id: &str) -> (file_id: String)
    ensures
        exists|id: u128| file_id@ == file_id_text(transfer_id@, hyphenated_text(id)),
{
    let unique = fresh_id();
    compose_file_id(transfer_id, unique.as_str())
}

/// The payload of a chunk packet: the file's id as a string, then the bytes.
pub fn chunk_payload(file_id: &str, data: &[u8]) -> (payload: Vec<u8>)
    requires
        encode_utf8(file_id@).len() <= u16::MAX,
    ensures
        payload@ == encode_string(file_id@) + data@,
{
    let mut writer = BinaryWriter::new();
    writer.write_string(file_id);
    writer.write_bytes(data);
    assert(writer@ =~= encode_string(file_id@) + data@);
    writer.into_bytes()
}

/// The payload of a finish packet: the file's id as a string.
pub fn finish_payload(file_id: &str) -> (payload: Vec<u8>)
    requires
        encode_utf8(file_id@).len() <= u16::MAX,
    ensures
        payload@ == encode_string(file_id@),
{
    let mut writer = BinaryWriter::new();
    writer.write_string(file_id);
    assert(writer@ =~= encode_string(file_id@));
    writer.into_bytes()
}

/// Whether a file id is short enough to be written as a string.
pub fn file_id_fits(file_id: &str) -> (b: bool)
    ensures
        b == (encode_utf8(file_id@).len() <= u16::MAX),
{
    file_id.as_bytes().len() <= 65535
}

/// What is known of a file that is being sent.
#[derive(Debug)]
pub struct FileSend {
    pub transfer_id: String,
    pub file_id: String,
    pub file_path: String,
    pub file_name: String,
    /// The size of the file when it was opened.
    pub total_size: u64,
    /// The bytes handed to the connection so far.
    pub sent_size: u64,
    /// The bytes that had been sent when progress was last reported.
    pub last_emitted_size: u64,
}

impl FileSend {
    /// The report is on this file as it is sent, with the given count and
    /// status.
    pub open spec fn reported_by(&self, p: TransferProgress, sent: u64, status: TransferStatus)
        -> bool {
        &&& p.direction == TransferDirection::Send
        &&& p.error is None
        &&& p.transfer_id@ == self.transfer_id@
        &&& p.file_id@ == self.file_id@
        &&& p.file_path@ == self.file_path@
        &&& p.file_name@ == self.file_name@
        &&& p.total_bytes == self.total_size
        &&& p.sent_bytes == sent
        &&& p.status == status
    }

    fn report(&self, sent: u64, status: TransferStatus) -> (p: TransferProgress)
        ensures
            self.reported_by(p, sent, status),
    {
        TransferProgress {
            transfer_id: self.transfer_id.clone(),
            file_id: self.file_id.clone(),
            file_path: self.file_path.clone(),
            file_name: self.file_name.clone(),
            direction: TransferDirection::Send,
            total_bytes: self.total_size,
            sent_bytes: sent,
            status,
            error: None,
        }
    }

    /// Opens the books on a file that is about to be offered, and makes the
    /// first report: nothing sent yet.
    pub fn begin(
        transfer_id: String,
        file_id: String,
        file_path: String,
        file_name: String,
        total_size: u64,
    ) -> (res: (Self, TransferProgress))
        ensures
            res.0.transfer_id == transfer_id,
            res.0.file_id == file_id,
            res.0.file_path == file_path,
            res.0.file_name == file_name,
            res.0.total_size == total_size,
            res.0.sent_size == 0,
            res.0.last_emitted_size == 0,
            res.0.reported_by(res.1, 0, TransferStatus::Processing),
    {
        let send = FileSend {
            transfer_id,
            file_id,
            file_path,
            file_name,
            total_size,
            sent_size: 0,
            last_emitted_size: 0,
        };
        let progress = send.report(0, TransferStatus::Processing);
        (send, progress)
    }

    /// Takes note of a chunk of `chunk_len` bytes that was handed to the
    /// connection, and makes a report if one is due: at the last byte, and
    /// whenever a step's worth of bytes has gone since the last report. The
    /// count stops at `u64::MAX`.
    pub fn chunk_sent(&mut self, chunk_len: u64) -> (progress: Option<TransferProgress>)
        ensures
            ({
                let current = if old(self).sent_size + chunk_len > u64::MAX {
                    u64::MAX
                } else {
                    (old(self).sent_size + chunk_len) as u64
                };
                let due = progress_due(current, old(self).total_size, old(self).last_emitted_size);
                &&& *final(self) == (FileSend {
                    sent_size: current,
                    last_emitted_size: if due {
                        current
                    } else {
                        old(self).last_emitted_size
                    },
                    ..*old(self)
                })
                &&& match progress {
                    Some(p) => due && old(self).reported_by(p, current, TransferStatus::Processing),
                    None => !due,
                }
            }),
    {
        let current = if chunk_len > u64::MAX - self.sent_size {
            u64::MAX
        } else {
            self.sent_size + chunk_len
        };
        self.sent_size = current;
        if should_emit_progress(current, self.total_size, self.last_emitted_size) {
            self.last_emitted_size = current;
            Some(self.report(current, TransferStatus::Processing))
        } else {
            None
        }
    }

    /// Closes the books on a file whose last byte was read, and makes the
    /// last report.
    pub fn finish(&self) -> (progress: TransferProgress)
        ensures
            self.reported_by(progress, self.sent_size, TransferStatus::Success),
    {
        self.report(self.sent_size, TransferStatus::Success)
    }
}

/// The one report on a batch that failed: it names the transfer and says
/// what went wrong.
pub fn batch_failed(transfer_id: &str, error: &str) -> (p: TransferProgress)
    ensures
        p.direction == TransferDirection::Send,
        p.status == TransferStatus::Failed,
        p.transfer_id@ == transfer_id@,
        p.error matches Some(m) && m@ == error@,
        p.file_id@ == Seq::<char>::empty(),
        p.file_path@ == Seq::<char>::empty(),
        p.file_name@ == Seq::<char>::empty(),
        p.total_bytes == 0,
        p.sent_bytes == 0,
{
    TransferProgress {
        transfer_id: String::from_str(transfer_id),
        file_id: String::new(),
        file_path: String::new(),
        file_name: String::new(),
        direction: TransferDirection::Send,
        total_bytes: 0,
        sent_bytes: 0,
        status: TransferStatus::Failed,
        error: Some(String::from_str(error)),
    }
}

/// The receiver finds the transfer's id in the id of each of its files, as
/// long as the transfer's id has no colon of its own.
pub proof fn law_transfer_id_of_file_id(transfer_id: Seq<char>, unique: Seq<char>)
    requires
        forall|k: int|
            0 <= k < encode_utf8(transfer_id).len() ==> encode_utf8(transfer_id)[k] != 58,
    ensures
        transfer_id_text(file_id_text(transfer_id, unique)) == transfer_id,
{
    lemma_before_colon_of_joined(transfer_id, unique);
}

/// The payload of a chunk is taken apart into the file id and the bytes that
/// it was made of.
pub proof fn law_chunk_payload_round_trip(file_id: Seq<char>, data: Seq<u8>)
    requires
        encode_utf8(file_id).len() <= u16::MAX,
    ensures
        decode_string(encode_string(file_id) + data) == Some(
            (file_id, 2 + encode_utf8(file_id).len()),
        ),
        (encode_string(file_id) + data).skip(2 + encode_utf8(file_id).len() as int) == data,
{
    law_round_trip_string(file_id, data);
    crate::binary::lemma_le_bytes(encode_utf8(file_id).len(), 2);
    assert((encode_string(file_id) + data).skip(2 + encode_utf8(file_id).len() as int) =~= data);
}

} // verus!
