//! The decisions of a file upload: which frames carry data, when the upload
//! is complete, and the paths and messages involved.

use vstd::prelude::*;
use crate::message::{
    fresh_spec, from_data_spec, pop_bytes_spec, Message, Priority, FILE_UPLOAD_CHUNK,
    FILE_UPLOAD_COMPLETE, SERVER_READY,
};
use crate::files::transfer::size_mismatch_client_text;
use crate::text::{concat_str, trim_start_char, trim_start_char_spec, u64_to_decimal};

verus! {

pub const UPLOAD_OUTSIDE_TEXT: &'static str = "Target path for file upload is outside the working directory";
pub const UPLOAD_OPEN_FAILED_TEXT: &'static str = "Failed to open target file for writing";
pub const UPLOAD_WRITE_FAILED_TEXT: &'static str = "Failed to write chunk to file";
pub const UPLOAD_FINALIZE_FAILED_TEXT: &'static str = "Failed to finalize uploaded file";
pub const UPLOAD_PARENT_FAILED_PREFIX: &'static str = "Failed to create parent directory: ";

/// Upload progress: bytes written so far and the size announced by the request.
pub struct UploadState {
    pub received_size: u64,
    pub file_size: u64,
}

/// A frame received during an upload.
pub enum UploadFrame {
    Binary(Vec<u8>),
    Other,
}

/// What to do with an upload frame.
#[derive(Debug, PartialEq, Eq)]
pub enum UploadAction {
    /// Write these bytes to the file, then report them with `chunk_written`.
    WriteChunk(Vec<u8>),
    /// All bytes arrived: flush, sync and acknowledge the upload.
    Finalize,
    /// Remove the partial file and send this error.
    Fail(String),
    /// Nothing to do.
    Ignore,
}

impl UploadState {
    /// An upload of `file_size` bytes that has received nothing.
    pub fn new(file_size: u64) -> (s: UploadState)
        ensures
            s.received_size == 0,
            s.file_size == file_size,
    {
        UploadState { received_size: 0, file_size }
    }

    /// Decides what a frame means: a chunk message's bytes are to be written;
    /// a completion message finalizes the upload when exactly the announced
    /// number of bytes arrived and fails it otherwise; anything else is ignored.
    pub fn on_frame(&self, frame: UploadFrame) -> (a: UploadAction)
        ensures
            match frame {
                UploadFrame::Binary(d) => {
                    let m = from_data_spec(d@);
                    if m.id == FILE_UPLOAD_CHUNK {
                        a matches UploadAction::WriteChunk(c) && c@ == pop_bytes_spec(m).0
                    } else if m.id == FILE_UPLOAD_COMPLETE {
                        if self.received_size == self.file_size {
                            a == UploadAction::Finalize
                        } else {
                            a matches UploadAction::Fail(e) && e@ == size_mismatch_client_text(
                                self.file_size,
                                self.received_size,
                            )
                        }
                    } else {
                        a == UploadAction::Ignore
                    }
                },
                UploadFrame::Other => a == UploadAction::Ignore,
            },
    {
        match frame {
            UploadFrame::Binary(data) => {
                let mut m = Message::from_data(data);
                let id = m.get_id();
                if id == FILE_UPLOAD_CHUNK {
                    UploadAction::WriteChunk(m.pop_bytes())
                } else if id == FILE_UPLOAD_COMPLETE {
                    if self.received_size == self.file_size {
                        UploadAction::Finalize
                    } else {
                        let e = u64_to_decimal(self.file_size);
                        let r = u64_to_decimal(self.received_size);
                        let a = concat_str("File size mismatch: expected ", e.as_str());
                        let b = concat_str(a.as_str(), ", got ");
                        UploadAction::Fail(concat_str(b.as_str(), r.as_str()))
                    }
                } else {
                    UploadAction::Ignore
                }
            },
            UploadFrame::Other => UploadAction::Ignore,
        }
    }

    /// Counts a chunk of `len` bytes that was written to the file.
    pub fn chunk_written(&mut self, len: usize)
        requires
            old(self).received_size + len <= u64::MAX,
        ensures
            final(self).received_size == old(self).received_size + len,
            final(self).file_size == old(self).file_size,
    {
        self.received_size = self.received_size + len as u64;
    }
}

/// The upload's target path relative to the working directory: leading `/`s removed.
pub fn upload_relative_path(target_path: &str) -> (p: String)
    ensures
        p@ == trim_start_char_spec(target_path@, '/'),
{
    trim_start_char(target_path, '/')
}

/// The error sent when the target's parent directories cannot be created.
pub fn parent_dir_error(reason: &str) -> (s: String)
    ensures
        s@ == UPLOAD_PARENT_FAILED_PREFIX@ + reason@,
{
    concat_str(UPLOAD_PARENT_FAILED_PREFIX, reason)
}

/// The acknowledgement of the `SERVER_READY` handshake on an upload connection.
pub fn build_upload_ready_ack(uuid: &str) -> (m: Message)
    ensures
        m@ == fresh_spec(SERVER_READY, Priority::Highest, uuid@),
{
    Message::new(SERVER_READY, Priority::Highest, uuid)
}

/// The message confirming a completed upload.
pub fn build_upload_complete(uuid: &str) -> (m: Message)
    ensures
        m@ == fresh_spec(FILE_UPLOAD_COMPLETE, Priority::Highest, uuid@),
{
    Message::new(FILE_UPLOAD_COMPLETE, Priority::Highest, uuid)
}

} // verus!
