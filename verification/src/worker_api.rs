//! The messages exchanged with the shared thumbnail worker, and how a failed remote thumbnail
//! generation is described to the user.

use vstd::prelude::*;
use vstd::string::StringExecFns;

use crate::numbers::{decimal, decimal_string};
use crate::thumbs::{CacheStats, ThumbnailKey};

verus! {

/// Why the worker could not generate a thumbnail.
#[derive(Debug)]
pub enum RemoteThumbnailGenerationError {
    /// A JavaScript error, with its name, message, cause and stack where known.
    JSError {
        name: Option<String>,
        message: String,
        cause: Option<String>,
        stack: Option<String>,
    },
    /// The server refused, giving this reason.
    ServerError(String),
    /// The server answered with an unexpected status code.
    UnexpectedStatusCode(u16),
    /// The server refused without a reason.
    SilentFailure,
    /// The server sent an empty thumbnail.
    ZeroSizeBlob,
    /// The server sent a file of this type, which is not an image type.
    UnexpectedType(String),
}

/// The text describing an error to the user.
pub open spec fn error_text(e: RemoteThumbnailGenerationError) -> Seq<char> {
    match e {
        RemoteThumbnailGenerationError::JSError { name, message, .. } =>
            "A JS error has occurred: "@ + match name {
                Some(n) => n@ + ": "@,
                None => Seq::empty(),
            } + message@,
        RemoteThumbnailGenerationError::ServerError(reason) =>
            "The server refused to generate the thumbnail: "@ + reason@,
        RemoteThumbnailGenerationError::UnexpectedStatusCode(code) =>
            "The server had sent an unexpected status code: "@ + decimal(code as nat),
        RemoteThumbnailGenerationError::SilentFailure =>
            "The server refused to generate the thumbnail, but no reason was given"@,
        RemoteThumbnailGenerationError::ZeroSizeBlob => "The server had sent an empty thumbnail"@,
        RemoteThumbnailGenerationError::UnexpectedType(t) =>
            "The server sent a file of an unexpected type: "@ + t@ + " (expected 'image/*')"@,
    }
}

impl RemoteThumbnailGenerationError {
    /// The text describing the error to the user.
    pub fn describe(&self) -> (s: String)
        ensures
            s@ == error_text(*self),
    {
        match self {
            RemoteThumbnailGenerationError::JSError { name, message, .. } => {
                let mut s = String::from_str("A JS error has occurred: ");
                let ghost start = s@;
                match name {
                    Some(n) => {
                        s.append(n.as_str());
                        s.append(": ");
                    },
                    None => {
                        proof { assert(start + Seq::<char>::empty() =~= start); }
                    },
                }
                s.append(message.as_str());
                s
            },
            RemoteThumbnailGenerationError::ServerError(reason) => {
                let mut s = String::from_str("The server refused to generate the thumbnail: ");
                s.append(reason.as_str());
                s
            },
            RemoteThumbnailGenerationError::UnexpectedStatusCode(code) => {
                let mut s = String::from_str("The server had sent an unexpected status code: ");
                let digits = decimal_string(*code as u128);
                s.append(digits.as_str());
                s
            },
            RemoteThumbnailGenerationError::SilentFailure =>
                String::from_str("The server refused to generate the thumbnail, but no reason was given"),
            RemoteThumbnailGenerationError::ZeroSizeBlob => String::from_str("The server had sent an empty thumbnail"),
            RemoteThumbnailGenerationError::UnexpectedType(t) => {
                let mut s = String::from_str("The server sent a file of an unexpected type: ");
                s.append(t.as_str());
                s.append(" (expected 'image/*')");
                s
            },
        }
    }
}

/// A setting the worker must follow.
#[derive(Debug)]
pub enum WorkerSetting {
    /// The thumbnail generator's base URL changed.
    ThumbgenBaseUrl(String),
}

/// A request to the worker.
#[derive(Debug)]
pub enum ThumbnailWorkerRequest {
    Version { version: String, git_hash: Option<String>, git_dirty: Option<bool> },
    BlobLinkDropped { ref_id: u16 },
    GetThumbnail { key: ThumbnailKey },
    SettingUpdated { setting: WorkerSetting },
    ClearErrors,
    GetStats,
    Ping,
    Disconnecting,
}

/// A thumbnail that the worker holds for a client: its object URL and the id under which the
/// client's reference is held.
#[derive(Debug)]
pub struct RawRemoteRef {
    pub url: String,
    pub ref_id: u16,
}

/// Statistics about the worker's clients.
#[derive(Clone, Copy, PartialEq, Eq, Debug, Structural)]
pub struct WorkerStats {
    pub clients: usize,
    pub this_client_refs: usize,
}

/// Statistics about a thumbnail generator: its cache, and its clients when it is the worker.
#[derive(Clone, Copy, PartialEq, Eq, Debug, Structural)]
pub struct ThumbgenStats {
    pub cache_stats: CacheStats,
    pub worker_stats: Option<WorkerStats>,
}

/// An answer of the worker.
#[derive(Debug)]
pub enum ThumbnailWorkerResponse {
    Version { version: String, git_hash: Option<String>, git_dirty: Option<bool> },
    DeserializationError { received_data: Vec<u8> },
    Thumbnail { thumbnail: Result<RawRemoteRef, RemoteThumbnailGenerationError> },
    Stats { stats: ThumbgenStats },
    Acknowledged,
}

/// A request, with the id its answer will carry.
#[derive(Debug)]
pub struct ThumbnailWorkerRequestMessage {
    pub id: u16,
    pub request: ThumbnailWorkerRequest,
}

/// An answer, with the id of the request it answers.
#[derive(Debug)]
pub struct ThumbnailWorkerResponseMessage {
    pub id: u16,
    pub response: ThumbnailWorkerResponse,
}

} // verus!
