//! The page's side of the thumbnail worker protocol: request ids, and which waiting request
//! each answer goes to.

use vstd::prelude::*;

use crate::ids::IdMap;
use crate::worker_api::{
    error_text, RawRemoteRef, RemoteThumbnailGenerationError, ThumbgenStats, ThumbnailWorkerResponse,
    ThumbnailWorkerResponseMessage,
};

verus! {

/// Whether the worker runs the same build as the page: the same version, commit hash and
/// dirtiness. A mismatch is only warned about.
pub fn versions_match(
    local_version: &str,
    local_hash: Option<&str>,
    local_dirty: Option<bool>,
    remote_version: &String,
    remote_hash: &Option<String>,
    remote_dirty: Option<bool>,
) -> (b: bool)
    ensures
        b == (local_version@ == remote_version@
            && match (local_hash, remote_hash) {
                (Some(l), Some(r)) => l@ == r@,
                (None, None) => true,
                _ => false,
            }
            && local_dirty == remote_dirty),
{
    if local_version.to_owned() != *remote_version {
        return false;
    }
    let hashes_match = match (local_hash, remote_hash) {
        (Some(l), Some(r)) => l.to_owned() == *r,
        (None, None) => true,
        _ => false,
    };
    hashes_match && local_dirty == remote_dirty
}

/// The reference id of a thumbnail answer that could not be handed to anyone: the worker
/// must be told to drop it. Other answers hold nothing.
pub open spec fn held_ref(response: ThumbnailWorkerResponse) -> Option<u16> {
    match response {
        ThumbnailWorkerResponse::Thumbnail { thumbnail: Ok(r) } => Some(r.ref_id),
        _ => None,
    }
}

/// The reference to drop for an answer nobody took.
pub fn undelivered_ref(response: &ThumbnailWorkerResponse) -> (r: Option<u16>)
    ensures
        r == held_ref(*response),
{
    match response {
        ThumbnailWorkerResponse::Thumbnail { thumbnail: Ok(RawRemoteRef { ref_id, .. }) } => Some(*ref_id),
        _ => None,
    }
}

/// What to do with an answer from the worker.
#[derive(Debug)]
pub enum Delivery<S> {
    /// Hand the answer to the request waiting on `waiter`.
    Deliver { waiter: S, response: ThumbnailWorkerResponse },
    /// Fail the request waiting on `waiter`: the worker could not read it.
    Refuse { waiter: S },
    /// Nobody waits for this thumbnail: tell the worker to drop the reference.
    DropRef { ref_id: u16 },
    /// Nothing to do.
    Ignore,
}

/// The page's requests to the worker that wait for an answer, by request id, and whether the
/// two sides were found not to understand each other.
pub struct WorkerChannel<S> {
    queue: IdMap<S>,
    protocol_mismatch: bool,
}

impl<S> WorkerChannel<S> {
    /// The waiting requests, by id.
    pub closed spec fn waiting(&self) -> Map<u16, S> {
        self.queue.view()
    }

    /// Whether a protocol mismatch was seen.
    pub closed spec fn mismatched(&self) -> bool {
        self.protocol_mismatch
    }

    /// Nothing waiting, no mismatch seen.
    pub fn new() -> (c: Self)
        ensures
            c.waiting().dom() == Set::<u16>::empty(),
            !c.mismatched(),
    {
        WorkerChannel { queue: IdMap::new(), protocol_mismatch: false }
    }

    /// Whether a protocol mismatch was seen.
    pub fn is_protocol_mismatched(&self) -> (b: bool)
        ensures
            b == self.mismatched(),
    {
        self.protocol_mismatch
    }

    /// The id of a request that waits for no answer: one not in use by a waiting request.
    pub fn post_request_id(&mut self) -> (id: u16)
        requires
            old(self).waiting().len() < 65535,
        ensures
            !old(self).waiting().contains_key(id),
            final(self).waiting() == old(self).waiting(),
            final(self).mismatched() == old(self).mismatched(),
    {
        self.queue.next_id()
    }

    /// Registers a request that waits for an answer on `waiter`; returns its id, one not in use
    /// by another waiting request.
    pub fn request_id(&mut self, waiter: S) -> (id: u16)
        requires
            old(self).waiting().len() < 65535,
        ensures
            !old(self).waiting().contains_key(id),
            final(self).waiting() == old(self).waiting().insert(id, waiter),
            final(self).mismatched() == old(self).mismatched(),
    {
        self.queue.store(waiter)
    }

    /// Records that a message from the worker could not be read at all.
    pub fn unreadable_message(&mut self)
        ensures
            final(self).mismatched(),
            final(self).waiting() == old(self).waiting(),
    {
        self.protocol_mismatch = true;
    }

    /// Routes an answer. The worker answers a request it could not read with a deserialization
    /// error under id 0, carrying the request back; `returned_request_id` is the id read from
    /// it, if it could be read: that request fails. Any other answer goes to the request
    /// waiting under its id; a thumbnail that nobody waits for is dropped.
    pub fn handle_response(&mut self, message: ThumbnailWorkerResponseMessage, returned_request_id: Option<u16>) -> (d: Delivery<S>)
        ensures
            if message.id == 0 && message.response is DeserializationError {
                &&& final(self).mismatched()
                &&& match returned_request_id {
                    Some(rid) => if old(self).waiting().contains_key(rid) {
                        d == Delivery::Refuse { waiter: old(self).waiting()[rid] }
                            && final(self).waiting() == old(self).waiting().remove(rid)
                    } else {
                        d is Ignore && final(self).waiting() == old(self).waiting()
                    },
                    None => d is Ignore && final(self).waiting() == old(self).waiting(),
                }
            } else {
                &&& final(self).mismatched() == old(self).mismatched()
                &&& final(self).waiting() == old(self).waiting().remove(message.id)
                &&& if old(self).waiting().contains_key(message.id) {
                    d == Delivery::Deliver { waiter: old(self).waiting()[message.id], response: message.response }
                } else {
                    match held_ref(message.response) {
                        Some(r) => d == Delivery::<S>::DropRef { ref_id: r },
                        None => d is Ignore,
                    }
                }
            },
    {
        let ThumbnailWorkerResponseMessage { id, response } = message;
        if id == 0 && matches!(response, ThumbnailWorkerResponse::DeserializationError { .. }) {
            self.protocol_mismatch = true;
            return match returned_request_id {
                None => Delivery::Ignore,
                Some(rid) => match self.queue.take(rid) {
                    Some(waiter) => Delivery::Refuse { waiter },
                    None => Delivery::Ignore,
                },
            };
        }
        match self.queue.take(id) {
            Some(waiter) => Delivery::Deliver { waiter, response },
            None => match undelivered_ref(&response) {
                Some(ref_id) => Delivery::DropRef { ref_id },
                None => Delivery::Ignore,
            },
        }
    }
}

/// Every answer reaches at most one request, and only the request waiting under its id: once
/// delivered, the request no longer waits, so a second answer with that id finds nobody.
pub proof fn lemma_answer_delivered_once<S>(waiting: Map<u16, S>, id: u16)
    ensures
        !waiting.remove(id).contains_key(id),
        forall|other: u16| other != id ==> (waiting.remove(id).contains_key(other) == waiting.contains_key(other)),
{
}

/// A JavaScript error, as read from the value thrown: an `Error` object's name and message, or
/// the text of any other value.
#[derive(Debug)]
pub enum JsErrorText {
    ErrorObject { name: String, message: String },
    Pseudo(String),
}

/// Why a request to the worker failed.
#[derive(Debug)]
pub enum ClientError {
    /// The message could not be serialized; the encoder's error, as debug text.
    BincodeS(String),
    /// The answer could not be deserialized; the decoder's error, as debug text.
    BincodeD(String),
    /// A JavaScript call failed.
    JS(JsErrorText),
    /// The wait for the answer was cancelled; why, as debug text.
    Cancelled(String),
    /// The worker could not read the request, or answered with something else.
    ProtocolError,
    /// The worker did not start in time.
    WorkerInitializationTimeout,
    /// The shared worker is disabled in the settings.
    ConfigDisabled,
    /// The worker failed to generate the thumbnail.
    Remote(RemoteThumbnailGenerationError),
}

/// The text describing a failed request.
pub open spec fn client_error_text(e: ClientError) -> Seq<char> {
    match e {
        ClientError::BincodeS(d) => "Message serialization failed: "@ + d@,
        ClientError::BincodeD(d) => "Message deserialization failed: "@ + d@,
        ClientError::Cancelled(d) => "Waiting for response got cancelled: "@ + d@,
        ClientError::ProtocolError => "Window-worker protocol mismatch"@,
        ClientError::WorkerInitializationTimeout => "Timed out waiting for the worker to initialize"@,
        ClientError::ConfigDisabled => "SW impl disabled in settings"@,
        ClientError::Remote(r) => "Thumbnail generation failed: "@ + error_text(r),
        ClientError::JS(JsErrorText::ErrorObject { name, message }) => "JS error: "@ + name@ + ": "@ + message@,
        ClientError::JS(JsErrorText::Pseudo(t)) => "JS pseudo-error: "@ + t@,
    }
}

fn prefixed(prefix: &str, rest: &str) -> (s: String)
    ensures
        s@ == prefix@ + rest@,
{
    let mut s = String::from_str(prefix);
    s.append(rest);
    s
}

impl ClientError {
    /// The text describing the failure.
    pub fn describe(&self) -> (s: String)
        ensures
            s@ == client_error_text(*self),
    {
        match self {
            ClientError::BincodeS(d) => prefixed("Message serialization failed: ", d.as_str()),
            ClientError::BincodeD(d) => prefixed("Message deserialization failed: ", d.as_str()),
            ClientError::Cancelled(d) => prefixed("Waiting for response got cancelled: ", d.as_str()),
            ClientError::ProtocolError => String::from_str("Window-worker protocol mismatch"),
            ClientError::WorkerInitializationTimeout => String::from_str("Timed out waiting for the worker to initialize"),
            ClientError::ConfigDisabled => String::from_str("SW impl disabled in settings"),
            ClientError::Remote(r) => {
                let t = r.describe();
                prefixed("Thumbnail generation failed: ", t.as_str())
            },
            ClientError::JS(JsErrorText::ErrorObject { name, message }) => {
                let mut s = prefixed("JS error: ", name.as_str());
                s.append(": ");
                s.append(message.as_str());
                s
            },
            ClientError::JS(JsErrorText::Pseudo(t)) => prefixed("JS pseudo-error: ", t.as_str()),
        }
    }
}

/// What the answer to a thumbnail request means: the thumbnail the worker now holds for the
/// page, the worker's failure, or, for any other answer, a protocol mismatch.
pub fn thumbnail_result(response: ThumbnailWorkerResponse) -> (r: Result<RawRemoteRef, ClientError>)
    ensures
        match response {
            ThumbnailWorkerResponse::Thumbnail { thumbnail: Ok(rr) } => r == Ok::<RawRemoteRef, ClientError>(rr),
            ThumbnailWorkerResponse::Thumbnail { thumbnail: Err(e) } => r == Err::<RawRemoteRef, ClientError>(ClientError::Remote(e)),
            _ => r matches Err(ClientError::ProtocolError),
        },
{
    match response {
        ThumbnailWorkerResponse::Thumbnail { thumbnail: Ok(rr) } => Ok(rr),
        ThumbnailWorkerResponse::Thumbnail { thumbnail: Err(e) } => Err(ClientError::Remote(e)),
        _ => Err(ClientError::ProtocolError),
    }
}

/// What the answer to a statistics request means: the statistics, or, for any other answer, a
/// protocol mismatch.
pub fn stats_result(response: ThumbnailWorkerResponse) -> (r: Result<ThumbgenStats, ClientError>)
    ensures
        match response {
            ThumbnailWorkerResponse::Stats { stats } => r == Ok::<ThumbgenStats, ClientError>(stats),
            _ => r matches Err(ClientError::ProtocolError),
        },
{
    match response {
        ThumbnailWorkerResponse::Stats { stats } => Ok(stats),
        _ => Err(ClientError::ProtocolError),
    }
}

} // verus!
