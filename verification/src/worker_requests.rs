//! The worker's answer to each request of a connected page. The worker first finds the page
//! that sent the request (registering it if it was missing) and marks it alive; `respond` then
//! does what the request asks of the page list and of the local generator, and says what to
//! send back. A thumbnail takes a fetch: the page receives its answer from `thumbnail_reply`.

use vstd::prelude::*;

use std::rc::Rc;

use crate::thumbgen::update_base_url;
use crate::thumbs::{key_view, thumb_stats_of, without_errors, LocalBlobLink, LocalThumbGenerator, ThumbnailKey};
use crate::web_url::{parsed_url, url_with_segments};
use crate::worker_api::{
    RawRemoteRef, RemoteThumbnailGenerationError, ThumbgenStats, ThumbnailWorkerRequest, ThumbnailWorkerRequestMessage,
    ThumbnailWorkerResponse, ThumbnailWorkerResponseMessage, WorkerSetting, WorkerStats,
};
use crate::ids::id_after;
use crate::worker_clients::{RemoteClient, WorkerClients};

verus! {

/// The worker's own build, told to each page that asks for it.
#[derive(Debug)]
pub struct WorkerBuild {
    pub version: String,
    pub git_hash: Option<String>,
    pub git_dirty: Option<bool>,
}

/// Whether two optional texts are both absent or both present and equal.
pub open spec fn same_opt_text(a: Option<String>, b: Option<String>) -> bool {
    match (a, b) {
        (Some(x), Some(y)) => x@ == y@,
        (None, None) => true,
        _ => false,
    }
}

/// Whether a page's build is the worker's.
pub open spec fn same_build(version: Seq<char>, git_hash: Option<String>, git_dirty: Option<bool>, build: WorkerBuild) -> bool {
    version == build.version@ && same_opt_text(git_hash, build.git_hash) && git_dirty == build.git_dirty
}

/// What the worker does after a request.
#[derive(Debug)]
pub enum WorkerStep {
    /// Send this answer.
    Reply(ThumbnailWorkerResponse),
    /// Nothing is sent.
    Done,
    /// Fetch this thumbnail from the local generator; `thumbnail_reply` makes the answer.
    FetchThumbnail(ThumbnailKey),
}

/// What `respond` did: the step to take, and whether the page announced a build other than
/// the worker's (which the worker warns about).
#[derive(Debug)]
pub struct Responded {
    pub step: WorkerStep,
    pub version_mismatch: bool,
}

fn copy_opt_text(t: &Option<String>) -> (r: Option<String>)
    ensures
        same_opt_text(r, *t),
{
    match t {
        Some(s) => Some(s.clone()),
        None => None,
    }
}

fn same_opt_flag(a: Option<bool>, b: Option<bool>) -> (r: bool)
    ensures
        r == (a == b),
{
    match (a, b) {
        (Some(x), Some(y)) => x == y,
        (None, None) => true,
        _ => false,
    }
}

fn same_opt_text_exec(a: &Option<String>, b: &Option<String>) -> (r: bool)
    ensures
        r == same_opt_text(*a, *b),
{
    match (a, b) {
        (Some(x), Some(y)) => *x == *y,
        (None, None) => true,
        _ => false,
    }
}

/// Does what the request of the page at index `i` asks, and says what to send back:
/// - `Version`: the worker's build, and whether the page's differs;
/// - `BlobLinkDropped`: the page lets go of that thumbnail; nothing is sent;
/// - `GetThumbnail`: the thumbnail is to be fetched;
/// - `GetStats`: the cache's statistics and the page list's;
/// - `Ping`: an acknowledgement;
/// - `Disconnecting`: the page leaves the list; nothing is sent;
/// - `SettingUpdated` with a new thumbnail server: the generator is pointed at it, as
///   `update_base_url` does; nothing is sent;
/// - `ClearErrors`: the generator's failures are cleared; nothing is sent.
/// Only the named parts change.
pub fn respond<E>(
    clients: &mut WorkerClients,
    generator: &mut LocalThumbGenerator<E>,
    build: &WorkerBuild,
    i: usize,
    request: ThumbnailWorkerRequest,
) -> (r: Responded)
    requires
        old(clients).wf(),
        old(generator).wf(),
        i < old(clients).pages().len(),
    ensures
        final(clients).wf(),
        final(generator).wf(),
        final(generator).threshold() == old(generator).threshold(),
        !(request is Version) ==> !r.version_mismatch,
        !(request is BlobLinkDropped) && !(request is Disconnecting) ==> final(clients).pages() == old(clients).pages(),
        !(request is SettingUpdated) && !(request is ClearErrors) ==> final(generator).entries() == old(generator).entries()
            && final(generator).api_url() == old(generator).api_url(),
        match request {
            ThumbnailWorkerRequest::Version { version, git_hash, git_dirty } =>
                (r.step matches WorkerStep::Reply(ThumbnailWorkerResponse::Version { version: v, git_hash: h, git_dirty: d })
                    && v@ == build.version@ && same_opt_text(h, build.git_hash) && d == build.git_dirty)
                && r.version_mismatch == !same_build(version@, git_hash, git_dirty, *build),
            ThumbnailWorkerRequest::BlobLinkDropped { ref_id } => r.step is Done
                && final(clients).pages().len() == old(clients).pages().len()
                && final(clients).pages()[i as int].held_refs.view() == old(clients).pages()[i as int].held_refs.view().remove(ref_id)
                && final(clients).pages()[i as int].port == old(clients).pages()[i as int].port
                && final(clients).pages()[i as int].ping_received == old(clients).pages()[i as int].ping_received
                && final(clients).pages()[i as int].checks_since_last_ping == old(clients).pages()[i as int].checks_since_last_ping
                && (forall|j: int| 0 <= j < old(clients).pages().len() && j != i ==> final(clients).pages()[j] == old(clients).pages()[j]),
            ThumbnailWorkerRequest::GetThumbnail { key } =>
                r.step matches WorkerStep::FetchThumbnail(k) && key_view(k) == key_view(key),
            ThumbnailWorkerRequest::GetStats =>
                r.step matches WorkerStep::Reply(ThumbnailWorkerResponse::Stats { stats })
                && stats.worker_stats == Some(WorkerStats {
                    clients: old(clients).pages().len() as usize,
                    this_client_refs: old(clients).pages()[i as int].held_refs.view().len() as usize,
                })
                && exists|in_use: Seq<bool>| #![trigger thumb_stats_of(old(generator).entries(), in_use)]
                    in_use.len() == old(generator).entries().len()
                    && stats.cache_stats == thumb_stats_of(old(generator).entries(), in_use),
            ThumbnailWorkerRequest::Ping => r.step matches WorkerStep::Reply(ThumbnailWorkerResponse::Acknowledged),
            ThumbnailWorkerRequest::Disconnecting => r.step is Done
                && exists|j: int| 0 <= j <= i && (#[trigger] old(clients).pages()[j]).port == old(clients).pages()[i as int].port
                    && (forall|k: int| 0 <= k < j ==> (#[trigger] old(clients).pages()[k]).port != old(clients).pages()[i as int].port)
                    && final(clients).pages() == old(clients).pages().remove(j),
            ThumbnailWorkerRequest::SettingUpdated { setting: WorkerSetting::ThumbgenBaseUrl(url) } => r.step is Done
                && if parsed_url(url@) matches Some(v) && !v.cannot_be_a_base {
                    Some(final(generator).api_url()) == url_with_segments(url@, seq!["api"@, "v1"@, "getThumbnail"@])
                        && final(generator).entries() == without_errors(old(generator).entries())
                } else {
                    final(generator).entries() == old(generator).entries()
                        && final(generator).api_url() == old(generator).api_url()
                },
            ThumbnailWorkerRequest::ClearErrors => r.step is Done
                && final(generator).entries() == without_errors(old(generator).entries())
                && final(generator).api_url() == old(generator).api_url(),
        },
{
    match request {
        ThumbnailWorkerRequest::Version { version, git_hash, git_dirty } => {
            let same_version = version == build.version;
            let same_hash = same_opt_text_exec(&git_hash, &build.git_hash);
            let same_dirty = same_opt_flag(git_dirty, build.git_dirty);
            let mismatch = !(same_version && same_hash && same_dirty);
            let response = ThumbnailWorkerResponse::Version {
                version: build.version.clone(),
                git_hash: copy_opt_text(&build.git_hash),
                git_dirty: build.git_dirty,
            };
            Responded { step: WorkerStep::Reply(response), version_mismatch: mismatch }
        },
        ThumbnailWorkerRequest::BlobLinkDropped { ref_id } => {
            let _ = clients.drop_ref_for(i, ref_id);
            Responded { step: WorkerStep::Done, version_mismatch: false }
        },
        ThumbnailWorkerRequest::GetThumbnail { key } => {
            Responded { step: WorkerStep::FetchThumbnail(key), version_mismatch: false }
        },
        ThumbnailWorkerRequest::GetStats => {
            let cache_stats = generator.get_stats();
            let worker_stats = clients.stats_for(i);
            let stats = ThumbgenStats { cache_stats, worker_stats: Some(worker_stats) };
            Responded { step: WorkerStep::Reply(ThumbnailWorkerResponse::Stats { stats }), version_mismatch: false }
        },
        ThumbnailWorkerRequest::Ping => {
            Responded { step: WorkerStep::Reply(ThumbnailWorkerResponse::Acknowledged), version_mismatch: false }
        },
        ThumbnailWorkerRequest::Disconnecting => {
            let port = clients.client(i).port;
            let ghost before = clients.pages();
            proof {
                assert(clients.has_port(port)) by {
                    assert(before[i as int].port == port);
                }
            }
            let _ = clients.disconnect(port);
            proof {
                let j = choose|j: int| 0 <= j < before.len() && (#[trigger] before[j]).port == port
                    && (forall|k: int| 0 <= k < j ==> (#[trigger] before[k]).port != port)
                    && clients.pages() == before.remove(j);
                assert(j <= i);
            }
            Responded { step: WorkerStep::Done, version_mismatch: false }
        },
        ThumbnailWorkerRequest::SettingUpdated { setting } => {
            match setting {
                WorkerSetting::ThumbgenBaseUrl(url) => {
                    let _ = update_base_url(generator, url.as_str());
                },
            }
            Responded { step: WorkerStep::Done, version_mismatch: false }
        },
        ThumbnailWorkerRequest::ClearErrors => {
            let _ = generator.clear_errors();
            Responded { step: WorkerStep::Done, version_mismatch: false }
        },
    }
}

/// Whether no page with port `port` holds as many thumbnails as reference ids exist.
pub open spec fn has_free_ref_ids(pages: Seq<RemoteClient>, port: u64) -> bool {
    forall|j: int| 0 <= j < pages.len() && (#[trigger] pages[j]).port == port ==> pages[j].held_refs.view().len() < 65535
}

/// The answer, under the request's id `id`, to a page's thumbnail request, once the generator
/// answered `result`. A thumbnail is held for the page under a fresh reference id, which the
/// answer carries with the thumbnail's URL; a failure is passed on. When the page with port
/// `port` has left meanwhile, nothing is held and nothing is sent (`None`).
pub fn thumbnail_reply(
    clients: &mut WorkerClients,
    port: u64,
    id: u16,
    result: Result<Rc<LocalBlobLink>, RemoteThumbnailGenerationError>,
) -> (r: Option<ThumbnailWorkerResponseMessage>)
    requires
        old(clients).wf(),
        has_free_ref_ids(old(clients).pages(), port),
    ensures
        final(clients).wf(),
        r is Some <==> old(clients).has_port(port),
        r matches Some(m) ==> m.id == id,
        r is None ==> final(clients).pages() == old(clients).pages(),
        r is Some ==> match result {
            Err(e) => (r matches Some(m) && m.response == ThumbnailWorkerResponse::Thumbnail { thumbnail: Err(e) })
                && final(clients).pages() == old(clients).pages(),
            Ok(link) => exists|i: int| #![trigger old(clients).pages()[i]]
                0 <= i < old(clients).pages().len() && old(clients).pages()[i].port == port
                && (forall|k: int| 0 <= k < i ==> (#[trigger] old(clients).pages()[k]).port != port)
                && (r matches Some(m) && m.response matches ThumbnailWorkerResponse::Thumbnail { thumbnail: Ok(rr) }
                    && rr.url@ == link.url()
                    && !old(clients).pages()[i].held_refs.view().contains_key(rr.ref_id)
                    && final(clients).pages()[i].held_refs.view()
                        == old(clients).pages()[i].held_refs.view().insert(rr.ref_id, link)
                    && final(clients).pages()[i].held_refs.counter() == id_after(rr.ref_id, 1))
                && final(clients).pages().len() == old(clients).pages().len()
                && (forall|j: int| 0 <= j < old(clients).pages().len() && j != i ==> final(clients).pages()[j] == old(clients).pages()[j]),
        },
{
    let i = match clients.find(port) {
        None => { return None; },
        Some(i) => i,
    };
    match result {
        Err(e) => Some(ThumbnailWorkerResponseMessage { id, response: ThumbnailWorkerResponse::Thumbnail { thumbnail: Err(e) } }),
        Ok(link) => {
            let ghost before = clients.pages();
            let url = String::from_str(link.inner_url());
            let ref_id = clients.store_ref_for(i, link);
            let r = Some(ThumbnailWorkerResponseMessage {
                id,
                response: ThumbnailWorkerResponse::Thumbnail { thumbnail: Ok(RawRemoteRef { url, ref_id }) },
            });
            proof {
                assert(before[i as int].port == port);
            }
            r
        },
    }
}

/// The index of the first page with port `port`, or the number of pages when none has it: the
/// index the page sending a message on that port has once it is found or registered.
pub open spec fn first_with_port(pages: Seq<RemoteClient>, port: u64) -> int
    decreases pages.len(),
{
    if pages.len() == 0 {
        0
    } else if pages[0].port == port {
        0
    } else {
        1 + first_with_port(pages.drop_first(), port)
    }
}

proof fn lemma_first_with_port(pages: Seq<RemoteClient>, port: u64, i: int)
    requires
        0 <= i <= pages.len(),
        forall|k: int| 0 <= k < i ==> (#[trigger] pages[k]).port != port,
        i < pages.len() ==> pages[i].port == port,
    ensures
        first_with_port(pages, port) == i,
    decreases pages.len(),
{
    if pages.len() > 0 && i > 0 {
        let rest = pages.drop_first();
        assert forall|k: int| 0 <= k < i - 1 implies (#[trigger] rest[k]).port != port by {
            assert(rest[k] == pages[k + 1]);
        }
        if i - 1 < rest.len() {
            assert(rest[i - 1] == pages[i]);
        }
        assert(pages[0].port != port);
        lemma_first_with_port(rest, port, i - 1);
    }
}

/// What the worker does with one message from a page: the answer to send back, if any, and
/// the thumbnail to fetch, if one was asked for.
#[derive(Debug)]
pub struct Handled {
    /// The answer, under the message's id.
    pub reply: Option<ThumbnailWorkerResponseMessage>,
    /// A thumbnail to fetch; its answer, under the same id, comes from `thumbnail_reply`.
    pub fetch: Option<ThumbnailKey>,
    /// Whether the page announced a build other than the worker's.
    pub version_mismatch: bool,
}

/// Handles a message that came on the port `port`: the sending page is found (registered if
/// missing) and marked alive, and the request is done as `respond` does. Version, statistics and
/// ping requests are answered once, under the message's id; a thumbnail request leaves a
/// thumbnail to fetch; the others send nothing. A disconnecting page leaves the list.
pub fn process_message<E>(
    clients: &mut WorkerClients,
    generator: &mut LocalThumbGenerator<E>,
    build: &WorkerBuild,
    port: u64,
    message: ThumbnailWorkerRequestMessage,
) -> (h: Handled)
    requires
        old(clients).wf(),
        old(generator).wf(),
    ensures
        final(clients).wf(),
        final(generator).wf(),
        h.reply is Some <==> (message.request is Version || message.request is GetStats || message.request is Ping),
        h.reply matches Some(m) ==> m.id == message.id,
        h.fetch is Some <==> message.request is GetThumbnail,
        match message.request {
            ThumbnailWorkerRequest::GetThumbnail { key } => h.fetch matches Some(k) && key_view(k) == key_view(key),
            _ => true,
        },
        final(generator).threshold() == old(generator).threshold(),
        !(message.request is Version) ==> !h.version_mismatch,
        !(message.request is BlobLinkDropped) && !(message.request is Disconnecting) ==> ({
            let i = first_with_port(old(clients).pages(), port);
            &&& final(clients).pages().len() == old(clients).pages().len() + (if i == old(clients).pages().len() { 1int } else { 0int })
            &&& forall|j: int| 0 <= j < old(clients).pages().len() && j != i ==> final(clients).pages()[j] == old(clients).pages()[j]
            &&& i < old(clients).pages().len() ==> final(clients).pages()[i].held_refs == old(clients).pages()[i].held_refs
            &&& i == old(clients).pages().len() ==> final(clients).pages()[i].held_refs.view().dom() == Set::<u16>::empty()
        }),
        !(message.request is SettingUpdated) && !(message.request is ClearErrors) ==> final(generator).entries() == old(generator).entries()
            && final(generator).api_url() == old(generator).api_url(),
        match message.request {
            ThumbnailWorkerRequest::Version { version, git_hash, git_dirty } =>
                (h.reply matches Some(m) && m.response matches ThumbnailWorkerResponse::Version { version: v, git_hash: gh, git_dirty: d }
                    && v@ == build.version@ && same_opt_text(gh, build.git_hash) && d == build.git_dirty)
                && h.version_mismatch == !same_build(version@, git_hash, git_dirty, *build),
            ThumbnailWorkerRequest::BlobLinkDropped { ref_id } => ({
                let i = first_with_port(old(clients).pages(), port);
                &&& final(clients).pages().len() == old(clients).pages().len() + (if i == old(clients).pages().len() { 1int } else { 0int })
                &&& forall|j: int| 0 <= j < old(clients).pages().len() && j != i ==> final(clients).pages()[j] == old(clients).pages()[j]
                &&& i < old(clients).pages().len() ==> final(clients).pages()[i].held_refs.view()
                    == old(clients).pages()[i].held_refs.view().remove(ref_id)
                &&& i == old(clients).pages().len() ==> final(clients).pages()[i].held_refs.view().dom() == Set::<u16>::empty()
            }),
            ThumbnailWorkerRequest::GetStats => ({
                let i = first_with_port(old(clients).pages(), port);
                h.reply matches Some(m) && m.response matches ThumbnailWorkerResponse::Stats { stats }
                && stats.worker_stats == Some(WorkerStats {
                    clients: final(clients).pages().len() as usize,
                    this_client_refs: (if i < old(clients).pages().len() { old(clients).pages()[i].held_refs.view().len() } else { 0 }) as usize,
                })
                && exists|in_use: Seq<bool>| #![trigger thumb_stats_of(old(generator).entries(), in_use)]
                    in_use.len() == old(generator).entries().len()
                    && stats.cache_stats == thumb_stats_of(old(generator).entries(), in_use)
            }),
            ThumbnailWorkerRequest::Ping => h.reply matches Some(m) && m.response is Acknowledged,
            ThumbnailWorkerRequest::SettingUpdated { setting: WorkerSetting::ThumbgenBaseUrl(url) } =>
                if parsed_url(url@) matches Some(v) && !v.cannot_be_a_base {
                    Some(final(generator).api_url()) == url_with_segments(url@, seq!["api"@, "v1"@, "getThumbnail"@])
                        && final(generator).entries() == without_errors(old(generator).entries())
                } else {
                    final(generator).entries() == old(generator).entries()
                        && final(generator).api_url() == old(generator).api_url()
                },
            ThumbnailWorkerRequest::ClearErrors => final(generator).entries() == without_errors(old(generator).entries())
                && final(generator).api_url() == old(generator).api_url(),
            _ => true,
        },
        !(message.request is Disconnecting) ==> final(clients).has_port(port) && exists|i: int| #![trigger final(clients).pages()[i]]
            0 <= i < final(clients).pages().len() && final(clients).pages()[i].port == port
            && final(clients).pages()[i].ping_received && final(clients).pages()[i].checks_since_last_ping == 0,
        message.request is Disconnecting ==> (old(clients).has_port(port) ==> exists|j: int| #![trigger old(clients).pages()[j]]
            0 <= j < old(clients).pages().len() && old(clients).pages()[j].port == port
            && (forall|k: int| 0 <= k < j ==> (#[trigger] old(clients).pages()[k]).port != port)
            && final(clients).pages() == old(clients).pages().remove(j))
            && (!old(clients).has_port(port) ==> final(clients).pages() == old(clients).pages()),
{
    let ghost before = clients.pages();
    let i = clients.get_client(port);
    let ghost mid = clients.pages();
    let id = message.id;
    let ghost request = message.request;
    proof {
        if old(clients).has_port(port) {
            assert forall|k: int| 0 <= k < i implies (#[trigger] before[k]).port != port by {
                assert(mid[k] == before[k]);
            }
        } else {
            assert forall|k: int| 0 <= k < i implies (#[trigger] before[k]).port != port by {
                assert(mid[k] == before[k]);
            }
        }
        lemma_first_with_port(before, port, i as int);
        assert(mid.len() == before.len() + (if i == before.len() { 1int } else { 0int }));
    }
    let r = respond(clients, generator, build, i, message.request);
    let h = match r.step {
        WorkerStep::Reply(response) => Handled {
            reply: Some(ThumbnailWorkerResponseMessage { id, response }),
            fetch: None,
            version_mismatch: r.version_mismatch,
        },
        WorkerStep::Done => Handled { reply: None, fetch: None, version_mismatch: r.version_mismatch },
        WorkerStep::FetchThumbnail(key) => Handled { reply: None, fetch: Some(key), version_mismatch: r.version_mismatch },
    };
    proof {
        if !(request is Disconnecting) {
            assert(clients.pages()[i as int].port == port);
            assert(clients.has_port(port));
        } else {
            let j = choose|j: int| 0 <= j <= i && (#[trigger] mid[j]).port == mid[i as int].port
                && (forall|k: int| 0 <= k < j ==> (#[trigger] mid[k]).port != mid[i as int].port)
                && clients.pages() == mid.remove(j);
            assert(j == i);
            if old(clients).has_port(port) {
                assert(i < before.len());
                assert forall|k: int| 0 <= k < i implies (#[trigger] before[k]).port != port by {
                    assert(mid[k] == before[k]);
                }
                assert(before[i as int].port == port);
                assert(clients.pages() =~= before.remove(i as int)) by {
                    assert forall|k: int| 0 <= k < before.len() - 1 implies clients.pages()[k] == before.remove(i as int)[k] by {
                        if k < i {
                            assert(mid[k] == before[k]);
                        } else {
                            assert(mid[k + 1] == before[k + 1]);
                        }
                    }
                }
            } else {
                assert(i == before.len());
                assert(clients.pages() =~= before) by {
                    assert forall|k: int| 0 <= k < before.len() implies clients.pages()[k] == before[k] by {
                        assert(mid[k] == before[k]);
                    }
                }
            }
        }
    }
    h
}

/// A thumbnail that `thumbnail_reply` held for a page, and that the page then drops by the
/// reference id it was sent (`BlobLinkDropped` through `respond`), leaves the page holding
/// exactly what it held before.
pub proof fn lemma_hold_then_drop(held: Map<u16, Rc<LocalBlobLink>>, ref_id: u16, link: Rc<LocalBlobLink>)
    requires
        !held.contains_key(ref_id),
    ensures
        held.insert(ref_id, link).remove(ref_id) == held,
{
    assert(held.insert(ref_id, link).remove(ref_id) =~= held);
}

} // verus!
