//! Showing a video's metadata: which fetch a view is waiting for, and what it shows while
//! waiting, after a failure, and once the metadata is known.

use vstd::prelude::*;

use crate::metadata::VideoMetadata;
use crate::search::MainRoute;

verus! {

/// The state of something being fetched for display.
#[derive(Debug)]
pub enum SimpleLoadState<T> {
    Loading,
    Failed,
    Ready(T),
}

/// The video whose metadata a view shows.
#[derive(Debug, PartialEq, Eq)]
pub struct VideoIdParam {
    pub video_id: String,
}

/// What a view shows of the video it follows, and which fetch it waits for. Each refresh starts
/// a fetch with a new version number; an answer with any other number is stale and is dropped.
pub struct LoadTracker<T> {
    version: u8,
    state: SimpleLoadState<T>,
}

impl<T> LoadTracker<T> {
    /// The version number of the fetch waited for.
    pub closed spec fn version(&self) -> u8 {
        self.version
    }

    /// What is shown.
    pub closed spec fn state(&self) -> SimpleLoadState<T> {
        self.state
    }

    /// Loading, before any fetch started.
    pub fn new() -> (t: Self)
        ensures
            t.version() == 0,
            t.state() is Loading,
    {
        LoadTracker { version: 0, state: SimpleLoadState::Loading }
    }

    /// Starts a new fetch: the version number moves on (wrapping) and loading is shown.
    /// Returns the new version number, which the fetch's answer must carry.
    pub fn refresh(&mut self) -> (v: u8)
        ensures
            v == final(self).version(),
            v == (if old(self).version() == u8::MAX { 0 } else { (old(self).version() + 1) as u8 }),
            final(self).state() is Loading,
    {
        self.version = self.version.wrapping_add(1);
        self.state = SimpleLoadState::Loading;
        self.version
    }

    /// Takes the answer of the fetch numbered `version`: `Some` metadata is shown as ready,
    /// `None` as failed. A stale answer changes nothing. Returns whether the view changed.
    pub fn fetched(&mut self, version: u8, data: Option<T>) -> (applied: bool)
        ensures
            applied == (version == old(self).version()),
            final(self).version() == old(self).version(),
            !applied ==> final(self).state() == old(self).state(),
            applied ==> final(self).state() == match data {
                Some(d) => SimpleLoadState::Ready(d),
                None => SimpleLoadState::Failed,
            },
    {
        if version != self.version {
            return false;
        }
        self.state = match data {
            Some(d) => SimpleLoadState::Ready(d),
            None => SimpleLoadState::Failed,
        };
        true
    }

    /// What is shown.
    pub fn current(&self) -> (s: &SimpleLoadState<T>)
        ensures
            *s == self.state(),
    {
        &self.state
    }
}

/// After a refresh, the answer to the fetch before it is stale: the version number that
/// `refresh` moves to always differs from the one it leaves, so `fetched` drops that answer.
pub proof fn lemma_refresh_makes_previous_stale(before: u8, after: u8)
    requires
        after == (if before == u8::MAX { 0 } else { (before + 1) as u8 }),
    ensures
        before != after,
{
}

/// What a metadata view shows.
#[derive(Debug)]
pub enum RenderedMetadata {
    /// Emphasised placeholder text.
    Placeholder(&'static str),
    /// Plain text.
    Text(String),
    /// A link to a page, labelled.
    Link { route: MainRoute, label: String },
}

/// Shows a video's metadata.
pub trait RenderMetadata {
    /// What is shown for a metadata load state.
    fn render(metadata: &SimpleLoadState<VideoMetadata>) -> RenderedMetadata;
}

/// Shows a video's original title.
pub struct RenderTitle;

/// Shows a link to the page of a video's channel.
pub struct RenderChannelLink;

impl RenderMetadata for RenderTitle {
    fn render(metadata: &SimpleLoadState<VideoMetadata>) -> (r: RenderedMetadata)
        ensures
            match *metadata {
                SimpleLoadState::Loading => r matches RenderedMetadata::Placeholder(p) && p@ == "Loading..."@,
                SimpleLoadState::Failed => r matches RenderedMetadata::Placeholder(p) && p@ == "Unknown"@,
                SimpleLoadState::Ready(m) => r matches RenderedMetadata::Text(t) && t@ == m.title@,
            },
    {
        match metadata {
            SimpleLoadState::Loading => RenderedMetadata::Placeholder("Loading..."),
            SimpleLoadState::Failed => RenderedMetadata::Placeholder("Unknown"),
            SimpleLoadState::Ready(m) => RenderedMetadata::Text(m.title.clone()),
        }
    }
}

impl RenderMetadata for RenderChannelLink {
    fn render(metadata: &SimpleLoadState<VideoMetadata>) -> (r: RenderedMetadata)
        ensures
            match *metadata {
                SimpleLoadState::Loading => r matches RenderedMetadata::Placeholder(p) && p@ == "Loading..."@,
                SimpleLoadState::Failed => r matches RenderedMetadata::Placeholder(p) && p@ == "Unknown"@,
                SimpleLoadState::Ready(m) => r matches RenderedMetadata::Link { route: MainRoute::Channel { id }, label }
                    && id@ == m.channel@ && label@ == m.channel@,
            },
    {
        match metadata {
            SimpleLoadState::Loading => RenderedMetadata::Placeholder("Loading..."),
            SimpleLoadState::Failed => RenderedMetadata::Placeholder("Unknown"),
            SimpleLoadState::Ready(m) => RenderedMetadata::Link {
                route: MainRoute::Channel { id: m.channel.clone() },
                label: m.channel.clone(),
            },
        }
    }
}

} // verus!
