//! Tables filled from the server: the fetch loop's decisions (the server answers 333 with a
//! progress report while it is still preparing the data), and which answer a table shows.

use vstd::prelude::*;

verus! {

/// The status code with which the server reports progress instead of data.
pub const PROGRESS_STATUS: u16 = 333;

/// What the fetch loop does next.
#[derive(Clone, Copy, PartialEq, Eq, Debug, Structural)]
pub enum FetchStep {
    /// The table no longer wants the data: stop without reporting anything.
    Stop,
    /// Send the request.
    Request,
    /// Read the progress report, show it, and ask again.
    ReportProgress,
    /// Check the status and read the data.
    Finish,
}

/// What the fetch loop does next, given whether the table gave up waiting and the status of
/// the answer to the last request (`None` before it is sent).
pub fn fetch_step(cancelled: bool, status: Option<u16>) -> (s: FetchStep)
    ensures
        s == (if cancelled {
            FetchStep::Stop
        } else {
            match status {
                None => FetchStep::Request,
                Some(code) => if code == PROGRESS_STATUS { FetchStep::ReportProgress } else { FetchStep::Finish },
            }
        }),
{
    if cancelled {
        FetchStep::Stop
    } else {
        match status {
            None => FetchStep::Request,
            Some(code) => if code == PROGRESS_STATUS { FetchStep::ReportProgress } else { FetchStep::Finish },
        }
    }
}

/// What a table shows.
#[derive(Debug)]
pub enum LoadProgress<P, T> {
    LoadingInitial,
    LoadingProgress(P),
    Ready(Vec<T>),
    Failed,
}

/// The number of entries a table shows, once its data is in.
pub open spec fn shown_count<P, T>(d: LoadProgress<P, T>) -> Option<usize> {
    match d {
        LoadProgress::Ready(items) => Some(items.len()),
        _ => None,
    }
}

impl<P, T> LoadProgress<P, T> {
    /// The number of entries, once the data is in.
    pub fn len(&self) -> (n: Option<usize>)
        ensures
            n == shown_count(*self),
    {
        match self {
            LoadProgress::Ready(items) => Some(items.len()),
            _ => None,
        }
    }
}

/// A table's data, the origin its fetches go to, and the fetch it listens to. Each refresh
/// starts a fetch under a new token; answers carrying any other token are dropped.
pub struct RemoteTable<P, T> {
    origin: String,
    data: LoadProgress<P, T>,
    token: u64,
}

impl<P, T> RemoteTable<P, T> {
    /// What is shown.
    pub closed spec fn data(&self) -> LoadProgress<P, T> {
        self.data
    }

    /// The token of the fetch listened to.
    pub closed spec fn token(&self) -> u64 {
        self.token
    }

    /// The origin the table's fetches go to.
    pub closed spec fn origin(&self) -> Seq<char> {
        self.origin@
    }

    /// A table fetching from `origin`, waiting for its first fetch, under token 0.
    pub fn new(origin: String) -> (t: Self)
        ensures
            t.data() is LoadingInitial,
            t.token() == 0,
            t.origin() == origin@,
    {
        RemoteTable { origin, data: LoadProgress::LoadingInitial, token: 0 }
    }

    /// The origin the table's fetches go to.
    pub fn current_origin(&self) -> (o: &str)
        ensures
            o@ == self.origin(),
    {
        self.origin.as_str()
    }

    /// The site's origin is now `origin`. Another one is kept and a new fetch is started:
    /// its token is returned, and the caller reports that no entry count is known. The same
    /// origin changes nothing.
    pub fn origin_updated(&mut self, origin: String) -> (r: Option<u64>)
        ensures
            origin@ == old(self).origin() ==> r is None && final(self).token() == old(self).token()
                && final(self).data() == old(self).data() && final(self).origin() == old(self).origin(),
            origin@ != old(self).origin() ==> r == Some(final(self).token()) && final(self).origin() == origin@
                && final(self).data() is LoadingInitial
                && final(self).token() == (if old(self).token() == u64::MAX { 0 } else { (old(self).token() + 1) as u64 }),
    {
        if self.origin == origin {
            return None;
        }
        self.origin = origin;
        Some(self.refresh())
    }

    /// Starts a new fetch: shows loading and moves to a new token, which the fetch's answers
    /// must carry. The caller reports that no entry count is known.
    pub fn refresh(&mut self) -> (token: u64)
        ensures
            token == final(self).token(),
            token == (if old(self).token() == u64::MAX { 0 } else { (old(self).token() + 1) as u64 }),
            final(self).data() is LoadingInitial,
            final(self).origin() == old(self).origin(),
    {
        self.token = self.token.wrapping_add(1);
        self.data = LoadProgress::LoadingInitial;
        self.token
    }

    /// Takes an answer of the fetch with token `token`. A stale answer changes nothing and
    /// returns `None`; a current one is shown and returns the entry count to report.
    pub fn details_fetched(&mut self, token: u64, data: LoadProgress<P, T>) -> (r: Option<Option<usize>>)
        ensures
            r is Some <==> token == old(self).token(),
            final(self).token() == old(self).token(),
            final(self).origin() == old(self).origin(),
            r is Some ==> final(self).data() == data && r == Some(shown_count(data)),
            r is None ==> final(self).data() == old(self).data(),
    {
        if token != self.token {
            return None;
        }
        let count = data.len();
        self.data = data;
        Some(count)
    }

    /// What is shown.
    pub fn current(&self) -> (d: &LoadProgress<P, T>)
        ensures
            *d == self.data(),
    {
        &self.data
    }
}

} // verus!
