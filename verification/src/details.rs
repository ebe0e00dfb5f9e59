//! Details shown on a submission's page: the client that submitted it, read from its user
//! agent, and the progress report of fetching a channel's videos.

use vstd::prelude::*;
use vstd::string::{StrSliceExecFns, StringExecFns};

use crate::api::{BrowseProgress, ChannelFetchProgress};
use crate::numbers::{decimal, decimal_string};

verus! {

/// The clients that submit to DeArrow, as recognised from their user agent.
#[derive(Clone, Copy, PartialEq, Eq, Debug, Structural)]
pub enum UserAgentKind {
    FirefoxStable,
    FirefoxBeta,
    Chromium,
    DeArrowCli,
    SafariStore,
    SafariSelfCompiled,
    LibreTube,
    Unknown,
}

/// The part of `s` before its first `/`, if it has one.
pub open spec fn before_first_slash(s: Seq<char>) -> Option<Seq<char>>
    decreases s.len(),
{
    if s.len() == 0 {
        None
    } else if s[0] == '/' {
        Some(Seq::empty())
    } else {
        match before_first_slash(s.drop_first()) {
            Some(rest) => Some(seq![s[0]] + rest),
            None => None,
        }
    }
}

/// The client named by the part of a user agent before its first `/`.
pub open spec fn agent_kind(first_part: Option<Seq<char>>) -> UserAgentKind {
    match first_part {
        None => UserAgentKind::Unknown,
        Some(p) => if p == "deArrow@ajay.app"@ {
            UserAgentKind::FirefoxStable
        } else if p == "deArrowBETA@ajay.app"@ {
            UserAgentKind::FirefoxBeta
        } else if p == "enamippconapkdmgfgjchkhakpfinmaj"@ {
            UserAgentKind::Chromium
        } else if p == "dearrow-cli"@ {
            UserAgentKind::DeArrowCli
        } else if p == "app.ajay.dearrow.extension (2PCQH7P6MB)"@ {
            UserAgentKind::SafariStore
        } else if p == "app.ajay.dearrow.DeArrow-for-YouTube.Extension (UNSIGNED)"@ {
            UserAgentKind::SafariSelfCompiled
        } else if p == "com.github.libretube"@ {
            UserAgentKind::LibreTube
        } else {
            UserAgentKind::Unknown
        },
    }
}

proof fn lemma_before_first_slash(s: Seq<char>, i: int)
    requires
        0 <= i <= s.len(),
        forall|j: int| 0 <= j < i ==> s[j] != '/',
    ensures
        before_first_slash(s) == (match before_first_slash(s.skip(i)) {
            Some(rest) => Some(s.take(i) + rest),
            None => None,
        }),
    decreases i,
{
    if i > 0 {
        let t = s.drop_first();
        assert forall|j: int| 0 <= j < i - 1 implies t[j] != '/' by {
            assert(t[j] == s[j + 1]);
        }
        lemma_before_first_slash(t, i - 1);
        assert(t.skip(i - 1) =~= s.skip(i));
        match before_first_slash(s.skip(i)) {
            Some(rest) => {
                assert(seq![s[0]] + (t.take(i - 1) + rest) =~= s.take(i) + rest);
            },
            None => {},
        }
    } else {
        assert(s.skip(0) =~= s);
        match before_first_slash(s) {
            Some(rest) => { assert(s.take(0) + rest =~= rest); },
            None => {},
        }
    }
}

/// The client that submitted a detail, from its user agent.
pub fn user_agent_kind(user_agent: &str) -> (k: UserAgentKind)
    ensures
        k == agent_kind(before_first_slash(user_agent@)),
{
    let n = user_agent.unicode_len();
    let mut i: usize = 0;
    while i < n && user_agent.get_char(i) != '/'
        invariant
            i <= n,
            n == user_agent@.len(),
            forall|j: int| 0 <= j < i ==> user_agent@[j] != '/',
        decreases n - i,
    {
        i += 1;
    }
    proof { lemma_before_first_slash(user_agent@, i as int); }
    if i == n {
        proof { assert(user_agent@.skip(i as int).len() == 0); }
        return UserAgentKind::Unknown;
    }
    proof {
        assert(user_agent@.skip(i as int)[0] == '/');
        assert(user_agent@.take(i as int) + Seq::<char>::empty() =~= user_agent@.take(i as int));
    }
    let first = user_agent.substring_char(0, i).to_owned();
    if first == String::from_str("deArrow@ajay.app") {
        UserAgentKind::FirefoxStable
    } else if first == String::from_str("deArrowBETA@ajay.app") {
        UserAgentKind::FirefoxBeta
    } else if first == String::from_str("enamippconapkdmgfgjchkhakpfinmaj") {
        UserAgentKind::Chromium
    } else if first == String::from_str("dearrow-cli") {
        UserAgentKind::DeArrowCli
    } else if first == String::from_str("app.ajay.dearrow.extension (2PCQH7P6MB)") {
        UserAgentKind::SafariStore
    } else if first == String::from_str("app.ajay.dearrow.DeArrow-for-YouTube.Extension (UNSIGNED)") {
        UserAgentKind::SafariSelfCompiled
    } else if first == String::from_str("com.github.libretube") {
        UserAgentKind::LibreTube
    } else {
        UserAgentKind::Unknown
    }
}

/// The tooltip of a client's icon.
pub open spec fn agent_tooltip(k: UserAgentKind) -> Seq<char> {
    match k {
        UserAgentKind::FirefoxStable => "Firefox addon (stable version)"@,
        UserAgentKind::FirefoxBeta => "Firefox addon (beta version)"@,
        UserAgentKind::Chromium => "Chromium extension (from the Chrome Web Store)"@,
        UserAgentKind::DeArrowCli => "DeArrow CLI"@,
        UserAgentKind::SafariStore => "Safari extension (from the appstore)"@,
        UserAgentKind::SafariSelfCompiled => "Safari extension (self-compiled)"@,
        UserAgentKind::LibreTube => "LibreTube"@,
        UserAgentKind::Unknown => "Unknown user agent"@,
    }
}

impl UserAgentKind {
    /// The tooltip of this client's icon.
    pub fn tooltip(&self) -> (t: &'static str)
        ensures
            t@ == agent_tooltip(*self),
    {
        match self {
            UserAgentKind::FirefoxStable => "Firefox addon (stable version)",
            UserAgentKind::FirefoxBeta => "Firefox addon (beta version)",
            UserAgentKind::Chromium => "Chromium extension (from the Chrome Web Store)",
            UserAgentKind::DeArrowCli => "DeArrow CLI",
            UserAgentKind::SafariStore => "Safari extension (from the appstore)",
            UserAgentKind::SafariSelfCompiled => "Safari extension (self-compiled)",
            UserAgentKind::LibreTube => "LibreTube",
            UserAgentKind::Unknown => "Unknown user agent",
        }
    }
}

/// One line of the channel progress report: `<list>: <fetched> new videos fetched,
/// <cached> pulled from fscache`.
pub open spec fn progress_line(label: Seq<char>, p: BrowseProgress) -> Seq<char> {
    label + ": "@ + decimal(p.videos_fetched as nat) + " new videos fetched, "@ + decimal(p.videos_in_fscache as nat) + " pulled from fscache"@
}

/// The progress lines of a channel's video fetch, by list.
pub open spec fn progress_lines(p: ChannelFetchProgress) -> Seq<Seq<char>> {
    seq![
        progress_line("videos"@, p.videos),
        progress_line("VODs"@, p.vods),
        progress_line("shorts"@, p.shorts),
        progress_line("releases (tab)"@, p.releases_tab),
        progress_line("releases (home page)"@, p.releases_home),
    ]
}

fn progress_text(label: &str, p: BrowseProgress) -> (s: String)
    ensures
        s@ == progress_line(label@, p),
{
    let mut s = String::from_str(label);
    s.append(": ");
    let fetched = decimal_string(p.videos_fetched as u128);
    s.append(fetched.as_str());
    s.append(" new videos fetched, ");
    let cached = decimal_string(p.videos_in_fscache as u128);
    s.append(cached.as_str());
    s.append(" pulled from fscache");
    s
}

/// The progress report of a channel's video fetch, one line per list.
pub fn render_channel_progress(progress: &ChannelFetchProgress) -> (lines: Vec<String>)
    ensures
        lines@.map_values(|s: String| s@) == progress_lines(*progress),
{
    let lines = vec![
        progress_text("videos", progress.videos),
        progress_text("VODs", progress.vods),
        progress_text("shorts", progress.shorts),
        progress_text("releases (tab)", progress.releases_tab),
        progress_text("releases (home page)", progress.releases_home),
    ];
    proof { assert(lines@.map_values(|s: String| s@) =~= progress_lines(*progress)); }
    lines
}

} // verus!
