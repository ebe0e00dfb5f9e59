//! The tab switch above a page's tables: which tab is shown, kept with the page number in the
//! browser history's state, and whether the switch sticks to the top.

use vstd::prelude::*;

verus! {

/// What a page keeps in the browser history: its tab (by position among the page's tabs) and
/// its page number (from 0).
#[derive(Clone, Copy, PartialEq, Eq, Debug, Default, Structural)]
pub struct LocationState {
    pub tab: usize,
    pub page: usize,
}

/// The state of a tab switch.
#[derive(Clone, Copy, PartialEq, Eq, Debug, Structural)]
pub struct TableModeSwitch {
    pub current_mode: usize,
    pub sticky_headers: bool,
}

impl TableModeSwitch {
    /// A switch showing the tab kept in the history, sticky as the settings say.
    pub fn new(location: LocationState, sticky_headers: bool) -> (s: Self)
        ensures
            s.current_mode == location.tab,
            s.sticky_headers == sticky_headers,
    {
        TableModeSwitch { current_mode: location.tab, sticky_headers }
    }

    /// The user picked a tab: another tab is shown from its first page, and the state to keep
    /// in the history is returned; picking the shown tab changes nothing.
    pub fn update_mode(&mut self, new_mode: usize) -> (r: Option<LocationState>)
        ensures
            new_mode != old(self).current_mode ==> r == Some(LocationState { tab: new_mode, page: 0 })
                && final(self).current_mode == new_mode,
            new_mode == old(self).current_mode ==> r is None && final(self).current_mode == old(self).current_mode,
            final(self).sticky_headers == old(self).sticky_headers,
    {
        if new_mode == self.current_mode {
            return None;
        }
        self.current_mode = new_mode;
        Some(LocationState { tab: new_mode, page: 0 })
    }

    /// The history moved: the switch follows its tab. Returns whether the view changed.
    pub fn location_updated(&mut self, location: LocationState) -> (changed: bool)
        ensures
            changed == (location.tab != old(self).current_mode),
            final(self).current_mode == location.tab,
            final(self).sticky_headers == old(self).sticky_headers,
    {
        if self.current_mode == location.tab {
            false
        } else {
            self.current_mode = location.tab;
            true
        }
    }

    /// The sticky-headers setting changed. Returns whether the view changed.
    pub fn settings_updated(&mut self, sticky_headers: bool) -> (changed: bool)
        ensures
            changed == (sticky_headers != old(self).sticky_headers),
            final(self).sticky_headers == sticky_headers,
            final(self).current_mode == old(self).current_mode,
    {
        if self.sticky_headers == sticky_headers {
            false
        } else {
            self.sticky_headers = sticky_headers;
            true
        }
    }
}

} // verus!
