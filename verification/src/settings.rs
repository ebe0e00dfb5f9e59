//! The user's settings: their defaults, the checks on what is typed into the settings form,
//! and the per-setting undo and reset.

use url::ParseError;
use vstd::prelude::*;
use vstd::string::{StringExecFns, StringSliceAdditionalSpecFns};

use crate::pages::{parse_unsigned, parse_usize};
use crate::web_url::{parse_url, parsed_url};

verus! {

/// How a table of details is laid out.
#[derive(Clone, Copy, PartialEq, Eq, Debug, Structural)]
pub enum TableLayout {
    Compressed,
    Compact,
    Expanded,
}

/// The name of each layout, as the settings form lists it.
pub open spec fn layout_name(l: TableLayout) -> Seq<char> {
    match l {
        TableLayout::Compressed => "Compressed"@,
        TableLayout::Compact => "Compact"@,
        TableLayout::Expanded => "Expanded"@,
    }
}

impl TableLayout {
    /// The layout's name.
    pub fn name(&self) -> (s: &'static str)
        ensures
            s@ == layout_name(*self),
    {
        match self {
            TableLayout::Compressed => "Compressed",
            TableLayout::Compact => "Compact",
            TableLayout::Expanded => "Expanded",
        }
    }

    /// The layout with the name `name`, if any.
    pub fn from_name(name: &str) -> (r: Option<TableLayout>)
        ensures
            r matches Some(l) ==> layout_name(l) == name@,
            r is None ==> forall|l: TableLayout| layout_name(l) != name@,
    {
        let n = name.to_owned();
        if n == String::from_str("Compressed") {
            Some(TableLayout::Compressed)
        } else if n == String::from_str("Compact") {
            Some(TableLayout::Compact)
        } else if n == String::from_str("Expanded") {
            Some(TableLayout::Expanded)
        } else {
            proof {
                assert forall|l: TableLayout| layout_name(l) != name@ by {
                    match l {
                        TableLayout::Compressed => {},
                        TableLayout::Compact => {},
                        TableLayout::Expanded => {},
                    }
                }
            }
            None
        }
    }
}

/// The user's settings.
#[derive(Debug)]
pub struct Settings {
    pub thumbgen_api_base_url: String,
    /// Never zero.
    pub entries_per_page: usize,
    pub title_table_layout: TableLayout,
    pub thumbnail_table_layout: TableLayout,
    pub render_thumbnails_in_tables: bool,
    pub disable_sharedworker: bool,
}

impl Settings {
    /// The settings are usable: a page holds at least one entry.
    pub open spec fn wf(&self) -> bool {
        self.entries_per_page >= 1
    }
}

impl Default for Settings {
    fn default() -> (s: Settings)
        ensures
            s.wf(),
            s.thumbgen_api_base_url@ == "https://dearrow-thumb.minibomba.pro/"@,
            s.entries_per_page == 50,
            s.title_table_layout == TableLayout::Expanded,
            s.thumbnail_table_layout == TableLayout::Expanded,
            !s.render_thumbnails_in_tables,
            !s.disable_sharedworker,
    {
        Settings {
            thumbgen_api_base_url: String::from_str("https://dearrow-thumb.minibomba.pro/"),
            entries_per_page: 50,
            title_table_layout: TableLayout::Expanded,
            thumbnail_table_layout: TableLayout::Expanded,
            render_thumbnails_in_tables: false,
            disable_sharedworker: false,
        }
    }
}

/// One of the settings.
#[derive(Clone, Copy, PartialEq, Eq, Debug, Structural)]
pub enum SettingField {
    ThumbgenApiBaseUrl,
    EntriesPerPage,
    TitleTableLayout,
    ThumbnailTableLayout,
    RenderThumbnailsInTables,
    DisableSharedworker,
}

/// Whether `a` and `b` hold the same value of `field`.
pub open spec fn same_setting(a: Settings, b: Settings, field: SettingField) -> bool {
    match field {
        SettingField::ThumbgenApiBaseUrl => a.thumbgen_api_base_url@ == b.thumbgen_api_base_url@,
        SettingField::EntriesPerPage => a.entries_per_page == b.entries_per_page,
        SettingField::TitleTableLayout => a.title_table_layout == b.title_table_layout,
        SettingField::ThumbnailTableLayout => a.thumbnail_table_layout == b.thumbnail_table_layout,
        SettingField::RenderThumbnailsInTables => a.render_thumbnails_in_tables == b.render_thumbnails_in_tables,
        SettingField::DisableSharedworker => a.disable_sharedworker == b.disable_sharedworker,
    }
}

/// Whether `current` holds a value of `field` other than `reference`'s: against the settings
/// the form opened with, this shows the undo button; against the defaults, the reset button.
pub fn setting_differs(current: &Settings, reference: &Settings, field: SettingField) -> (b: bool)
    ensures
        b == !same_setting(*current, *reference, field),
{
    match field {
        SettingField::ThumbgenApiBaseUrl => current.thumbgen_api_base_url != reference.thumbgen_api_base_url,
        SettingField::EntriesPerPage => current.entries_per_page != reference.entries_per_page,
        SettingField::TitleTableLayout => current.title_table_layout != reference.title_table_layout,
        SettingField::ThumbnailTableLayout => current.thumbnail_table_layout != reference.thumbnail_table_layout,
        SettingField::RenderThumbnailsInTables => current.render_thumbnails_in_tables != reference.render_thumbnails_in_tables,
        SettingField::DisableSharedworker => current.disable_sharedworker != reference.disable_sharedworker,
    }
}

/// Sets `field` of `settings` to its value in `source`, leaving the other settings as they
/// were: undo takes the value the form opened with, reset the default.
pub fn restore_setting(settings: &mut Settings, source: &Settings, field: SettingField)
    requires
        old(settings).wf(),
        source.wf(),
    ensures
        final(settings).wf(),
        same_setting(*final(settings), *source, field),
        forall|other: SettingField| other != field ==> same_setting(*final(settings), *old(settings), other),
{
    match field {
        SettingField::ThumbgenApiBaseUrl => {
            settings.thumbgen_api_base_url = source.thumbgen_api_base_url.clone();
        },
        SettingField::EntriesPerPage => {
            settings.entries_per_page = source.entries_per_page;
        },
        SettingField::TitleTableLayout => {
            settings.title_table_layout = source.title_table_layout;
        },
        SettingField::ThumbnailTableLayout => {
            settings.thumbnail_table_layout = source.thumbnail_table_layout;
        },
        SettingField::RenderThumbnailsInTables => {
            settings.render_thumbnails_in_tables = source.render_thumbnails_in_tables;
        },
        SettingField::DisableSharedworker => {
            settings.disable_sharedworker = source.disable_sharedworker;
        },
    }
}

/// Restoring a setting from a source makes it equal to the source's: the undo or reset button
/// that was shown for it disappears, and every other button stays as it was.
pub proof fn lemma_restore_hides_button(before: Settings, after: Settings, source: Settings, field: SettingField, other: SettingField, reference: Settings)
    requires
        same_setting(after, source, field),
        forall|f: SettingField| f != field ==> same_setting(after, before, f),
    ensures
        same_setting(after, source, field),
        other != field ==> (same_setting(after, reference, other) == same_setting(before, reference, other)),
{
    if other != field {
        assert(same_setting(after, before, other));
    }
}

/// Whether two settings hold the same value of every setting.
pub open spec fn same_settings(a: Settings, b: Settings) -> bool {
    forall|f: SettingField| same_setting(a, b, f)
}

/// Whether `a` and `b` hold the same value of every setting.
pub fn settings_equal(a: &Settings, b: &Settings) -> (r: bool)
    ensures
        r == same_settings(*a, *b),
{
    let r = !setting_differs(a, b, SettingField::ThumbgenApiBaseUrl)
        && !setting_differs(a, b, SettingField::EntriesPerPage)
        && !setting_differs(a, b, SettingField::TitleTableLayout)
        && !setting_differs(a, b, SettingField::ThumbnailTableLayout)
        && !setting_differs(a, b, SettingField::RenderThumbnailsInTables)
        && !setting_differs(a, b, SettingField::DisableSharedworker);
    proof {
        if r {
            assert forall|f: SettingField| same_setting(*a, *b, f) by {
                match f {
                    SettingField::ThumbgenApiBaseUrl => {},
                    SettingField::EntriesPerPage => {},
                    SettingField::TitleTableLayout => {},
                    SettingField::ThumbnailTableLayout => {},
                    SettingField::RenderThumbnailsInTables => {},
                    SettingField::DisableSharedworker => {},
                }
            }
        }
    }
    r
}

/// The settings as stored, and the decisions on the changes made here and in other tabs.
pub struct SettingsStore {
    stored: Option<Settings>,
}

impl SettingsStore {
    /// The stored settings, if any were loaded.
    pub closed spec fn stored(&self) -> Option<Settings> {
        self.stored
    }

    /// A store holding what was loaded, if anything.
    pub fn new(loaded: Option<Settings>) -> (s: Self)
        ensures
            s.stored() == loaded,
    {
        SettingsStore { stored: loaded }
    }

    /// The stored settings.
    pub fn settings(&self) -> (s: Option<&Settings>)
        ensures
            match s {
                Some(x) => self.stored() == Some(*x),
                None => self.stored() is None,
            },
    {
        match &self.stored {
            Some(x) => Some(x),
            None => None,
        }
    }

    /// A change made in this tab: taken, and stored, unless the stored settings already equal
    /// it; with nothing stored yet it is always taken. Returns whether it was taken, in which
    /// case it must be saved and shown.
    pub fn local_update(&mut self, new: Settings) -> (taken: bool)
        ensures
            taken == !(old(self).stored() matches Some(s) && same_settings(s, new)),
            taken ==> final(self).stored() == Some(new),
            !taken ==> final(self).stored() == old(self).stored(),
    {
        let differs = match &self.stored {
            Some(s) => !settings_equal(s, &new),
            None => true,
        };
        if differs {
            self.stored = Some(new);
        }
        differs
    }

    /// A change of the stored settings made in another tab: taken when it is the settings key
    /// that changed, its new value could be read, and it differs from what is held. Returns
    /// whether it was taken, in which case it must be shown.
    pub fn remote_update(&mut self, key_is_settings: bool, new: Option<Settings>) -> (taken: bool)
        ensures
            taken == (key_is_settings && new is Some
                && !(old(self).stored() matches Some(s) && same_settings(s, new->0))),
            taken ==> final(self).stored() == new,
            !taken ==> final(self).stored() == old(self).stored(),
    {
        if !key_is_settings {
            return false;
        }
        let n = match new {
            Some(n) => n,
            None => { return false; },
        };
        let same = match &self.stored {
            Some(s) => settings_equal(s, &n),
            None => false,
        };
        if same {
            return false;
        }
        self.stored = Some(n);
        true
    }
}

/// Why a typed base URL was refused.
#[derive(Debug)]
pub enum BaseUrlVerifyError {
    /// It did not parse.
    UrlParseError(ParseError),
    /// It cannot be a base.
    CannotBeABase,
    /// Its scheme is not `https`.
    InvalidScheme,
}

/// The outcome of checking a typed base URL: refused when it does not parse, cannot be a base,
/// or is not `https`; else its serialization.
pub open spec fn base_url_outcome_ok(input: Seq<char>, r: Result<String, BaseUrlVerifyError>) -> bool {
    match parsed_url(input) {
        None => r matches Err(BaseUrlVerifyError::UrlParseError(_)),
        Some(v) => if v.cannot_be_a_base {
            r matches Err(BaseUrlVerifyError::CannotBeABase)
        } else if v.scheme != "https"@ {
            r matches Err(BaseUrlVerifyError::InvalidScheme)
        } else {
            r matches Ok(s) && s@ == v.serialization
        },
    }
}

/// Checks a base URL typed into the settings form.
pub fn baseurl_verify(value: &str) -> (r: Result<String, BaseUrlVerifyError>)
    ensures
        base_url_outcome_ok(value@, r),
{
    match parse_url(value) {
        Err(e) => Err(BaseUrlVerifyError::UrlParseError(e)),
        Ok(parts) => {
            if parts.cannot_be_a_base {
                Err(BaseUrlVerifyError::CannotBeABase)
            } else if parts.scheme != String::from_str("https") {
                Err(BaseUrlVerifyError::InvalidScheme)
            } else {
                Ok(parts.serialization)
            }
        },
    }
}

/// The message shown for a private user ID that is too short.
pub const PRIVATE_USER_ID_TOO_SHORT: &'static str = "Private userID too short";

/// Checks a private user ID typed into the settings form: empty means none; otherwise it must
/// be at least 30 bytes long.
pub fn priv_userid_verify(value: &str) -> (r: Result<Option<String>, &'static str>)
    requires
        value.spec_bytes().len() <= usize::MAX,
    ensures
        value@.len() == 0 ==> r matches Ok(None),
        value@.len() != 0 && value.spec_bytes().len() < 30 ==> r == Err::<Option<String>, &'static str>(PRIVATE_USER_ID_TOO_SHORT),
        value@.len() != 0 && value.spec_bytes().len() >= 30 ==> (r matches Ok(Some(s)) && s@ == value@),
{
    if value.is_empty() {
        Ok(None)
    } else if value.len() < 30 {
        Err(PRIVATE_USER_ID_TOO_SHORT)
    } else {
        Ok(Some(value.to_owned()))
    }
}

/// Checks a number of entries per page typed into the settings form: a decimal number that
/// fits in `usize` and is not zero.
pub fn entries_per_page_verify(value: &str) -> (r: Option<usize>)
    ensures
        match parse_unsigned(value@, usize::MAX as nat) {
            Some(n) => if n == 0 { r is None } else { r matches Some(m) && m as nat == n },
            None => r is None,
        },
{
    match parse_usize(value) {
        Some(n) => if n == 0 { None } else { Some(n) },
        None => None,
    }
}

} // verus!
