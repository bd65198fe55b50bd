//! Settings model: the preference record the controller reads and writes,
//! with the one-shot migration from the legacy packed numeric id to named
//! keys.  The platform layer mirrors this model into its own store (a
//! registry hive or a defaults database); the decisions — defaults,
//! parsing, migration — all live here.

use vstd::prelude::*;

verus! {

use crate::icon_manager::{Theme, spec_theme_key, spec_parse_theme, spec_theme_from_system};
use crate::icon_manager::{spec_migrated_icon_name, spec_theme_of_numeric_id, IconManager};

/// The stored preferences: the named icon and theme keys, the legacy
/// packed id where one is still present, and the run-on-start flag.
#[derive(Debug, Clone, PartialEq, Eq)]
pub struct SettingsModel {
    icon_name: Option<String>,
    theme_name: Option<String>,
    legacy_icon_id: Option<u32>,
    run_on_start: bool,
}

/// What the store holds, at the specification level.
pub ghost struct SettingsView {
    pub icon_name: Option<Seq<char>>,
    pub theme_name: Option<Seq<char>>,
    pub legacy_icon_id: Option<u32>,
    pub run_on_start: bool,
}

impl View for SettingsModel {
    type V = SettingsView;

    closed spec fn view(&self) -> SettingsView {
        SettingsView {
            icon_name: match self.icon_name {
                Some(ref s) => Some(s@),
                None => None,
            },
            theme_name: match self.theme_name {
                Some(ref s) => Some(s@),
                None => None,
            },
            legacy_icon_id: self.legacy_icon_id,
            run_on_start: self.run_on_start,
        }
    }
}

/// Reading the icon preference: the stored name answers; failing that, a
/// legacy id migrates — its name is stored and the id removed; failing
/// both, the cat is the default.
pub open spec fn spec_get_current_icon(v: SettingsView) -> (Seq<char>, SettingsView) {
    match v.icon_name {
        Some(n) => (n, v),
        None => match v.legacy_icon_id {
            Some(id) => (
                spec_migrated_icon_name(id as usize),
                SettingsView {
                    icon_name: Some(spec_migrated_icon_name(id as usize)),
                    legacy_icon_id: None,
                    ..v
                },
            ),
            None => ("cat"@, v),
        },
    }
}

/// Reading the theme preference: a stored name that parses answers; an
/// unknown or missing name falls back to a legacy id, whose theme is
/// stored back; failing that, the system theme answers.
pub open spec fn spec_get_current_theme(v: SettingsView, system_dark: bool) -> (
    Theme,
    SettingsView,
) {
    let stored = match v.theme_name {
        Some(s) => spec_parse_theme(s),
        None => None,
    };
    match stored {
        Some(t) => (t, v),
        None => match v.legacy_icon_id {
            Some(id) => (
                spec_theme_of_numeric_id(id as usize),
                SettingsView {
                    theme_name: Some(spec_theme_key(spec_theme_of_numeric_id(id as usize))),
                    ..v
                },
            ),
            None => (spec_theme_from_system(system_dark), v),
        },
    }
}

/// Writing the theme preference: a theme stores its name; none removes
/// the stored name, so that reads fall back.
pub open spec fn spec_set_current_theme(v: SettingsView, theme: Option<Theme>) -> SettingsView {
    match theme {
        Some(t) => SettingsView { theme_name: Some(spec_theme_key(t)), ..v },
        None => SettingsView { theme_name: None, ..v },
    }
}

/// Writing the icon preference stores the name and touches nothing else.
pub open spec fn spec_set_current_icon(v: SettingsView, name: Seq<char>) -> SettingsView {
    SettingsView { icon_name: Some(name), ..v }
}

impl SettingsModel {
    /// An empty store: nothing persisted yet.
    pub fn new() -> (r: Self)
        ensures
            r@ == (SettingsView {
                icon_name: None,
                theme_name: None,
                legacy_icon_id: None,
                run_on_start: false,
            }),
    {
        SettingsModel { icon_name: None, theme_name: None, legacy_icon_id: None, run_on_start: false }
    }

    /// A store carried over from an earlier run, as the platform layer
    /// found it.
    pub fn from_stored(
        icon_name: Option<String>,
        theme_name: Option<String>,
        legacy_icon_id: Option<u32>,
        run_on_start: bool,
    ) -> (r: Self)
        ensures
            r@ == (SettingsView {
                icon_name: match icon_name {
                    Some(s) => Some(s@),
                    None => None,
                },
                theme_name: match theme_name {
                    Some(s) => Some(s@),
                    None => None,
                },
                legacy_icon_id,
                run_on_start,
            }),
    {
        SettingsModel { icon_name, theme_name, legacy_icon_id, run_on_start }
    }

    /// Read the active icon family name, migrating a legacy id on the way.
    pub fn get_current_icon(&mut self) -> (r: String)
        ensures
            r@ == spec_get_current_icon(old(self)@).0,
            final(self)@ == spec_get_current_icon(old(self)@).1,
    {
        match &self.icon_name {
            Some(n) => n.clone(),
            None => match self.legacy_icon_id {
                Some(id) => {
                    let migrated = IconManager::migrate_from_numeric_id(id as usize);
                    self.icon_name = Some(migrated.clone());
                    self.legacy_icon_id = None;
                    migrated
                },
                None => "cat".to_owned(),
            },
        }
    }

    /// Store the active icon family name.
    pub fn set_current_icon(&mut self, icon_name: &str)
        ensures
            final(self)@ == spec_set_current_icon(old(self)@, icon_name@),
    {
        self.icon_name = Some(icon_name.to_owned());
    }

    /// Read the active theme, falling back from stored name to legacy id
    /// to the system theme.
    pub fn get_current_theme(&mut self, system_dark: bool) -> (r: Theme)
        ensures
            r == spec_get_current_theme(old(self)@, system_dark).0,
            final(self)@ == spec_get_current_theme(old(self)@, system_dark).1,
    {
        let stored = match &self.theme_name {
            Some(s) => crate::icon_manager::parse_theme(s.as_str()),
            None => None,
        };
        match stored {
            Some(t) => t,
            None => match self.legacy_icon_id {
                Some(id) => {
                    let t = IconManager::get_theme_from_numeric_id(id as usize);
                    self.theme_name = Some(t.as_str().to_owned());
                    t
                },
                None => Theme::from_system(system_dark),
            },
        }
    }

    /// Store the active theme, or clear it to fall back to the system.
    pub fn set_current_theme(&mut self, theme: Option<Theme>)
        ensures
            final(self)@ == spec_set_current_theme(old(self)@, theme),
    {
        match theme {
            Some(t) => {
                self.theme_name = Some(t.as_str().to_owned());
            },
            None => {
                self.theme_name = None;
            },
        }
    }

    /// Whether the utility is registered to start with the session.
    pub fn is_run_on_start_enabled(&self) -> (r: bool)
        ensures
            r == self@.run_on_start,
    {
        self.run_on_start
    }

    /// Register or unregister starting with the session.
    pub fn set_run_on_start(&mut self, enable: bool)
        ensures
            final(self)@ == (SettingsView { run_on_start: enable, ..old(self)@ }),
    {
        self.run_on_start = enable;
    }

    /// The legacy packed id equivalent to the current preferences: bit 1
    /// set selects the parrot, bit 0 set selects light.
    pub fn get_icon_id(&mut self, system_dark: bool) -> (r: usize)
        ensures
            ({
                let (name, v1) = spec_get_current_icon(old(self)@);
                let (theme, v2) = spec_get_current_theme(v1, system_dark);
                &&& final(self)@ == v2
                &&& r == (if name == "parrot"@ {
                    2int
                } else {
                    0int
                }) + (if theme == Theme::Light {
                    1int
                } else {
                    0int
                })
            }),
    {
        let icon_name = self.get_current_icon();
        let theme = self.get_current_theme(system_dark);
        let type_bit: usize = if crate::strutil::str_eq(icon_name.as_str(), "parrot") {
            2
        } else {
            0
        };
        let theme_bit: usize = match theme {
            Theme::Dark => 0,
            Theme::Light => 1,
        };
        proof {
            assert(2usize | 1usize == 3usize) by (bit_vector);
            assert(2usize | 0usize == 2usize) by (bit_vector);
            assert(0usize | 1usize == 1usize) by (bit_vector);
            assert(0usize | 0usize == 0usize) by (bit_vector);
        }
        type_bit | theme_bit
    }

    /// Store preferences from a legacy packed id.
    pub fn set_icon_id(&mut self, id: usize)
        ensures
            final(self)@ == spec_set_current_theme(
                spec_set_current_icon(old(self)@, spec_migrated_icon_name(id)),
                Some(spec_theme_of_numeric_id(id)),
            ),
    {
        let icon_name = IconManager::migrate_from_numeric_id(id);
        let theme = IconManager::get_theme_from_numeric_id(id);
        self.set_current_icon(icon_name.as_str());
        self.set_current_theme(Some(theme));
    }
}

/// Whether a legacy packed id selects the dark theme.
pub fn is_dark(id: usize) -> (r: bool)
    ensures
        r == (id & 1 == 0),
        r == (spec_theme_of_numeric_id(id) == Theme::Dark),
{
    (id & 1) == 0
}

/// Whether a legacy packed id selects the cat family.
pub fn is_cat(id: usize) -> (r: bool)
    ensures
        r == (id & 2 == 0),
        r == (spec_migrated_icon_name(id) == "cat"@),
{
    proof {
        reveal_strlit("cat");
        reveal_strlit("parrot");
        assert("cat"@.len() == 3);
        assert("parrot"@.len() == 6);
    }
    (id & 2) == 0
}

/// Whether the system is in dark mode, from the platform store's
/// apps-use-light-theme value: a stored zero means dark; any other value,
/// or no value at all, means light.  The platform layer reads the value
/// and hands it in.
pub fn is_dark_mode_enabled(apps_use_light_theme: Option<u32>) -> (r: bool)
    ensures
        r == (apps_use_light_theme == Some(0u32)),
{
    match apps_use_light_theme {
        Some(value) => value == 0,
        None => false,
    }
}

/// Theme round trip: storing a theme and reading it back yields that theme;
/// clearing the stored theme makes the read fall back to the system theme,
/// as long as no legacy id is waiting to migrate.
pub proof fn lemma_theme_round_trip(v: SettingsView, system_dark: bool, t: Theme)
    ensures
        spec_get_current_theme(spec_set_current_theme(v, Some(t)), system_dark).0 == t,
        v.legacy_icon_id is None ==> spec_get_current_theme(
            spec_set_current_theme(v, None),
            system_dark,
        ).0 == spec_theme_from_system(system_dark),
{
    crate::icon_manager::lemma_theme_key_round_trip(t);
}

} // verus!
