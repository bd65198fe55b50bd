//! User-action events and the menu model.  The menu is computed afresh from
//! the catalog and the current preferences on every rebuild; the platform
//! layer only turns the computed model into native menu items.

use vstd::prelude::*;

verus! {

use crate::icon_manager::{IconManager, IconSet, Theme, spec_available_themes};
use crate::strutil::str_eq;

/// The actions a user can trigger from the tray.
#[derive(Clone, Debug, PartialEq, Eq)]
pub enum Events {
    Exit,
    SetTheme(Theme),
    SetIcon(String),
    RunTaskmgr,
    ToggleRunOnStart,
    ShowAboutDialog,
    ShowMenu,
}

/// An event, at the specification level.
pub ghost enum EventView {
    Exit,
    SetTheme(Theme),
    SetIcon(Seq<char>),
    RunTaskmgr,
    ToggleRunOnStart,
    ShowAboutDialog,
    ShowMenu,
}

impl View for Events {
    type V = EventView;

    open spec fn view(&self) -> EventView {
        match self {
            Events::Exit => EventView::Exit,
            Events::SetTheme(t) => EventView::SetTheme(*t),
            Events::SetIcon(n) => EventView::SetIcon(n@),
            Events::RunTaskmgr => EventView::RunTaskmgr,
            Events::ToggleRunOnStart => EventView::ToggleRunOnStart,
            Events::ShowAboutDialog => EventView::ShowAboutDialog,
            Events::ShowMenu => EventView::ShowMenu,
        }
    }
}

/// One checkable theme choice in the menu.
#[derive(Debug, Clone, Copy, PartialEq, Eq, Structural)]
pub struct ThemeMenuEntry {
    pub theme: Theme,
    pub checked: bool,
}

/// One checkable icon-family choice in the menu.
#[derive(Debug, Clone, PartialEq, Eq)]
pub struct IconMenuEntry {
    pub name: String,
    pub checked: bool,
}

/// The computed menu: the theme choices (empty where the current family
/// takes no theming or holds none), the family choices (empty where only
/// one family exists), the run-on-start checkmark, and the fixed tail of
/// entries every menu ends with — the system monitor, the about dialog,
/// and last of all exit.
#[derive(Debug, Clone, PartialEq, Eq)]
pub struct MenuSpec {
    pub theme_entries: Vec<ThemeMenuEntry>,
    pub icon_entries: Vec<IconMenuEntry>,
    pub run_on_start_checked: bool,
    pub fixed_entries: Vec<Events>,
}

/// The entries every menu ends with, in order.
pub open spec fn spec_fixed_entries() -> Seq<Events> {
    seq![Events::RunTaskmgr, Events::ShowAboutDialog, Events::Exit]
}

/// Whether the lookup result takes part in theming.
pub open spec fn spec_supports(s: Option<IconSet>) -> bool {
    match s {
        Some(s) => s.supports_themes,
        None => false,
    }
}

/// Compute the menu from the catalog and the current preferences.  The
/// entries mirror the catalog's state at the time of the call; nothing is
/// cached between rebuilds.
pub fn build_menu(
    icon_manager: &IconManager,
    current_icon: &str,
    current_theme: Theme,
    run_on_start: bool,
) -> (r: MenuSpec)
    requires
        icon_manager.wf(),
    ensures
        ({
            let found = icon_manager.spec_set_for(current_icon@);
            let themes = spec_available_themes(found);
            &&& (spec_supports(found) && themes.len() > 0) ==> {
                &&& r.theme_entries@.len() == themes.len()
                &&& forall|i: int|
                    0 <= i < themes.len() ==> (#[trigger] r.theme_entries@[i]).theme == themes[i]
                        && r.theme_entries@[i].checked == (themes[i] == current_theme)
            }
            &&& !(spec_supports(found) && themes.len() > 0) ==> r.theme_entries@.len() == 0
            &&& icon_manager.sets_view().len() > 1 ==> {
                &&& r.icon_entries@.len() == icon_manager.sets_view().len()
                &&& forall|i: int|
                    0 <= i < r.icon_entries@.len() ==> (#[trigger] r.icon_entries@[i]).name@
                        == icon_manager.sets_view()[i].name@ && r.icon_entries@[i].checked == (
                    icon_manager.sets_view()[i].name@ == current_icon@)
            }
            &&& icon_manager.sets_view().len() <= 1 ==> r.icon_entries@.len() == 0
            &&& r.run_on_start_checked == run_on_start
            &&& r.fixed_entries@ == spec_fixed_entries()
        }),
{
    let mut theme_entries: Vec<ThemeMenuEntry> = Vec::new();
    if icon_manager.supports_themes(current_icon) {
        let themes = icon_manager.available_themes_for_icon(current_icon);
        let n = themes.len();
        for i in 0..n
            invariant
                n == themes@.len(),
                themes@ == spec_available_themes(icon_manager.spec_set_for(current_icon@)),
                theme_entries@.len() == i,
                forall|k: int|
                    0 <= k < i ==> (#[trigger] theme_entries@[k]).theme == themes@[k]
                        && theme_entries@[k].checked == (themes@[k] == current_theme),
        {
            let theme = themes[i];
            let checked = match (theme, current_theme) {
                (Theme::Dark, Theme::Dark) => true,
                (Theme::Light, Theme::Light) => true,
                _ => false,
            };
            theme_entries.push(ThemeMenuEntry { theme, checked });
        }
    }
    let mut icon_entries: Vec<IconMenuEntry> = Vec::new();
    let names = icon_manager.available_icons();
    if names.len() > 1 {
        let n = names.len();
        for i in 0..n
            invariant
                n == names@.len(),
                names@.len() == icon_manager.sets_view().len(),
                forall|k: int|
                    0 <= k < names@.len() ==> (#[trigger] names@[k])@
                        == icon_manager.sets_view()[k].name@,
                icon_entries@.len() == i,
                forall|k: int|
                    0 <= k < i ==> (#[trigger] icon_entries@[k]).name@
                        == icon_manager.sets_view()[k].name@ && icon_entries@[k].checked == (
                    icon_manager.sets_view()[k].name@ == current_icon@),
        {
            let name = names[i].clone();
            let checked = str_eq(name.as_str(), current_icon);
            icon_entries.push(IconMenuEntry { name, checked });
        }
    }
    let mut fixed_entries: Vec<Events> = Vec::new();
    fixed_entries.push(Events::RunTaskmgr);
    fixed_entries.push(Events::ShowAboutDialog);
    fixed_entries.push(Events::Exit);
    proof {
        assert(fixed_entries@ =~= spec_fixed_entries());
    }
    MenuSpec { theme_entries, icon_entries, run_on_start_checked: run_on_start, fixed_entries }
}

} // verus!
