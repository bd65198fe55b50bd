//! Event controller: the single consumer of the user-action stream.  It
//! serialises every mutation of the shared selection state and of the
//! settings store, so that events apply strictly in arrival order, and it
//! reports which side effects the platform layer owes for each event.

use vstd::prelude::*;

verus! {

use crate::events::{Events, EventView};
use crate::icon_manager::Theme;
use crate::settings::{
    SettingsModel, SettingsView, spec_set_current_icon, spec_set_current_theme,
};

/// The record both loops share: the active icon family and theme, and the
/// one-way exit flag.
#[derive(Debug, Clone, PartialEq, Eq)]
pub struct SharedSelectionState {
    pub icon_name: String,
    pub theme: Theme,
    pub exit_requested: bool,
}

/// The shared record, at the specification level.
pub ghost struct SelectionView {
    pub icon_name: Seq<char>,
    pub theme: Theme,
    pub exit_requested: bool,
}

impl View for SharedSelectionState {
    type V = SelectionView;

    open spec fn view(&self) -> SelectionView {
        SelectionView {
            icon_name: self.icon_name@,
            theme: self.theme,
            exit_requested: self.exit_requested,
        }
    }
}

impl SharedSelectionState {
    /// The state the application starts from.
    pub fn new(icon_name: &str, theme: Theme) -> (r: Self)
        ensures
            r@ == (SelectionView { icon_name: icon_name@, theme, exit_requested: false }),
    {
        SharedSelectionState { icon_name: icon_name.to_owned(), theme, exit_requested: false }
    }
}

/// The side effects the platform layer performs after an event.
#[derive(Debug, Clone, Copy, PartialEq, Eq, Structural)]
pub struct EventOutcome {
    pub rebuild_menu: bool,
    pub show_about: bool,
    pub open_monitor: bool,
    pub show_menu: bool,
    pub terminate: bool,
}

/// An outcome demanding nothing.
pub open spec fn spec_no_outcome() -> EventOutcome {
    EventOutcome {
        rebuild_menu: false,
        show_about: false,
        open_monitor: false,
        show_menu: false,
        terminate: false,
    }
}

/// How one event changes the shared state and the settings, and what it
/// asks of the platform layer.  Once the exit flag stands, nothing changes
/// any more: the flag is one-way and later events are dead.
pub open spec fn spec_apply_event(sel: SelectionView, st: SettingsView, e: EventView) -> (
    SelectionView,
    SettingsView,
    EventOutcome,
) {
    if sel.exit_requested {
        (sel, st, spec_no_outcome())
    } else {
        match e {
            EventView::Exit => (
                SelectionView { exit_requested: true, ..sel },
                st,
                EventOutcome { terminate: true, ..spec_no_outcome() },
            ),
            EventView::SetTheme(t) => (
                SelectionView { theme: t, ..sel },
                spec_set_current_theme(st, Some(t)),
                EventOutcome { rebuild_menu: true, ..spec_no_outcome() },
            ),
            EventView::SetIcon(n) => (
                SelectionView { icon_name: n, ..sel },
                spec_set_current_icon(st, n),
                EventOutcome { rebuild_menu: true, ..spec_no_outcome() },
            ),
            EventView::ToggleRunOnStart => (
                sel,
                SettingsView { run_on_start: !st.run_on_start, ..st },
                EventOutcome { rebuild_menu: true, ..spec_no_outcome() },
            ),
            EventView::ShowAboutDialog => (
                sel,
                st,
                EventOutcome { show_about: true, ..spec_no_outcome() },
            ),
            EventView::RunTaskmgr => (
                sel,
                st,
                EventOutcome { open_monitor: true, ..spec_no_outcome() },
            ),
            EventView::ShowMenu => (sel, st, EventOutcome { show_menu: true, ..spec_no_outcome() }),
        }
    }
}

/// Apply one event to the shared state and the settings store.
pub fn apply_event(state: &mut SharedSelectionState, settings: &mut SettingsModel, event: &Events)
    -> (r: EventOutcome)
    ensures
        final(state)@ == spec_apply_event(old(state)@, old(settings)@, event@).0,
        final(settings)@ == spec_apply_event(old(state)@, old(settings)@, event@).1,
        r == spec_apply_event(old(state)@, old(settings)@, event@).2,
{
    let none = EventOutcome {
        rebuild_menu: false,
        show_about: false,
        open_monitor: false,
        show_menu: false,
        terminate: false,
    };
    if state.exit_requested {
        return none;
    }
    match event {
        Events::Exit => {
            state.exit_requested = true;
            EventOutcome { terminate: true, ..none }
        },
        Events::SetTheme(t) => {
            settings.set_current_theme(Some(*t));
            state.theme = *t;
            EventOutcome { rebuild_menu: true, ..none }
        },
        Events::SetIcon(n) => {
            settings.set_current_icon(n.as_str());
            state.icon_name = n.clone();
            EventOutcome { rebuild_menu: true, ..none }
        },
        Events::ToggleRunOnStart => {
            let current = settings.is_run_on_start_enabled();
            settings.set_run_on_start(!current);
            EventOutcome { rebuild_menu: true, ..none }
        },
        Events::ShowAboutDialog => EventOutcome { show_about: true, ..none },
        Events::RunTaskmgr => EventOutcome { open_monitor: true, ..none },
        Events::ShowMenu => EventOutcome { show_menu: true, ..none },
    }
}

/// The fold of a whole event sequence, in arrival order.
pub open spec fn spec_apply_events(sel: SelectionView, st: SettingsView, evs: Seq<Events>) -> (
    SelectionView,
    SettingsView,
)
    decreases evs.len(),
{
    if evs.len() == 0 {
        (sel, st)
    } else {
        let stepped = spec_apply_event(sel, st, evs[0]@);
        spec_apply_events(stepped.0, stepped.1, evs.drop_first())
    }
}

/// Apply a queue of events strictly in order, as the consumer thread does.
pub fn run_events(
    state: &mut SharedSelectionState,
    settings: &mut SettingsModel,
    events: &Vec<Events>,
)
    ensures
        (final(state)@, final(settings)@) == spec_apply_events(
            old(state)@,
            old(settings)@,
            events@,
        ),
{
    let n = events.len();
    proof {
        assert(events@.skip(0) =~= events@);
    }
    for i in 0..n
        invariant
            n == events@.len(),
            spec_apply_events(old(state)@, old(settings)@, events@) == spec_apply_events(
                state@,
                settings@,
                events@.skip(i as int),
            ),
    {
        proof {
            assert(events@.skip(i as int)[0] == events@[i as int]);
            assert(events@.skip(i as int).drop_first() =~= events@.skip(i + 1));
        }
        apply_event(state, settings, &events[i]);
    }
}

/// Events apply in arrival order: an icon choice followed by a theme choice
/// leaves exactly that icon and that theme in the shared state, however the
/// two applications are scheduled around other work.
pub proof fn lemma_fifo_order(sel: SelectionView, st: SettingsView, name: Seq<char>, t: Theme)
    requires
        !sel.exit_requested,
    ensures
        ({
            let first = spec_apply_event(sel, st, EventView::SetIcon(name));
            let second = spec_apply_event(first.0, first.1, EventView::SetTheme(t));
            &&& second.0.icon_name == name
            &&& second.0.theme == t
            &&& !second.0.exit_requested
        }),
{
}

/// The exit flag is one-way: an event never clears it.
pub proof fn lemma_exit_monotonic(sel: SelectionView, st: SettingsView, e: EventView)
    ensures
        sel.exit_requested ==> spec_apply_event(sel, st, e).0.exit_requested,
        spec_apply_event(sel, st, e).0.exit_requested ==> (sel.exit_requested
            || e == EventView::Exit),
{
}

/// Exit is terminal: once the exit event has been processed, any queue of
/// further events changes neither the shared state nor the settings, and
/// asks nothing of the platform layer.
pub proof fn lemma_exit_idempotent(
    sel: SelectionView,
    st: SettingsView,
    evs: Seq<Events>,
)
    requires
        sel.exit_requested,
    ensures
        spec_apply_events(sel, st, evs) == (sel, st),
        forall|e: EventView| #[trigger] spec_apply_event(sel, st, e) == (sel, st, spec_no_outcome()),
    decreases evs.len(),
{
    if evs.len() > 0 {
        lemma_exit_idempotent(sel, st, evs.drop_first());
    }
}

} // verus!
