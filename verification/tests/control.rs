use std::io::Write;

use rustcat::controller::{apply_event, run_events, SharedSelectionState};
use rustcat::cpu_usage::{filetime_to_u64, MacosCpuMonitor, WindowsCpuMonitor};
use rustcat::events::{build_menu, Events};
use rustcat::icon_manager::{IconGroupInfo, IconManager, IconMeta, Theme, ThemeGroupMeta};
use rustcat::settings::{is_cat, is_dark, is_dark_mode_enabled, SettingsModel};

fn gzip(data: &[u8]) -> Vec<u8> {
    let mut encoder = flate2::write::GzEncoder::new(Vec::new(), flate2::Compression::default());
    encoder.write_all(data).unwrap();
    encoder.finish().unwrap()
}

fn two_icon_catalog() -> IconManager {
    let blob: Vec<u8> = vec![1, 2, 3, 4];
    let metadata = vec![
        IconMeta {
            name: "cat".to_string(),
            groups: vec![
                ThemeGroupMeta {
                    theme_key: "dark".to_string(),
                    info: IconGroupInfo { offset: 0, sizes: vec![2] },
                },
                ThemeGroupMeta {
                    theme_key: "light".to_string(),
                    info: IconGroupInfo { offset: 2, sizes: vec![2] },
                },
            ],
        },
        IconMeta {
            name: "parrot".to_string(),
            groups: vec![ThemeGroupMeta {
                theme_key: "dark".to_string(),
                info: IconGroupInfo { offset: 0, sizes: vec![4] },
            }],
        },
    ];
    IconManager::load_icons(&gzip(&blob), &metadata).unwrap()
}

#[test]
fn fifo_icon_then_theme() {
    let mut state = SharedSelectionState::new("cat", Theme::Light);
    let mut settings = SettingsModel::new();
    let queue = vec![
        Events::SetIcon("parrot".to_string()),
        Events::SetTheme(Theme::Dark),
    ];
    run_events(&mut state, &mut settings, &queue);
    assert_eq!(state.icon_name, "parrot");
    assert_eq!(state.theme, Theme::Dark);
    assert!(!state.exit_requested);
    // both preferences were persisted on the way
    assert_eq!(settings.get_current_icon(), "parrot");
    assert_eq!(settings.get_current_theme(false), Theme::Dark);
}

#[test]
fn exit_is_sticky() {
    let mut state = SharedSelectionState::new("cat", Theme::Dark);
    let mut settings = SettingsModel::new();
    let outcome = apply_event(&mut state, &mut settings, &Events::Exit);
    assert!(outcome.terminate);
    assert!(state.exit_requested);

    let before_state = state.clone();
    let before_settings = settings.clone();
    let queue = vec![
        Events::SetIcon("parrot".to_string()),
        Events::SetTheme(Theme::Light),
        Events::ToggleRunOnStart,
        Events::Exit,
    ];
    run_events(&mut state, &mut settings, &queue);
    assert_eq!(state, before_state);
    assert_eq!(settings, before_settings);
    assert!(state.exit_requested);

    // a dead event also asks nothing of the platform layer
    let outcome = apply_event(&mut state, &mut settings, &Events::ShowAboutDialog);
    assert!(!outcome.show_about && !outcome.rebuild_menu && !outcome.terminate);
}

#[test]
fn events_drive_their_side_effects() {
    let mut state = SharedSelectionState::new("cat", Theme::Dark);
    let mut settings = SettingsModel::new();
    assert!(apply_event(&mut state, &mut settings, &Events::RunTaskmgr).open_monitor);
    assert!(apply_event(&mut state, &mut settings, &Events::ShowAboutDialog).show_about);
    assert!(apply_event(&mut state, &mut settings, &Events::ShowMenu).show_menu);
    let toggled = apply_event(&mut state, &mut settings, &Events::ToggleRunOnStart);
    assert!(toggled.rebuild_menu);
    assert!(settings.is_run_on_start_enabled());
    apply_event(&mut state, &mut settings, &Events::ToggleRunOnStart);
    assert!(!settings.is_run_on_start_enabled());
}

#[test]
fn theme_round_trip_through_settings() {
    let mut settings = SettingsModel::new();
    settings.set_current_theme(Some(Theme::Dark));
    assert_eq!(settings.get_current_theme(false), Theme::Dark);
    settings.set_current_theme(None);
    // with nothing stored the system theme answers
    assert_eq!(settings.get_current_theme(false), Theme::Light);
    assert_eq!(settings.get_current_theme(true), Theme::Dark);
}

#[test]
fn icon_default_and_migration() {
    let mut fresh = SettingsModel::new();
    assert_eq!(fresh.get_current_icon(), "cat");

    let mut legacy = SettingsModel::from_stored(None, None, Some(2), false);
    assert_eq!(legacy.get_current_icon(), "parrot");
    // the migrated name is stored and the packed id removed
    assert_eq!(legacy, SettingsModel::from_stored(Some("parrot".to_string()), None, None, false));
}

#[test]
fn theme_migration_from_legacy_id() {
    let mut legacy = SettingsModel::from_stored(None, None, Some(3), false);
    assert_eq!(legacy.get_current_theme(false), Theme::Light);
    // the migrated theme is stored back under its name
    assert_eq!(
        legacy,
        SettingsModel::from_stored(None, Some("light".to_string()), Some(3), false)
    );
}

#[test]
fn unknown_stored_theme_falls_through() {
    let mut odd = SettingsModel::from_stored(None, Some("purple".to_string()), None, false);
    assert_eq!(odd.get_current_theme(true), Theme::Dark);
}

#[test]
fn packed_id_encoding() {
    let mut settings = SettingsModel::new();
    settings.set_icon_id(3);
    assert_eq!(settings.get_current_icon(), "parrot");
    assert_eq!(settings.get_current_theme(false), Theme::Light);
    assert_eq!(settings.get_icon_id(false), 3);

    settings.set_icon_id(0);
    assert_eq!(settings.get_current_icon(), "cat");
    assert_eq!(settings.get_current_theme(false), Theme::Dark);
    assert_eq!(settings.get_icon_id(false), 0);
}

#[test]
fn dark_mode_flag_decision() {
    // a stored zero means dark; anything else, or nothing, means light
    assert!(is_dark_mode_enabled(Some(0)));
    assert!(!is_dark_mode_enabled(Some(1)));
    assert!(!is_dark_mode_enabled(Some(7)));
    assert!(!is_dark_mode_enabled(None));
}

#[test]
fn packed_id_bits() {
    assert!(is_dark(0) && !is_dark(1) && is_dark(2) && !is_dark(3));
    assert!(is_cat(0) && is_cat(1) && !is_cat(2) && !is_cat(3));
}

#[test]
fn menu_reflects_catalog_and_settings() {
    let m = two_icon_catalog();
    let menu = build_menu(&m, "cat", Theme::Dark, true);
    assert_eq!(menu.theme_entries.len(), 2);
    assert_eq!(menu.theme_entries[0].theme, Theme::Dark);
    assert!(menu.theme_entries[0].checked);
    assert_eq!(menu.theme_entries[1].theme, Theme::Light);
    assert!(!menu.theme_entries[1].checked);
    assert_eq!(menu.icon_entries.len(), 2);
    assert_eq!(menu.icon_entries[0].name, "cat");
    assert!(menu.icon_entries[0].checked);
    assert_eq!(menu.icon_entries[1].name, "parrot");
    assert!(!menu.icon_entries[1].checked);
    assert!(menu.run_on_start_checked);
    assert_eq!(
        menu.fixed_entries,
        vec![Events::RunTaskmgr, Events::ShowAboutDialog, Events::Exit]
    );
}

#[test]
fn menu_for_single_icon_catalog() {
    let blob = gzip(&[1, 2]);
    let metadata = vec![IconMeta {
        name: "cat".to_string(),
        groups: vec![ThemeGroupMeta {
            theme_key: "dark".to_string(),
            info: IconGroupInfo { offset: 0, sizes: vec![2] },
        }],
    }];
    let m = IconManager::load_icons(&blob, &metadata).unwrap();
    let menu = build_menu(&m, "cat", Theme::Light, false);
    // only one family: no icon submenu
    assert!(menu.icon_entries.is_empty());
    assert_eq!(menu.theme_entries.len(), 1);
    assert_eq!(menu.theme_entries[0].theme, Theme::Dark);
    assert!(!menu.theme_entries[0].checked);
    assert!(!menu.run_on_start_checked);
    // the fixed tail always ends with the exit entry
    assert_eq!(menu.fixed_entries.last(), Some(&Events::Exit));
}

#[test]
fn menu_for_unknown_current_icon() {
    let m = two_icon_catalog();
    let menu = build_menu(&m, "dog", Theme::Dark, false);
    assert!(menu.theme_entries.is_empty());
    assert_eq!(menu.icon_entries.len(), 2);
    assert!(!menu.icon_entries[0].checked && !menu.icon_entries[1].checked);
}

#[test]
fn cpu_monitor_first_reading_is_zero() {
    let mut mon = WindowsCpuMonitor::new();
    assert_eq!(mon.get_cpu_usage(1000, 1000, 500), 0);
}

#[test]
fn cpu_monitor_usage_from_deltas() {
    let mut mon = WindowsCpuMonitor::new();
    mon.get_cpu_usage(0, 0, 0);
    // 2000 total units elapsed, 500 idle: 75% busy
    assert_eq!(mon.get_cpu_usage(1000, 1000, 500), 7500);
    // another 1000 elapsed, all idle: 0% busy
    assert_eq!(mon.get_cpu_usage(1500, 1500, 1500), 0);
    // another 1000 elapsed, none idle: 100% busy
    assert_eq!(mon.get_cpu_usage(2000, 2000, 1500), 10000);
}

#[test]
fn cpu_monitor_no_elapsed_total_reads_zero() {
    let mut mon = WindowsCpuMonitor::new();
    mon.get_cpu_usage(1000, 1000, 500);
    assert_eq!(mon.get_cpu_usage(1000, 1000, 900), 0);
}

#[test]
fn mac_cpu_monitor_ticks() {
    let mut mon = MacosCpuMonitor::new();
    assert_eq!(mon.get_cpu_usage(100, 100, 100, 100), 0);
    // 400 ticks elapsed, 100 of them idle: 75% busy
    assert_eq!(mon.get_cpu_usage(200, 200, 200, 200), 7500);
    // 100 ticks elapsed, all idle
    assert_eq!(mon.get_cpu_usage(200, 200, 300, 200), 0);
}

#[test]
fn filetime_joins_halves() {
    assert_eq!(filetime_to_u64(0x89abcdef, 0x01234567), 0x0123456789abcdefu64);
    assert_eq!(filetime_to_u64(0, 0), 0);
    assert_eq!(filetime_to_u64(u32::MAX, u32::MAX), u64::MAX);
}
