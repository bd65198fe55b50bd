use std::io::Write;

use rustcat::icon_manager::{
    IconGroupInfo, IconLoadError, IconManager, IconMeta, Theme, ThemeGroupMeta,
};

fn gzip(data: &[u8]) -> Vec<u8> {
    let mut encoder = flate2::write::GzEncoder::new(Vec::new(), flate2::Compression::default());
    encoder.write_all(data).unwrap();
    encoder.finish().unwrap()
}

fn group(theme_key: &str, offset: usize, sizes: &[u32]) -> ThemeGroupMeta {
    ThemeGroupMeta {
        theme_key: theme_key.to_string(),
        info: IconGroupInfo {
            offset,
            sizes: sizes.to_vec(),
        },
    }
}

fn entry(name: &str, groups: Vec<ThemeGroupMeta>) -> IconMeta {
    IconMeta {
        name: name.to_string(),
        groups,
    }
}

/// The blob `[10, 11, 12, 13, 14, 15, 16, 17]` compressed, with the cat's
/// dark frames `[10, 11] [12]` and light frames `[13, 14, 15]`, and the
/// parrot's dark frame `[16, 17]`.
fn sample_catalog() -> IconManager {
    let blob: Vec<u8> = vec![10, 11, 12, 13, 14, 15, 16, 17];
    let compressed = gzip(&blob);
    let metadata = vec![
        entry(
            "parrot",
            vec![group("dark", 6, &[2])],
        ),
        entry(
            "cat",
            vec![group("dark", 0, &[2, 1]), group("light", 3, &[3])],
        ),
    ];
    IconManager::load_icons(&compressed, &metadata).unwrap()
}

#[test]
fn load_icons_cuts_frames_from_blob() {
    let m = sample_catalog();
    let dark = m.get_icon_set("cat", Some(Theme::Dark), false).unwrap();
    assert_eq!(dark, &vec![vec![10u8, 11], vec![12]]);
    let light = m.get_icon_set("cat", Some(Theme::Light), false).unwrap();
    assert_eq!(light, &vec![vec![13u8, 14, 15]]);
    let parrot = m.get_icon_set("parrot", Some(Theme::Dark), false).unwrap();
    assert_eq!(parrot, &vec![vec![16u8, 17]]);
}

#[test]
fn load_icons_rejects_bad_gzip() {
    let metadata = vec![entry("cat", vec![group("dark", 0, &[1])])];
    let r = IconManager::load_icons(&[1, 2, 3], &metadata);
    assert_eq!(r.unwrap_err(), IconLoadError::DecompressFailed);
}

#[test]
fn load_icons_rejects_out_of_range_group() {
    let compressed = gzip(&[1, 2, 3, 4]);
    let metadata = vec![entry("cat", vec![group("dark", 0, &[10])])];
    match IconManager::load_icons(&compressed, &metadata) {
        Err(IconLoadError::InvalidGroup {
            icon_name,
            theme_key,
        }) => {
            assert_eq!(icon_name, "cat");
            assert_eq!(theme_key, "dark");
        }
        other => panic!("expected an invalid group error, got {:?}", other.is_ok()),
    }
}

#[test]
fn load_icons_skips_unknown_theme_names() {
    let compressed = gzip(&[1, 2, 3, 4]);
    // the unknown group points far outside the blob and is never checked
    let metadata = vec![entry(
        "cat",
        vec![group("purple", 100000, &[50]), group("dark", 0, &[4])],
    )];
    let m = IconManager::load_icons(&compressed, &metadata).unwrap();
    assert_eq!(
        m.get_icon_set("cat", Some(Theme::Dark), false).unwrap(),
        &vec![vec![1u8, 2, 3, 4]]
    );
    // no light group was loaded, so a light request falls back to dark
    assert_eq!(
        m.get_icon_set("cat", Some(Theme::Light), false).unwrap(),
        &vec![vec![1u8, 2, 3, 4]]
    );
    assert_eq!(m.available_themes_for_icon("cat"), vec![Theme::Dark]);
}

#[test]
fn unknown_icon_resolves_to_nothing() {
    let m = sample_catalog();
    assert!(m.get_icon_set("dog", Some(Theme::Dark), false).is_none());
    assert!(m.get_icon_set("dog", None, false).is_none());
}

#[test]
fn explicit_missing_theme_falls_back() {
    let m = sample_catalog();
    // the parrot has no light frames; an explicit request for light still
    // answers with the frames it does hold
    let frames = m.get_icon_set("parrot", Some(Theme::Light), false).unwrap();
    assert_eq!(frames, &vec![vec![16u8, 17]]);
}

#[test]
fn family_with_no_frames_resolves_to_nothing() {
    let compressed = gzip(&[1, 2]);
    let metadata = vec![entry("ghost", vec![])];
    let m = IconManager::load_icons(&compressed, &metadata).unwrap();
    assert!(m.get_icon_set("ghost", None, false).is_none());
    assert!(m.get_icon_set("ghost", Some(Theme::Dark), false).is_none());
    assert!(m.get_icon_set("ghost", Some(Theme::Light), true).is_none());
}

#[test]
fn automatic_theme_follows_system() {
    let m = sample_catalog();
    let dark = m.get_icon_set("cat", None, true).unwrap();
    assert_eq!(dark, &vec![vec![10u8, 11], vec![12]]);
    let light = m.get_icon_set("cat", None, false).unwrap();
    assert_eq!(light, &vec![vec![13u8, 14, 15]]);
}

#[test]
fn automatic_theme_falls_back_to_any_theme() {
    let m = sample_catalog();
    // the system wants light but the parrot only has dark frames
    let frames = m.get_icon_set("parrot", None, false).unwrap();
    assert_eq!(frames, &vec![vec![16u8, 17]]);
}

#[test]
fn available_icons_are_sorted() {
    let m = sample_catalog();
    assert_eq!(m.available_icons(), vec!["cat".to_string(), "parrot".to_string()]);
}

#[test]
fn available_themes_dark_before_light() {
    let m = sample_catalog();
    assert_eq!(
        m.available_themes_for_icon("cat"),
        vec![Theme::Dark, Theme::Light]
    );
    assert_eq!(m.available_themes_for_icon("parrot"), vec![Theme::Dark]);
    assert_eq!(m.available_themes_for_icon("dog"), Vec::<Theme>::new());
}

#[test]
fn supports_themes_only_for_known_names() {
    let m = sample_catalog();
    assert!(m.supports_themes("cat"));
    assert!(m.supports_themes("parrot"));
    assert!(!m.supports_themes("dog"));
}

#[test]
fn empty_catalog_has_nothing() {
    let m = IconManager::new();
    assert_eq!(m.available_icons(), Vec::<String>::new());
    assert!(m.get_icon_set("cat", None, false).is_none());
    assert!(!m.supports_themes("cat"));
}

#[test]
fn numeric_id_migration() {
    assert_eq!(IconManager::migrate_from_numeric_id(0), "cat");
    assert_eq!(IconManager::migrate_from_numeric_id(1), "cat");
    assert_eq!(IconManager::migrate_from_numeric_id(2), "parrot");
    assert_eq!(IconManager::migrate_from_numeric_id(3), "parrot");
    assert_eq!(IconManager::get_theme_from_numeric_id(0), Theme::Dark);
    assert_eq!(IconManager::get_theme_from_numeric_id(1), Theme::Light);
    assert_eq!(IconManager::get_theme_from_numeric_id(2), Theme::Dark);
    assert_eq!(IconManager::get_theme_from_numeric_id(3), Theme::Light);
}

#[test]
fn theme_names_round_trip() {
    assert_eq!(Theme::Dark.as_str(), "dark");
    assert_eq!(Theme::Light.as_str(), "light");
    assert_eq!(rustcat::icon_manager::parse_theme("dark"), Some(Theme::Dark));
    assert_eq!(rustcat::icon_manager::parse_theme("light"), Some(Theme::Light));
    assert_eq!(rustcat::icon_manager::parse_theme("auto"), None);
    assert_eq!(rustcat::icon_manager::parse_theme(""), None);
}

#[test]
fn sleeping_cat_resolves_sleep_family() {
    let blob: Vec<u8> = vec![1, 2, 3, 4];
    let compressed = gzip(&blob);
    let metadata = vec![
        entry("cat", vec![group("dark", 0, &[2])]),
        entry("sleep", vec![group("dark", 2, &[2])]),
    ];
    let m = IconManager::load_icons(&compressed, &metadata).unwrap();

    let mut engine = rustcat::engine::AnimationTimerState::new();
    assert_eq!(
        m.get_icon_set(engine.effective_icon_name("cat"), Some(Theme::Dark), false)
            .unwrap(),
        &vec![vec![1u8, 2]]
    );
    engine.is_sleeping = true;
    assert_eq!(
        m.get_icon_set(engine.effective_icon_name("cat"), Some(Theme::Dark), false)
            .unwrap(),
        &vec![vec![3u8, 4]]
    );
}

#[test]
fn theme_from_system_flag() {
    assert_eq!(Theme::from_system(true), Theme::Dark);
    assert_eq!(Theme::from_system(false), Theme::Light);
}
