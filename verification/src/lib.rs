//! Core logic of a tray utility that animates an icon in step with CPU load.
//!
//! The library holds the verified heart of the application: the animation
//! engine that derives a frame cadence from CPU usage and drives the
//! idle/sleep state machine, the event controller that serialises user
//! actions over the shared selection state, the icon catalog with its
//! theme-fallback policy, and the settings model with its migration from
//! the legacy numeric encoding.  Platform bindings (tray shell, registry,
//! CPU counters, dialogs) live outside and hand the library plain values.

pub mod controller;
pub mod cpu_usage;
pub mod engine;
pub mod events;
pub mod icon_manager;
pub mod settings;
pub mod strutil;
