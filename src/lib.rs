//! Cycling the default audio output device through a user-curated rotation.
//!
//! The library holds the shared rotation state, the engine that picks the
//! next device, the synchronizer that enables and disables devices, and the
//! view projected for a presentation surface. Platform access, persistence
//! and the user interface stay with the caller: it performs the platform call
//! that the engine asks for and hands the outcome back.
use vstd::prelude::*;

pub mod audio;
pub mod config;
pub mod panel;
pub mod sync;

pub use audio::{
    apply_set_outcome, enumerate_devices, get_default_device_id, init_com, next_in_rotation,
    rotation_of, set_default_device, toggle_next_device, AppState, AudioDevice,
};
pub use config::{initialize, AppConfig};
pub use panel::{devices_from_state, get_tooltip_text, PanelDevice};
pub use sync::{replace_devices, set_enabled, toggle_enabled};
