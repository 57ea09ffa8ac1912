//! Names of events and of the settings file, and the defaults of the
//! settings.

use vstd::prelude::*;

verus! {

/// The file that holds the settings.
pub const APP_STORE_PATH: &'static str = "app_data.json";

/// Sent when a setting has changed.
pub const CONFIG_CHANGE: &'static str = "config-change";

/// Sent when the open document or the cursor has changed.
pub const READER_CHANGE: &'static str = "reader-change";

/// Sent when reading mode has been switched.
pub const READING_MODE_CHANGE: &'static str = "reading-mode-change";

/// Sent when a check for updates has changed its status.
pub const UPDATE_CHECK_STATUS_CHANGE: &'static str = "update-check-status-changed";

/// Sent as the download of an update goes on.
pub const UPDATE_PROGRESS_CHANGE: &'static str = "update-progress-change";

/// Sent when an update has been installed.
pub const UPDATE_FINISHED: &'static str = "update-finished";

/// Seconds between two checks for updates.
pub const DEFAULT_CHECK_UPDATE_INTERVAL: u64 = 28800;

/// Whether the program starts with the system.
pub const DEFAULT_AUTO_START: bool = false;

/// The language of the interface.
pub const DEFAULT_LANGUAGE: &'static str = "zh-CN";

/// The colour theme.
pub const DEFAULT_THEME: &'static str = "system";

/// Whether the program shows in the dock.
pub const DEFAULT_DOCK_VISIBILITY: bool = true;

/// Whether the reading window stays above the others.
pub const DEFAULT_ALWAYS_ON_TOP: bool = true;

/// Whether the reading window is transparent.
pub const DEFAULT_TRANSPARENT: bool = true;

/// Code points in one display line.
pub const DEFAULT_LINE_SIZE: u64 = 50;

/// The size of the reading font.
pub const DEFAULT_FONT_SIZE: u64 = 16;

/// The family of the reading font; empty for that of the system.
pub const DEFAULT_FONT_FAMILY: &'static str = "";

/// The line height, in hundredths.
pub const DEFAULT_LINE_HEIGHT_HUNDREDTHS: i64 = 100;

/// The weight of the reading font.
pub const DEFAULT_FONT_WEIGHT: u64 = 400;

/// The colour of the reading font.
pub const DEFAULT_FONT_COLOR: &'static str = "#000000";

/// The letter spacing, in hundredths.
pub const DEFAULT_LETTER_SPACING_HUNDREDTHS: i64 = 0;

} // verus!
