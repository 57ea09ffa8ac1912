//! The settings: their names in the store and their defaults.

use crate::constants::{
    DEFAULT_ALWAYS_ON_TOP, DEFAULT_AUTO_START, DEFAULT_CHECK_UPDATE_INTERVAL,
    DEFAULT_DOCK_VISIBILITY, DEFAULT_FONT_COLOR, DEFAULT_FONT_FAMILY, DEFAULT_FONT_SIZE,
    DEFAULT_FONT_WEIGHT, DEFAULT_LANGUAGE, DEFAULT_LETTER_SPACING_HUNDREDTHS,
    DEFAULT_LINE_HEIGHT_HUNDREDTHS, DEFAULT_LINE_SIZE, DEFAULT_THEME, DEFAULT_TRANSPARENT,
};
use vstd::prelude::*;

verus! {

/// The settings that the store holds.
#[derive(Clone, Copy, Debug, PartialEq, Eq, Structural)]
pub enum AppStoreKey {
    CheckUpdateInterval,
    AutoStart,
    Language,
    Theme,
    DockVisibility,
    AlwaysOnTop,
    Transparent,
    LineSize,
    FontSize,
    FontFamily,
    LineHeight,
    LetterSpacing,
    FontWeight,
    FontColor,
    NextLineShortcut,
    PrevLineShortcut,
    NextChapterShortcut,
    PrevChapterShortcut,
    BossKeyShortcut,
    ToggleReadingModeShortcut,
}

/// The system that the program runs on, as far as the defaults differ.
#[derive(Clone, Copy, Debug, PartialEq, Eq, Structural)]
pub enum Platform {
    MacOs,
    Other,
}

/// The value of a setting. A number with a fraction is held in hundredths.
#[derive(Clone, Copy, Debug, PartialEq, Eq)]
pub enum StoreValue {
    Bool(bool),
    Integer(u64),
    Hundredths(i64),
    Text(&'static str),
}

/// The mathematical value of a [`StoreValue`].
pub enum StoreValueSpec {
    Bool(bool),
    Integer(nat),
    Hundredths(int),
    Text(Seq<char>),
}

impl View for StoreValue {
    type V = StoreValueSpec;

    open spec fn view(&self) -> StoreValueSpec {
        match self {
            StoreValue::Bool(value) => StoreValueSpec::Bool(*value),
            StoreValue::Integer(value) => StoreValueSpec::Integer(*value as nat),
            StoreValue::Hundredths(value) => StoreValueSpec::Hundredths(*value as int),
            StoreValue::Text(value) => StoreValueSpec::Text(value@),
        }
    }
}

/// Every setting, in the order of the settings file.
pub open spec fn all_keys() -> Seq<AppStoreKey> {
    seq![
        AppStoreKey::CheckUpdateInterval,
        AppStoreKey::AutoStart,
        AppStoreKey::Language,
        AppStoreKey::Theme,
        AppStoreKey::DockVisibility,
        AppStoreKey::AlwaysOnTop,
        AppStoreKey::Transparent,
        AppStoreKey::LineSize,
        AppStoreKey::FontSize,
        AppStoreKey::FontFamily,
        AppStoreKey::LineHeight,
        AppStoreKey::LetterSpacing,
        AppStoreKey::FontWeight,
        AppStoreKey::FontColor,
        AppStoreKey::NextLineShortcut,
        AppStoreKey::PrevLineShortcut,
        AppStoreKey::NextChapterShortcut,
        AppStoreKey::PrevChapterShortcut,
        AppStoreKey::BossKeyShortcut,
        AppStoreKey::ToggleReadingModeShortcut,
    ]
}

impl AppStoreKey {
    /// The name under which the setting stands in the store.
    pub open spec fn name(self) -> Seq<char> {
        match self {
            AppStoreKey::CheckUpdateInterval => "check_update_interval"@,
            AppStoreKey::AutoStart => "auto_start"@,
            AppStoreKey::Language => "language"@,
            AppStoreKey::Theme => "theme"@,
            AppStoreKey::DockVisibility => "dock_visibility"@,
            AppStoreKey::AlwaysOnTop => "always_on_top"@,
            AppStoreKey::Transparent => "transparent"@,
            AppStoreKey::LineSize => "line_size"@,
            AppStoreKey::FontSize => "font_size"@,
            AppStoreKey::FontFamily => "font_family"@,
            AppStoreKey::LineHeight => "line_height"@,
            AppStoreKey::FontWeight => "font_weight"@,
            AppStoreKey::FontColor => "font_color"@,
            AppStoreKey::LetterSpacing => "letter_spacing"@,
            AppStoreKey::NextLineShortcut => "next_line_shortcut"@,
            AppStoreKey::PrevLineShortcut => "prev_line_shortcut"@,
            AppStoreKey::NextChapterShortcut => "next_chapter_shortcut"@,
            AppStoreKey::PrevChapterShortcut => "prev_chapter_shortcut"@,
            AppStoreKey::BossKeyShortcut => "boss_key_shortcut"@,
            AppStoreKey::ToggleReadingModeShortcut => "toggle_reading_mode_shortcut"@,
        }
    }

    /// The name under which the setting stands in the store.
    pub fn as_str(&self) -> (name: &'static str)
        ensures
            name@ == self.name(),
    {
        match self {
            AppStoreKey::CheckUpdateInterval => "check_update_interval",
            AppStoreKey::AutoStart => "auto_start",
            AppStoreKey::Language => "language",
            AppStoreKey::Theme => "theme",
            AppStoreKey::DockVisibility => "dock_visibility",
            AppStoreKey::AlwaysOnTop => "always_on_top",
            AppStoreKey::Transparent => "transparent",
            AppStoreKey::LineSize => "line_size",
            AppStoreKey::FontSize => "font_size",
            AppStoreKey::FontFamily => "font_family",
            AppStoreKey::LineHeight => "line_height",
            AppStoreKey::FontWeight => "font_weight",
            AppStoreKey::FontColor => "font_color",
            AppStoreKey::LetterSpacing => "letter_spacing",
            AppStoreKey::NextLineShortcut => "next_line_shortcut",
            AppStoreKey::PrevLineShortcut => "prev_line_shortcut",
            AppStoreKey::NextChapterShortcut => "next_chapter_shortcut",
            AppStoreKey::PrevChapterShortcut => "prev_chapter_shortcut",
            AppStoreKey::BossKeyShortcut => "boss_key_shortcut",
            AppStoreKey::ToggleReadingModeShortcut => "toggle_reading_mode_shortcut",
        }
    }

    /// Whether the setting is the key combination of a shortcut.
    pub open spec fn is_shortcut(self) -> bool {
        self == AppStoreKey::NextLineShortcut || self == AppStoreKey::PrevLineShortcut || self
            == AppStoreKey::NextChapterShortcut || self == AppStoreKey::PrevChapterShortcut || self
            == AppStoreKey::BossKeyShortcut || self == AppStoreKey::ToggleReadingModeShortcut
    }

    /// The value that the setting has until the user changes it.
    pub open spec fn default_spec(self, platform: Platform) -> StoreValueSpec {
        let mac = platform == Platform::MacOs;
        match self {
            AppStoreKey::CheckUpdateInterval => StoreValueSpec::Integer(28800),
            AppStoreKey::AutoStart => StoreValueSpec::Bool(false),
            AppStoreKey::Language => StoreValueSpec::Text("zh-CN"@),
            AppStoreKey::Theme => StoreValueSpec::Text("system"@),
            AppStoreKey::DockVisibility => StoreValueSpec::Bool(true),
            AppStoreKey::AlwaysOnTop => StoreValueSpec::Bool(true),
            AppStoreKey::Transparent => StoreValueSpec::Bool(true),
            AppStoreKey::LineSize => StoreValueSpec::Integer(50),
            AppStoreKey::FontSize => StoreValueSpec::Integer(16),
            AppStoreKey::FontFamily => StoreValueSpec::Text(""@),
            AppStoreKey::LineHeight => StoreValueSpec::Hundredths(100),
            AppStoreKey::FontWeight => StoreValueSpec::Integer(400),
            AppStoreKey::FontColor => StoreValueSpec::Text("#000000"@),
            AppStoreKey::LetterSpacing => StoreValueSpec::Hundredths(0),
            AppStoreKey::NextLineShortcut => StoreValueSpec::Text(
                if mac {
                    "Control+Alt+ArrowRight"@
                } else {
                    "Control+ArrowRight"@
                },
            ),
            AppStoreKey::PrevLineShortcut => StoreValueSpec::Text(
                if mac {
                    "Control+Alt+ArrowLeft"@
                } else {
                    "Control+ArrowLeft"@
                },
            ),
            AppStoreKey::NextChapterShortcut => StoreValueSpec::Text(
                if mac {
                    "Control+Alt+ArrowDown"@
                } else {
                    "Control+ArrowDown"@
                },
            ),
            AppStoreKey::PrevChapterShortcut => StoreValueSpec::Text(
                if mac {
                    "Control+Alt+ArrowUp"@
                } else {
                    "Control+ArrowUp"@
                },
            ),
            AppStoreKey::BossKeyShortcut => StoreValueSpec::Text(
                if mac {
                    "Control+Alt+Enter"@
                } else {
                    "Control+Enter"@
                },
            ),
            AppStoreKey::ToggleReadingModeShortcut => StoreValueSpec::Text(
                if mac {
                    "Control+Alt+Backslash"@
                } else {
                    "Control+Backslash"@
                },
            ),
        }
    }

    /// The value that the setting has until the user changes it.
    pub fn default_value(&self, platform: Platform) -> (value: StoreValue)
        ensures
            value@ == self.default_spec(platform),
    {
        let mac = platform == Platform::MacOs;
        match self {
            AppStoreKey::CheckUpdateInterval => StoreValue::Integer(DEFAULT_CHECK_UPDATE_INTERVAL),
            AppStoreKey::AutoStart => StoreValue::Bool(DEFAULT_AUTO_START),
            AppStoreKey::Language => StoreValue::Text(DEFAULT_LANGUAGE),
            AppStoreKey::Theme => StoreValue::Text(DEFAULT_THEME),
            AppStoreKey::DockVisibility => StoreValue::Bool(DEFAULT_DOCK_VISIBILITY),
            AppStoreKey::AlwaysOnTop => StoreValue::Bool(DEFAULT_ALWAYS_ON_TOP),
            AppStoreKey::Transparent => StoreValue::Bool(DEFAULT_TRANSPARENT),
            AppStoreKey::LineSize => StoreValue::Integer(DEFAULT_LINE_SIZE),
            AppStoreKey::FontSize => StoreValue::Integer(DEFAULT_FONT_SIZE),
            AppStoreKey::FontFamily => StoreValue::Text(DEFAULT_FONT_FAMILY),
            AppStoreKey::LineHeight => StoreValue::Hundredths(DEFAULT_LINE_HEIGHT_HUNDREDTHS),
            AppStoreKey::FontWeight => StoreValue::Integer(DEFAULT_FONT_WEIGHT),
            AppStoreKey::FontColor => StoreValue::Text(DEFAULT_FONT_COLOR),
            AppStoreKey::LetterSpacing => StoreValue::Hundredths(
                DEFAULT_LETTER_SPACING_HUNDREDTHS,
            ),
            AppStoreKey::NextLineShortcut => StoreValue::Text(
                if mac {
                    "Control+Alt+ArrowRight"
                } else {
                    "Control+ArrowRight"
                },
            ),
            AppStoreKey::PrevLineShortcut => StoreValue::Text(
                if mac {
                    "Control+Alt+ArrowLeft"
                } else {
                    "Control+ArrowLeft"
                },
            ),
            AppStoreKey::NextChapterShortcut => StoreValue::Text(
                if mac {
                    "Control+Alt+ArrowDown"
                } else {
                    "Control+ArrowDown"
                },
            ),
            AppStoreKey::PrevChapterShortcut => StoreValue::Text(
                if mac {
                    "Control+Alt+ArrowUp"
                } else {
                    "Control+ArrowUp"
                },
            ),
            AppStoreKey::BossKeyShortcut => StoreValue::Text(
                if mac {
                    "Control+Alt+Enter"
                } else {
                    "Control+Enter"
                },
            ),
            AppStoreKey::ToggleReadingModeShortcut => StoreValue::Text(
                if mac {
                    "Control+Alt+Backslash"
                } else {
                    "Control+Backslash"
                },
            ),
        }
    }

    /// Every setting, in the order of the settings file.
    pub fn keys() -> (keys: Vec<AppStoreKey>)
        ensures
            keys@ == all_keys(),
    {
        let mut keys: Vec<AppStoreKey> = Vec::new();
        keys.push(AppStoreKey::CheckUpdateInterval);
        keys.push(AppStoreKey::AutoStart);
        keys.push(AppStoreKey::Language);
        keys.push(AppStoreKey::Theme);
        keys.push(AppStoreKey::DockVisibility);
        keys.push(AppStoreKey::AlwaysOnTop);
        keys.push(AppStoreKey::Transparent);
        keys.push(AppStoreKey::LineSize);
        keys.push(AppStoreKey::FontSize);
        keys.push(AppStoreKey::FontFamily);
        keys.push(AppStoreKey::LineHeight);
        keys.push(AppStoreKey::LetterSpacing);
        keys.push(AppStoreKey::FontWeight);
        keys.push(AppStoreKey::FontColor);
        keys.push(AppStoreKey::NextLineShortcut);
        keys.push(AppStoreKey::PrevLineShortcut);
        keys.push(AppStoreKey::NextChapterShortcut);
        keys.push(AppStoreKey::PrevChapterShortcut);
        keys.push(AppStoreKey::BossKeyShortcut);
        keys.push(AppStoreKey::ToggleReadingModeShortcut);
        assert(keys@ =~= all_keys());
        keys
    }
}

/// The list of settings names every setting, and none twice.
pub proof fn lemma_all_keys_complete()
    ensures
        forall|key: AppStoreKey| all_keys().contains(key),
        all_keys().no_duplicates(),
{
    assert forall|key: AppStoreKey| all_keys().contains(key) by {
        let i: int = match key {
            AppStoreKey::CheckUpdateInterval => 0,
            AppStoreKey::AutoStart => 1,
            AppStoreKey::Language => 2,
            AppStoreKey::Theme => 3,
            AppStoreKey::DockVisibility => 4,
            AppStoreKey::AlwaysOnTop => 5,
            AppStoreKey::Transparent => 6,
            AppStoreKey::LineSize => 7,
            AppStoreKey::FontSize => 8,
            AppStoreKey::FontFamily => 9,
            AppStoreKey::LineHeight => 10,
            AppStoreKey::LetterSpacing => 11,
            AppStoreKey::FontWeight => 12,
            AppStoreKey::FontColor => 13,
            AppStoreKey::NextLineShortcut => 14,
            AppStoreKey::PrevLineShortcut => 15,
            AppStoreKey::NextChapterShortcut => 16,
            AppStoreKey::PrevChapterShortcut => 17,
            AppStoreKey::BossKeyShortcut => 18,
            AppStoreKey::ToggleReadingModeShortcut => 19,
        };
        assert(all_keys()[i] == key);
    }
}

} // verus!
