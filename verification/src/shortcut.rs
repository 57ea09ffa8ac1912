//! Global shortcuts: which settings hold them, which are live in which
//! mode, and what each does to the shared state.

use crate::error::ReaderError;
use crate::reader::ReaderModel;
use crate::state::{
    command_done, next_chapter, next_line, prev_chapter, prev_line, toggle_reading_mode, AppModel,
    AppState, Progress,
};
use crate::store::AppStoreKey;
use vstd::prelude::*;

verus! {

/// What a global shortcut does.
#[derive(Clone, Copy, Debug, PartialEq, Eq, Structural)]
pub enum AppShortcut {
    NextLine,
    PrevLine,
    BossKey,
    NextChapter,
    PrevChapter,
    ToggleReadingMode,
}

/// The shortcuts that are live whether reading mode is on or off.
pub open spec fn common_keys() -> Seq<AppStoreKey> {
    seq![AppStoreKey::BossKeyShortcut, AppStoreKey::ToggleReadingModeShortcut]
}

/// The shortcuts that are live in reading mode only.
pub open spec fn reading_mode_keys() -> Seq<AppStoreKey> {
    seq![
        AppStoreKey::NextLineShortcut,
        AppStoreKey::PrevLineShortcut,
        AppStoreKey::NextChapterShortcut,
        AppStoreKey::PrevChapterShortcut,
    ]
}

/// What the shortcut of a setting does; `None` for a setting that is no
/// shortcut.
pub open spec fn shortcut_of(key: AppStoreKey) -> Option<AppShortcut> {
    match key {
        AppStoreKey::NextLineShortcut => Some(AppShortcut::NextLine),
        AppStoreKey::PrevLineShortcut => Some(AppShortcut::PrevLine),
        AppStoreKey::BossKeyShortcut => Some(AppShortcut::BossKey),
        AppStoreKey::NextChapterShortcut => Some(AppShortcut::NextChapter),
        AppStoreKey::PrevChapterShortcut => Some(AppShortcut::PrevChapter),
        AppStoreKey::ToggleReadingModeShortcut => Some(AppShortcut::ToggleReadingMode),
        _ => None,
    }
}

impl AppShortcut {
    /// What the shortcut of a setting does; `None` for a setting that is no
    /// shortcut.
    pub fn new(key: AppStoreKey) -> (shortcut: Option<AppShortcut>)
        ensures
            shortcut == shortcut_of(key),
            shortcut is Some <==> key.is_shortcut(),
    {
        match key {
            AppStoreKey::NextLineShortcut => Some(AppShortcut::NextLine),
            AppStoreKey::PrevLineShortcut => Some(AppShortcut::PrevLine),
            AppStoreKey::BossKeyShortcut => Some(AppShortcut::BossKey),
            AppStoreKey::NextChapterShortcut => Some(AppShortcut::NextChapter),
            AppStoreKey::PrevChapterShortcut => Some(AppShortcut::PrevChapter),
            AppStoreKey::ToggleReadingModeShortcut => Some(AppShortcut::ToggleReadingMode),
            _ => None,
        }
    }

    /// The shortcuts that are live whether reading mode is on or off.
    pub fn common_shortcuts() -> (keys: Vec<AppStoreKey>)
        ensures
            keys@ == common_keys(),
    {
        let mut keys: Vec<AppStoreKey> = Vec::new();
        keys.push(AppStoreKey::BossKeyShortcut);
        keys.push(AppStoreKey::ToggleReadingModeShortcut);
        assert(keys@ =~= common_keys());
        keys
    }

    /// The shortcuts that are live in reading mode only.
    pub fn reading_mode_shortcuts() -> (keys: Vec<AppStoreKey>)
        ensures
            keys@ == reading_mode_keys(),
    {
        let mut keys: Vec<AppStoreKey> = Vec::new();
        keys.push(AppStoreKey::NextLineShortcut);
        keys.push(AppStoreKey::PrevLineShortcut);
        keys.push(AppStoreKey::NextChapterShortcut);
        keys.push(AppStoreKey::PrevChapterShortcut);
        assert(keys@ =~= reading_mode_keys());
        keys
    }

    /// Every shortcut: those of reading mode, then the common ones.
    pub fn all_shortcuts() -> (keys: Vec<AppStoreKey>)
        ensures
            keys@ == reading_mode_keys() + common_keys(),
    {
        let mut keys: Vec<AppStoreKey> = Vec::new();
        keys.push(AppStoreKey::NextLineShortcut);
        keys.push(AppStoreKey::PrevLineShortcut);
        keys.push(AppStoreKey::NextChapterShortcut);
        keys.push(AppStoreKey::PrevChapterShortcut);
        keys.push(AppStoreKey::BossKeyShortcut);
        keys.push(AppStoreKey::ToggleReadingModeShortcut);
        assert(keys@ =~= reading_mode_keys() + common_keys());
        keys
    }

    /// The shortcuts to make live for the given mode: all of them in
    /// reading mode, the common ones out of it.
    pub fn active_shortcuts(reading_mode: bool) -> (keys: Vec<AppStoreKey>)
        ensures
            keys@ == if reading_mode {
                reading_mode_keys() + common_keys()
            } else {
                common_keys()
            },
    {
        if reading_mode {
            AppShortcut::all_shortcuts()
        } else {
            AppShortcut::common_shortcuts()
        }
    }
}

/// Every key in the lists of shortcuts is a shortcut, and every shortcut is
/// in one of them.
pub proof fn lemma_shortcut_keys()
    ensures
        forall|key: AppStoreKey|
            key.is_shortcut() <==> (reading_mode_keys() + common_keys()).contains(key),
        forall|key: AppStoreKey| key.is_shortcut() <==> shortcut_of(key) is Some,
{
    let keys = reading_mode_keys() + common_keys();
    assert forall|key: AppStoreKey| key.is_shortcut() implies keys.contains(key) by {
        let i: int = match key {
            AppStoreKey::NextLineShortcut => 0,
            AppStoreKey::PrevLineShortcut => 1,
            AppStoreKey::NextChapterShortcut => 2,
            AppStoreKey::PrevChapterShortcut => 3,
            AppStoreKey::BossKeyShortcut => 4,
            _ => 5,
        };
        assert(keys[i] == key);
    }
}

/// What is left to do outside the shared state once a shortcut has been
/// handled.
#[derive(Clone, Copy, Debug, PartialEq, Eq)]
pub enum ShortcutEffect {
    /// Nothing: the key was let go, not pressed.
    Nothing,
    /// A navigation was tried; its outcome is to be announced and, where it
    /// took place, the progress recorded.
    Navigated(Result<Progress, ReaderError>),
    /// Every window is to be hidden.
    HideWindows,
    /// Every window is to be shown.
    ShowWindows,
    /// Reading mode was switched to the given mode; the shortcuts of
    /// reading mode are to be made live, or taken down, to match.
    ReadingMode(bool),
}

/// How a shortcut shows in the shared state and what it leaves to do. A key
/// that is let go changes nothing. A navigation key runs its command on the
/// open document. The boss key hides the windows where any is to be seen and
/// shows them where none is. The mode key switches reading mode.
pub open spec fn shortcut_handled(
    before: AppModel,
    shortcut: AppShortcut,
    pressed: bool,
    window_visible: bool,
    after: AppModel,
    effect: ShortcutEffect,
) -> bool {
    if !pressed {
        after == before && effect == ShortcutEffect::Nothing
    } else {
        match shortcut {
            AppShortcut::NextLine => effect matches ShortcutEffect::Navigated(result)
                && command_done(before, |reader: ReaderModel| reader.next_line(), after, result),
            AppShortcut::PrevLine => effect matches ShortcutEffect::Navigated(result)
                && command_done(before, |reader: ReaderModel| reader.prev_line(), after, result),
            AppShortcut::NextChapter => effect matches ShortcutEffect::Navigated(result)
                && command_done(
                before,
                |reader: ReaderModel| reader.next_chapter(),
                after,
                result,
            ),
            AppShortcut::PrevChapter => effect matches ShortcutEffect::Navigated(result)
                && command_done(
                before,
                |reader: ReaderModel| reader.prev_chapter(),
                after,
                result,
            ),
            AppShortcut::BossKey => after == before && effect == if window_visible {
                ShortcutEffect::HideWindows
            } else {
                ShortcutEffect::ShowWindows
            },
            AppShortcut::ToggleReadingMode => after == (AppModel {
                reading_mode: !before.reading_mode,
                ..before
            }) && effect == ShortcutEffect::ReadingMode(!before.reading_mode),
        }
    }
}

/// Handles a shortcut under the lock on the shared state.
pub fn on_shortcut(
    state: &mut AppState,
    shortcut: AppShortcut,
    pressed: bool,
    window_visible: bool,
) -> (effect: ShortcutEffect)
    ensures
        shortcut_handled(old(state)@, shortcut, pressed, window_visible, final(state)@, effect),
{
    if !pressed {
        return ShortcutEffect::Nothing;
    }
    match shortcut {
        AppShortcut::NextLine => ShortcutEffect::Navigated(next_line(state)),
        AppShortcut::PrevLine => ShortcutEffect::Navigated(prev_line(state)),
        AppShortcut::NextChapter => ShortcutEffect::Navigated(next_chapter(state)),
        AppShortcut::PrevChapter => ShortcutEffect::Navigated(prev_chapter(state)),
        AppShortcut::BossKey => {
            if window_visible {
                ShortcutEffect::HideWindows
            } else {
                ShortcutEffect::ShowWindows
            }
        },
        AppShortcut::ToggleReadingMode => ShortcutEffect::ReadingMode(toggle_reading_mode(state)),
    }
}

} // verus!
