use novel_reader::error::ReaderError;
use novel_reader::plain::load_text;
use novel_reader::reader::NovelReader;
use novel_reader::shortcut::{on_shortcut, AppShortcut, ShortcutEffect};
use novel_reader::state::{
    close_novel_reader, delete_novel, get_line, get_progress, get_reading_mode, next_chapter,
    next_line, open_novel, prev_chapter, prev_line, set_line_size, set_read_position,
    toggle_reading_mode, AppState, Progress,
};
use novel_reader::store::AppStoreKey;

const STORY: &str = "第一章 开始\n内容太长超过设定的块大小\n第二章 发展\n短\n第三章 结局\n完";

fn opened(position: usize) -> AppState {
    let mut state = AppState::new();
    let reader =
        NovelReader::from_blocks(7, "story.txt".to_string(), load_text(STORY), position, 5);
    open_novel(&mut state, reader);
    state
}

fn at(read_position: usize, basis_points: u64) -> Progress {
    Progress { novel_id: 7, read_position, total_lines: 8, basis_points }
}

#[test]
fn new_state_has_no_document_and_reading_mode_off() {
    let state = AppState::new();
    assert!(state.novel_reader.is_none());
    assert!(!get_reading_mode(&state));
}

#[test]
fn commands_without_a_document_fail() {
    let mut state = AppState::new();
    assert_eq!(get_line(&state), Err(ReaderError::NoActiveDocument));
    assert_eq!(get_progress(&state), Err(ReaderError::NoActiveDocument));
    assert_eq!(set_read_position(&mut state, 0), Err(ReaderError::NoActiveDocument));
    assert_eq!(next_line(&mut state), Err(ReaderError::NoActiveDocument));
    assert_eq!(prev_line(&mut state), Err(ReaderError::NoActiveDocument));
    assert_eq!(next_chapter(&mut state), Err(ReaderError::NoActiveDocument));
    assert_eq!(prev_chapter(&mut state), Err(ReaderError::NoActiveDocument));
    assert_eq!(set_line_size(&mut state, 4), Err(ReaderError::NoActiveDocument));
    assert!(state.novel_reader.is_none());
}

#[test]
fn navigation_returns_the_progress_record() {
    let mut state = opened(0);
    assert_eq!(get_progress(&state), Ok(at(0, 0)));
    assert_eq!(next_line(&mut state), Ok(at(1, 1250)));
    assert_eq!(next_chapter(&mut state), Ok(at(4, 5000)));
    assert_eq!(get_line(&state), Ok("第二章 发展".to_string()));
    assert_eq!(prev_line(&mut state), Ok(at(3, 3750)));
    assert_eq!(set_read_position(&mut state, 7), Ok(at(7, 8750)));
    assert_eq!(prev_chapter(&mut state), Ok(at(4, 5000)));
    assert_eq!(get_progress(&state), Ok(at(4, 5000)));
}

#[test]
fn failed_navigation_leaves_the_document_as_it_was() {
    let mut state = opened(7);
    assert_eq!(next_line(&mut state), Err(ReaderError::OutOfBounds));
    assert_eq!(next_chapter(&mut state), Err(ReaderError::NoAdjacentChapter));
    assert_eq!(set_read_position(&mut state, 8), Err(ReaderError::OutOfBounds));
    assert_eq!(get_progress(&state), Ok(at(7, 8750)));
    let mut state = opened(0);
    assert_eq!(prev_line(&mut state), Err(ReaderError::OutOfBounds));
    assert_eq!(prev_chapter(&mut state), Err(ReaderError::NoAdjacentChapter));
    assert_eq!(get_progress(&state), Ok(at(0, 0)));
}

#[test]
fn get_line_of_an_empty_document_is_empty() {
    let mut state = AppState::new();
    open_novel(&mut state, NovelReader::from_blocks(1, "e.txt".to_string(), Vec::new(), 0, 5));
    assert_eq!(get_line(&state), Ok(String::new()));
}

#[test]
fn set_line_size_repaginates_the_open_document() {
    let mut state = opened(5);
    assert_eq!(
        set_line_size(&mut state, 3),
        Ok(Progress { novel_id: 7, read_position: 5, total_lines: 9, basis_points: 5555 })
    );
    assert_eq!(get_line(&state), Ok("第二章 发展".to_string()));
}

#[test]
fn open_replaces_and_close_removes_the_document() {
    let mut state = opened(2);
    let other = NovelReader::from_blocks(9, "b.txt".to_string(), load_text("甲\n乙"), 1, 5);
    open_novel(&mut state, other);
    assert_eq!(
        get_progress(&state),
        Ok(Progress { novel_id: 9, read_position: 1, total_lines: 2, basis_points: 5000 })
    );
    close_novel_reader(&mut state);
    assert!(state.novel_reader.is_none());
    close_novel_reader(&mut state);
    assert!(state.novel_reader.is_none());
}

#[test]
fn delete_closes_the_document_only_if_it_is_the_open_one() {
    let mut state = opened(2);
    assert!(!delete_novel(&mut state, 8));
    assert!(state.novel_reader.is_some());
    assert!(delete_novel(&mut state, 7));
    assert!(state.novel_reader.is_none());
    assert!(!delete_novel(&mut state, 7));
}

#[test]
fn toggle_reading_mode_switches_and_reports() {
    let mut state = opened(2);
    assert!(toggle_reading_mode(&mut state));
    assert!(get_reading_mode(&state));
    assert!(!toggle_reading_mode(&mut state));
    assert!(!get_reading_mode(&state));
    assert_eq!(get_progress(&state), Ok(at(2, 2500)));
}

#[test]
fn shortcut_let_go_does_nothing() {
    let mut state = opened(2);
    assert_eq!(on_shortcut(&mut state, AppShortcut::NextLine, false, true), ShortcutEffect::Nothing);
    assert_eq!(
        on_shortcut(&mut state, AppShortcut::ToggleReadingMode, false, true),
        ShortcutEffect::Nothing
    );
    assert_eq!(get_progress(&state), Ok(at(2, 2500)));
    assert!(!get_reading_mode(&state));
}

#[test]
fn navigation_shortcuts_run_their_commands() {
    let mut state = opened(2);
    assert_eq!(
        on_shortcut(&mut state, AppShortcut::NextLine, true, false),
        ShortcutEffect::Navigated(Ok(at(3, 3750)))
    );
    assert_eq!(
        on_shortcut(&mut state, AppShortcut::NextChapter, true, false),
        ShortcutEffect::Navigated(Ok(at(4, 5000)))
    );
    assert_eq!(
        on_shortcut(&mut state, AppShortcut::PrevLine, true, false),
        ShortcutEffect::Navigated(Ok(at(3, 3750)))
    );
    assert_eq!(
        on_shortcut(&mut state, AppShortcut::PrevChapter, true, false),
        ShortcutEffect::Navigated(Err(ReaderError::NoAdjacentChapter))
    );
    let mut empty = AppState::new();
    assert_eq!(
        on_shortcut(&mut empty, AppShortcut::NextLine, true, false),
        ShortcutEffect::Navigated(Err(ReaderError::NoActiveDocument))
    );
}

#[test]
fn boss_key_hides_what_is_seen_and_shows_what_is_hidden() {
    let mut state = opened(2);
    assert_eq!(on_shortcut(&mut state, AppShortcut::BossKey, true, true), ShortcutEffect::HideWindows);
    assert_eq!(
        on_shortcut(&mut state, AppShortcut::BossKey, true, false),
        ShortcutEffect::ShowWindows
    );
    assert_eq!(get_progress(&state), Ok(at(2, 2500)));
}

#[test]
fn mode_shortcut_switches_reading_mode() {
    let mut state = AppState::new();
    assert_eq!(
        on_shortcut(&mut state, AppShortcut::ToggleReadingMode, true, true),
        ShortcutEffect::ReadingMode(true)
    );
    assert!(get_reading_mode(&state));
    assert_eq!(
        on_shortcut(&mut state, AppShortcut::ToggleReadingMode, true, true),
        ShortcutEffect::ReadingMode(false)
    );
    assert!(!get_reading_mode(&state));
}

#[test]
fn shortcut_lists_hold_the_shortcut_keys() {
    assert_eq!(
        AppShortcut::common_shortcuts(),
        vec![AppStoreKey::BossKeyShortcut, AppStoreKey::ToggleReadingModeShortcut]
    );
    assert_eq!(
        AppShortcut::reading_mode_shortcuts(),
        vec![
            AppStoreKey::NextLineShortcut,
            AppStoreKey::PrevLineShortcut,
            AppStoreKey::NextChapterShortcut,
            AppStoreKey::PrevChapterShortcut,
        ]
    );
    assert_eq!(
        AppShortcut::all_shortcuts(),
        vec![
            AppStoreKey::NextLineShortcut,
            AppStoreKey::PrevLineShortcut,
            AppStoreKey::NextChapterShortcut,
            AppStoreKey::PrevChapterShortcut,
            AppStoreKey::BossKeyShortcut,
            AppStoreKey::ToggleReadingModeShortcut,
        ]
    );
    assert_eq!(AppShortcut::active_shortcuts(true), AppShortcut::all_shortcuts());
    assert_eq!(AppShortcut::active_shortcuts(false), AppShortcut::common_shortcuts());
}

#[test]
fn shortcut_of_a_key_is_its_action() {
    assert_eq!(AppShortcut::new(AppStoreKey::NextLineShortcut), Some(AppShortcut::NextLine));
    assert_eq!(AppShortcut::new(AppStoreKey::PrevLineShortcut), Some(AppShortcut::PrevLine));
    assert_eq!(AppShortcut::new(AppStoreKey::NextChapterShortcut), Some(AppShortcut::NextChapter));
    assert_eq!(AppShortcut::new(AppStoreKey::PrevChapterShortcut), Some(AppShortcut::PrevChapter));
    assert_eq!(AppShortcut::new(AppStoreKey::BossKeyShortcut), Some(AppShortcut::BossKey));
    assert_eq!(
        AppShortcut::new(AppStoreKey::ToggleReadingModeShortcut),
        Some(AppShortcut::ToggleReadingMode)
    );
    assert_eq!(AppShortcut::new(AppStoreKey::LineSize), None);
    assert_eq!(AppShortcut::new(AppStoreKey::Theme), None);
}
