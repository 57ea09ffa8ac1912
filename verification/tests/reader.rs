use novel_reader::error::ReaderError;
use novel_reader::plain::load_text;
use novel_reader::reader::NovelReader;

const STORY: &str = "第一章 开始\n内容太长超过设定的块大小\n第二章 发展\n短\n第三章 结局\n完";

fn story(position: usize, line_size: usize) -> NovelReader {
    NovelReader::from_blocks(7, "story.txt".to_string(), load_text(STORY), position, line_size)
}

#[test]
fn from_blocks_keeps_what_it_is_given() {
    let reader = story(3, 5);
    assert_eq!(reader.novel_id(), 7);
    assert_eq!(reader.novel_path(), "story.txt");
    assert_eq!(reader.line_size(), 5);
    assert_eq!(reader.read_position(), 3);
    assert_eq!(reader.total_lines(), 8);
    assert_eq!(reader.blocks().len(), 6);
    assert_eq!(reader.lines().len(), 8);
    assert_eq!(reader.chapters().len(), 3);
}

#[test]
fn stored_position_past_the_end_lands_on_the_last_line() {
    let reader = story(8, 5);
    assert_eq!(reader.read_position(), 7);
    let reader = story(usize::MAX, 5);
    assert_eq!(reader.read_position(), 7);
    assert_eq!(reader.get_line(), Some("完"));
}

#[test]
fn empty_document_has_no_line() {
    let reader = NovelReader::from_blocks(1, "empty.txt".to_string(), Vec::new(), 5, 5);
    assert_eq!(reader.total_lines(), 0);
    assert_eq!(reader.read_position(), 0);
    assert_eq!(reader.get_line(), None);
    assert_eq!(reader.progress_basis_points(), 0);
}

#[test]
fn empty_document_refuses_every_step() {
    let mut reader = NovelReader::from_blocks(1, "empty.txt".to_string(), Vec::new(), 0, 5);
    assert_eq!(reader.set_read_position(0), Err(ReaderError::OutOfBounds));
    assert_eq!(reader.next_line(), Err(ReaderError::OutOfBounds));
    assert_eq!(reader.prev_line(), Err(ReaderError::OutOfBounds));
    assert_eq!(reader.next_chapter(), Err(ReaderError::NoAdjacentChapter));
    assert_eq!(reader.prev_chapter(), Err(ReaderError::NoAdjacentChapter));
    reader.repaginate(3);
    assert_eq!(reader.read_position(), 0);
    assert_eq!(reader.line_size(), 3);
}

#[test]
fn set_position_then_get_line_gives_that_line() {
    let mut reader = story(0, 5);
    let expected: Vec<String> = reader.lines().iter().map(|line| line.content.clone()).collect();
    for n in 0..reader.total_lines() {
        assert_eq!(reader.set_read_position(n), Ok(()));
        assert_eq!(reader.read_position(), n);
        assert_eq!(reader.get_line(), Some(expected[n].as_str()));
    }
}

#[test]
fn set_position_out_of_range_fails_and_changes_nothing() {
    let mut reader = story(2, 5);
    assert_eq!(reader.set_read_position(8), Err(ReaderError::OutOfBounds));
    assert_eq!(reader.read_position(), 2);
    assert_eq!(reader.set_read_position(usize::MAX), Err(ReaderError::OutOfBounds));
    assert_eq!(reader.read_position(), 2);
    assert_eq!(reader.set_read_position(7), Ok(()));
    assert_eq!(reader.read_position(), 7);
}

#[test]
fn next_line_walks_to_the_last_line_and_stops() {
    let mut reader = story(0, 5);
    let total = reader.total_lines();
    for step in 1..total {
        assert_eq!(reader.next_line(), Ok(()));
        assert_eq!(reader.read_position(), step);
    }
    assert_eq!(reader.read_position(), total - 1);
    assert_eq!(reader.next_line(), Err(ReaderError::OutOfBounds));
    assert_eq!(reader.read_position(), total - 1);
}

#[test]
fn prev_line_stops_at_the_first_line() {
    let mut reader = story(0, 5);
    assert_eq!(reader.prev_line(), Err(ReaderError::OutOfBounds));
    assert_eq!(reader.read_position(), 0);
    assert_eq!(reader.set_read_position(2), Ok(()));
    assert_eq!(reader.prev_line(), Ok(()));
    assert_eq!(reader.read_position(), 1);
    assert_eq!(reader.prev_line(), Ok(()));
    assert_eq!(reader.read_position(), 0);
    assert_eq!(reader.prev_line(), Err(ReaderError::OutOfBounds));
}

#[test]
fn current_chapter_is_the_last_one_started() {
    let mut reader = story(0, 5);
    let expected = [0usize, 0, 0, 0, 1, 1, 2, 2];
    for n in 0..8 {
        assert_eq!(reader.set_read_position(n), Ok(()));
        assert_eq!(reader.current_chapter().index, expected[n]);
    }
    assert_eq!(reader.current_chapter().title, "第三章 结局");
    assert_eq!(reader.current_chapter().start_line, 6);
}

#[test]
fn current_chapter_before_the_first_chapter_is_the_first() {
    let blocks = load_text("序言\n引子\n第一章 开始\n正文\n第二章\n尾");
    let reader = NovelReader::from_blocks(1, "a.txt".to_string(), blocks, 1, 10);
    assert_eq!(reader.current_chapter().index, 0);
    assert_eq!(reader.current_chapter().start_line, 2);
}

#[test]
fn next_chapter_from_any_body_line_of_the_first_chapter_lands_on_the_second() {
    for n in 0..4 {
        let mut reader = story(n, 5);
        assert_eq!(reader.next_chapter(), Ok(()));
        assert_eq!(reader.read_position(), 4);
        assert_eq!(reader.get_line(), Some("第二章 发展"));
    }
}

#[test]
fn next_chapter_past_the_last_chapter_fails_without_moving() {
    let mut reader = story(0, 5);
    assert_eq!(reader.next_chapter(), Ok(()));
    assert_eq!(reader.read_position(), 4);
    assert_eq!(reader.next_chapter(), Ok(()));
    assert_eq!(reader.read_position(), 6);
    assert_eq!(reader.next_chapter(), Err(ReaderError::NoAdjacentChapter));
    assert_eq!(reader.read_position(), 6);
    assert_eq!(reader.set_read_position(7), Ok(()));
    assert_eq!(reader.next_chapter(), Err(ReaderError::NoAdjacentChapter));
    assert_eq!(reader.read_position(), 7);
}

#[test]
fn prev_chapter_goes_to_the_start_of_the_chapter_before() {
    let mut reader = story(7, 5);
    assert_eq!(reader.prev_chapter(), Ok(()));
    assert_eq!(reader.read_position(), 4);
    assert_eq!(reader.prev_chapter(), Ok(()));
    assert_eq!(reader.read_position(), 0);
    assert_eq!(reader.prev_chapter(), Err(ReaderError::NoAdjacentChapter));
    assert_eq!(reader.read_position(), 0);
    assert_eq!(reader.set_read_position(3), Ok(()));
    assert_eq!(reader.prev_chapter(), Err(ReaderError::NoAdjacentChapter));
    assert_eq!(reader.read_position(), 3);
}

#[test]
fn chapter_steps_without_chapters_fail() {
    let mut reader = NovelReader::from_blocks(1, "a.txt".to_string(), load_text("甲\n乙\n丙"), 1, 5);
    assert_eq!(reader.chapters().len(), 0);
    assert_eq!(reader.next_chapter(), Err(ReaderError::NoAdjacentChapter));
    assert_eq!(reader.prev_chapter(), Err(ReaderError::NoAdjacentChapter));
    assert_eq!(reader.read_position(), 1);
}

#[test]
fn progress_is_position_over_total_in_basis_points() {
    let mut reader = story(0, 5);
    let expected = [0u64, 1250, 2500, 3750, 5000, 6250, 7500, 8750];
    let mut last = 0;
    for n in 0..8 {
        assert_eq!(reader.set_read_position(n), Ok(()));
        let progress = reader.progress_basis_points();
        assert_eq!(progress, expected[n]);
        assert!(progress >= last);
        last = progress;
    }
}

#[test]
fn progress_rounds_down() {
    let blocks = load_text("甲\n乙\n丙");
    let mut reader = NovelReader::from_blocks(1, "a.txt".to_string(), blocks, 0, 5);
    assert_eq!(reader.progress_basis_points(), 0);
    assert_eq!(reader.next_line(), Ok(()));
    assert_eq!(reader.progress_basis_points(), 3333);
    assert_eq!(reader.next_line(), Ok(()));
    assert_eq!(reader.progress_basis_points(), 6666);
}

#[test]
fn repaginate_keeps_the_cursor_in_its_chapter() {
    for position in 0..8usize {
        let mut reader = story(position, 5);
        let before = reader.current_chapter().clone();
        reader.repaginate(3);
        assert_eq!(reader.line_size(), 3);
        assert_eq!(reader.total_lines(), 9);
        let after = reader.current_chapter().clone();
        assert_eq!(after.index, before.index);
        assert_eq!(after.title, before.title);
        assert_eq!(reader.read_position(), after.start_line);
        assert_eq!(reader.get_line(), Some(before.title.as_str()));
    }
}

#[test]
fn repaginate_gives_the_lines_of_the_new_size() {
    let mut reader = story(5, 5);
    reader.repaginate(12);
    let texts: Vec<String> = reader.lines().iter().map(|line| line.content.clone()).collect();
    assert_eq!(
        texts,
        vec![
            "第一章 开始".to_string(),
            "内容太长超过设定的块大小".to_string(),
            "第二章 发展".to_string(),
            "短".to_string(),
            "第三章 结局".to_string(),
            "完".to_string(),
        ]
    );
    let starts: Vec<usize> = reader.chapters().iter().map(|chapter| chapter.start_line).collect();
    assert_eq!(starts, vec![0, 2, 4]);
    assert_eq!(reader.read_position(), 2);
    assert_eq!(reader.novel_id(), 7);
    assert_eq!(reader.novel_path(), "story.txt");
    assert_eq!(reader.blocks().len(), 6);
}

#[test]
fn repaginate_without_chapters_goes_to_the_first_line() {
    let blocks = load_text("甲乙丙丁戊己\n庚辛");
    let mut reader = NovelReader::from_blocks(1, "a.txt".to_string(), blocks, 2, 3);
    assert_eq!(reader.read_position(), 2);
    reader.repaginate(2);
    assert_eq!(reader.read_position(), 0);
    assert_eq!(reader.total_lines(), 4);
}

#[test]
fn error_messages_are_told_apart() {
    let all = [
        ReaderError::UnsupportedFormat,
        ReaderError::UnsupportedEncoding,
        ReaderError::IoFailure,
        ReaderError::OutOfBounds,
        ReaderError::NoAdjacentChapter,
        ReaderError::NoActiveDocument,
        ReaderError::LockFailure,
    ];
    for (i, a) in all.iter().enumerate() {
        assert!(!a.message().is_empty());
        for b in all.iter().skip(i + 1) {
            assert_ne!(a.message(), b.message());
        }
    }
    assert_eq!(ReaderError::OutOfBounds.message(), "行号超出范围");
    assert_eq!(ReaderError::UnsupportedFormat.message(), "不支持的文件类型");
    assert_eq!(ReaderError::NoActiveDocument.message(), "暂无打开的小说");
}
