use novel_reader::blocks::LabeledBlock;
use novel_reader::container::{load_container, load_page, page_blocks_from, SpineResource};
use novel_reader::error::ReaderError;
use novel_reader::format::DocumentFormat;
use novel_reader::loader::{load_blocks, load_source, DocumentSource};
use novel_reader::reader::NovelReader;

fn page(title: &str, paragraphs: &[&str]) -> String {
    let mut text = format!("<html><head><title>{title}</title></head><body>");
    for paragraph in paragraphs {
        text.push_str(&format!("<p>{paragraph}</p>"));
    }
    text.push_str("</body></html>");
    text
}

fn entry(idref: &str, content: Option<String>) -> SpineResource {
    SpineResource { idref: idref.to_string(), content }
}

fn book() -> Vec<SpineResource> {
    vec![
        entry("c1", Some(page("卷一", &["  甲乙丙丁戊己庚  ", "辛<b>壬</b>癸"]))),
        entry("c2", Some(page("卷二", &["子丑"]))),
    ]
}

fn describe(blocks: &Vec<LabeledBlock>) -> Vec<(bool, String)> {
    blocks.iter().map(|block| (block.is_heading(), block.text().to_string())).collect()
}

fn expected_book() -> Vec<(bool, String)> {
    vec![
        (true, "卷一".to_string()),
        (false, "甲乙丙丁戊己庚".to_string()),
        (false, "辛壬癸".to_string()),
        (true, "卷二".to_string()),
        (false, "子丑".to_string()),
    ]
}

#[test]
fn page_blocks_from_title_and_paragraphs() {
    let titles = vec!["卷一".to_string(), "别的".to_string()];
    let paragraphs = vec!["\u{3000}甲 乙 ".to_string(), String::new(), "丙".to_string()];
    let blocks = page_blocks_from(&titles, &paragraphs).unwrap();
    assert_eq!(
        describe(&blocks),
        vec![
            (true, "卷一".to_string()),
            (false, "甲 乙".to_string()),
            (false, String::new()),
            (false, "丙".to_string()),
        ]
    );
}

#[test]
fn page_without_title_is_corrupt() {
    let result = page_blocks_from(&Vec::new(), &vec!["甲".to_string()]);
    assert!(matches!(result, Err(ReaderError::IoFailure)));
    let result = load_page("<html><head></head><body><p>甲</p></body></html>");
    assert!(matches!(result, Err(ReaderError::IoFailure)));
}

#[test]
fn load_page_takes_title_and_paragraphs() {
    let html = page("第一回 起", &[" 甲<span>乙</span> ", "丙"]);
    let blocks = load_page(&html).unwrap();
    assert_eq!(
        describe(&blocks),
        vec![
            (true, "第一回 起".to_string()),
            (false, "甲乙".to_string()),
            (false, "丙".to_string()),
        ]
    );
}

#[test]
fn load_page_without_paragraphs_is_its_heading() {
    let blocks = load_page("<html><head><title>空</title></head><body>字</body></html>").unwrap();
    assert_eq!(describe(&blocks), vec![(true, "空".to_string())]);
}

#[test]
fn paragraph_that_reads_as_a_heading_stays_body_text() {
    let blocks = load_page(&page("卷一", &["第一章 开始", "正文"])).unwrap();
    assert_eq!(
        describe(&blocks),
        vec![
            (true, "卷一".to_string()),
            (false, "第一章 开始".to_string()),
            (false, "正文".to_string()),
        ]
    );
}

#[test]
fn load_container_follows_the_spine() {
    let blocks = load_container(&book()).unwrap();
    assert_eq!(describe(&blocks), expected_book());
}

#[test]
fn book_without_entries_is_an_empty_document() {
    let blocks = load_container(&Vec::new()).unwrap();
    assert!(blocks.is_empty());
}

#[test]
fn spine_order_decides() {
    let one = page("一", &["甲"]);
    let two = page("二", &["乙"]);
    let resources = vec![
        entry("c2", Some(two.clone())),
        entry("c1", Some(one)),
        entry("c2", Some(two)),
    ];
    let blocks = load_container(&resources).unwrap();
    assert_eq!(
        describe(&blocks),
        vec![
            (true, "二".to_string()),
            (false, "乙".to_string()),
            (true, "一".to_string()),
            (false, "甲".to_string()),
            (true, "二".to_string()),
            (false, "乙".to_string()),
        ]
    );
}

#[test]
fn spine_entry_without_a_text_fails_the_load() {
    let resources = vec![entry("ghost", None), entry("c1", Some(page("一", &["甲"])))];
    assert!(matches!(load_container(&resources), Err(ReaderError::IoFailure)));
    let resources = vec![entry("c1", Some(page("一", &["甲"]))), entry("gone", None)];
    assert!(matches!(load_container(&resources), Err(ReaderError::IoFailure)));
    let resources = vec![entry("only", None)];
    assert!(matches!(load_container(&resources), Err(ReaderError::IoFailure)));
}

#[test]
fn resource_without_title_fails_the_load() {
    let resources = vec![
        entry("c1", Some(page("一", &["甲"]))),
        entry("c2", Some("<html><body><p>乙</p></body></html>".to_string())),
    ];
    assert!(matches!(load_container(&resources), Err(ReaderError::IoFailure)));
}

#[test]
fn load_source_and_load_by_path() {
    let source = DocumentSource::Container { resources: book() };
    assert_eq!(source.format(), DocumentFormat::Container);
    assert_eq!(describe(&load_source(&source).unwrap()), expected_book());
    assert_eq!(describe(&load_blocks("/books/a.b/书.epub", &source).unwrap()), expected_book());
    let broken = DocumentSource::Container { resources: vec![entry("x", None)] };
    assert!(matches!(load_blocks("书.epub", &broken), Err(ReaderError::IoFailure)));
}

#[test]
fn unknown_extension_is_an_unsupported_format() {
    let source = DocumentSource::Container { resources: book() };
    assert!(matches!(load_blocks("book.pdf", &source), Err(ReaderError::UnsupportedFormat)));
    assert!(matches!(load_blocks("book.EPUB", &source), Err(ReaderError::UnsupportedFormat)));
    assert!(matches!(load_blocks("book.", &source), Err(ReaderError::UnsupportedFormat)));
    assert!(matches!(load_blocks("", &source), Err(ReaderError::UnsupportedFormat)));
    assert!(matches!(
        NovelReader::new(1, "book.doc".to_string(), &source, 0, 5),
        Err(ReaderError::UnsupportedFormat)
    ));
    assert!(matches!(
        NovelReader::read_lines("book.doc", &source, 5),
        Err(ReaderError::UnsupportedFormat)
    ));
}

#[test]
fn source_of_another_format_than_the_path_names_is_refused() {
    let source = DocumentSource::Container { resources: book() };
    assert!(matches!(load_blocks("book.txt", &source), Err(ReaderError::UnsupportedFormat)));
    let text = DocumentSource::PlainText {
        data: "甲".as_bytes().to_vec(),
        encoding: Some("utf-8".to_string()),
    };
    assert!(matches!(load_blocks("book.epub", &text), Err(ReaderError::UnsupportedFormat)));
    assert!(matches!(
        NovelReader::new(1, "book.epub".to_string(), &text, 0, 5),
        Err(ReaderError::UnsupportedFormat)
    ));
}

#[test]
fn reader_over_a_book() {
    let source = DocumentSource::Container { resources: book() };
    let reader = match NovelReader::new(3, "书.epub".to_string(), &source, 100, 3) {
        Ok(reader) => reader,
        Err(error) => panic!("{}", error.message()),
    };
    let texts: Vec<String> = reader.lines().iter().map(|line| line.content.clone()).collect();
    assert_eq!(
        texts,
        vec![
            "卷一".to_string(),
            "甲乙丙".to_string(),
            "丁戊己".to_string(),
            "庚".to_string(),
            "辛壬癸".to_string(),
            "卷二".to_string(),
            "子丑".to_string(),
        ]
    );
    let starts: Vec<usize> = reader.chapters().iter().map(|chapter| chapter.start_line).collect();
    assert_eq!(starts, vec![0, 5]);
    assert_eq!(reader.read_position(), 6);
    assert_eq!(reader.novel_id(), 3);
    assert_eq!(reader.novel_path(), "书.epub");
}

#[test]
fn read_lines_of_a_book() {
    let source = DocumentSource::Container { resources: book() };
    let (texts, chapters) = match NovelReader::read_lines("a.epub", &source, 4) {
        Ok(found) => found,
        Err(error) => panic!("{}", error.message()),
    };
    assert_eq!(
        texts,
        vec![
            "卷一".to_string(),
            "甲乙丙丁".to_string(),
            "戊己庚".to_string(),
            "辛壬癸".to_string(),
            "卷二".to_string(),
            "子丑".to_string(),
        ]
    );
    assert_eq!(chapters.len(), 2);
    assert_eq!(chapters[0].title, "卷一");
    assert_eq!(chapters[0].start_line, 0);
    assert_eq!(chapters[1].title, "卷二");
    assert_eq!(chapters[1].start_line, 4);
    assert_eq!(chapters[1].index, 1);
}
