use novel_reader::blocks::LabeledBlock;
use novel_reader::heading::{char_is_numeral, is_heading};
use novel_reader::plain::load_text;
use novel_reader::text::{char_is_whitespace, from_chars, to_chars, trim_range};
use regex::Regex;

fn heading(line: &str) -> bool {
    let chars: Vec<char> = line.chars().collect();
    is_heading(&chars, 0, chars.len())
}

fn describe(blocks: &Vec<LabeledBlock>) -> Vec<(bool, String)> {
    blocks.iter().map(|block| (block.is_heading(), block.text().to_string())).collect()
}

fn by_std(text: &str) -> Vec<(bool, String)> {
    let pattern = Regex::new(r"^(第[零一二三四五六七八九十百千万0-9]+章.*)$").unwrap();
    text.lines()
        .map(|line| {
            let line = line.trim();
            (pattern.is_match(line), line.to_string())
        })
        .collect()
}

#[test]
fn white_space_is_what_std_calls_white_space() {
    for code in 0..=0x10ffffu32 {
        if let Some(c) = char::from_u32(code) {
            assert_eq!(char_is_whitespace(c), c.is_whitespace(), "code point {code:#x}");
        }
    }
}

#[test]
fn numerals_are_those_of_the_heading_pattern() {
    let pattern = Regex::new(r"^[零一二三四五六七八九十百千万0-9]$").unwrap();
    for code in 0..=0x10ffffu32 {
        if let Some(c) = char::from_u32(code) {
            assert_eq!(char_is_numeral(c), pattern.is_match(&c.to_string()), "code point {code:#x}");
        }
    }
}

#[test]
fn digits_and_chinese_numerals_number_a_chapter() {
    assert!(char_is_numeral('0'));
    assert!(char_is_numeral('1'));
    assert!(char_is_numeral('9'));
    assert!(char_is_numeral('零'));
    assert!(char_is_numeral('万'));
    assert!(!char_is_numeral('章'));
    assert!(!char_is_numeral('第'));
    assert!(!char_is_numeral('/'));
    assert!(!char_is_numeral(':'));
    assert!(!char_is_numeral('０'));
}

#[test]
fn to_chars_and_from_chars_go_both_ways() {
    let chars = to_chars("a好\n😀");
    assert_eq!(chars, vec!['a', '好', '\n', '😀']);
    assert_eq!(from_chars(&chars, 0, 4), "a好\n😀");
    assert_eq!(from_chars(&chars, 1, 2), "好");
    assert_eq!(from_chars(&chars, 2, 2), "");
}

#[test]
fn trim_range_drops_white_space_at_both_ends() {
    let chars = to_chars("\u{3000}\u{3000} 第一章 开始\t\r");
    let (from, to) = trim_range(&chars, 0, chars.len());
    assert_eq!((from, to), (3, 9));
    assert_eq!(from_chars(&chars, from, to), "第一章 开始");
}

#[test]
fn trim_range_of_white_space_alone_is_empty() {
    let chars = to_chars(" \t\u{a0}");
    let (from, to) = trim_range(&chars, 0, chars.len());
    assert_eq!(from, to);
    let (from, to) = trim_range(&chars, 1, 1);
    assert_eq!((from, to), (1, 1));
}

#[test]
fn headings_are_recognised() {
    assert!(heading("第一章 开始"));
    assert!(heading("第一章"));
    assert!(heading("第12章 夜"));
    assert!(heading("第10章 回归"));
    assert!(heading("第0章"));
    assert!(heading("第100章"));
    assert!(heading("第一百二十三章"));
    assert!(heading("第9章章"));
}

#[test]
fn other_lines_are_no_headings() {
    assert!(!heading(""));
    assert!(!heading("第"));
    assert!(!heading("第章"));
    assert!(!heading("第一"));
    assert!(!heading("第一节"));
    assert!(!heading(" 第一章"));
    assert!(!heading("序 第一章"));
    assert!(!heading("第一章\n下一行"));
    assert!(!heading("第一 章"));
    assert!(!heading("Chapter 1"));
}

#[test]
fn heading_check_agrees_with_the_pattern() {
    let pattern = Regex::new(r"^(第[零一二三四五六七八九十百千万0-9]+章.*)$").unwrap();
    let pieces = ["第", "章", "一", "十", "1", "0", "9", " ", "x", "\n", "\r", "节", "百"];
    let mut lines: Vec<String> = vec![String::new()];
    for _ in 0..5 {
        let mut longer: Vec<String> = Vec::new();
        for line in lines.iter() {
            for piece in pieces.iter() {
                longer.push(format!("{line}{piece}"));
            }
        }
        for line in longer.iter() {
            assert_eq!(heading(line), pattern.is_match(line), "line {line:?}");
        }
        if longer.len() > 30000 {
            break;
        }
        lines = longer;
    }
}

#[test]
fn heading_check_looks_at_the_given_range_only() {
    let chars: Vec<char> = "xx第一章yy".chars().collect();
    assert!(is_heading(&chars, 2, 5));
    assert!(is_heading(&chars, 2, 7));
    assert!(!is_heading(&chars, 0, 7));
    assert!(!is_heading(&chars, 2, 4));
    assert!(!is_heading(&chars, 3, 3));
}

#[test]
fn load_text_labels_each_line() {
    let blocks = load_text("第一章 开始\n内容太长超过设定的块大小\n第二章 发展\n短\n第三章 结局\n完");
    assert_eq!(
        describe(&blocks),
        vec![
            (true, "第一章 开始".to_string()),
            (false, "内容太长超过设定的块大小".to_string()),
            (true, "第二章 发展".to_string()),
            (false, "短".to_string()),
            (true, "第三章 结局".to_string()),
            (false, "完".to_string()),
        ]
    );
}

#[test]
fn load_text_trims_and_keeps_empty_lines_as_empty_bodies() {
    let blocks = load_text("\u{3000}\u{3000}第二章 发展  \r\n\r\n  正文 \n");
    assert_eq!(
        describe(&blocks),
        vec![
            (true, "第二章 发展".to_string()),
            (false, String::new()),
            (false, "正文".to_string()),
        ]
    );
}

#[test]
fn load_text_of_nothing_is_nothing() {
    assert!(load_text("").is_empty());
}

#[test]
fn load_text_splits_as_std_lines_and_trim_do() {
    let samples = [
        "",
        "\n",
        "\n\n",
        "a",
        "a\n",
        "a\nb",
        "a\r\nb\r\n",
        "a\rb",
        "\r",
        "a\n\r",
        "\r\n",
        " 第一章 \n\n第二章\r\n尾",
        "第一章\r",
        "x\n \n\ty\n",
        "第3章 a\u{2028}b\n第四章",
        "\u{feff}第一章 开始\n正文",
    ];
    for sample in samples.iter() {
        assert_eq!(describe(&load_text(sample)), by_std(sample), "text {sample:?}");
    }
}
