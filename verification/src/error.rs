//! The errors of the reading engine.

use vstd::prelude::*;

verus! {

/// Why an operation of the reading engine did not take place.
#[derive(Clone, Copy, Debug, PartialEq, Eq, Structural)]
pub enum ReaderError {
    /// The file is neither plain text nor a zipped book.
    UnsupportedFormat,
    /// No text encoding fits the bytes of the file.
    UnsupportedEncoding,
    /// A file, or a resource inside a container, is missing or unreadable.
    IoFailure,
    /// The move would leave the range of display lines.
    OutOfBounds,
    /// There is no chapter before, or after, the current one.
    NoAdjacentChapter,
    /// No document is open.
    NoActiveDocument,
    /// The lock that guards the open document is poisoned.
    LockFailure,
}

impl ReaderError {
    /// The text shown to the user for this error.
    pub fn message(&self) -> (text: &'static str)
        ensures
            text@ == self.message_spec(),
    {
        match self {
            ReaderError::UnsupportedFormat => "不支持的文件类型",
            ReaderError::UnsupportedEncoding => "无法检测文件编码",
            ReaderError::IoFailure => "文件读取失败",
            ReaderError::OutOfBounds => "行号超出范围",
            ReaderError::NoAdjacentChapter => "没有相邻章节",
            ReaderError::NoActiveDocument => "暂无打开的小说",
            ReaderError::LockFailure => "内部状态锁定失败",
        }
    }

    /// The text shown to the user for this error.
    pub open spec fn message_spec(&self) -> Seq<char> {
        match self {
            ReaderError::UnsupportedFormat => "不支持的文件类型"@,
            ReaderError::UnsupportedEncoding => "无法检测文件编码"@,
            ReaderError::IoFailure => "文件读取失败"@,
            ReaderError::OutOfBounds => "行号超出范围"@,
            ReaderError::NoAdjacentChapter => "没有相邻章节"@,
            ReaderError::NoActiveDocument => "暂无打开的小说"@,
            ReaderError::LockFailure => "内部状态锁定失败"@,
        }
    }
}

} // verus!
