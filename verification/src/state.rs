//! The state that commands and shortcuts share, and the commands on it.
//! Each is meant to run under one lock on the state, and to hand back what
//! is to be done once the lock is let go.

use crate::error::ReaderError;
use crate::reader::{NovelReader, ReaderModel, ReaderSnapshot};
use vstd::prelude::*;

verus! {

/// The state that the commands share: the open document, if any, and
/// whether reading mode is on.
pub struct AppState {
    pub novel_reader: Option<NovelReader>,
    pub reading_mode: bool,
}

/// The mathematical value of an [`AppState`].
pub struct AppModel {
    pub reader: Option<ReaderModel>,
    pub reading_mode: bool,
}

impl View for AppState {
    type V = AppModel;

    open spec fn view(&self) -> AppModel {
        AppModel {
            reader: match self.novel_reader {
                Some(reader) => Some(reader@),
                None => None,
            },
            reading_mode: self.reading_mode,
        }
    }
}

/// What a command copies out of the state for the record of reading
/// progress, which is written after the state is released.
#[derive(Clone, Copy, Debug, PartialEq, Eq, Structural)]
pub struct Progress {
    pub novel_id: i64,
    pub read_position: usize,
    pub total_lines: usize,
    pub basis_points: u64,
}

/// The progress record of a reader.
pub open spec fn progress_of(reader: ReaderModel) -> Progress {
    Progress {
        novel_id: reader.novel_id,
        read_position: reader.position as usize,
        total_lines: reader.total_lines() as usize,
        basis_points: reader.progress() as u64,
    }
}

/// How a navigation command shows in the shared state. With no document
/// open the command fails and nothing changes. With one open, a possible
/// step is taken and its progress record returned; an impossible one fails
/// with its error and the document stays as it was. Reading mode is never
/// touched.
pub open spec fn command_done(
    before: AppModel,
    step: spec_fn(ReaderModel) -> Result<ReaderModel, ReaderError>,
    after: AppModel,
    result: Result<Progress, ReaderError>,
) -> bool {
    &&& after.reading_mode == before.reading_mode
    &&& match before.reader {
        None => after.reader is None && result == Err::<Progress, ReaderError>(
            ReaderError::NoActiveDocument,
        ),
        Some(reader) => match step(reader) {
            Ok(moved) => after.reader == Some(moved) && result == Ok::<Progress, ReaderError>(
                progress_of(moved),
            ),
            Err(error) => after.reader == Some(reader) && result == Err::<Progress, ReaderError>(
                error,
            ),
        },
    }
}

fn progress_record(reader: &NovelReader) -> (record: Progress)
    ensures
        record == progress_of(reader@),
        reader@.wf(),
{
    Progress {
        novel_id: reader.novel_id(),
        read_position: reader.read_position(),
        total_lines: reader.total_lines(),
        basis_points: reader.progress_basis_points(),
    }
}

impl AppState {
    /// The state at start: no document open, reading mode off.
    pub fn new() -> (state: AppState)
        ensures
            state@ == (AppModel { reader: None, reading_mode: false }),
    {
        AppState { novel_reader: None, reading_mode: false }
    }
}

/// Installs `reader` as the open document, in place of any other.
pub fn open_novel(state: &mut AppState, reader: NovelReader)
    ensures
        final(state)@ == (AppModel { reader: Some(reader@), ..old(state)@ }),
{
    state.novel_reader = Some(reader);
}

/// Closes the open document, if any.
pub fn close_novel_reader(state: &mut AppState)
    ensures
        final(state)@ == (AppModel { reader: None, ..old(state)@ }),
{
    state.novel_reader = None;
}

/// Closes the open document if it is the novel `id`, which is being deleted.
pub fn delete_novel(state: &mut AppState, id: i64) -> (closed: bool)
    ensures
        closed == (old(state)@.reader matches Some(reader) && reader.novel_id == id),
        closed ==> final(state)@ == (AppModel { reader: None, ..old(state)@ }),
        !closed ==> final(state)@ == old(state)@,
{
    let open = match &state.novel_reader {
        Some(reader) => reader.novel_id() == id,
        None => false,
    };
    if open {
        state.novel_reader = None;
    }
    open
}

/// What the open document shows of itself.
pub fn get_novel_reader(state: &AppState) -> (result: Result<ReaderSnapshot, ReaderError>)
    ensures
        match state@.reader {
            None => result matches Err(error) && error == ReaderError::NoActiveDocument,
            Some(reader) => result matches Ok(snapshot) && snapshot@ == reader.snapshot(),
        },
{
    match &state.novel_reader {
        Some(reader) => Ok(reader.snapshot()),
        None => Err(ReaderError::NoActiveDocument),
    }
}

/// The text of the line under the cursor, empty where the document has no
/// line.
pub fn get_line(state: &AppState) -> (result: Result<String, ReaderError>)
    ensures
        match state@.reader {
            None => result == Err::<String, ReaderError>(ReaderError::NoActiveDocument),
            Some(reader) => result matches Ok(text) && text@ == match reader.line() {
                Some(line) => line,
                None => Seq::<char>::empty(),
            },
        },
{
    match &state.novel_reader {
        Some(reader) => {
            match reader.get_line() {
                Some(line) => Ok(line.to_owned()),
                None => Ok(String::new()),
            }
        },
        None => Err(ReaderError::NoActiveDocument),
    }
}

/// The progress record of the open document.
pub fn get_progress(state: &AppState) -> (result: Result<Progress, ReaderError>)
    ensures
        command_done(
            state@,
            |reader: ReaderModel| Ok::<ReaderModel, ReaderError>(reader),
            state@,
            result,
        ),
{
    match &state.novel_reader {
        Some(reader) => Ok(progress_record(reader)),
        None => Err(ReaderError::NoActiveDocument),
    }
}

/// Moves the cursor of the open document to line `read_position`.
pub fn set_read_position(
    state: &mut AppState,
    read_position: usize,
) -> (result: Result<Progress, ReaderError>)
    ensures
        command_done(
            old(state)@,
            |reader: ReaderModel| reader.set_position(read_position as nat),
            final(state)@,
            result,
        ),
{
    match &mut state.novel_reader {
        Some(reader) => {
            match reader.set_read_position(read_position) {
                Ok(()) => Ok(progress_record(reader)),
                Err(error) => Err(error),
            }
        },
        None => Err(ReaderError::NoActiveDocument),
    }
}

/// Moves the cursor of the open document to the next line.
pub fn next_line(state: &mut AppState) -> (result: Result<Progress, ReaderError>)
    ensures
        command_done(
            old(state)@,
            |reader: ReaderModel| reader.next_line(),
            final(state)@,
            result,
        ),
{
    match &mut state.novel_reader {
        Some(reader) => {
            match reader.next_line() {
                Ok(()) => Ok(progress_record(reader)),
                Err(error) => Err(error),
            }
        },
        None => Err(ReaderError::NoActiveDocument),
    }
}

/// Moves the cursor of the open document to the line before.
pub fn prev_line(state: &mut AppState) -> (result: Result<Progress, ReaderError>)
    ensures
        command_done(
            old(state)@,
            |reader: ReaderModel| reader.prev_line(),
            final(state)@,
            result,
        ),
{
    match &mut state.novel_reader {
        Some(reader) => {
            match reader.prev_line() {
                Ok(()) => Ok(progress_record(reader)),
                Err(error) => Err(error),
            }
        },
        None => Err(ReaderError::NoActiveDocument),
    }
}

/// Moves the cursor of the open document to the start of the next chapter.
pub fn next_chapter(state: &mut AppState) -> (result: Result<Progress, ReaderError>)
    ensures
        command_done(
            old(state)@,
            |reader: ReaderModel| reader.next_chapter(),
            final(state)@,
            result,
        ),
{
    match &mut state.novel_reader {
        Some(reader) => {
            match reader.next_chapter() {
                Ok(()) => Ok(progress_record(reader)),
                Err(error) => Err(error),
            }
        },
        None => Err(ReaderError::NoActiveDocument),
    }
}

/// Moves the cursor of the open document to the start of the chapter before.
pub fn prev_chapter(state: &mut AppState) -> (result: Result<Progress, ReaderError>)
    ensures
        command_done(
            old(state)@,
            |reader: ReaderModel| reader.prev_chapter(),
            final(state)@,
            result,
        ),
{
    match &mut state.novel_reader {
        Some(reader) => {
            match reader.prev_chapter() {
                Ok(()) => Ok(progress_record(reader)),
                Err(error) => Err(error),
            }
        },
        None => Err(ReaderError::NoActiveDocument),
    }
}

/// Paginates the open document anew with another line size; the cursor goes
/// to the start of the chapter it was in.
pub fn set_line_size(
    state: &mut AppState,
    line_size: usize,
) -> (result: Result<Progress, ReaderError>)
    requires
        line_size > 0,
    ensures
        command_done(
            old(state)@,
            |reader: ReaderModel|
                Ok::<ReaderModel, ReaderError>(reader.repaginate(line_size as nat)),
            final(state)@,
            result,
        ),
{
    match &mut state.novel_reader {
        Some(reader) => {
            reader.repaginate(line_size);
            Ok(progress_record(reader))
        },
        None => Err(ReaderError::NoActiveDocument),
    }
}

/// Whether reading mode is on.
pub fn get_reading_mode(state: &AppState) -> (mode: bool)
    ensures
        mode == state@.reading_mode,
{
    state.reading_mode
}

/// Switches reading mode, and returns the mode it is in now.
pub fn toggle_reading_mode(state: &mut AppState) -> (mode: bool)
    ensures
        mode == !old(state)@.reading_mode,
        final(state)@ == (AppModel { reading_mode: mode, ..old(state)@ }),
{
    state.reading_mode = !state.reading_mode;
    state.reading_mode
}

} // verus!
