//! The data that a session owns: open files with their cursors, the state of
//! the modifier keys, and the tasks that wait for the worker.

use vstd::prelude::*;
use crate::document::{texts_of, CursorState, Document};
use crate::errors::ProgramError;
use crate::session::{Session, Task};

verus! {

/// One insertion point of a file: where it stands, the column it wants to
/// return to, and the anchor of a selection in progress.
#[derive(Debug, Clone, Copy, PartialEq, Eq)]
pub struct Cursor {
    pub x: usize,
    pub y: usize,
    pub wanted_x: usize,
    pub selection_start: Option<(usize, usize)>,
}

impl View for Cursor {
    type V = CursorState;

    open spec fn view(&self) -> CursorState {
        CursorState {
            x: self.x as int,
            y: self.y as int,
            wanted_x: self.wanted_x as int,
            selection_start: match self.selection_start {
                Some((ax, ay)) => Some((ax as int, ay as int)),
                None => None,
            },
        }
    }
}

/// The lines of a buffer as sequences of characters.
pub open spec fn lines_of(contents: Seq<Vec<char>>) -> Seq<Seq<char>> {
    contents.map_values(|line: Vec<char>| line@)
}

/// The cursors of a buffer as mathematical cursors.
pub open spec fn cursors_of(cursors: Seq<Cursor>) -> Seq<CursorState> {
    cursors.map_values(|c: Cursor| c@)
}

/// One open file: its lines, the offset of the view, and its cursors.
#[derive(Debug, Clone, PartialEq, Eq)]
pub struct File {
    pub path: String,
    pub contents: Vec<Vec<char>>,
    pub scroll_x: u32,
    pub scroll_y: u32,
    pub cursors: Vec<Cursor>,
}

impl View for File {
    type V = Document;

    open spec fn view(&self) -> Document {
        Document {
            path: self.path@,
            lines: lines_of(self.contents@),
            scroll_x: self.scroll_x as int,
            scroll_y: self.scroll_y as int,
            cursors: cursors_of(self.cursors@),
        }
    }
}

/// The characters of `s`, in order.
pub fn chars_of(s: &str) -> (chars: Vec<char>)
    ensures
        chars@ == s@,
{
    let mut chars: Vec<char> = Vec::new();
    for c in it: s.chars()
        invariant
            it.seq() == s@,
            chars@ == s@.subrange(0, it.index() as int),
    {
        chars.push(c);
    }
    assert(chars@ == s@);
    chars
}

impl File {
    /// The text that `contents` gives a new file: its lines, or one empty
    /// line where there is none, so that `(0, 0)` is always addressable.
    pub open spec fn initial_lines(contents: Seq<String>) -> Seq<Seq<char>> {
        if contents.len() == 0 {
            seq![Seq::<char>::empty()]
        } else {
            texts_of(contents)
        }
    }

    /// A file at `path` with the lines `contents` and one cursor at the start.
    pub fn new(path: String, contents: Vec<String>) -> (file: File)
        ensures
            file@ == (Document {
                path: path@,
                lines: Self::initial_lines(contents@),
                scroll_x: 0,
                scroll_y: 0,
                cursors: seq![
                    CursorState { x: 0, y: 0, wanted_x: 0, selection_start: None },
                ],
            }),
            file@.wf(),
    {
        let mut lines: Vec<Vec<char>> = Vec::new();
        let mut i: usize = 0;
        while i < contents.len()
            invariant
                i <= contents.len(),
                lines@.len() == i,
                forall|k: int| 0 <= k < i ==> (#[trigger] lines@[k])@ == contents@[k]@,
            decreases contents.len() - i,
        {
            lines.push(chars_of(contents[i].as_str()));
            i += 1;
        }
        if lines.len() == 0 {
            lines.push(Vec::new());
        }
        let cursor = Cursor { x: 0, y: 0, wanted_x: 0, selection_start: None };
        let file = File { path, contents: lines, scroll_x: 0, scroll_y: 0, cursors: vec![cursor] };
        proof {
            assert(file@.lines =~= Self::initial_lines(contents@));
            assert(file@.cursors =~= seq![
                CursorState { x: 0, y: 0, wanted_x: 0, selection_start: None },
            ]);
        }
        file
    }
}

/// Which modifier keys are held down.
#[derive(Debug, Clone, Copy, PartialEq, Eq, Default)]
pub struct KeysPressed {
    pub shift_pressed: bool,
    pub control_pressed: bool,
    pub alt_pressed: bool,
}

impl KeysPressed {
    /// No key is held.
    pub fn new() -> (keys: Self)
        ensures
            !keys.shift_pressed,
            !keys.control_pressed,
            !keys.alt_pressed,
    {
        Self { shift_pressed: false, control_pressed: false, alt_pressed: false }
    }
}


/// One request to the worker.
#[derive(Debug, Clone, PartialEq, Eq)]
pub enum ProgramTask {
    LoadFile { file_path: String, switch_to_this: bool },
    SaveFile { file_num: usize, file_path: String },
    CloseFile { file_num: usize },
}

/// Everything that the session owns. The interactive actor and the worker
/// share one value of it and take turns on it.
#[derive(Debug, Clone, PartialEq, Eq)]
pub struct ProgramData {
    pub errors: Vec<ProgramError>,
    /// The tasks that wait for the worker, oldest first.
    pub tasks: Vec<ProgramTask>,
    /// Set by the interactive actor to keep the worker from starting a task.
    pub tasks_paused: bool,
    /// Set while the worker has a task that it has not finished.
    pub tasks_ongoing: bool,
    pub frame_count: u32,
    pub exit: bool,
    pub keys_pressed: KeysPressed,
    pub last_text_input_timestamp: u32,
    pub files: Vec<File>,
    pub current_file_num: Option<usize>,
    /// The timestamp of the last input that moved or edited at the cursors.
    pub cursor_place_timestamp: u32,
}

impl ProgramData {
    /// A session with nothing open, nothing to do and no key held.
    pub fn new() -> (data: Self)
        ensures
            data.errors@.len() == 0,
            data.tasks@.len() == 0,
            !data.tasks_paused,
            !data.tasks_ongoing,
            data.frame_count == 0,
            !data.exit,
            data.keys_pressed == (KeysPressed {
                shift_pressed: false,
                control_pressed: false,
                alt_pressed: false,
            }),
            data.last_text_input_timestamp == 0,
            data.files@.len() == 0,
            data.current_file_num is None,
            data.cursor_place_timestamp == 0,
    {
        Self {
            errors: Vec::new(),
            tasks: Vec::new(),
            tasks_paused: false,
            tasks_ongoing: false,
            frame_count: 0,
            exit: false,
            keys_pressed: KeysPressed::new(),
            last_text_input_timestamp: 0,
            files: Vec::new(),
            current_file_num: None,
            cursor_place_timestamp: 0,
        }
    }
}


impl Default for ProgramData {
    fn default() -> (data: Self)
        ensures
            data.errors@.len() == 0,
            data.tasks@.len() == 0,
            !data.tasks_paused,
            !data.tasks_ongoing,
            !data.exit,
            data.files@.len() == 0,
            data.current_file_num is None,
    {
        Self::new()
    }
}

impl View for ProgramTask {
    type V = Task;

    open spec fn view(&self) -> Task {
        match self {
            ProgramTask::LoadFile { file_path, switch_to_this } => Task::LoadFile {
                file_path: file_path@,
                switch_to_this: *switch_to_this,
            },
            ProgramTask::SaveFile { file_num, file_path } => Task::SaveFile {
                file_num: *file_num as int,
                file_path: file_path@,
            },
            ProgramTask::CloseFile { file_num } => Task::CloseFile { file_num: *file_num as int },
        }
    }
}

impl View for ProgramData {
    type V = Session;

    open spec fn view(&self) -> Session {
        Session {
            errors: self.errors@.map_values(|e: ProgramError| e@),
            tasks: self.tasks@.map_values(|t: ProgramTask| t@),
            tasks_paused: self.tasks_paused,
            tasks_ongoing: self.tasks_ongoing,
            frame_count: self.frame_count as int,
            exit: self.exit,
            keys_pressed: self.keys_pressed,
            last_text_input_timestamp: self.last_text_input_timestamp as int,
            files: self.files@.map_values(|f: File| f@),
            current_file_num: match self.current_file_num {
                Some(n) => Some(n as int),
                None => None,
            },
            cursor_place_timestamp: self.cursor_place_timestamp as int,
        }
    }
}

} // verus!
