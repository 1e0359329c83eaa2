//! The mathematical model of a session: what the interactive actor and the
//! worker share, and the steps by which each of them changes it.

use vstd::prelude::*;
use crate::document::{CursorState, Document, Edit};
use crate::events::Keycode;
use crate::errors::IoErrorKind;
use crate::program_data::KeysPressed;

verus! {

/// What the file system said of a call that failed.
pub struct IoFailure {
    pub kind: IoErrorKind,
    pub message: Seq<char>,
}

/// What an error of the session says.
pub enum Problem {
    InvalidFileIndex { file_index: int, num_of_files: int },
    InvalidIndex { index: int, len: int },
    UnsupportedInput { details: Seq<char> },
    SettingsAreNotAnObject,
    CouldNotLoadFile { file_path: Seq<char>, source: IoFailure },
    CouldNotSaveFile { file_path: Seq<char>, source: IoFailure },
    SerdeError(Seq<char>),
    Message(Seq<char>),
    WIP { details: Seq<char> },
}

impl Problem {
    /// The line that says what went wrong.
    pub open spec fn text(self) -> Seq<char> {
        match self {
            Problem::InvalidFileIndex { file_index, num_of_files } => {
                let start = "Current file num is "@ + crate::errors::decimal(file_index as nat);
                if num_of_files == 0 {
                    start + " but there no files open"@
                } else if num_of_files == 1 {
                    start + " but there is only 1 file open"@
                } else {
                    start + " but there are only "@ + crate::errors::decimal(num_of_files as nat)
                        + " files open"@
                }
            },
            Problem::InvalidIndex { index, len } => "index "@ + crate::errors::decimal(
                index as nat,
            ) + " lies outside a length of "@ + crate::errors::decimal(len as nat),
            Problem::UnsupportedInput { details } => "unsupported input: "@ + details,
            Problem::SettingsAreNotAnObject => "Settings file is not an hjson object"@,
            Problem::CouldNotLoadFile { file_path, source } => "Failed to read file \""@ + file_path
                + "\": "@ + source.message,
            Problem::CouldNotSaveFile { file_path, source } => "Failed to write file \""@
                + file_path + "\": "@ + source.message,
            Problem::SerdeError(message) => "serde_hjson::Error: "@ + message,
            Problem::Message(message) => message,
            Problem::WIP { details } => "WIP: "@ + details,
        }
    }
}

/// One request to the worker.
pub enum Task {
    LoadFile { file_path: Seq<char>, switch_to_this: bool },
    SaveFile { file_num: int, file_path: Seq<char> },
    CloseFile { file_num: int },
}

/// What the worker has to ask of the file system for a task.
pub enum Request {
    ReadFile { file_path: Seq<char> },
    WriteFile { file_path: Seq<char>, text: Seq<char> },
    Nothing,
}

/// What the file system answered.
pub enum Outcome {
    FileRead(Result<Seq<char>, IoFailure>),
    FileWritten(Result<(), IoFailure>),
    Nothing,
}

/// What the worker does next.
pub enum Step {
    /// The session ends: the worker returns.
    Exit,
    /// There is nothing to start now: the worker sleeps one interval.
    Wait,
    /// The worker has taken the task and runs it to its end.
    Run(Task),
}

/// Everything that the session owns.
pub struct Session {
    pub errors: Seq<Problem>,
    pub tasks: Seq<Task>,
    pub tasks_paused: bool,
    pub tasks_ongoing: bool,
    pub frame_count: int,
    pub exit: bool,
    pub keys_pressed: KeysPressed,
    pub last_text_input_timestamp: int,
    pub files: Seq<Document>,
    pub current_file_num: Option<int>,
    pub cursor_place_timestamp: int,
}

/// The lines of a document as one text, with a line feed between each two.
pub open spec fn join_lines(lines: Seq<Seq<char>>) -> Seq<char>
    decreases lines.len(),
{
    if lines.len() == 0 {
        Seq::empty()
    } else if lines.len() == 1 {
        lines[0]
    } else {
        join_lines(lines.drop_last()) + seq!['\n'] + lines.last()
    }
}

/// A file as it is when it has just been loaded from `text`: one cursor at
/// the start, nothing selected.
pub open spec fn loaded_document(file_path: Seq<char>, text: Seq<char>) -> Document {
    Document {
        path: file_path,
        lines: crate::fns::lines_of_text(text),
        scroll_x: 0,
        scroll_y: 0,
        cursors: seq![CursorState { x: 0, y: 0, wanted_x: 0, selection_start: None }],
    }
}

impl Session {
    /// Every open file is well-formed.
    pub open spec fn files_wf(self) -> bool {
        forall|k: int| 0 <= k < self.files.len() ==> (#[trigger] self.files[k]).wf()
    }

    /// The session with `problem` at the end of its error log.
    pub open spec fn with_error(self, problem: Problem) -> Session {
        Session { errors: self.errors.push(problem), ..self }
    }

    /// The session with `task` at the end of the queue.
    pub open spec fn enqueue(self, task: Task) -> Session {
        Session { tasks: self.tasks.push(task), ..self }
    }

    /// Whether the worker may start a task now: the session goes on, the
    /// interactive actor has not asked for a pause, and a task waits.
    pub open spec fn may_start_task(self) -> bool {
        !self.exit && !self.tasks_paused && self.tasks.len() > 0
    }

    /// The worker's decision between two tasks: it takes the oldest task if
    /// it may start one, and is not busy otherwise.
    pub open spec fn next_step(self) -> (Session, Step) {
        if self.may_start_task() {
            (
                Session { tasks: self.tasks.drop_first(), tasks_ongoing: true, ..self },
                Step::Run(self.tasks[0]),
            )
        } else {
            (
                Session { tasks_ongoing: false, ..self },
                if self.exit {
                    Step::Exit
                } else {
                    Step::Wait
                },
            )
        }
    }

    /// What `task` needs from the file system.
    pub open spec fn request_for(self, task: Task) -> Request {
        match task {
            Task::LoadFile { file_path, switch_to_this } => Request::ReadFile { file_path },
            Task::SaveFile { file_num, file_path } => if 0 <= file_num < self.files.len() {
                Request::WriteFile { file_path, text: join_lines(self.files[file_num].lines) }
            } else {
                Request::Nothing
            },
            Task::CloseFile { file_num } => Request::Nothing,
        }
    }

    /// The session after a file was read for loading: the new file is the
    /// last of the open files, and it is the current one if none was.
    pub open spec fn load_file(self, file_path: Seq<char>, text: Seq<char>) -> Session {
        Session {
            files: self.files.push(loaded_document(file_path, text)),
            current_file_num: if self.current_file_num is None {
                Some(0)
            } else {
                self.current_file_num
            },
            ..self
        }
    }

    /// The "current file" pointer after file `file_num` was closed: it
    /// follows the file it named, goes to the next file if that was the one
    /// closed (to the last if there is no next), and is unset if no file is
    /// left.
    pub open spec fn pointer_after_close(self, file_num: int) -> Option<int> {
        match self.current_file_num {
            None => None,
            Some(current) => if self.files.len() <= 1 {
                None
            } else if current > file_num {
                Some(current - 1)
            } else if current == file_num && current == self.files.len() - 1 {
                Some(current - 1)
            } else {
                Some(current)
            },
        }
    }

    /// The session after file `file_num` was closed.
    pub open spec fn close_file(self, file_num: int) -> Session {
        Session {
            files: self.files.remove(file_num),
            current_file_num: self.pointer_after_close(file_num),
            ..self
        }
    }

    /// What goes wrong with `task` when the file system answered `outcome`;
    /// `None` if the task succeeds. An answer of another kind than the task
    /// asked for is an input that cannot be interpreted.
    pub open spec fn task_problem(self, task: Task, outcome: Outcome) -> Option<Problem> {
        match task {
            Task::LoadFile { file_path, switch_to_this } => match outcome {
                Outcome::FileRead(Ok(text)) => None,
                Outcome::FileRead(Err(source)) => Some(
                    Problem::CouldNotLoadFile { file_path, source },
                ),
                _ => Some(Problem::UnsupportedInput { details: file_path }),
            },
            Task::SaveFile { file_num, file_path } => if !(0 <= file_num < self.files.len()) {
                Some(
                    Problem::InvalidFileIndex {
                        file_index: file_num,
                        num_of_files: self.files.len() as int,
                    },
                )
            } else {
                match outcome {
                    Outcome::FileWritten(Ok(())) => None,
                    Outcome::FileWritten(Err(source)) => Some(
                        Problem::CouldNotSaveFile { file_path, source },
                    ),
                    _ => Some(Problem::UnsupportedInput { details: file_path }),
                }
            },
            Task::CloseFile { file_num } => if 0 <= file_num < self.files.len() {
                None
            } else {
                Some(
                    Problem::InvalidFileIndex {
                        file_index: file_num,
                        num_of_files: self.files.len() as int,
                    },
                )
            },
        }
    }

    /// The session after `task` was processed with the answer `outcome`: a
    /// task that fails changes nothing.
    pub open spec fn process_task(self, task: Task, outcome: Outcome) -> Session {
        if self.task_problem(task, outcome) is Some {
            self
        } else {
            match task {
                Task::LoadFile { file_path, switch_to_this } => self.load_file(
                    file_path,
                    outcome->FileRead_0->Ok_0,
                ),
                Task::SaveFile { file_num, file_path } => self,
                Task::CloseFile { file_num } => self.close_file(file_num),
            }
        }
    }

    /// The session when the worker has finished `task`: what the task did is
    /// in place, its error, if it failed, is in the log, and only then the
    /// worker is no longer busy.
    pub open spec fn complete_task(self, task: Task, outcome: Outcome) -> Session {
        let done = self.process_task(task, outcome);
        let logged = match self.task_problem(task, outcome) {
            Some(problem) => done.with_error(problem),
            None => done,
        };
        Session { tasks_ongoing: false, ..logged }
    }

    /// The first half of the handshake: the interactive actor asks for a
    /// pause. The snapshot may be taken when the worker is not busy.
    pub open spec fn request_render_snapshot(self) -> (Session, bool) {
        (Session { tasks_paused: true, ..self }, !self.tasks_ongoing)
    }

    /// The second half: the worker may go on.
    pub open spec fn release_render_snapshot(self) -> Session {
        Session { tasks_paused: false, ..self }
    }
}


/// One event of the window system, as the session sees it.
pub enum Input {
    Quit { timestamp: int },
    KeyDown { keycode: Option<Keycode>, repeat: bool, timestamp: int },
    KeyUp { keycode: Option<Keycode>, repeat: bool, timestamp: int },
    TextInput { text: Seq<char>, timestamp: int },
    Other { timestamp: int },
}

/// The operation of the cursor engine that a key stands for.
pub open spec fn edit_for_key(keycode: Keycode) -> Option<Edit> {
    match keycode {
        Keycode::Up => Some(Edit::MoveUp),
        Keycode::Down => Some(Edit::MoveDown),
        Keycode::Left => Some(Edit::MoveLeft),
        Keycode::Right => Some(Edit::MoveRight),
        Keycode::End => Some(Edit::MoveEnd),
        Keycode::Backspace => Some(Edit::Backspace),
        Keycode::Delete => Some(Edit::Delete),
        Keycode::Return => Some(Edit::Return),
        _ => None,
    }
}

/// What is logged of a key that the engine does not know.
pub open spec fn unknown_key() -> Problem {
    Problem::UnsupportedInput { details: "unknown keycode"@ }
}

impl Session {
    /// What is wrong with the "current file" pointer, if it is set and names
    /// no open file.
    pub open spec fn current_file_problem(self) -> Option<Problem> {
        match self.current_file_num {
            Some(n) => if 0 <= n < self.files.len() {
                None
            } else {
                Some(
                    Problem::InvalidFileIndex {
                        file_index: n,
                        num_of_files: self.files.len() as int,
                    },
                )
            },
            None => None,
        }
    }

    /// One pass of `edit` over the cursors of file `n`, caused by an input
    /// with the given timestamp: the operation is applied at every cursor in
    /// ascending order. A pass that is not stopped ends with the removal of
    /// duplicate cursors and records the timestamp as the time of the last
    /// edit; a pass that a broken bound stops leaves what it had done,
    /// records nothing and reports the bound. Where there is no file `n`
    /// nothing is done and that is reported.
    pub open spec fn run_pass(self, n: int, edit: Edit, timestamp: int) -> (
        Session,
        Option<Problem>,
    ) {
        if !(0 <= n < self.files.len()) {
            (
                self,
                Some(
                    Problem::InvalidFileIndex {
                        file_index: n,
                        num_of_files: self.files.len() as int,
                    },
                ),
            )
        } else {
            let doc = self.files[n];
            let extend = self.keys_pressed.shift_pressed;
            let count = doc.cursors.len() as int;
            let passed = doc.pass_from(edit, extend, 0, count);
            match doc.pass_fault(edit, extend, 0, count) {
                None => (
                    Session {
                        files: self.files.update(n, passed.deduplicated()),
                        cursor_place_timestamp: timestamp,
                        ..self
                    },
                    None,
                ),
                Some((index, len)) => (
                    Session { files: self.files.update(n, passed), ..self },
                    Some(Problem::InvalidIndex { index, len }),
                ),
            }
        }
    }

    /// A key went down. A key-down that bears the timestamp of the last
    /// text input is the key that made that text, and is passed over.
    pub open spec fn key_down(self, keycode: Keycode, timestamp: int) -> (
        Session,
        Option<Problem>,
    ) {
        if self.current_file_problem() is Some {
            (self, self.current_file_problem())
        } else if timestamp == self.last_text_input_timestamp {
            (self, None)
        } else {
            match keycode {
                Keycode::LShift | Keycode::RShift => (
                    Session {
                        keys_pressed: KeysPressed { shift_pressed: true, ..self.keys_pressed },
                        ..self
                    },
                    None,
                ),
                Keycode::LCtrl | Keycode::RCtrl => (
                    Session {
                        keys_pressed: KeysPressed { control_pressed: true, ..self.keys_pressed },
                        ..self
                    },
                    None,
                ),
                Keycode::LAlt | Keycode::RAlt => (
                    Session {
                        keys_pressed: KeysPressed { alt_pressed: true, ..self.keys_pressed },
                        ..self
                    },
                    None,
                ),
                Keycode::Escape => (Session { exit: true, ..self }, None),
                _ => match (edit_for_key(keycode), self.current_file_num) {
                    (Some(edit), Some(n)) => self.run_pass(n, edit, timestamp),
                    _ => (self, Some(unknown_key())),
                },
            }
        }
    }

    /// A key went up. While no file is open this has no effect.
    pub open spec fn key_up(self, keycode: Keycode) -> (Session, Option<Problem>) {
        if self.current_file_problem() is Some {
            (self, self.current_file_problem())
        } else if self.current_file_num is None {
            (self, None)
        } else {
            match keycode {
                Keycode::LShift | Keycode::RShift => (
                    Session {
                        keys_pressed: KeysPressed { shift_pressed: false, ..self.keys_pressed },
                        ..self
                    },
                    None,
                ),
                Keycode::LCtrl | Keycode::RCtrl => (
                    Session {
                        keys_pressed: KeysPressed { control_pressed: false, ..self.keys_pressed },
                        ..self
                    },
                    None,
                ),
                Keycode::LAlt | Keycode::RAlt => (
                    Session {
                        keys_pressed: KeysPressed { alt_pressed: false, ..self.keys_pressed },
                        ..self
                    },
                    None,
                ),
                _ => (self, None),
            }
        }
    }

    /// Text was typed: it is inserted at every cursor of the current file,
    /// and its timestamp is remembered.
    pub open spec fn text_input(self, text: Seq<char>, timestamp: int) -> (
        Session,
        Option<Problem>,
    ) {
        if self.current_file_problem() is Some {
            (self, self.current_file_problem())
        } else {
            match self.current_file_num {
                None => (self, None),
                Some(n) => {
                    let (after, problem) = self.run_pass(n, Edit::PlaceText(text), timestamp);
                    if problem is None {
                        (Session { last_text_input_timestamp: timestamp, ..after }, None)
                    } else {
                        (after, problem)
                    }
                },
            }
        }
    }

    /// The session after one event, and what went wrong with it, if
    /// anything.
    pub open spec fn handle_event(self, input: Input) -> (Session, Option<Problem>) {
        if self.current_file_problem() is Some {
            (self, self.current_file_problem())
        } else {
            match input {
                Input::Quit { timestamp } => (Session { exit: true, ..self }, None),
                Input::KeyDown { keycode: Some(keycode), repeat, timestamp } => self.key_down(
                    keycode,
                    timestamp,
                ),
                Input::KeyUp { keycode: Some(keycode), repeat, timestamp } => self.key_up(
                    keycode,
                ),
                Input::TextInput { text, timestamp } => self.text_input(text, timestamp),
                _ => (self, None),
            }
        }
    }

    /// The session after one event, with what went wrong in the error log.
    pub open spec fn handle_and_log(self, input: Input) -> Session {
        let (after, problem) = self.handle_event(input);
        match problem {
            Some(problem) => after.with_error(problem),
            None => after,
        }
    }

    /// The session after the events `inputs`, handled in the order given:
    /// an event that fails is logged, and the next one is handled.
    pub open spec fn handle_all(self, inputs: Seq<Input>) -> Session
        decreases inputs.len(),
    {
        if inputs.len() == 0 {
            self
        } else {
            self.handle_all(inputs.drop_last()).handle_and_log(inputs.last())
        }
    }
}

/// The place of the last key-down with `timestamp` among `placed`, or `-1`.
pub open spec fn last_key_down(placed: Seq<Input>, timestamp: int) -> int
    decreases placed.len(),
{
    if placed.len() == 0 {
        -1
    } else if placed.last() matches Input::KeyDown { timestamp: t, .. } && t == timestamp {
        placed.len() - 1
    } else {
        last_key_down(placed.drop_last(), timestamp)
    }
}

/// The first place at or after `from` where no text input with `timestamp`
/// stands.
pub open spec fn end_of_texts(placed: Seq<Input>, from: int, timestamp: int) -> int
    decreases placed.len() - from,
{
    if 0 <= from < placed.len() && (placed[from] matches Input::TextInput { timestamp: t, .. }
        && t == timestamp) {
        end_of_texts(placed, from + 1, timestamp)
    } else {
        from
    }
}

/// `placed` with the event `input` put in its place: a text input goes
/// directly behind the last key-down that bears its timestamp, and behind
/// the text inputs with that timestamp that already follow it; every other
/// event, and a text input without such a key-down, goes to the end.
pub open spec fn place_event(placed: Seq<Input>, input: Input) -> Seq<Input> {
    match input {
        Input::TextInput { text, timestamp } => {
            let key = last_key_down(placed, timestamp);
            if key < 0 {
                placed.push(input)
            } else {
                placed.insert(end_of_texts(placed, key + 1, timestamp), input)
            }
        },
        _ => placed.push(input),
    }
}

/// The order in which a batch of events is handled: the order in which they
/// came, but for the text inputs that follow their key-down.
pub open spec fn ordered_events(inputs: Seq<Input>) -> Seq<Input>
    decreases inputs.len(),
{
    if inputs.len() == 0 {
        inputs
    } else {
        place_event(ordered_events(inputs.drop_last()), inputs.last())
    }
}

} // verus!
