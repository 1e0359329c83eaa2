//! The error taxonomy of the editor session.

use vstd::prelude::*;
use vstd::string::StringExecFns;
use crate::fns::string_from_chars;
use crate::session::{IoFailure, Problem};

verus! {

/// Why a file could not be read or written, as reported by the file system.
#[derive(Debug, Clone, Copy, PartialEq, Eq, Structural)]
pub enum IoErrorKind {
    NotFound,
    PermissionDenied,
    InvalidData,
    Other,
}

/// The outcome of a failed file-system call, reduced to plain values.
#[derive(Debug, Clone, PartialEq, Eq)]
pub struct IoError {
    pub kind: IoErrorKind,
    pub message: String,
}

/// What can go wrong in a session.
#[derive(Debug, Clone, PartialEq, Eq)]
pub enum RawProgramError {
    /// The "current file" pointer does not name an open file.
    InvalidFileIndex { file_index: usize, num_of_files: usize },
    /// A cursor number, a line number or a column lies outside the document.
    InvalidIndex { index: usize, len: usize },
    /// An input event that the engine does not know how to interpret.
    UnsupportedInput { details: String },
    SettingsAreNotAnObject,
    CouldNotLoadFile { file_path: String, source: IoError },
    CouldNotSaveFile { file_path: String, source: IoError },
    /// A settings file that is not Hjson, with what the reader said of it.
    SerdeError(String),
    Message(String),
    WIP { details: String },
}

/// An error of the session, as it is logged and shown.
#[derive(Debug, Clone, PartialEq, Eq)]
pub struct ProgramError {
    pub raw: RawProgramError,
}

impl From<RawProgramError> for ProgramError {
    fn from(input: RawProgramError) -> (e: ProgramError) {
        ProgramError { raw: input }
    }
}

impl vstd::std_specs::convert::FromSpecImpl<RawProgramError> for ProgramError {
    open spec fn obeys_from_spec() -> bool {
        true
    }

    open spec fn from_spec(input: RawProgramError) -> ProgramError {
        ProgramError { raw: input }
    }
}

impl From<String> for ProgramError {
    fn from(source: String) -> (e: ProgramError) {
        ProgramError { raw: RawProgramError::Message(source) }
    }
}

impl vstd::std_specs::convert::FromSpecImpl<String> for ProgramError {
    open spec fn obeys_from_spec() -> bool {
        true
    }

    open spec fn from_spec(source: String) -> ProgramError {
        ProgramError { raw: RawProgramError::Message(source) }
    }
}

/// Wraps a raw error as the failing result of any operation.
pub fn err<T>(input: RawProgramError) -> (r: Result<T, ProgramError>)
    ensures
        r == Err::<T, ProgramError>(ProgramError { raw: input }),
{
    Err(ProgramError { raw: input })
}

impl View for IoError {
    type V = IoFailure;

    open spec fn view(&self) -> IoFailure {
        IoFailure { kind: self.kind, message: self.message@ }
    }
}

impl View for ProgramError {
    type V = Problem;

    open spec fn view(&self) -> Problem {
        match self.raw {
            RawProgramError::InvalidFileIndex { file_index, num_of_files } => {
                Problem::InvalidFileIndex {
                    file_index: file_index as int,
                    num_of_files: num_of_files as int,
                }
            },
            RawProgramError::InvalidIndex { index, len } => Problem::InvalidIndex {
                index: index as int,
                len: len as int,
            },
            RawProgramError::UnsupportedInput { details } => Problem::UnsupportedInput {
                details: details@,
            },
            RawProgramError::SettingsAreNotAnObject => Problem::SettingsAreNotAnObject,
            RawProgramError::CouldNotLoadFile { file_path, source } => Problem::CouldNotLoadFile {
                file_path: file_path@,
                source: source@,
            },
            RawProgramError::CouldNotSaveFile { file_path, source } => Problem::CouldNotSaveFile {
                file_path: file_path@,
                source: source@,
            },
            RawProgramError::SerdeError(text) => Problem::SerdeError(text@),
            RawProgramError::Message(text) => Problem::Message(text@),
            RawProgramError::WIP { details } => Problem::WIP { details: details@ },
        }
    }
}

/// What a result reports: nothing, or what its error says.
pub open spec fn problem_of(r: Result<(), ProgramError>) -> Option<Problem> {
    match r {
        Ok(()) => None,
        Err(e) => Some(e@),
    }
}

/// The character that writes the digit `d`.
pub open spec fn digit(d: int) -> char {
    if d == 0 {
        '0'
    } else if d == 1 {
        '1'
    } else if d == 2 {
        '2'
    } else if d == 3 {
        '3'
    } else if d == 4 {
        '4'
    } else if d == 5 {
        '5'
    } else if d == 6 {
        '6'
    } else if d == 7 {
        '7'
    } else if d == 8 {
        '8'
    } else {
        '9'
    }
}

/// The number `n` as it is written in base ten, without leading zeros.
pub open spec fn decimal(n: nat) -> Seq<char>
    decreases n,
{
    if n < 10 {
        seq![digit(n as int)]
    } else {
        decimal(n / 10).push(digit((n % 10) as int))
    }
}

fn digit_char(d: usize) -> (c: char)
    requires
        d < 10,
    ensures
        c == digit(d as int),
{
    match d {
        0 => '0',
        1 => '1',
        2 => '2',
        3 => '3',
        4 => '4',
        5 => '5',
        6 => '6',
        7 => '7',
        8 => '8',
        _ => '9',
    }
}

/// Writes `n` in base ten at the end of `out`.
fn push_decimal(n: usize, out: &mut Vec<char>)
    ensures
        final(out)@ == old(out)@ + decimal(n as nat),
    decreases n,
{
    if n >= 10 {
        push_decimal(n / 10, out);
    }
    out.push(digit_char(n % 10));
    assert(out@ =~= old(out)@ + decimal(n as nat));
}

/// The number `n` as a text in base ten.
pub fn decimal_text(n: usize) -> (text: String)
    ensures
        text@ == decimal(n as nat),
{
    let mut digits: Vec<char> = Vec::new();
    push_decimal(n, &mut digits);
    assert(digits@ =~= decimal(n as nat));
    string_from_chars(&digits)
}

impl ProgramError {
    /// One line that says what went wrong.
    pub fn to_text(&self) -> (text: String)
        ensures
            text@ == self@.text(),
    {
        match &self.raw {
            RawProgramError::InvalidFileIndex { file_index, num_of_files } => {
                let mut text = String::from_str("Current file num is ");
                text.append(decimal_text(*file_index).as_str());
                if *num_of_files == 0 {
                    text.append(" but there no files open");
                } else if *num_of_files == 1 {
                    text.append(" but there is only 1 file open");
                } else {
                    text.append(" but there are only ");
                    text.append(decimal_text(*num_of_files).as_str());
                    text.append(" files open");
                }
                text
            },
            RawProgramError::InvalidIndex { index, len } => {
                let mut text = String::from_str("index ");
                text.append(decimal_text(*index).as_str());
                text.append(" lies outside a length of ");
                text.append(decimal_text(*len).as_str());
                text
            },
            RawProgramError::UnsupportedInput { details } => {
                let mut text = String::from_str("unsupported input: ");
                text.append(details.as_str());
                text
            },
            RawProgramError::SettingsAreNotAnObject => String::from_str(
                "Settings file is not an hjson object",
            ),
            RawProgramError::CouldNotLoadFile { file_path, source } => {
                let mut text = String::from_str("Failed to read file \"");
                text.append(file_path.as_str());
                text.append("\": ");
                text.append(source.message.as_str());
                text
            },
            RawProgramError::CouldNotSaveFile { file_path, source } => {
                let mut text = String::from_str("Failed to write file \"");
                text.append(file_path.as_str());
                text.append("\": ");
                text.append(source.message.as_str());
                text
            },
            RawProgramError::SerdeError(message) => {
                let mut text = String::from_str("serde_hjson::Error: ");
                text.append(message.as_str());
                text
            },
            RawProgramError::Message(message) => message.clone(),
            RawProgramError::WIP { details } => {
                let mut text = String::from_str("WIP: ");
                text.append(details.as_str());
                text
            },
        }
    }
}

} // verus!
