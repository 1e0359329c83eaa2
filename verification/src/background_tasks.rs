//! The worker's side of the session: the queue of tasks, the decision what
//! to do next, and what each task does to the session once the file system
//! has answered.

use vstd::prelude::*;
use crate::errors::{err, IoError, ProgramError, RawProgramError};
use crate::fns::{split_lines, string_from_chars};
use crate::program_data::{File, ProgramData, ProgramTask};
use crate::document::texts_of;
use crate::session::{join_lines, Outcome, Request, Session, Step, Task};
use crate::settings::ContinueDetails;

verus! {

/// What the worker has to ask of the file system for a task.
#[derive(Debug, Clone, PartialEq, Eq)]
pub enum IoRequest {
    ReadFile { file_path: String },
    WriteFile { file_path: String, text: String },
    Nothing,
}

impl View for IoRequest {
    type V = Request;

    open spec fn view(&self) -> Request {
        match self {
            IoRequest::ReadFile { file_path } => Request::ReadFile { file_path: file_path@ },
            IoRequest::WriteFile { file_path, text } => Request::WriteFile {
                file_path: file_path@,
                text: text@,
            },
            IoRequest::Nothing => Request::Nothing,
        }
    }
}

/// What the file system answered.
#[derive(Debug, PartialEq, Eq)]
pub enum IoOutcome {
    FileRead(Result<String, IoError>),
    FileWritten(Result<(), IoError>),
    Nothing,
}

impl View for IoOutcome {
    type V = Outcome;

    open spec fn view(&self) -> Outcome {
        match self {
            IoOutcome::FileRead(Ok(text)) => Outcome::FileRead(Ok(text@)),
            IoOutcome::FileRead(Err(e)) => Outcome::FileRead(Err(e@)),
            IoOutcome::FileWritten(Ok(())) => Outcome::FileWritten(Ok(())),
            IoOutcome::FileWritten(Err(e)) => Outcome::FileWritten(Err(e@)),
            IoOutcome::Nothing => Outcome::Nothing,
        }
    }
}

/// What the worker does next.
#[derive(Debug, Clone, PartialEq, Eq)]
pub enum WorkerStep {
    Exit,
    Wait,
    Run(ProgramTask),
}

impl View for WorkerStep {
    type V = Step;

    open spec fn view(&self) -> Step {
        match self {
            WorkerStep::Exit => Step::Exit,
            WorkerStep::Wait => Step::Wait,
            WorkerStep::Run(task) => Step::Run(task@),
        }
    }
}

/// Puts `task` at the end of the queue.
pub fn enqueue_task(task: ProgramTask, program_data: &mut ProgramData)
    ensures
        final(program_data)@ == old(program_data)@.enqueue(task@),
{
    program_data.tasks.push(task);
    assert(program_data@.tasks =~= old(program_data)@.tasks.push(task@));
}

/// The worker's decision between two tasks.
pub fn next_worker_step(program_data: &mut ProgramData) -> (step: WorkerStep)
    ensures
        (final(program_data)@, step@) == old(program_data)@.next_step(),
{
    if program_data.exit || program_data.tasks_paused || program_data.tasks.len() == 0 {
        program_data.tasks_ongoing = false;
        if program_data.exit {
            WorkerStep::Exit
        } else {
            WorkerStep::Wait
        }
    } else {
        let task = program_data.tasks.remove(0);
        program_data.tasks_ongoing = true;
        assert(program_data@.tasks =~= old(program_data)@.tasks.drop_first());
        WorkerStep::Run(task)
    }
}

/// The text of `file` as it is written to disk.
pub fn file_text(file: &File) -> (text: String)
    ensures
        text@ == join_lines(file@.lines),
{
    let mut chars: Vec<char> = Vec::new();
    let mut i: usize = 0;
    while i < file.contents.len()
        invariant
            i <= file.contents.len(),
            chars@ == join_lines(file@.lines.take(i as int)),
        decreases file.contents.len() - i,
    {
        proof {
            assert(file@.lines.take(i + 1).drop_last() == file@.lines.take(i as int));
            assert(file@.lines.take(i + 1).last() == file.contents[i as int]@);
            if i == 0 {
                assert(file@.lines.take(1)[0] == file.contents[0]@);
            }
        }
        if i > 0 {
            chars.push('\n');
        }
        let ghost before = chars@;
        let mut k: usize = 0;
        while k < file.contents[i].len()
            invariant
                i < file.contents.len(),
                k <= file.contents[i as int].len(),
                chars@ == before + file.contents[i as int]@.take(k as int),
            decreases file.contents[i as int].len() - k,
        {
            chars.push(file.contents[i][k]);
            k += 1;
        }
        assert(file.contents[i as int]@.take(k as int) == file.contents[i as int]@);
        i += 1;
    }
    assert(file@.lines.take(i as int) == file@.lines);
    string_from_chars(&chars)
}

/// What `task` needs from the file system.
pub fn io_request(task: &ProgramTask, program_data: &ProgramData) -> (request: IoRequest)
    ensures
        request@ == program_data@.request_for(task@),
{
    match task {
        ProgramTask::LoadFile { file_path, switch_to_this } => IoRequest::ReadFile {
            file_path: file_path.clone(),
        },
        ProgramTask::SaveFile { file_num, file_path } => {
            if *file_num < program_data.files.len() {
                IoRequest::WriteFile {
                    file_path: file_path.clone(),
                    text: file_text(&program_data.files[*file_num]),
                }
            } else {
                IoRequest::Nothing
            }
        },
        ProgramTask::CloseFile { file_num } => IoRequest::Nothing,
    }
}

/// Opens the file that was read from `file_path`, or reports why it could
/// not be read.
pub fn load_file(
    file_path: &str,
    contents: Result<String, IoError>,
    program_data: &mut ProgramData,
) -> (r: Result<(), ProgramError>)
    ensures
        match contents {
            Ok(text) => r is Ok && final(program_data)@ == old(program_data)@.load_file(
                file_path@,
                text@,
            ) && final(program_data)@.files.last().wf(),
            Err(source) => r matches Err(e) && e@ == (crate::session::Problem::CouldNotLoadFile {
                file_path: file_path@,
                source: source@,
            }) && *final(program_data) == *old(program_data),
        },
{
    let contents = match contents {
        Ok(v) => v,
        Err(error) => {
            return err(
                RawProgramError::CouldNotLoadFile {
                    file_path: file_path.to_string(),
                    source: error,
                },
            );
        },
    };
    let lines = split_lines(contents.as_str());
    let new_file = File::new(file_path.to_string(), lines);
    program_data.files.push(new_file);
    if program_data.current_file_num.is_none() {
        program_data.current_file_num = Some(0);
    }
    assert(program_data@.files =~= old(program_data)@.files.push(new_file@));
    Ok(())
}

/// Reports how the writing of file `file_num` to `file_path` ended.
pub fn save_file(
    file_num: usize,
    file_path: &str,
    written: Result<(), IoError>,
    program_data: &ProgramData,
) -> (r: Result<(), ProgramError>)
    ensures
        match r {
            Ok(()) => file_num < program_data.files.len() && written is Ok,
            Err(e) => if file_num >= program_data.files.len() {
                e@ == (crate::session::Problem::InvalidFileIndex {
                    file_index: file_num as int,
                    num_of_files: program_data.files.len() as int,
                })
            } else {
                written matches Err(source) && e@ == (crate::session::Problem::CouldNotSaveFile {
                    file_path: file_path@,
                    source: source@,
                })
            },
        },
{
    if file_num >= program_data.files.len() {
        return err(
            RawProgramError::InvalidFileIndex {
                file_index: file_num,
                num_of_files: program_data.files.len(),
            },
        );
    }
    match written {
        Ok(()) => Ok(()),
        Err(error) => err(
            RawProgramError::CouldNotSaveFile { file_path: file_path.to_string(), source: error },
        ),
    }
}

/// Closes file `file_num` and lets the "current file" pointer follow.
pub fn close_file(file_num: usize, program_data: &mut ProgramData) -> (r: Result<(), ProgramError>)
    ensures
        match r {
            Ok(()) => file_num < old(program_data).files.len() && final(program_data)@
                == old(program_data)@.close_file(file_num as int),
            Err(e) => file_num >= old(program_data).files.len() && e@
                == (crate::session::Problem::InvalidFileIndex {
                file_index: file_num as int,
                num_of_files: old(program_data).files.len() as int,
            }) && *final(program_data) == *old(program_data),
        },
{
    let num_of_files: usize = program_data.files.len();
    if file_num >= num_of_files {
        return err(RawProgramError::InvalidFileIndex { file_index: file_num, num_of_files });
    }
    program_data.files.remove(file_num);
    program_data.current_file_num = match program_data.current_file_num {
        None => None,
        Some(current) => {
            if num_of_files <= 1 {
                None
            } else if current > file_num {
                Some(current - 1)
            } else if current == file_num && current == num_of_files - 1 {
                Some(current - 1)
            } else {
                Some(current)
            }
        },
    };
    assert(program_data@.files =~= old(program_data)@.files.remove(file_num as int));
    Ok(())
}

/// Does to the session what `current_task` asks for, now that the file
/// system has answered `outcome`. A task that fails changes nothing.
pub fn process_task(
    current_task: ProgramTask,
    outcome: IoOutcome,
    program_data: &mut ProgramData,
) -> (r: Result<(), ProgramError>)
    ensures
        final(program_data)@ == old(program_data)@.process_task(current_task@, outcome@),
        match r {
            Ok(()) => old(program_data)@.task_problem(current_task@, outcome@) is None,
            Err(e) => old(program_data)@.task_problem(current_task@, outcome@) == Some(e@),
        },
        old(program_data)@.files_wf() ==> final(program_data)@.files_wf(),
{
    match current_task {
        ProgramTask::LoadFile { file_path, switch_to_this } => match outcome {
            IoOutcome::FileRead(contents) => {
                let r = load_file(file_path.as_str(), contents, program_data);
                proof {
                    if old(program_data)@.files_wf() && r is Ok {
                        let before = old(program_data)@.files;
                        let after = program_data@.files;
                        assert forall|k: int| 0 <= k < after.len() implies (#[trigger] after[k]).wf() by {
                            if k < before.len() {
                                assert(after[k] == before[k]);
                            }
                        }
                    }
                }
                r
            },
            _ => err(RawProgramError::UnsupportedInput { details: file_path }),
        },
        ProgramTask::SaveFile { file_num, file_path } => {
            if file_num >= program_data.files.len() {
                return err(
                    RawProgramError::InvalidFileIndex {
                        file_index: file_num,
                        num_of_files: program_data.files.len(),
                    },
                );
            }
            match outcome {
                IoOutcome::FileWritten(written) => save_file(
                    file_num,
                    file_path.as_str(),
                    written,
                    program_data,
                ),
                _ => err(RawProgramError::UnsupportedInput { details: file_path }),
            }
        },
        ProgramTask::CloseFile { file_num } => {
            let r = close_file(file_num, program_data);
            proof {
                if old(program_data)@.files_wf() && r is Ok {
                    let before = old(program_data)@.files;
                    let after = program_data@.files;
                    assert forall|k: int| 0 <= k < after.len() implies (#[trigger] after[k]).wf() by {
                        if k < file_num {
                            assert(after[k] == before[k]);
                        } else {
                            assert(after[k] == before[k + 1]);
                        }
                    }
                }
            }
            r
        },
    }
}

/// Ends a task of the worker: what the task does is done, its error, if it
/// failed, is logged, and only then the worker is no longer busy.
pub fn complete_task(current_task: ProgramTask, outcome: IoOutcome, program_data: &mut ProgramData)
    ensures
        final(program_data)@ == old(program_data)@.complete_task(current_task@, outcome@),
        !final(program_data).tasks_ongoing,
        old(program_data)@.files_wf() ==> final(program_data)@.files_wf(),
{
    match process_task(current_task, outcome, program_data) {
        Ok(()) => {},
        Err(error) => {
            let ghost logged = program_data@.errors;
            program_data.errors.push(error);
            assert(program_data@.errors =~= logged.push(error@));
        },
    }
    program_data.tasks_ongoing = false;
}

/// The first half of the handshake by which the interactive actor gets a
/// consistent view: asks the worker to pause, and says whether the worker
/// is idle, so that the view may be taken now.
pub fn request_render_snapshot(program_data: &mut ProgramData) -> (ready: bool)
    ensures
        (final(program_data)@, ready) == old(program_data)@.request_render_snapshot(),
{
    program_data.tasks_paused = true;
    !program_data.tasks_ongoing
}

/// The second half of the handshake: lets the worker go on.
pub fn release_render_snapshot(program_data: &mut ProgramData)
    ensures
        final(program_data)@ == old(program_data)@.release_render_snapshot(),
{
    program_data.tasks_paused = false;
}


/// The tasks that open the files at `paths` again, each to be switched to.
pub open spec fn load_tasks(paths: Seq<Seq<char>>) -> Seq<Task> {
    paths.map_values(|file_path: Seq<char>| Task::LoadFile { file_path, switch_to_this: true })
}

/// Queues the loading of every file that the last session left open, in
/// their order.
pub fn continue_session(continue_details: &ContinueDetails, program_data: &mut ProgramData) -> (r:
    Result<(), ProgramError>)
    ensures
        r is Ok,
        final(program_data)@ == (Session {
            tasks: old(program_data)@.tasks + load_tasks(
                texts_of(continue_details.last_open_files@),
            ),
            ..old(program_data)@
        }),
{
    let ghost paths = texts_of(continue_details.last_open_files@);
    let mut i: usize = 0;
    while i < continue_details.last_open_files.len()
        invariant
            i <= continue_details.last_open_files.len(),
            paths == texts_of(continue_details.last_open_files@),
            program_data@ == (Session {
                tasks: old(program_data)@.tasks + load_tasks(paths.take(i as int)),
                ..old(program_data)@
            }),
        decreases continue_details.last_open_files.len() - i,
    {
        let ghost queued = program_data@.tasks;
        let task = ProgramTask::LoadFile {
            file_path: continue_details.last_open_files[i].clone(),
            switch_to_this: true,
        };
        program_data.tasks.push(task);
        proof {
            assert(program_data@.tasks =~= queued.push(task@));
            assert(load_tasks(paths.take(i + 1)) =~= load_tasks(paths.take(i as int)).push(task@));
            assert(program_data@.tasks =~= old(program_data)@.tasks + load_tasks(
                paths.take(i + 1),
            ));
        }
        i += 1;
    }
    assert(paths.take(i as int) == paths);
    Ok(())
}

} // verus!
