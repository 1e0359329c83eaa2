use text_editor::background_tasks::{
    close_file, complete_task, continue_session, enqueue_task, file_text, io_request, load_file,
    next_worker_step, process_task, release_render_snapshot, request_render_snapshot, save_file,
    IoOutcome, IoRequest, WorkerStep,
};
use text_editor::errors::{IoError, IoErrorKind, ProgramError, RawProgramError};
use text_editor::events::{
    handle_esc_pressed, handle_event, handle_events, handle_key_down, handle_key_up,
    handle_text_input, order_events, Event, Keycode,
};
use text_editor::program_data::{Cursor, File, KeysPressed, ProgramData, ProgramTask};
use text_editor::settings::ContinueDetails;
use text_editor::update::{take_errors, update};

fn load(path: &str) -> ProgramTask {
    ProgramTask::LoadFile { file_path: String::from(path), switch_to_this: true }
}

fn missing() -> IoError {
    IoError { kind: IoErrorKind::NotFound, message: String::from("No such file or directory") }
}

fn session_with(text: &str) -> ProgramData {
    let mut data = ProgramData::new();
    assert_eq!(load_file("a.txt", Ok(String::from(text)), &mut data), Ok(()));
    data
}

fn text_of(file: &File) -> Vec<String> {
    file.contents.iter().map(|line| line.iter().collect()).collect()
}

fn cursor_at(x: usize, y: usize) -> Cursor {
    Cursor { x, y, wanted_x: x, selection_start: None }
}

fn key_down(keycode: Keycode, timestamp: u32) -> Event {
    Event::KeyDown { keycode: Some(keycode), repeat: false, timestamp }
}

fn text_input(text: &str, timestamp: u32) -> Event {
    Event::TextInput { text: String::from(text), timestamp }
}

#[test]
fn a_new_session_is_empty() {
    let data = ProgramData::new();
    assert!(data.errors.is_empty() && data.tasks.is_empty() && data.files.is_empty());
    assert!(!data.exit && !data.tasks_paused && !data.tasks_ongoing);
    assert_eq!(data.current_file_num, None);
    assert_eq!(data.keys_pressed, KeysPressed::new());
    assert_eq!(
        (data.frame_count, data.last_text_input_timestamp, data.cursor_place_timestamp),
        (0, 0, 0)
    );
    assert_eq!(ProgramData::default(), data);
}

#[test]
fn loading_a_missing_file_logs_one_error_and_opens_nothing() {
    let mut data = ProgramData::new();
    enqueue_task(load("missing.txt"), &mut data);
    let task = match next_worker_step(&mut data) {
        WorkerStep::Run(task) => task,
        other => panic!("the worker should start the task, not {:?}", other),
    };
    assert!(data.tasks_ongoing);
    assert_eq!(
        io_request(&task, &data),
        IoRequest::ReadFile { file_path: String::from("missing.txt") }
    );
    complete_task(task, IoOutcome::FileRead(Err(missing())), &mut data);
    assert_eq!(
        data.errors,
        vec![ProgramError {
            raw: RawProgramError::CouldNotLoadFile {
                file_path: String::from("missing.txt"),
                source: missing(),
            },
        }]
    );
    assert_eq!(data.files.len(), 0);
    assert_eq!(data.current_file_num, None);
    assert!(!data.tasks_ongoing);
}

#[test]
fn a_pause_is_not_complete_before_the_task_in_flight_is_done() {
    let mut data = ProgramData::new();
    enqueue_task(load("a.txt"), &mut data);
    enqueue_task(load("b.txt"), &mut data);
    let task = match next_worker_step(&mut data) {
        WorkerStep::Run(task) => task,
        other => panic!("the worker should start the task, not {:?}", other),
    };
    assert!(!request_render_snapshot(&mut data));
    assert!(data.tasks_paused && data.tasks_ongoing);
    assert_eq!(data.files.len(), 0);
    assert!(!request_render_snapshot(&mut data));
    complete_task(task, IoOutcome::FileRead(Ok(String::from("x\ny"))), &mut data);
    assert_eq!(data.files.len(), 1);
    assert_eq!(text_of(&data.files[0]), vec!["x", "y"]);
    assert_eq!(data.current_file_num, Some(0));
    assert!(request_render_snapshot(&mut data));
    assert_eq!(next_worker_step(&mut data), WorkerStep::Wait);
    assert_eq!(data.tasks, vec![load("b.txt")]);
    release_render_snapshot(&mut data);
    assert!(!data.tasks_paused);
    assert_eq!(next_worker_step(&mut data), WorkerStep::Run(load("b.txt")));
}

#[test]
fn tasks_start_in_the_order_of_their_submission() {
    let mut data = ProgramData::new();
    assert_eq!(next_worker_step(&mut data), WorkerStep::Wait);
    enqueue_task(load("a"), &mut data);
    enqueue_task(ProgramTask::CloseFile { file_num: 0 }, &mut data);
    enqueue_task(load("c"), &mut data);
    assert_eq!(next_worker_step(&mut data), WorkerStep::Run(load("a")));
    assert_eq!(next_worker_step(&mut data), WorkerStep::Run(ProgramTask::CloseFile { file_num: 0 }));
    assert_eq!(next_worker_step(&mut data), WorkerStep::Run(load("c")));
    assert_eq!(next_worker_step(&mut data), WorkerStep::Wait);
    assert!(!data.tasks_ongoing);
}

#[test]
fn the_worker_returns_when_the_session_ends() {
    let mut data = ProgramData::new();
    enqueue_task(load("a"), &mut data);
    data.exit = true;
    assert_eq!(next_worker_step(&mut data), WorkerStep::Exit);
    assert_eq!(data.tasks.len(), 1);
}

#[test]
fn a_loaded_file_becomes_current_only_if_none_is() {
    let mut data = session_with("one");
    assert_eq!(data.current_file_num, Some(0));
    assert_eq!(load_file("b.txt", Ok(String::from("two\r\nlines\n")), &mut data), Ok(()));
    assert_eq!(data.current_file_num, Some(0));
    assert_eq!(data.files[1].path, "b.txt");
    assert_eq!(text_of(&data.files[1]), vec!["two", "lines", ""]);
    assert_eq!(data.files[1].cursors, vec![cursor_at(0, 0)]);
}

#[test]
fn a_file_is_written_as_its_lines() {
    let data = session_with("ab\n\ncd");
    assert_eq!(file_text(&data.files[0]), "ab\n\ncd");
    assert_eq!(file_text(&File::new(String::from("e"), vec![])), "");
    let save = ProgramTask::SaveFile { file_num: 0, file_path: String::from("out.txt") };
    assert_eq!(
        io_request(&save, &data),
        IoRequest::WriteFile { file_path: String::from("out.txt"), text: String::from("ab\n\ncd") }
    );
    let wrong = ProgramTask::SaveFile { file_num: 3, file_path: String::from("out.txt") };
    assert_eq!(io_request(&wrong, &data), IoRequest::Nothing);
    assert_eq!(io_request(&ProgramTask::CloseFile { file_num: 0 }, &data), IoRequest::Nothing);
}

#[test]
fn saving_reports_what_the_file_system_said() {
    let mut data = session_with("ab");
    assert_eq!(save_file(0, "out.txt", Ok(()), &data), Ok(()));
    assert_eq!(
        save_file(0, "out.txt", Err(missing()), &data),
        Err(ProgramError {
            raw: RawProgramError::CouldNotSaveFile {
                file_path: String::from("out.txt"),
                source: missing(),
            },
        })
    );
    assert_eq!(
        save_file(4, "out.txt", Ok(()), &data),
        Err(ProgramError {
            raw: RawProgramError::InvalidFileIndex { file_index: 4, num_of_files: 1 }
        })
    );
    let save = ProgramTask::SaveFile { file_num: 0, file_path: String::from("out.txt") };
    let before = data.clone();
    assert_eq!(process_task(save, IoOutcome::FileWritten(Ok(())), &mut data), Ok(()));
    assert_eq!(data, before);
}

#[test]
fn an_answer_of_the_wrong_kind_is_unsupported() {
    let mut data = ProgramData::new();
    assert_eq!(
        process_task(load("a.txt"), IoOutcome::Nothing, &mut data),
        Err(ProgramError {
            raw: RawProgramError::UnsupportedInput { details: String::from("a.txt") }
        })
    );
    assert_eq!(data, ProgramData::new());
}

#[test]
fn closing_a_file_moves_the_current_pointer() {
    let mut data = session_with("a");
    load_file("b", Ok(String::from("b")), &mut data).unwrap();
    load_file("c", Ok(String::from("c")), &mut data).unwrap();
    data.current_file_num = Some(2);
    assert_eq!(close_file(0, &mut data), Ok(()));
    assert_eq!(data.files.iter().map(|f| f.path.clone()).collect::<Vec<_>>(), vec!["b", "c"]);
    assert_eq!(data.current_file_num, Some(1));
    assert_eq!(close_file(1, &mut data), Ok(()));
    assert_eq!(data.current_file_num, Some(0));
    assert_eq!(
        close_file(1, &mut data),
        Err(ProgramError {
            raw: RawProgramError::InvalidFileIndex { file_index: 1, num_of_files: 1 }
        })
    );
    assert_eq!(close_file(0, &mut data), Ok(()));
    assert_eq!(data.current_file_num, None);
    assert!(data.files.is_empty());
}

#[test]
fn continuing_a_session_queues_its_files() {
    let mut data = ProgramData::new();
    enqueue_task(ProgramTask::CloseFile { file_num: 1 }, &mut data);
    let details = ContinueDetails { last_open_files: vec![String::from("a"), String::from("b")] };
    assert_eq!(continue_session(&details, &mut data), Ok(()));
    assert_eq!(data.tasks, vec![ProgramTask::CloseFile { file_num: 1 }, load("a"), load("b")]);
}

#[test]
fn keys_edit_the_current_file() {
    let mut data = session_with("abc\nde");
    assert_eq!(handle_key_down(Keycode::End, false, &mut data, 10), Ok(()));
    assert_eq!(data.files[0].cursors, vec![cursor_at(3, 0)]);
    assert_eq!(data.cursor_place_timestamp, 10);
    assert_eq!(handle_key_down(Keycode::Return, false, &mut data, 11), Ok(()));
    assert_eq!(text_of(&data.files[0]), vec!["abc", "", "de"]);
    assert_eq!(data.files[0].cursors, vec![cursor_at(0, 1)]);
    assert_eq!(handle_text_input("hi", &mut data, 12), Ok(()));
    assert_eq!(text_of(&data.files[0]), vec!["abc", "hi", "de"]);
    assert_eq!(data.last_text_input_timestamp, 12);
    assert_eq!(handle_key_down(Keycode::Backspace, false, &mut data, 12), Ok(()));
    assert_eq!(text_of(&data.files[0]), vec!["abc", "hi", "de"]);
    assert_eq!(handle_key_down(Keycode::Backspace, false, &mut data, 13), Ok(()));
    assert_eq!(text_of(&data.files[0]), vec!["abc", "h", "de"]);
    assert_eq!(data.cursor_place_timestamp, 13);
}

#[test]
fn modifier_keys_are_tracked() {
    let mut data = session_with("abc");
    assert_eq!(handle_key_down(Keycode::LShift, false, &mut data, 1), Ok(()));
    assert!(data.keys_pressed.shift_pressed);
    assert_eq!(handle_key_down(Keycode::Right, false, &mut data, 2), Ok(()));
    assert_eq!(
        data.files[0].cursors,
        vec![Cursor { x: 1, y: 0, wanted_x: 1, selection_start: Some((0, 0)) }]
    );
    assert_eq!(handle_key_up(Keycode::RShift, false, &mut data), Ok(()));
    assert!(!data.keys_pressed.shift_pressed);
    assert_eq!(handle_key_down(Keycode::RCtrl, false, &mut data, 3), Ok(()));
    assert_eq!(handle_key_down(Keycode::LAlt, false, &mut data, 4), Ok(()));
    assert!(data.keys_pressed.control_pressed && data.keys_pressed.alt_pressed);
    assert_eq!(handle_key_up(Keycode::LCtrl, false, &mut data), Ok(()));
    assert_eq!(handle_key_up(Keycode::RAlt, false, &mut data), Ok(()));
    assert_eq!(data.keys_pressed, KeysPressed::new());
}

#[test]
fn without_a_file_keys_up_are_ignored_and_cursor_keys_unknown() {
    let mut data = ProgramData::new();
    assert_eq!(handle_key_down(Keycode::LShift, false, &mut data, 1), Ok(()));
    assert_eq!(handle_key_up(Keycode::LShift, false, &mut data), Ok(()));
    assert!(data.keys_pressed.shift_pressed);
    assert_eq!(
        handle_key_down(Keycode::Up, false, &mut data, 2),
        Err(ProgramError {
            raw: RawProgramError::UnsupportedInput { details: String::from("unknown keycode") }
        })
    );
    assert_eq!(handle_text_input("x", &mut data, 3), Ok(()));
    assert_eq!(data.last_text_input_timestamp, 0);
}

#[test]
fn escape_and_quit_end_the_session() {
    let mut data = ProgramData::new();
    assert_eq!(handle_key_down(Keycode::Escape, false, &mut data, 1), Ok(()));
    assert!(data.exit);
    let mut data = ProgramData::new();
    assert_eq!(handle_esc_pressed(&mut data), Ok(()));
    assert!(data.exit);
    let mut data = ProgramData::new();
    assert_eq!(handle_event(Event::Quit { timestamp: 4 }, &mut data), Ok(()));
    assert!(data.exit);
}

#[test]
fn a_current_pointer_out_of_range_is_reported() {
    let mut data = session_with("abc");
    data.current_file_num = Some(3);
    let expected = Err(ProgramError {
        raw: RawProgramError::InvalidFileIndex { file_index: 3, num_of_files: 1 },
    });
    assert_eq!(handle_event(Event::Quit { timestamp: 1 }, &mut data), expected);
    assert!(!data.exit);
    assert_eq!(handle_key_down(Keycode::LShift, false, &mut data, 2), expected);
    assert_eq!(handle_key_up(Keycode::LShift, false, &mut data), expected);
    assert_eq!(handle_text_input("x", &mut data, 3), expected);
}

#[test]
fn text_follows_the_key_down_of_its_timestamp() {
    let ordered = order_events(vec![
        key_down(Keycode::Other(97), 5),
        Event::Other { timestamp: 5 },
        key_down(Keycode::Left, 6),
        text_input("a", 5),
        text_input("b", 5),
        text_input("c", 9),
        Event::KeyUp { keycode: Some(Keycode::Left), repeat: false, timestamp: 7 },
        text_input("d", 6),
    ]);
    assert_eq!(
        ordered,
        vec![
            key_down(Keycode::Other(97), 5),
            text_input("a", 5),
            text_input("b", 5),
            Event::Other { timestamp: 5 },
            key_down(Keycode::Left, 6),
            text_input("d", 6),
            text_input("c", 9),
            Event::KeyUp { keycode: Some(Keycode::Left), repeat: false, timestamp: 7 },
        ]
    );
    assert_eq!(order_events(vec![]), vec![]);
}

#[test]
fn a_failing_event_is_logged_and_the_next_is_handled() {
    let mut data = session_with("abc");
    handle_events(
        vec![
            key_down(Keycode::Other(120), 5),
            text_input("x", 5),
            key_down(Keycode::End, 6),
            Event::KeyDown { keycode: None, repeat: false, timestamp: 7 },
        ],
        &mut data,
    );
    assert_eq!(text_of(&data.files[0]), vec!["xabc"]);
    assert_eq!(data.files[0].cursors, vec![cursor_at(4, 0)]);
    assert_eq!(
        data.errors,
        vec![ProgramError {
            raw: RawProgramError::UnsupportedInput { details: String::from("unknown keycode") }
        }]
    );
}

#[test]
fn a_frame_shows_each_error_once() {
    let mut data = session_with("abc");
    let shown = update(&mut data, vec![key_down(Keycode::Other(1), 5), key_down(Keycode::Right, 6)]);
    assert_eq!(shown.len(), 1);
    assert!(data.errors.is_empty());
    assert_eq!(data.frame_count, 1);
    assert_eq!(data.files[0].cursors, vec![cursor_at(1, 0)]);
    assert!(update(&mut data, vec![]).is_empty());
    assert_eq!(data.frame_count, 2);
    data.frame_count = u32::MAX;
    update(&mut data, vec![]);
    assert_eq!(data.frame_count, 0);
    data.errors.push(ProgramError { raw: RawProgramError::SettingsAreNotAnObject });
    assert_eq!(take_errors(&mut data).len(), 1);
    assert!(take_errors(&mut data).is_empty());
}
