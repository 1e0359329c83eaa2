//! The interactive actor's side of the session: what each input event does.

use vstd::prelude::*;
use vstd::string::StringExecFns;
use crate::cursor_fns::{run_fn_at_cursors, CursorFn};
use crate::errors::{err, problem_of, ProgramError, RawProgramError};
use crate::program_data::{chars_of, ProgramData};
use crate::session::{
    edit_for_key, end_of_texts, last_key_down, ordered_events, place_event, Input,
};

verus! {

/// A key of the keyboard: those that the editor knows, and the code of any
/// other.
#[derive(Debug, Clone, Copy, PartialEq, Eq, Structural)]
pub enum Keycode {
    Up,
    Down,
    Left,
    Right,
    End,
    LShift,
    RShift,
    LCtrl,
    RCtrl,
    LAlt,
    RAlt,
    Escape,
    Backspace,
    Delete,
    Return,
    Other(i32),
}

/// One event of the window system.
#[derive(Debug, PartialEq, Eq)]
pub enum Event {
    Quit { timestamp: u32 },
    KeyDown { keycode: Option<Keycode>, repeat: bool, timestamp: u32 },
    KeyUp { keycode: Option<Keycode>, repeat: bool, timestamp: u32 },
    TextInput { text: String, timestamp: u32 },
    Other { timestamp: u32 },
}

impl View for Event {
    type V = Input;

    open spec fn view(&self) -> Input {
        match self {
            Event::Quit { timestamp } => Input::Quit { timestamp: *timestamp as int },
            Event::KeyDown { keycode, repeat, timestamp } => Input::KeyDown {
                keycode: *keycode,
                repeat: *repeat,
                timestamp: *timestamp as int,
            },
            Event::KeyUp { keycode, repeat, timestamp } => Input::KeyUp {
                keycode: *keycode,
                repeat: *repeat,
                timestamp: *timestamp as int,
            },
            Event::TextInput { text, timestamp } => Input::TextInput {
                text: text@,
                timestamp: *timestamp as int,
            },
            Event::Other { timestamp } => Input::Other { timestamp: *timestamp as int },
        }
    }
}

/// Checks the "current file" pointer of the session.
fn check_current_file(program_data: &ProgramData) -> (r: Result<Option<usize>, ProgramError>)
    ensures
        match r {
            Ok(current) => program_data@.current_file_problem() is None && current
                == program_data.current_file_num && (current matches Some(n) ==> n
                < program_data.files.len()),
            Err(e) => program_data@.current_file_problem() == Some(e@),
        },
{
    match program_data.current_file_num {
        Some(n) => {
            if n < program_data.files.len() {
                Ok(Some(n))
            } else {
                err(
                    RawProgramError::InvalidFileIndex {
                        file_index: n,
                        num_of_files: program_data.files.len(),
                    },
                )
            }
        },
        None => Ok(None),
    }
}

/// The operation of the cursor engine that `keycode` stands for.
fn cursor_fn_for_key(keycode: Keycode) -> (cursor_fn: Option<CursorFn>)
    ensures
        match cursor_fn {
            Some(f) => edit_for_key(keycode) == Some(f@),
            None => edit_for_key(keycode) is None,
        },
{
    match keycode {
        Keycode::Up => Some(CursorFn::MoveUp),
        Keycode::Down => Some(CursorFn::MoveDown),
        Keycode::Left => Some(CursorFn::MoveLeft),
        Keycode::Right => Some(CursorFn::MoveRight),
        Keycode::End => Some(CursorFn::MoveEnd),
        Keycode::Backspace => Some(CursorFn::Backspace),
        Keycode::Delete => Some(CursorFn::Delete),
        Keycode::Return => Some(CursorFn::Return),
        _ => None,
    }
}

/// Escape ends the session.
pub fn handle_esc_pressed(program_data: &mut ProgramData) -> (r: Result<(), ProgramError>)
    ensures
        r is Ok,
        *final(program_data) == (ProgramData { exit: true, ..*old(program_data) }),
{
    program_data.exit = true;
    Ok(())
}

/// A key went down: a cursor key runs its operation at every cursor of the
/// current file, a modifier key is remembered, escape ends the session. Any
/// other key, and a cursor key while no file is open, is reported as
/// unsupported.
pub fn handle_key_down(
    keycode: Keycode,
    repeat: bool,
    program_data: &mut ProgramData,
    timestamp: u32,
) -> (r: Result<(), ProgramError>)
    ensures
        (final(program_data)@, problem_of(r)) == old(program_data)@.key_down(
            keycode,
            timestamp as int,
        ),
{
    let current_file_num = match check_current_file(program_data) {
        Ok(current) => current,
        Err(e) => { return Err(e); },
    };
    if timestamp == program_data.last_text_input_timestamp {
        return Ok(());
    }
    match keycode {
        Keycode::LShift | Keycode::RShift => {
            program_data.keys_pressed.shift_pressed = true;
            Ok(())
        },
        Keycode::LCtrl | Keycode::RCtrl => {
            program_data.keys_pressed.control_pressed = true;
            Ok(())
        },
        Keycode::LAlt | Keycode::RAlt => {
            program_data.keys_pressed.alt_pressed = true;
            Ok(())
        },
        Keycode::Escape => handle_esc_pressed(program_data),
        _ => match (cursor_fn_for_key(keycode), current_file_num) {
            (Some(cursor_fn), Some(file_num)) => run_fn_at_cursors(
                &cursor_fn,
                program_data,
                file_num,
                timestamp,
            ),
            _ => err(
                RawProgramError::UnsupportedInput { details: String::from_str("unknown keycode") },
            ),
        },
    }
}

/// A key went up: a modifier key is released.
pub fn handle_key_up(keycode: Keycode, repeat: bool, program_data: &mut ProgramData) -> (r: Result<
    (),
    ProgramError,
>)
    ensures
        (final(program_data)@, problem_of(r)) == old(program_data)@.key_up(keycode),
{
    let current_file_num = match check_current_file(program_data) {
        Ok(current) => current,
        Err(e) => { return Err(e); },
    };
    if current_file_num.is_none() {
        return Ok(());
    }
    match keycode {
        Keycode::LShift | Keycode::RShift => {
            program_data.keys_pressed.shift_pressed = false;
        },
        Keycode::LCtrl | Keycode::RCtrl => {
            program_data.keys_pressed.control_pressed = false;
        },
        Keycode::LAlt | Keycode::RAlt => {
            program_data.keys_pressed.alt_pressed = false;
        },
        _ => {},
    }
    Ok(())
}

/// Text was typed: it is inserted at every cursor of the current file.
pub fn handle_text_input(text: &str, program_data: &mut ProgramData, timestamp: u32) -> (r: Result<
    (),
    ProgramError,
>)
    ensures
        (final(program_data)@, problem_of(r)) == old(program_data)@.text_input(
            text@,
            timestamp as int,
        ),
{
    let current_file_num = match check_current_file(program_data) {
        Ok(current) => current,
        Err(e) => { return Err(e); },
    };
    let file_num = match current_file_num {
        Some(n) => n,
        None => { return Ok(()); },
    };
    let place_text = CursorFn::PlaceText(chars_of(text));
    let r = run_fn_at_cursors(&place_text, program_data, file_num, timestamp);
    if r.is_ok() {
        program_data.last_text_input_timestamp = timestamp;
    }
    r
}

/// Does to the session what one event asks for.
pub fn handle_event(event: Event, program_data: &mut ProgramData) -> (r: Result<(), ProgramError>)
    ensures
        (final(program_data)@, problem_of(r)) == old(program_data)@.handle_event(event@),
{
    match check_current_file(program_data) {
        Ok(_) => {},
        Err(e) => { return Err(e); },
    }
    match event {
        Event::Quit { timestamp } => {
            program_data.exit = true;
            Ok(())
        },
        Event::KeyDown { keycode: Some(keycode), repeat, timestamp } => handle_key_down(
            keycode,
            repeat,
            program_data,
            timestamp,
        ),
        Event::KeyUp { keycode: Some(keycode), repeat, timestamp } => handle_key_up(
            keycode,
            repeat,
            program_data,
        ),
        Event::TextInput { text, timestamp } => handle_text_input(
            text.as_str(),
            program_data,
            timestamp,
        ),
        _ => Ok(()),
    }
}


/// The events of a batch as the session sees them.
pub open spec fn inputs_of(events: Seq<Event>) -> Seq<Input> {
    events.map_values(|e: Event| e@)
}

fn find_last_key_down(placed: &Vec<Event>, timestamp: u32) -> (found: Option<usize>)
    ensures
        match found {
            Some(k) => k == last_key_down(inputs_of(placed@), timestamp as int) && k
                < placed.len(),
            None => last_key_down(inputs_of(placed@), timestamp as int) == -1,
        },
{
    let ghost all = inputs_of(placed@);
    let mut i: usize = placed.len();
    assert(all.take(i as int) == all);
    while i > 0
        invariant
            i <= placed.len(),
            all == inputs_of(placed@),
            last_key_down(all, timestamp as int) == last_key_down(
                all.take(i as int),
                timestamp as int,
            ),
        decreases i,
    {
        proof {
            assert(all.take(i as int).drop_last() == all.take(i - 1));
            assert(all.take(i as int).last() == placed[i - 1]@);
        }
        match &placed[i - 1] {
            Event::KeyDown { keycode, repeat, timestamp: t } => {
                if *t == timestamp {
                    return Some(i - 1);
                }
            },
            _ => {},
        }
        i -= 1;
    }
    assert(all.take(0).len() == 0);
    None
}

fn find_end_of_texts(placed: &Vec<Event>, from: usize, timestamp: u32) -> (end: usize)
    requires
        from <= placed.len(),
    ensures
        end == end_of_texts(inputs_of(placed@), from as int, timestamp as int),
        from <= end <= placed.len(),
{
    let ghost all = inputs_of(placed@);
    let mut q: usize = from;
    while q < placed.len()
        invariant
            from <= q <= placed.len(),
            all == inputs_of(placed@),
            end_of_texts(all, from as int, timestamp as int) == end_of_texts(
                all,
                q as int,
                timestamp as int,
            ),
        decreases placed.len() - q,
    {
        assert(all[q as int] == placed[q as int]@);
        match &placed[q] {
            Event::TextInput { text, timestamp: t } => {
                if *t != timestamp {
                    return q;
                }
            },
            _ => {
                return q;
            },
        }
        q += 1;
    }
    q
}

/// Takes the first event off `events`.
fn take_first_event(events: &mut Vec<Event>) -> (event: Event)
    requires
        old(events).len() > 0,
    ensures
        event@ == inputs_of(old(events)@)[0],
        inputs_of(final(events)@) == inputs_of(old(events)@).drop_first(),
        final(events).len() == old(events).len() - 1,
{
    let event = events.remove(0);
    assert(inputs_of(events@) =~= inputs_of(old(events)@).drop_first());
    event
}

/// Of a batch `all` of which the first `done` events are dealt with, the
/// first of the rest is event `done`, and without it the rest begins one
/// event later.
proof fn lemma_first_of_the_rest(all: Seq<Input>, done: int)
    requires
        0 <= done < all.len(),
    ensures
        all.subrange(done, all.len() as int)[0] == all[done],
        all.subrange(done, all.len() as int).drop_first() == all.subrange(
            done + 1,
            all.len() as int,
        ),
        all.take(done + 1).drop_last() == all.take(done),
        all.take(done + 1).last() == all[done],
{
}

/// Puts a batch of events into the order in which it is handled: a text
/// input comes directly behind the key-down that bears its timestamp.
pub fn order_events(events: Vec<Event>) -> (ordered: Vec<Event>)
    ensures
        inputs_of(ordered@) == ordered_events(inputs_of(events@)),
{
    let ghost all = inputs_of(events@);
    let mut rest = events;
    let mut placed: Vec<Event> = Vec::new();
    let ghost mut done: int = 0;
    while rest.len() > 0
        invariant
            0 <= done <= all.len(),
            inputs_of(rest@) == all.subrange(done, all.len() as int),
            inputs_of(placed@) == ordered_events(all.take(done)),
        decreases rest.len(),
    {
        let ghost before = inputs_of(placed@);
        let event = take_first_event(&mut rest);
        proof {
            lemma_first_of_the_rest(all, done);
        }
        let at: usize = match &event {
            Event::TextInput { text, timestamp } => match find_last_key_down(&placed, *timestamp) {
                Some(key) => find_end_of_texts(&placed, key + 1, *timestamp),
                None => placed.len(),
            },
            _ => placed.len(),
        };
        placed.insert(at, event);
        proof {
            assert(inputs_of(placed@) =~= before.insert(at as int, event@));
            assert(before.insert(before.len() as int, event@) =~= before.push(event@));
            assert(inputs_of(placed@) == place_event(before, event@));
            done = done + 1;
        }
    }
    assert(all.take(done) == all);
    placed
}

/// Handles a batch of events in their order. An event that fails is put in
/// the error log, and the next one is handled.
pub fn handle_events(events: Vec<Event>, program_data: &mut ProgramData)
    ensures
        final(program_data)@ == old(program_data)@.handle_all(
            ordered_events(inputs_of(events@)),
        ),
{
    let mut rest = order_events(events);
    let ghost all = inputs_of(rest@);
    let ghost mut done: int = 0;
    while rest.len() > 0
        invariant
            0 <= done <= all.len(),
            inputs_of(rest@) == all.subrange(done, all.len() as int),
            program_data@ == old(program_data)@.handle_all(all.take(done)),
        decreases rest.len(),
    {
        let ghost before = program_data@;
        let event = take_first_event(&mut rest);
        proof {
            lemma_first_of_the_rest(all, done);
        }
        match handle_event(event, program_data) {
            Ok(()) => {},
            Err(error) => {
                let ghost logged = program_data@.errors;
                program_data.errors.push(error);
                assert(program_data@.errors =~= logged.push(error@));
            },
        }
        proof {
            assert(program_data@ == before.handle_and_log(event@));
            done = done + 1;
        }
    }
    assert(all.take(done) == all);
}

} // verus!
