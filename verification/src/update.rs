//! One frame of the interactive actor.

use vstd::prelude::*;
use crate::errors::ProgramError;
use crate::events::{handle_events, inputs_of, Event};
use crate::program_data::ProgramData;
use crate::session::{ordered_events, Problem, Session};

verus! {

/// What the errors of a log say, oldest first.
pub open spec fn problems_of(errors: Seq<ProgramError>) -> Seq<Problem> {
    errors.map_values(|e: ProgramError| e@)
}

/// The number of the frame after frame `count`: it starts again at zero
/// after the largest number.
pub open spec fn next_frame(count: int) -> int {
    if count == u32::MAX {
        0
    } else {
        count + 1
    }
}

/// Empties the error log and hands out what it held, so that each error is
/// shown once.
pub fn take_errors(program_data: &mut ProgramData) -> (shown: Vec<ProgramError>)
    ensures
        problems_of(shown@) == old(program_data)@.errors,
        final(program_data)@ == (Session { errors: Seq::empty(), ..old(program_data)@ }),
{
    let mut shown: Vec<ProgramError> = Vec::new();
    shown.append(&mut program_data.errors);
    assert(problems_of(shown@) =~= old(program_data)@.errors);
    assert(program_data@.errors =~= Seq::empty());
    shown
}

/// One frame: handles the events that have come in, hands out the errors to
/// be shown, and counts the frame.
pub fn update(program_data: &mut ProgramData, events: Vec<Event>) -> (shown: Vec<ProgramError>)
    ensures
        ({
            let handled = old(program_data)@.handle_all(ordered_events(inputs_of(events@)));
            &&& problems_of(shown@) == handled.errors
            &&& final(program_data)@ == (Session {
                errors: Seq::empty(),
                frame_count: next_frame(handled.frame_count),
                ..handled
            })
        }),
{
    handle_events(events, program_data);
    let shown = take_errors(program_data);
    program_data.frame_count = if program_data.frame_count == u32::MAX {
        0
    } else {
        program_data.frame_count + 1
    };
    shown
}

} // verus!
