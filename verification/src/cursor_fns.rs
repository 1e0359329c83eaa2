//! The cursor engine: movement and editing at one cursor of a file, and the
//! pass that applies one operation at every cursor.

use vstd::prelude::*;
use crate::document::{
    clamp_position, has_cursor_at, lemma_without_duplicates_distinct,
    lemma_without_duplicates_keeps_positions, no_shared_position, position_fault, rederive, splice,
    without_duplicates, without_range, CursorState, Document, Edit,
};
use crate::fns::insert_all;
use crate::errors::{err, problem_of, ProgramError, RawProgramError};
use crate::program_data::{cursors_of, lines_of, Cursor, File, KeysPressed, ProgramData};

verus! {

/// `e` reports the broken bound `fault`.
pub open spec fn is_invalid_index(e: ProgramError, fault: Option<(int, int)>) -> bool {
    match (e.raw, fault) {
        (RawProgramError::InvalidIndex { index, len }, Some((i, l))) => index == i && len == l,
        _ => false,
    }
}

fn check_position(contents: &Vec<Vec<char>>, x: usize, y: usize) -> (r: Result<(), ProgramError>)
    ensures
        match r {
            Ok(()) => position_fault(lines_of(contents@), x as int, y as int) is None && y
                < contents.len() && x <= contents[y as int].len(),
            Err(e) => is_invalid_index(e, position_fault(lines_of(contents@), x as int, y as int)),
        },
{
    if y >= contents.len() {
        return err(RawProgramError::InvalidIndex { index: y, len: contents.len() });
    }
    if x > contents[y].len() {
        return err(RawProgramError::InvalidIndex { index: x, len: contents[y].len() });
    }
    Ok(())
}

/// Cursor `cursor_num` of `file`, if it exists and stands inside the text.
fn locate_cursor(file: &File, cursor_num: usize) -> (r: Result<Cursor, ProgramError>)
    ensures
        match r {
            Ok(c) => file@.cursor_fault(cursor_num as int) is None && cursor_num
                < file.cursors.len() && c == file.cursors[cursor_num as int] && c.y
                < file.contents.len() && c.x <= file.contents[c.y as int].len(),
            Err(e) => is_invalid_index(e, file@.cursor_fault(cursor_num as int)),
        },
{
    if cursor_num >= file.cursors.len() {
        return err(RawProgramError::InvalidIndex { index: cursor_num, len: file.cursors.len() });
    }
    let cursor = file.cursors[cursor_num];
    match check_position(&file.contents, cursor.x, cursor.y) {
        Ok(()) => Ok(cursor),
        Err(e) => Err(e),
    }
}

/// Starts, keeps or clears the selection of a cursor that is about to move.
pub fn handle_cursor_selection_on_move(cursor: &mut Cursor, keys_pressed: &KeysPressed)
    ensures
        final(cursor)@ == (CursorState {
            selection_start: old(cursor)@.anchor_after_move(keys_pressed.shift_pressed),
            ..old(cursor)@
        }),
{
    if keys_pressed.shift_pressed {
        if cursor.selection_start.is_none() {
            cursor.selection_start = Some((cursor.x, cursor.y));
        }
    } else {
        cursor.selection_start = None;
    }
}

/// Puts `cursor` in place of cursor `cursor_num`.
fn store_cursor(file: &mut File, cursor_num: usize, cursor: Cursor)
    requires
        cursor_num < old(file).cursors.len(),
    ensures
        final(file)@ == old(file)@.with_cursor(cursor_num as int, cursor@),
        final(file).contents == old(file).contents,
{
    file.cursors[cursor_num] = cursor;
    assert(file@.cursors =~= old(file)@.cursors.update(cursor_num as int, cursor@));
}

/// Moves cursor `cursor_num` one line up, to its wanted column or to the
/// end of a shorter line; on the first line it stays on the line.
pub fn move_cursor_up_fn(
    current_file: &mut File,
    cursor_num: usize,
    keys_pressed: &KeysPressed,
) -> (r: Result<(), ProgramError>)
    ensures
        match r {
            Ok(()) => {
                &&& old(current_file)@.cursor_fault(cursor_num as int) is None
                &&& final(current_file)@ == old(current_file)@.move_up(
                    cursor_num as int,
                    keys_pressed.shift_pressed,
                )
            },
            Err(e) => {
                &&& is_invalid_index(e, old(current_file)@.cursor_fault(cursor_num as int))
                &&& *final(current_file) == *old(current_file)
            },
        },
{
    let mut cursor = match locate_cursor(current_file, cursor_num) {
        Ok(c) => c,
        Err(e) => { return Err(e); },
    };
    handle_cursor_selection_on_move(&mut cursor, keys_pressed);
    if cursor.y > 0 {
        cursor.y -= 1;
    }
    let max_x: usize = current_file.contents[cursor.y].len();
    cursor.x = if cursor.wanted_x < max_x { cursor.wanted_x } else { max_x };
    store_cursor(current_file, cursor_num, cursor);
    Ok(())
}

/// Moves cursor `cursor_num` one line down, to its wanted column or to the
/// end of a shorter line; on the last line it stays on the line.
pub fn move_cursor_down_fn(
    current_file: &mut File,
    cursor_num: usize,
    keys_pressed: &KeysPressed,
) -> (r: Result<(), ProgramError>)
    ensures
        match r {
            Ok(()) => {
                &&& old(current_file)@.cursor_fault(cursor_num as int) is None
                &&& final(current_file)@ == old(current_file)@.move_down(
                    cursor_num as int,
                    keys_pressed.shift_pressed,
                )
            },
            Err(e) => {
                &&& is_invalid_index(e, old(current_file)@.cursor_fault(cursor_num as int))
                &&& *final(current_file) == *old(current_file)
            },
        },
{
    let mut cursor = match locate_cursor(current_file, cursor_num) {
        Ok(c) => c,
        Err(e) => { return Err(e); },
    };
    handle_cursor_selection_on_move(&mut cursor, keys_pressed);
    if cursor.y + 1 < current_file.contents.len() {
        cursor.y += 1;
    }
    let max_x: usize = current_file.contents[cursor.y].len();
    cursor.x = if cursor.wanted_x < max_x { cursor.wanted_x } else { max_x };
    store_cursor(current_file, cursor_num, cursor);
    Ok(())
}

/// Moves cursor `cursor_num` one character back, from the start of a line
/// to the end of the line before; at the start of the document it stays.
pub fn move_cursor_left_fn(
    current_file: &mut File,
    cursor_num: usize,
    keys_pressed: &KeysPressed,
) -> (r: Result<(), ProgramError>)
    ensures
        match r {
            Ok(()) => {
                &&& old(current_file)@.cursor_fault(cursor_num as int) is None
                &&& final(current_file)@ == old(current_file)@.move_left(
                    cursor_num as int,
                    keys_pressed.shift_pressed,
                )
            },
            Err(e) => {
                &&& is_invalid_index(e, old(current_file)@.cursor_fault(cursor_num as int))
                &&& *final(current_file) == *old(current_file)
            },
        },
{
    let mut cursor = match locate_cursor(current_file, cursor_num) {
        Ok(c) => c,
        Err(e) => { return Err(e); },
    };
    handle_cursor_selection_on_move(&mut cursor, keys_pressed);
    if cursor.x > 0 {
        cursor.x -= 1;
    } else if cursor.y > 0 {
        cursor.y -= 1;
        cursor.x = current_file.contents[cursor.y].len();
    }
    cursor.wanted_x = cursor.x;
    store_cursor(current_file, cursor_num, cursor);
    Ok(())
}

/// Moves cursor `cursor_num` one character on, from the end of a line to
/// the start of the next; at the end of the document it stays.
pub fn move_cursor_right_fn(
    current_file: &mut File,
    cursor_num: usize,
    keys_pressed: &KeysPressed,
) -> (r: Result<(), ProgramError>)
    ensures
        match r {
            Ok(()) => {
                &&& old(current_file)@.cursor_fault(cursor_num as int) is None
                &&& final(current_file)@ == old(current_file)@.move_right(
                    cursor_num as int,
                    keys_pressed.shift_pressed,
                )
            },
            Err(e) => {
                &&& is_invalid_index(e, old(current_file)@.cursor_fault(cursor_num as int))
                &&& *final(current_file) == *old(current_file)
            },
        },
{
    let mut cursor = match locate_cursor(current_file, cursor_num) {
        Ok(c) => c,
        Err(e) => { return Err(e); },
    };
    handle_cursor_selection_on_move(&mut cursor, keys_pressed);
    let max_x: usize = current_file.contents[cursor.y].len();
    if cursor.x < max_x {
        cursor.x += 1;
    } else if cursor.y + 1 < current_file.contents.len() {
        cursor.y += 1;
        cursor.x = 0;
    }
    cursor.wanted_x = cursor.x;
    store_cursor(current_file, cursor_num, cursor);
    Ok(())
}

/// Moves cursor `cursor_num` to the end of its line.
pub fn move_cursor_end_fn(
    current_file: &mut File,
    cursor_num: usize,
    keys_pressed: &KeysPressed,
) -> (r: Result<(), ProgramError>)
    ensures
        match r {
            Ok(()) => {
                &&& old(current_file)@.cursor_fault(cursor_num as int) is None
                &&& final(current_file)@ == old(current_file)@.move_end(
                    cursor_num as int,
                    keys_pressed.shift_pressed,
                )
            },
            Err(e) => {
                &&& is_invalid_index(e, old(current_file)@.cursor_fault(cursor_num as int))
                &&& *final(current_file) == *old(current_file)
            },
        },
{
    let mut cursor = match locate_cursor(current_file, cursor_num) {
        Ok(c) => c,
        Err(e) => { return Err(e); },
    };
    handle_cursor_selection_on_move(&mut cursor, keys_pressed);
    cursor.x = current_file.contents[cursor.y].len();
    cursor.wanted_x = cursor.x;
    store_cursor(current_file, cursor_num, cursor);
    Ok(())
}

fn clamp_to_text(contents: &Vec<Vec<char>>, x: usize, y: usize) -> (r: (usize, usize))
    requires
        contents.len() > 0,
    ensures
        (r.0 as int, r.1 as int) == clamp_position(lines_of(contents@), x as int, y as int),
{
    let cy: usize = if y < contents.len() { y } else { contents.len() - 1 };
    let len: usize = contents[cy].len();
    let cx: usize = if x <= len { x } else { len };
    (cx, cy)
}

/// Pulls every cursor of `file`, and every anchor, back into its text.
fn rederive_cursor_bounds(file: &mut File)
    requires
        old(file).contents.len() > 0,
    ensures
        final(file)@ == (Document {
            cursors: rederive(old(file)@.lines, old(file)@.cursors),
            ..old(file)@
        }),
{
    let n: usize = file.cursors.len();
    let mut j: usize = 0;
    while j < n
        invariant
            j <= n,
            n == file.cursors.len(),
            n == old(file).cursors.len(),
            file.contents == old(file).contents,
            file.contents.len() > 0,
            file.path == old(file).path,
            file.scroll_x == old(file).scroll_x,
            file.scroll_y == old(file).scroll_y,
            forall|k: int|
                0 <= k < j ==> (#[trigger] file.cursors[k])@ == old(file).cursors[k]@.clamped(
                    old(file)@.lines,
                ),
            forall|k: int| j <= k < n ==> #[trigger] file.cursors[k] == old(file).cursors[k],
        decreases n - j,
    {
        let c = file.cursors[j];
        let (x, y) = clamp_to_text(&file.contents, c.x, c.y);
        let selection_start = match c.selection_start {
            Some((ax, ay)) => Some(clamp_to_text(&file.contents, ax, ay)),
            None => None,
        };
        file.cursors[j] = Cursor { x, y, wanted_x: c.wanted_x, selection_start };
        j += 1;
    }
    assert(file@.cursors =~= rederive(old(file)@.lines, old(file)@.cursors));
}

/// Ends a structural edit by cursor `cursor_num`, whose new state is
/// `cursor`: the text of `file` has changed already.
fn finish_edit(file: &mut File, cursor_num: usize, cursor: Cursor)
    requires
        cursor_num < old(file).cursors.len(),
        old(file).contents.len() > 0,
    ensures
        final(file)@ == (Document {
            cursors: rederive(
                old(file)@.lines,
                old(file)@.cursors.update(cursor_num as int, cursor@),
            ),
            ..old(file)@
        }),
{
    store_cursor(file, cursor_num, cursor);
    rederive_cursor_bounds(file);
}

/// Deletes what `cursor` has selected in `contents`, between its anchor and
/// its position, and puts the cursor where the selection began. With nothing
/// selected, nothing changes.
pub fn delete_selected_area(contents: &mut Vec<Vec<char>>, cursor: &mut Cursor) -> (r: Result<
    (),
    ProgramError,
>)
    ensures
        match r {
            Ok(()) => {
                &&& old(cursor)@.selection_fault(lines_of(old(contents)@)) is None
                &&& old(cursor).selection_start is Some ==> {
                    let (start, end) = old(cursor)@.selection_range();
                    &&& lines_of(final(contents)@) == without_range(
                        lines_of(old(contents)@),
                        start,
                        end,
                    )
                    &&& final(cursor)@ == old(cursor)@.after_selection_delete()
                }
                &&& old(cursor).selection_start is None ==> *final(contents) == *old(contents)
                    && *final(cursor) == *old(cursor)
            },
            Err(e) => {
                &&& is_invalid_index(e, old(cursor)@.selection_fault(lines_of(old(contents)@)))
                &&& *final(contents) == *old(contents)
                &&& *final(cursor) == *old(cursor)
            },
        },
{
    match check_position(contents, cursor.x, cursor.y) {
        Ok(()) => {},
        Err(e) => { return Err(e); },
    }
    let (ax, ay) = match cursor.selection_start {
        Some(anchor) => anchor,
        None => { return Ok(()); },
    };
    match check_position(contents, ax, ay) {
        Ok(()) => {},
        Err(e) => { return Err(e); },
    }
    let anchor_first: bool = ay < cursor.y || (ay == cursor.y && ax <= cursor.x);
    let (sx, sy) = if anchor_first { (ax, ay) } else { (cursor.x, cursor.y) };
    let (ex, ey) = if anchor_first { (cursor.x, cursor.y) } else { (ax, ay) };
    let ghost before = lines_of(contents@);
    assert(old(cursor)@.selection_range() == ((sx as int, sy as int), (ex as int, ey as int)));

    let mut tail = contents[ey].split_off(ex);
    contents[sy].truncate(sx);
    contents[sy].append(&mut tail);
    let ghost joined = before[sy as int].subrange(0, sx as int) + before[ey as int].subrange(
        ex as int,
        before[ey as int].len() as int,
    );
    let ghost merged = lines_of(contents@);
    assert(merged.len() == before.len());
    assert(merged[sy as int] == joined);
    assert(forall|k: int| 0 <= k < before.len() && k != sy && k != ey ==> merged[k] == before[k]);

    let mut removed: usize = 0;
    while removed < ey - sy
        invariant
            sy <= ey < merged.len(),
            removed <= ey - sy,
            contents.len() == merged.len() - removed,
            lines_of(contents@) == merged.subrange(0, sy + 1) + merged.subrange(
                sy + 1 + removed,
                merged.len() as int,
            ),
        decreases ey - sy - removed,
    {
        let ghost current = lines_of(contents@);
        contents.remove(sy + 1);
        removed += 1;
        assert(lines_of(contents@) =~= current.remove(sy + 1));
    }
    assert(lines_of(contents@) =~= without_range(
        before,
        (sx as int, sy as int),
        (ex as int, ey as int),
    ));
    cursor.x = sx;
    cursor.y = sy;
    cursor.wanted_x = sx;
    cursor.selection_start = None;
    Ok(())
}

/// Cursor `cursor_num` of `file`, if it exists and stands inside the text
/// with its anchor.
fn locate_selection(file: &File, cursor_num: usize) -> (r: Result<Cursor, ProgramError>)
    ensures
        match r {
            Ok(c) => file@.selection_fault(cursor_num as int) is None && cursor_num
                < file.cursors.len() && c == file.cursors[cursor_num as int] && c.y
                < file.contents.len() && c.x <= file.contents[c.y as int].len(),
            Err(e) => is_invalid_index(e, file@.selection_fault(cursor_num as int)),
        },
{
    let cursor = match locate_cursor(file, cursor_num) {
        Ok(c) => c,
        Err(e) => { return Err(e); },
    };
    match cursor.selection_start {
        Some((ax, ay)) => match check_position(&file.contents, ax, ay) {
            Ok(()) => Ok(cursor),
            Err(e) => Err(e),
        },
        None => Ok(cursor),
    }
}

/// Deletes what cursor `cursor_num` has selected, or else the character
/// before it, or else the line break before it. At the start of the
/// document nothing changes.
pub fn backspace_fn(current_file: &mut File, cursor_num: usize, keys_pressed: &KeysPressed) -> (r:
    Result<(), ProgramError>)
    ensures
        match r {
            Ok(()) => {
                &&& old(current_file)@.selection_fault(cursor_num as int) is None
                &&& final(current_file)@ == old(current_file)@.backspace(cursor_num as int)
            },
            Err(e) => {
                &&& is_invalid_index(e, old(current_file)@.selection_fault(cursor_num as int))
                &&& *final(current_file) == *old(current_file)
            },
        },
{
    let mut cursor = match locate_selection(current_file, cursor_num) {
        Ok(c) => c,
        Err(e) => { return Err(e); },
    };
    if cursor.selection_start.is_some() {
        let deleted = delete_selected_area(&mut current_file.contents, &mut cursor);
        assert(deleted is Ok);
        assert(current_file@.lines.len() > 0);
    } else if cursor.x > 0 {
        current_file.contents[cursor.y].remove(cursor.x - 1);
        cursor.x -= 1;
        cursor.wanted_x = cursor.x;
        assert(current_file@.lines =~= old(current_file)@.lines.update(
            cursor.y as int,
            old(current_file)@.lines[cursor.y as int].remove(cursor.x as int),
        ));
    } else if cursor.y > 0 {
        let mut bottom_line = current_file.contents.remove(cursor.y);
        cursor.y -= 1;
        cursor.x = current_file.contents[cursor.y].len();
        current_file.contents[cursor.y].append(&mut bottom_line);
        cursor.wanted_x = cursor.x;
        assert(current_file@.lines =~= old(current_file)@.lines.update(
            cursor.y as int,
            old(current_file)@.lines[cursor.y as int] + old(current_file)@.lines[cursor.y + 1],
        ).remove(cursor.y + 1));
    } else {
        return Ok(());
    }
    finish_edit(current_file, cursor_num, cursor);
    Ok(())
}

/// Deletes what cursor `cursor_num` has selected, or else the character at
/// it, or else the line break at it. At the end of the document nothing
/// changes.
pub fn delete_fn(current_file: &mut File, cursor_num: usize, keys_pressed: &KeysPressed) -> (r:
    Result<(), ProgramError>)
    ensures
        match r {
            Ok(()) => {
                &&& old(current_file)@.selection_fault(cursor_num as int) is None
                &&& final(current_file)@ == old(current_file)@.delete_forward(cursor_num as int)
            },
            Err(e) => {
                &&& is_invalid_index(e, old(current_file)@.selection_fault(cursor_num as int))
                &&& *final(current_file) == *old(current_file)
            },
        },
{
    let mut cursor = match locate_selection(current_file, cursor_num) {
        Ok(c) => c,
        Err(e) => { return Err(e); },
    };
    if cursor.selection_start.is_some() {
        let deleted = delete_selected_area(&mut current_file.contents, &mut cursor);
        assert(deleted is Ok);
        assert(current_file@.lines.len() > 0);
    } else if cursor.x < current_file.contents[cursor.y].len() {
        current_file.contents[cursor.y].remove(cursor.x);
        cursor.wanted_x = cursor.x;
        assert(current_file@.lines =~= old(current_file)@.lines.update(
            cursor.y as int,
            old(current_file)@.lines[cursor.y as int].remove(cursor.x as int),
        ));
    } else if cursor.y + 1 < current_file.contents.len() {
        let mut next_line = current_file.contents.remove(cursor.y + 1);
        current_file.contents[cursor.y].append(&mut next_line);
        assert(current_file@.lines =~= old(current_file)@.lines.update(
            cursor.y as int,
            old(current_file)@.lines[cursor.y as int] + old(current_file)@.lines[cursor.y + 1],
        ).remove(cursor.y + 1));
    } else {
        return Ok(());
    }
    finish_edit(current_file, cursor_num, cursor);
    Ok(())
}

/// Splits the line of cursor `cursor_num` where it stands and puts the
/// cursor at the start of the new line.
pub fn return_fn(current_file: &mut File, cursor_num: usize, keys_pressed: &KeysPressed) -> (r:
    Result<(), ProgramError>)
    ensures
        match r {
            Ok(()) => {
                &&& old(current_file)@.cursor_fault(cursor_num as int) is None
                &&& final(current_file)@ == old(current_file)@.split_line(cursor_num as int)
            },
            Err(e) => {
                &&& is_invalid_index(e, old(current_file)@.cursor_fault(cursor_num as int))
                &&& *final(current_file) == *old(current_file)
            },
        },
{
    let mut cursor = match locate_cursor(current_file, cursor_num) {
        Ok(c) => c,
        Err(e) => { return Err(e); },
    };
    let new_line = current_file.contents[cursor.y].split_off(cursor.x);
    current_file.contents.insert(cursor.y + 1, new_line);
    assert(current_file@.lines =~= old(current_file)@.lines.update(
        cursor.y as int,
        old(current_file)@.lines[cursor.y as int].subrange(0, cursor.x as int),
    ).insert(
        cursor.y + 1,
        old(current_file)@.lines[cursor.y as int].subrange(
            cursor.x as int,
            old(current_file)@.lines[cursor.y as int].len() as int,
        ),
    ));
    cursor.y += 1;
    cursor.x = 0;
    cursor.wanted_x = 0;
    finish_edit(current_file, cursor_num, cursor);
    Ok(())
}

/// Inserts `text` where cursor `cursor_num` stands and moves the cursor past
/// it.
pub fn place_text_fn(current_file: &mut File, cursor_num: usize, text: &Vec<char>) -> (r: Result<
    (),
    ProgramError,
>)
    ensures
        match r {
            Ok(()) => {
                &&& old(current_file)@.cursor_fault(cursor_num as int) is None
                &&& final(current_file)@ == old(current_file)@.insert_text(cursor_num as int, text@)
            },
            Err(e) => {
                &&& is_invalid_index(e, old(current_file)@.cursor_fault(cursor_num as int))
                &&& *final(current_file) == *old(current_file)
            },
        },
{
    let mut cursor = match locate_cursor(current_file, cursor_num) {
        Ok(c) => c,
        Err(e) => { return Err(e); },
    };
    insert_all(text.as_slice(), &mut current_file.contents[cursor.y], cursor.x);
    let ghost line_before = old(current_file).contents[cursor.y as int]@;
    assert(current_file.contents[cursor.y as int].len() == line_before.len() + text.len());
    assert(current_file@.lines =~= old(current_file)@.lines.update(
        cursor.y as int,
        splice(old(current_file)@.lines[cursor.y as int], cursor.x as int, text@),
    ));
    cursor.x += text.len();
    cursor.wanted_x = cursor.x;
    finish_edit(current_file, cursor_num, cursor);
    Ok(())
}

/// Whether one of `cursors` stands at `(x, y)`.
fn has_cursor_at_position(cursors: &Vec<Cursor>, x: usize, y: usize) -> (found: bool)
    ensures
        found == has_cursor_at(cursors_of(cursors@), x as int, y as int),
{
    let mut k: usize = 0;
    while k < cursors.len()
        invariant
            k <= cursors.len(),
            !has_cursor_at(cursors_of(cursors@).take(k as int), x as int, y as int),
        decreases cursors.len() - k,
    {
        if cursors[k].x == x && cursors[k].y == y {
            assert(cursors_of(cursors@)[k as int].x == x);
            return true;
        }
        proof {
            let before = cursors_of(cursors@).take(k as int);
            let after = cursors_of(cursors@).take(k + 1);
            if has_cursor_at(after, x as int, y as int) {
                let j = choose|j: int|
                    0 <= j < after.len() && (#[trigger] after[j]).x == x && after[j].y == y;
                assert(before[j] == after[j]);
            }
        }
        k += 1;
    }
    assert(cursors_of(cursors@).take(k as int) == cursors_of(cursors@));
    false
}

/// Removes every cursor that stands where an earlier cursor stands.
pub fn remove_cursor_duplicates(cursors: &mut Vec<Cursor>)
    ensures
        cursors_of(final(cursors)@) == without_duplicates(cursors_of(old(cursors)@)),
        no_shared_position(cursors_of(final(cursors)@)),
{
    let mut kept: Vec<Cursor> = Vec::new();
    let mut i: usize = 0;
    while i < cursors.len()
        invariant
            i <= cursors.len(),
            *cursors == *old(cursors),
            cursors_of(kept@) == without_duplicates(cursors_of(cursors@).take(i as int)),
        decreases cursors.len() - i,
    {
        let c = cursors[i];
        let seen = has_cursor_at_position(&kept, c.x, c.y);
        proof {
            let all = cursors_of(cursors@);
            assert(all.take(i + 1).drop_last() == all.take(i as int));
            assert(all.take(i + 1).last() == c@);
            lemma_without_duplicates_keeps_positions(all.take(i as int), c.x as int, c.y as int);
        }
        if !seen {
            let ghost earlier = cursors_of(kept@);
            kept.push(c);
            assert(cursors_of(kept@) =~= earlier.push(c@));
        }
        i += 1;
    }
    proof {
        assert(cursors_of(cursors@).take(i as int) == cursors_of(cursors@));
        lemma_without_duplicates_distinct(cursors_of(cursors@));
    }
    *cursors = kept;
}

/// One operation of the cursor engine, to be applied at a cursor.
#[derive(Debug, Clone, PartialEq, Eq)]
pub enum CursorFn {
    MoveUp,
    MoveDown,
    MoveLeft,
    MoveRight,
    MoveEnd,
    Backspace,
    Delete,
    Return,
    PlaceText(Vec<char>),
}

impl View for CursorFn {
    type V = Edit;

    open spec fn view(&self) -> Edit {
        match self {
            CursorFn::MoveUp => Edit::MoveUp,
            CursorFn::MoveDown => Edit::MoveDown,
            CursorFn::MoveLeft => Edit::MoveLeft,
            CursorFn::MoveRight => Edit::MoveRight,
            CursorFn::MoveEnd => Edit::MoveEnd,
            CursorFn::Backspace => Edit::Backspace,
            CursorFn::Delete => Edit::Delete,
            CursorFn::Return => Edit::Return,
            CursorFn::PlaceText(text) => Edit::PlaceText(text@),
        }
    }
}

/// Applies `cursor_fn` at cursor `cursor_num` of `current_file`.
pub fn apply_cursor_fn(
    cursor_fn: &CursorFn,
    current_file: &mut File,
    cursor_num: usize,
    keys_pressed: &KeysPressed,
) -> (r: Result<(), ProgramError>)
    ensures
        match r {
            Ok(()) => {
                &&& old(current_file)@.fault_for(cursor_num as int, cursor_fn@) is None
                &&& final(current_file)@ == old(current_file)@.apply(
                    cursor_num as int,
                    cursor_fn@,
                    keys_pressed.shift_pressed,
                )
            },
            Err(e) => {
                &&& is_invalid_index(e, old(current_file)@.fault_for(cursor_num as int, cursor_fn@))
                &&& *final(current_file) == *old(current_file)
            },
        },
        old(current_file)@.wf() && cursor_num < old(current_file).cursors.len() ==> r is Ok
            && final(current_file)@.wf(),
{
    proof {
        if current_file@.wf() && cursor_num < current_file.cursors.len() {
            crate::theorems::lemma_well_formed_has_no_fault(
                current_file@,
                cursor_num as int,
                cursor_fn@,
            );
            crate::theorems::lemma_apply_preserves_well_formed(
                current_file@,
                cursor_num as int,
                cursor_fn@,
                keys_pressed.shift_pressed,
            );
        }
    }
    match cursor_fn {
        CursorFn::MoveUp => move_cursor_up_fn(current_file, cursor_num, keys_pressed),
        CursorFn::MoveDown => move_cursor_down_fn(current_file, cursor_num, keys_pressed),
        CursorFn::MoveLeft => move_cursor_left_fn(current_file, cursor_num, keys_pressed),
        CursorFn::MoveRight => move_cursor_right_fn(current_file, cursor_num, keys_pressed),
        CursorFn::MoveEnd => move_cursor_end_fn(current_file, cursor_num, keys_pressed),
        CursorFn::Backspace => backspace_fn(current_file, cursor_num, keys_pressed),
        CursorFn::Delete => delete_fn(current_file, cursor_num, keys_pressed),
        CursorFn::Return => return_fn(current_file, cursor_num, keys_pressed),
        CursorFn::PlaceText(text) => place_text_fn(current_file, cursor_num, text),
    }
}

/// Applies `cursor_fn` at every cursor of `current_file` in ascending order,
/// then removes the cursors that have come to stand where an earlier one
/// stands. A bound that stops the operation at some cursor ends the pass
/// there, with what was done so far.
pub fn apply_to_all_cursors(
    cursor_fn: &CursorFn,
    keys_pressed: &KeysPressed,
    current_file: &mut File,
) -> (r: Result<(), ProgramError>)
    ensures
        ({
            let n = old(current_file)@.cursors.len() as int;
            let extend = keys_pressed.shift_pressed;
            let fault = old(current_file)@.pass_fault(cursor_fn@, extend, 0, n);
            let passed = old(current_file)@.pass_from(cursor_fn@, extend, 0, n);
            match r {
                Ok(()) => fault is None && final(current_file)@ == passed.deduplicated()
                    && no_shared_position(final(current_file)@.cursors),
                Err(e) => is_invalid_index(e, fault) && final(current_file)@ == passed,
            }
        }),
        old(current_file)@.wf() ==> r is Ok && final(current_file)@.wf(),
{
    let n: usize = current_file.cursors.len();
    let ghost extend = keys_pressed.shift_pressed;
    proof {
        if current_file@.wf() {
            crate::theorems::lemma_pass_preserves_well_formed(
                current_file@,
                cursor_fn@,
                extend,
                0,
                n as int,
            );
        }
    }
    let mut i: usize = 0;
    while i < n
        invariant
            i <= n,
            n == current_file.cursors.len(),
            n == old(current_file).cursors.len(),
            current_file@.pass_from(cursor_fn@, extend, i as int, n as int)
                == old(current_file)@.pass_from(cursor_fn@, extend, 0, n as int),
            current_file@.pass_fault(cursor_fn@, extend, i as int, n as int)
                == old(current_file)@.pass_fault(cursor_fn@, extend, 0, n as int),
            extend == keys_pressed.shift_pressed,
            old(current_file)@.wf() ==> old(current_file)@.pass_fault(
                cursor_fn@,
                extend,
                0,
                n as int,
            ) is None && old(current_file)@.pass_from(
                cursor_fn@,
                extend,
                0,
                n as int,
            ).deduplicated().wf(),
        decreases n - i,
    {
        let ghost before = current_file@;
        match apply_cursor_fn(cursor_fn, current_file, i, keys_pressed) {
            Ok(()) => {},
            Err(e) => {
                return Err(e);
            },
        }
        proof {
            crate::document::lemma_apply_keeps_cursor_count(before, i as int, cursor_fn@, extend);
            assert(current_file@.cursors.len() == current_file.cursors.len());
        }
        i += 1;
    }
    remove_cursor_duplicates(&mut current_file.cursors);
    Ok(())
}

/// One pass of the cursor engine over file `file_num` of the session, for
/// an input that bears `timestamp`: applies `cursor_fn` at every cursor of
/// the file in ascending order, with the selection extended while shift is
/// held, then removes the cursors that have come to stand where an earlier
/// one stands, and records `timestamp` as the time of the last edit. A
/// bound that stops the operation at some cursor ends the pass there: what
/// was done so far stays, the time of the last edit does not change, and
/// the bound is reported. Where there is no file `file_num`, nothing is
/// done and that is reported.
pub fn run_fn_at_cursors(
    cursor_fn: &CursorFn,
    program_data: &mut ProgramData,
    file_num: usize,
    timestamp: u32,
) -> (r: Result<(), ProgramError>)
    ensures
        (final(program_data)@, problem_of(r)) == old(program_data)@.run_pass(
            file_num as int,
            cursor_fn@,
            timestamp as int,
        ),
        r is Ok ==> no_shared_position(final(program_data)@.files[file_num as int].cursors),
        old(program_data)@.files_wf() && file_num < old(program_data).files.len() ==> r is Ok
            && final(program_data)@.files_wf(),
{
    if file_num >= program_data.files.len() {
        return err(
            RawProgramError::InvalidFileIndex {
                file_index: file_num,
                num_of_files: program_data.files.len(),
            },
        );
    }
    proof {
        if program_data@.files_wf() {
            crate::theorems::lemma_run_pass_well_formed(
                program_data@,
                file_num as int,
                cursor_fn@,
                timestamp as int,
            );
        }
    }
    let keys_pressed = program_data.keys_pressed;
    let r = apply_to_all_cursors(cursor_fn, &keys_pressed, &mut program_data.files[file_num]);
    if r.is_ok() {
        program_data.cursor_place_timestamp = timestamp;
    }
    assert(program_data@.files =~= old(program_data)@.files.update(
        file_num as int,
        program_data.files[file_num as int]@,
    ));
    r
}

} // verus!
