//! What holds of the cursor engine whatever the document and the operation.

use vstd::prelude::*;
use crate::document::{
    in_bounds, lemma_without_duplicates_first, lemma_without_duplicates_members, rederive,
    without_duplicates, CursorState, Document, Edit,
};

use crate::fns::{lemma_lines_of_text_nonempty, lines_of_text};
use crate::session::{
    end_of_texts, join_lines, last_key_down, ordered_events, place_event, Input, Outcome, Session,
    Step, Task,
};

verus! {

/// A cursor pulled back into a text that has a line stands inside it, and so
/// does its anchor.
pub proof fn lemma_clamped_in_bounds(c: CursorState, lines: Seq<Seq<char>>)
    requires
        lines.len() > 0,
        c.x >= 0,
        c.y >= 0,
        c.selection_start matches Some((ax, ay)) ==> ax >= 0 && ay >= 0,
    ensures
        c.clamped(lines).in_bounds(lines),
        c.clamped(lines).anchor_in_bounds(lines),
        c.clamped(lines).wanted_x == c.wanted_x,
        c.in_bounds(lines) && c.anchor_in_bounds(lines) ==> c.clamped(lines) == c,
{
}

/// No bound stops a movement or an insertion at cursor `i` exactly if the
/// cursor exists and stands inside the text.
pub proof fn lemma_no_fault_means_in_bounds(doc: Document, i: int)
    requires
        0 <= i,
        i < doc.cursors.len() ==> doc.cursors[i].x >= 0 && doc.cursors[i].y >= 0,
    ensures
        doc.cursor_fault(i) is None <==> doc.cursor_ok(i),
{
}

/// In a well-formed document no bound stops any operation at any cursor.
pub proof fn lemma_well_formed_has_no_fault(doc: Document, i: int, cursor_fn: Edit)
    requires
        doc.wf(),
        0 <= i < doc.cursors.len(),
    ensures
        doc.fault_for(i, cursor_fn) is None,
{
    assert(doc.cursors[i].in_bounds(doc.lines));
}

/// A structural edit that leaves a line, and cursor `i` at a position that
/// is not negative, leaves a well-formed document.
proof fn lemma_edited_well_formed(doc: Document, lines: Seq<Seq<char>>, i: int, c: CursorState)
    requires
        doc.wf(),
        0 <= i < doc.cursors.len(),
        lines.len() > 0,
        c.x >= 0,
        c.y >= 0,
        c.wanted_x >= 0,
        c.selection_start matches Some((ax, ay)) ==> ax >= 0 && ay >= 0,
    ensures
        doc.edited(lines, i, c).wf(),
{
    let cursors = doc.cursors.update(i, c);
    let after = rederive(lines, cursors);
    assert forall|k: int| 0 <= k < after.len() implies (#[trigger] after[k]).in_bounds(lines)
        && after[k].anchor_in_bounds(lines) && after[k].wanted_x >= 0 by {
        if k != i {
            assert(doc.cursors[k].in_bounds(doc.lines));
        }
        lemma_clamped_in_bounds(cursors[k], lines);
    }
}

/// Every operation of the cursor engine, at any cursor, leaves a well-formed
/// document well-formed: every cursor still stands inside the text.
pub proof fn lemma_apply_preserves_well_formed(
    doc: Document,
    i: int,
    cursor_fn: Edit,
    extend: bool,
)
    requires
        doc.wf(),
        0 <= i < doc.cursors.len(),
    ensures
        doc.apply(i, cursor_fn, extend).wf(),
{
    let c = doc.cursors[i];
    assert(c.in_bounds(doc.lines) && c.anchor_in_bounds(doc.lines));
    let after = doc.apply(i, cursor_fn, extend);
    match cursor_fn {
        Edit::MoveUp | Edit::MoveDown | Edit::MoveLeft | Edit::MoveRight
        | Edit::MoveEnd => {
            assert forall|k: int| 0 <= k < after.cursors.len() implies (#[trigger] after.cursors[k]).in_bounds(
                after.lines,
            ) && after.cursors[k].anchor_in_bounds(after.lines) && after.cursors[k].wanted_x
                >= 0 by {
                if k != i {
                    assert(doc.cursors[k].in_bounds(doc.lines));
                }
            }
        },
        Edit::Backspace => {
            if c.selection_start is Some {
                lemma_delete_selection_well_formed(doc, i);
            } else if c.x > 0 {
                lemma_edited_well_formed(
                    doc,
                    doc.lines.update(c.y, doc.lines[c.y].remove(c.x - 1)),
                    i,
                    CursorState { x: c.x - 1, wanted_x: c.x - 1, ..c },
                );
            } else if c.y > 0 {
                let x = doc.lines[c.y - 1].len() as int;
                lemma_edited_well_formed(
                    doc,
                    doc.lines.update(c.y - 1, doc.lines[c.y - 1] + doc.lines[c.y]).remove(c.y),
                    i,
                    CursorState { x, y: c.y - 1, wanted_x: x, ..c },
                );
            }
        },
        Edit::Delete => {
            if c.selection_start is Some {
                lemma_delete_selection_well_formed(doc, i);
            } else if c.x < doc.lines[c.y].len() {
                lemma_edited_well_formed(
                    doc,
                    doc.lines.update(c.y, doc.lines[c.y].remove(c.x)),
                    i,
                    CursorState { wanted_x: c.x, ..c },
                );
            } else if c.y + 1 < doc.lines.len() {
                lemma_edited_well_formed(
                    doc,
                    doc.lines.update(c.y, doc.lines[c.y] + doc.lines[c.y + 1]).remove(c.y + 1),
                    i,
                    c,
                );
            }
        },
        Edit::Return => {
            let line = doc.lines[c.y];
            lemma_edited_well_formed(
                doc,
                doc.lines.update(c.y, line.subrange(0, c.x)).insert(
                    c.y + 1,
                    line.subrange(c.x, line.len() as int),
                ),
                i,
                CursorState { x: 0, y: c.y + 1, wanted_x: 0, ..c },
            );
        },
        Edit::PlaceText(text) => {
            let x = c.x + text.len();
            lemma_edited_well_formed(
                doc,
                doc.lines.update(c.y, crate::document::splice(doc.lines[c.y], c.x, text)),
                i,
                CursorState { x, wanted_x: x, ..c },
            );
        },
    }
}

proof fn lemma_delete_selection_well_formed(doc: Document, i: int)
    requires
        doc.wf(),
        0 <= i < doc.cursors.len(),
        doc.cursors[i].selection_start is Some,
    ensures
        doc.delete_selection(i).wf(),
{
    let c = doc.cursors[i];
    assert(c.in_bounds(doc.lines) && c.anchor_in_bounds(doc.lines));
    let (start, end) = c.selection_range();
    lemma_edited_well_formed(
        doc,
        crate::document::without_range(doc.lines, start, end),
        i,
        c.after_selection_delete(),
    );
}

/// Removing duplicate cursors leaves a well-formed document well-formed.
pub proof fn lemma_deduplicated_well_formed(doc: Document)
    requires
        doc.wf(),
    ensures
        doc.deduplicated().wf(),
{
    let kept = without_duplicates(doc.cursors);
    lemma_without_duplicates_first(doc.cursors);
    assert forall|k: int| 0 <= k < kept.len() implies (#[trigger] kept[k]).in_bounds(doc.lines)
        && kept[k].anchor_in_bounds(doc.lines) && kept[k].wanted_x >= 0 by {
        lemma_without_duplicates_members(doc.cursors, k);
        let j = choose|j: int| 0 <= j < doc.cursors.len() && doc.cursors[j] == kept[k];
        assert(doc.cursors[j].in_bounds(doc.lines));
    }
}

/// A pass over a well-formed document is never stopped, and what it leaves,
/// before and after the duplicates are removed, is well-formed.
pub proof fn lemma_pass_preserves_well_formed(
    doc: Document,
    cursor_fn: Edit,
    extend: bool,
    i: int,
    n: int,
)
    requires
        doc.wf(),
        0 <= i <= n,
        n == doc.cursors.len(),
    ensures
        doc.pass_fault(cursor_fn, extend, i, n) is None,
        doc.pass_from(cursor_fn, extend, i, n).wf(),
        doc.pass_from(cursor_fn, extend, i, n).deduplicated().wf(),
    decreases n - i,
{
    if i < n {
        lemma_well_formed_has_no_fault(doc, i, cursor_fn);
        lemma_apply_preserves_well_formed(doc, i, cursor_fn, extend);
        crate::document::lemma_apply_keeps_cursor_count(doc, i, cursor_fn, extend);
        lemma_pass_preserves_well_formed(
            doc.apply(i, cursor_fn, extend),
            cursor_fn,
            extend,
            i + 1,
            n,
        );
    }
    lemma_deduplicated_well_formed(doc.pass_from(cursor_fn, extend, i, n));
}

/// One step of a session of edits: an operation, the cursor it is applied
/// at, and whether movement extends the selection.
pub struct EditStep {
    pub cursor_fn: Edit,
    pub cursor_num: int,
    pub extend: bool,
}

/// The document after `steps`, each applied in turn at its cursor; a step
/// that names no cursor of the document changes nothing.
pub open spec fn after_steps(doc: Document, steps: Seq<EditStep>) -> Document
    decreases steps.len(),
{
    if steps.len() == 0 {
        doc
    } else {
        let before = after_steps(doc, steps.drop_last());
        let step = steps.last();
        if 0 <= step.cursor_num < before.cursors.len() {
            before.apply(step.cursor_num, step.cursor_fn, step.extend)
        } else {
            before
        }
    }
}

/// After any sequence of operations of the cursor engine on a well-formed
/// document, every cursor stands at a position that the text has.
pub proof fn lemma_cursors_stay_in_bounds(doc: Document, steps: Seq<EditStep>)
    requires
        doc.wf(),
    ensures
        after_steps(doc, steps).wf(),
        forall|k: int|
            0 <= k < after_steps(doc, steps).cursors.len() ==> in_bounds(
                after_steps(doc, steps).lines,
                (#[trigger] after_steps(doc, steps).cursors[k]).x,
                after_steps(doc, steps).cursors[k].y,
            ),
    decreases steps.len(),
{
    if steps.len() > 0 {
        lemma_cursors_stay_in_bounds(doc, steps.drop_last());
        let before = after_steps(doc, steps.drop_last());
        let step = steps.last();
        if 0 <= step.cursor_num < before.cursors.len() {
            lemma_apply_preserves_well_formed(before, step.cursor_num, step.cursor_fn, step.extend);
        }
    }
    let after = after_steps(doc, steps);
    assert forall|k: int| 0 <= k < after.cursors.len() implies in_bounds(
        after.lines,
        (#[trigger] after.cursors[k]).x,
        after.cursors[k].y,
    ) by {
        assert(after.cursors[k].in_bounds(after.lines));
    }
}


/// Moving a cursor left and then right brings it back to where it stood,
/// with the wanted column it had, unless it stood at the start of the
/// document, where the move to the left does nothing. The wanted column is
/// the one the cursor had if it was the cursor's own column, as it is after
/// every horizontal move and every edit.
pub proof fn lemma_left_then_right_returns(
    doc: Document,
    i: int,
    extend_left: bool,
    extend_right: bool,
)
    requires
        doc.cursor_ok(i),
        !(doc.cursors[i].x == 0 && doc.cursors[i].y == 0),
        doc.cursors[i].wanted_x == doc.cursors[i].x,
    ensures
        ({
            let after = doc.move_left(i, extend_left).move_right(i, extend_right);
            &&& after.cursors[i].x == doc.cursors[i].x
            &&& after.cursors[i].y == doc.cursors[i].y
            &&& after.cursors[i].wanted_x == doc.cursors[i].wanted_x
            &&& after.lines == doc.lines
        }),
{
}

/// The document after `count` presses of backspace at cursor `i`.
pub open spec fn after_backspaces(doc: Document, i: int, count: nat) -> Document
    decreases count,
{
    if count == 0 {
        doc
    } else {
        after_backspaces(doc.backspace(i), i, (count - 1) as nat)
    }
}

/// With nothing selected, `count` presses of backspace at a cursor that has
/// at least `count` characters before it on its line remove exactly those
/// characters and move the cursor back by `count`.
proof fn lemma_backspaces_within_line(doc: Document, i: int, count: nat)
    requires
        doc.cursor_ok(i),
        doc.cursors[i].selection_start is None,
        doc.cursors[i].x >= count,
    ensures
        ({
            let c = doc.cursors[i];
            let line = doc.lines[c.y];
            let after = after_backspaces(doc, i, count);
            &&& after.lines == doc.lines.update(
                c.y,
                line.subrange(0, c.x - count) + line.subrange(c.x, line.len() as int),
            )
            &&& after.cursors.len() == doc.cursors.len()
            &&& after.cursors[i].x == c.x - count
            &&& after.cursors[i].y == c.y
            &&& after.cursors[i].selection_start is None
        }),
    decreases count,
{
    let c = doc.cursors[i];
    let line = doc.lines[c.y];
    if count == 0 {
        assert(line.subrange(0, c.x) + line.subrange(c.x, line.len() as int) =~= line);
        assert(doc.lines.update(c.y, line) =~= doc.lines);
    } else {
        let next = doc.backspace(i);
        let shorter = line.remove(c.x - 1);
        assert(next.lines == doc.lines.update(c.y, shorter));
        assert(next.cursors[i] == (CursorState { x: c.x - 1, wanted_x: c.x - 1, ..c }));
        lemma_backspaces_within_line(next, i, (count - 1) as nat);
        assert(shorter.subrange(0, c.x - 1 - (count - 1)) + shorter.subrange(
            c.x - 1,
            shorter.len() as int,
        ) =~= line.subrange(0, c.x - count) + line.subrange(c.x, line.len() as int));
        assert(next.lines.update(
            c.y,
            line.subrange(0, c.x - count) + line.subrange(c.x, line.len() as int),
        ) =~= doc.lines.update(
            c.y,
            line.subrange(0, c.x - count) + line.subrange(c.x, line.len() as int),
        ));
    }
}

/// Inserting a text at a cursor that has nothing selected, and then pressing
/// backspace once for each character of the text, gives back the text that
/// the document had, with the cursor where it was.
pub proof fn lemma_insert_then_backspaces_restores(doc: Document, i: int, text: Seq<char>)
    requires
        doc.cursor_ok(i),
        doc.cursors[i].selection_start is None,
    ensures
        ({
            let after = after_backspaces(doc.insert_text(i, text), i, text.len());
            &&& after.lines == doc.lines
            &&& after.cursors[i].x == doc.cursors[i].x
            &&& after.cursors[i].y == doc.cursors[i].y
        }),
{
    let c = doc.cursors[i];
    let line = doc.lines[c.y];
    let inserted = doc.insert_text(i, text);
    let longer = crate::document::splice(line, c.x, text);
    assert(inserted.lines == doc.lines.update(c.y, longer));
    assert(inserted.cursors[i] == (CursorState {
        x: c.x + text.len(),
        wanted_x: c.x + text.len(),
        ..c
    }));
    lemma_backspaces_within_line(inserted, i, text.len());
    assert(longer.subrange(0, c.x) + longer.subrange(c.x + text.len(), longer.len() as int)
        =~= line);
    assert(inserted.lines.update(c.y, line) =~= doc.lines);
}

/// Backspace at the start of the document, with nothing selected, changes
/// nothing.
pub proof fn lemma_backspace_at_start_is_noop(doc: Document, i: int)
    requires
        doc.cursor_ok(i),
        doc.cursors[i].selection_start is None,
        doc.cursors[i].x == 0,
        doc.cursors[i].y == 0,
    ensures
        doc.backspace(i) == doc,
{
}

/// Delete at the end of the last line, with nothing selected, changes
/// nothing.
pub proof fn lemma_delete_at_end_is_noop(doc: Document, i: int)
    requires
        doc.cursor_ok(i),
        doc.cursors[i].selection_start is None,
        doc.cursors[i].y == doc.lines.len() - 1,
        doc.cursors[i].x == doc.lines[doc.cursors[i].y].len(),
    ensures
        doc.delete_forward(i) == doc,
{
}


/// The worker takes the tasks in the order in which they were queued: the
/// task it starts is the oldest, and a task queued now starts after all
/// that wait already.
pub proof fn lemma_tasks_start_in_order(session: Session, task: Task)
    requires
        session.may_start_task(),
    ensures
        session.next_step().1 == Step::Run(session.tasks[0]),
        session.next_step().0.tasks == session.tasks.drop_first(),
        session.enqueue(task).next_step().1 == Step::Run(session.tasks[0]),
        session.enqueue(task).next_step().0.tasks == session.tasks.drop_first().push(task),
{
    assert(session.enqueue(task).tasks.drop_first() =~= session.tasks.drop_first().push(task));
}

/// While the interactive actor holds the pause, the worker starts no task
/// and takes none from the queue.
pub proof fn lemma_pause_holds_the_worker(session: Session)
    requires
        session.tasks_paused,
    ensures
        !(session.next_step().1 is Run),
        session.next_step().0.tasks == session.tasks,
        session.next_step().0.files == session.files,
        !session.next_step().0.tasks_ongoing,
{
}

/// Once the request for a snapshot is answered with "ready", the worker is
/// idle and stays idle, whatever it decides, until the snapshot is
/// released.
pub proof fn lemma_snapshot_excludes_the_worker(session: Session)
    requires
        session.request_render_snapshot().1,
    ensures
        ({
            let paused = session.request_render_snapshot().0;
            &&& !paused.tasks_ongoing
            &&& paused.files == session.files
            &&& !(paused.next_step().1 is Run)
            &&& paused.next_step().0.request_render_snapshot().1
        }),
{
}

/// A task in flight keeps the snapshot from being ready, and the step that
/// ends the task is the one that puts its effects in place: when the worker
/// is seen idle, what the task did is there to be seen.
pub proof fn lemma_pause_waits_for_the_task(session: Session, task: Task, outcome: Outcome)
    requires
        session.tasks_ongoing,
    ensures
        !session.request_render_snapshot().1,
        ({
            let paused = session.request_render_snapshot().0;
            let finished = paused.complete_task(task, outcome);
            &&& finished.request_render_snapshot().1
            &&& finished.files == session.process_task(task, outcome).files
            &&& finished.current_file_num == session.process_task(task, outcome).current_file_num
            &&& finished.tasks_paused
        }),
{
}

/// Every task that the worker ends has an outcome: it has changed the
/// session as it should, or its error is the last of the log.
pub proof fn lemma_no_task_is_dropped(session: Session, task: Task, outcome: Outcome)
    ensures
        match session.task_problem(task, outcome) {
            Some(problem) => session.complete_task(task, outcome).errors == session.errors.push(
                problem,
            ) && session.complete_task(task, outcome).files == session.files,
            None => session.complete_task(task, outcome).errors == session.errors
                && session.complete_task(task, outcome).files == session.process_task(
                task,
                outcome,
            ).files,
        },
{
}

/// A pass over a file of a session whose files are well-formed leaves them
/// well-formed, and reports no broken bound.
pub proof fn lemma_run_pass_well_formed(session: Session, n: int, edit: Edit, timestamp: int)
    requires
        session.files_wf(),
        0 <= n < session.files.len(),
    ensures
        session.run_pass(n, edit, timestamp).0.files_wf(),
        session.run_pass(n, edit, timestamp).1 is None,
{
    let doc = session.files[n];
    assert(doc.wf());
    lemma_pass_preserves_well_formed(
        doc,
        edit,
        session.keys_pressed.shift_pressed,
        0,
        doc.cursors.len() as int,
    );
    let after = session.run_pass(n, edit, timestamp).0;
    assert forall|k: int| 0 <= k < after.files.len() implies (#[trigger] after.files[k]).wf() by {
        if k != n {
            assert(after.files[k] == session.files[k]);
        }
    }
}

/// No event breaks a file: in a session whose files are well-formed they
/// stay so, and no event reports a broken bound of a cursor.
pub proof fn lemma_event_preserves_well_formed(session: Session, input: Input)
    requires
        session.files_wf(),
    ensures
        session.handle_event(input).0.files_wf(),
        !(session.handle_event(input).1 matches Some(problem) && problem is InvalidIndex),
        session.handle_and_log(input).files_wf(),
{
    if session.current_file_problem() is None {
        match session.current_file_num {
            Some(n) => {
                match input {
                    Input::KeyDown { keycode: Some(keycode), repeat, timestamp } => {
                        match crate::session::edit_for_key(keycode) {
                            Some(edit) => {
                                lemma_run_pass_well_formed(session, n, edit, timestamp);
                            },
                            None => {},
                        }
                    },
                    Input::TextInput { text, timestamp } => {
                        lemma_run_pass_well_formed(session, n, Edit::PlaceText(text), timestamp);
                    },
                    _ => {},
                }
            },
            None => {},
        }
    }
}

/// After any batch of events every cursor of every file of the session
/// still stands inside its text.
pub proof fn lemma_events_preserve_well_formed(session: Session, inputs: Seq<Input>)
    requires
        session.files_wf(),
    ensures
        session.handle_all(inputs).files_wf(),
    decreases inputs.len(),
{
    if inputs.len() > 0 {
        lemma_events_preserve_well_formed(session, inputs.drop_last());
        lemma_event_preserves_well_formed(session.handle_all(inputs.drop_last()), inputs.last());
    }
}


proof fn lemma_last_key_down_bounds(placed: Seq<Input>, timestamp: int)
    ensures
        -1 <= last_key_down(placed, timestamp) < placed.len(),
    decreases placed.len(),
{
    if placed.len() > 0 {
        lemma_last_key_down_bounds(placed.drop_last(), timestamp);
    }
}

proof fn lemma_end_of_texts_bounds(placed: Seq<Input>, from: int, timestamp: int)
    requires
        0 <= from <= placed.len(),
    ensures
        from <= end_of_texts(placed, from, timestamp) <= placed.len(),
    decreases placed.len() - from,
{
    if from < placed.len() {
        lemma_end_of_texts_bounds(placed, from + 1, timestamp);
    }
}

/// Putting a batch of events in order neither drops an event nor makes one
/// up: what is handled is what came in, each event as often as it came.
pub proof fn lemma_ordering_keeps_every_event(inputs: Seq<Input>)
    ensures
        ordered_events(inputs).len() == inputs.len(),
        ordered_events(inputs).to_multiset() == inputs.to_multiset(),
    decreases inputs.len(),
{
    if inputs.len() > 0 {
        let before = inputs.drop_last();
        let input = inputs.last();
        let placed = ordered_events(before);
        lemma_ordering_keeps_every_event(before);
        assert(before.push(input) =~= inputs);
        vstd::seq_lib::to_multiset_build(before, input);
        vstd::seq_lib::to_multiset_build(placed, input);
        match input {
            Input::TextInput { text, timestamp } => {
                let key = last_key_down(placed, timestamp);
                lemma_last_key_down_bounds(placed, timestamp);
                if key >= 0 {
                    lemma_end_of_texts_bounds(placed, key + 1, timestamp);
                    vstd::seq_lib::to_multiset_insert(
                        placed,
                        end_of_texts(placed, key + 1, timestamp),
                        input,
                    );
                }
            },
            _ => {},
        }
    }
}

/// A text input with the timestamp of a key-down that came before it is
/// handled directly after that key-down, or after other text inputs with
/// the same timestamp that follow the key-down.
pub proof fn lemma_text_follows_its_key_down(placed: Seq<Input>, text: Seq<char>, timestamp: int)
    requires
        last_key_down(placed, timestamp) >= 0,
    ensures
        ({
            let key = last_key_down(placed, timestamp);
            let input = Input::TextInput { text, timestamp };
            let at = end_of_texts(placed, key + 1, timestamp);
            let after = place_event(placed, input);
            &&& key < at <= placed.len()
            &&& after[at] == input
            &&& after[key] == placed[key]
            &&& placed[key] matches Input::KeyDown { timestamp: t, .. } && t == timestamp
            &&& forall|k: int|
                key < k < at ==> (#[trigger] after[k] matches Input::TextInput { timestamp: t, .. }
                    && t == timestamp)
        }),
{
    let key = last_key_down(placed, timestamp);
    lemma_last_key_down_bounds(placed, timestamp);
    lemma_end_of_texts_bounds(placed, key + 1, timestamp);
    lemma_last_key_down_is_key_down(placed, timestamp);
    lemma_texts_before_end(placed, key + 1, timestamp);
}

proof fn lemma_last_key_down_is_key_down(placed: Seq<Input>, timestamp: int)
    requires
        last_key_down(placed, timestamp) >= 0,
    ensures
        placed[last_key_down(placed, timestamp)] matches Input::KeyDown { timestamp: t, .. } && t
            == timestamp,
    decreases placed.len(),
{
    if placed.len() > 0 {
        if placed.last() matches Input::KeyDown { timestamp: t, .. } && t == timestamp {
        } else {
            lemma_last_key_down_bounds(placed.drop_last(), timestamp);
            lemma_last_key_down_is_key_down(placed.drop_last(), timestamp);
        }
    }
}

proof fn lemma_texts_before_end(placed: Seq<Input>, from: int, timestamp: int)
    requires
        0 <= from <= placed.len(),
    ensures
        forall|k: int|
            from <= k < end_of_texts(placed, from, timestamp) ==> (
            #[trigger] placed[k] matches Input::TextInput { timestamp: t, .. } && t == timestamp),
    decreases placed.len() - from,
{
    if from < placed.len() {
        lemma_texts_before_end(placed, from + 1, timestamp);
    }
}

/// `lines` with `c` at the end of the last line, written out, is `lines`
/// written out with `c` at the end.
proof fn lemma_join_lines_push_char(lines: Seq<Seq<char>>, c: char)
    requires
        lines.len() > 0,
    ensures
        join_lines(lines.update(lines.len() - 1, lines.last().push(c))) == join_lines(lines).push(
            c,
        ),
{
    let longer = lines.update(lines.len() - 1, lines.last().push(c));
    if lines.len() > 1 {
        assert(longer.drop_last() =~= lines.drop_last());
        assert(join_lines(longer) =~= join_lines(lines).push(c));
    }
}

/// A file that is loaded and saved unchanged is written as it was read,
/// provided that no line of it ended with a carriage return before the line
/// feed: such a line ending is read as one but written as a line feed alone.
pub proof fn lemma_save_writes_what_was_loaded(text: Seq<char>)
    requires
        forall|i: int| 0 < i < text.len() && (#[trigger] text[i]) == '\n' ==> text[i - 1] != '\r',
    ensures
        join_lines(lines_of_text(text)) == text,
    decreases text.len(),
{
    if text.len() > 0 {
        let before = text.drop_last();
        lemma_save_writes_what_was_loaded(before);
        lemma_lines_of_text_nonempty(before);
        let lines = lines_of_text(before);
        if text.last() == '\n' {
            if before.len() > 0 {
                assert(before.last() == text[text.len() - 2]);
            }
            assert(lines.push(Seq::empty()).drop_last() =~= lines);
            assert(join_lines(lines.push(Seq::empty())) =~= join_lines(lines).push('\n'));
        } else {
            lemma_join_lines_push_char(lines, text.last());
        }
        assert(before.push(text.last()) =~= text);
    }
}

} // verus!
