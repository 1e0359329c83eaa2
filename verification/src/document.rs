//! The mathematical model of an open document: lines of characters and the
//! cursors that edit them, as unbounded sequences and integers.

use vstd::prelude::*;

verus! {

/// One insertion point, with the column it wants to return to and the anchor
/// of a selection in progress.
pub struct CursorState {
    pub x: int,
    pub y: int,
    pub wanted_x: int,
    pub selection_start: Option<(int, int)>,
}

/// One open file: its text and its cursors.
pub struct Document {
    pub path: Seq<char>,
    pub lines: Seq<Seq<char>>,
    pub scroll_x: int,
    pub scroll_y: int,
    pub cursors: Seq<CursorState>,
}

/// The texts of `strings`, in order.
pub open spec fn texts_of(strings: Seq<String>) -> Seq<Seq<char>> {
    strings.map_values(|s: String| s@)
}

/// `(x, y)` is an addressable insertion point: `y` is a line and `x` is a
/// column of that line or its end.
pub open spec fn in_bounds(lines: Seq<Seq<char>>, x: int, y: int) -> bool {
    0 <= y < lines.len() && 0 <= x <= lines[y].len()
}

/// The nearest addressable position: `y` pulled back to the last line, then
/// `x` pulled back to the end of that line.
pub open spec fn clamp_position(lines: Seq<Seq<char>>, x: int, y: int) -> (int, int) {
    let cy = if y < lines.len() { y } else { lines.len() - 1 };
    let cx = if x <= lines[cy].len() { x } else { lines[cy].len() as int };
    (cx, cy)
}

impl CursorState {
    /// The cursor stands at an addressable position of `lines`.
    pub open spec fn in_bounds(self, lines: Seq<Seq<char>>) -> bool {
        in_bounds(lines, self.x, self.y)
    }

    /// The anchor of the selection, if there is one, is an addressable
    /// position of `lines`.
    pub open spec fn anchor_in_bounds(self, lines: Seq<Seq<char>>) -> bool {
        match self.selection_start {
            Some((ax, ay)) => in_bounds(lines, ax, ay),
            None => true,
        }
    }

    /// The two cursors stand at the same place, whatever else they hold.
    pub open spec fn same_position(self, other: CursorState) -> bool {
        self.x == other.x && self.y == other.y
    }

    /// The cursor with its position and its anchor pulled back into `lines`.
    pub open spec fn clamped(self, lines: Seq<Seq<char>>) -> CursorState {
        let (x, y) = clamp_position(lines, self.x, self.y);
        CursorState {
            x,
            y,
            wanted_x: self.wanted_x,
            selection_start: match self.selection_start {
                Some((ax, ay)) => Some(clamp_position(lines, ax, ay)),
                None => None,
            },
        }
    }
}

/// Every cursor of `cursors` pulled back into `lines`.
pub open spec fn rederive(lines: Seq<Seq<char>>, cursors: Seq<CursorState>) -> Seq<CursorState> {
    cursors.map_values(|c: CursorState| c.clamped(lines))
}

impl Document {
    /// There is at least one line and one cursor, every cursor and every
    /// selection anchor denotes an addressable position, and no wanted column
    /// is negative.
    pub open spec fn wf(self) -> bool {
        &&& self.lines.len() > 0
        &&& self.cursors.len() > 0
        &&& forall|i: int|
            0 <= i < self.cursors.len() ==> (#[trigger] self.cursors[i]).in_bounds(self.lines)
                && self.cursors[i].anchor_in_bounds(self.lines) && self.cursors[i].wanted_x >= 0
    }

    /// Cursor `i` exists and stands on an addressable position.
    pub open spec fn cursor_ok(self, i: int) -> bool {
        0 <= i < self.cursors.len() && self.cursors[i].in_bounds(self.lines)
    }

    /// The document with `c` in place of cursor `i`.
    pub open spec fn with_cursor(self, i: int, c: CursorState) -> Document {
        Document { cursors: self.cursors.update(i, c), ..self }
    }

    /// The document after a structural edit by cursor `i`: the text becomes
    /// `lines`, cursor `i` becomes `c`, and then every cursor is pulled back
    /// into the new text.
    pub open spec fn edited(self, lines: Seq<Seq<char>>, i: int, c: CursorState) -> Document {
        Document { lines, cursors: rederive(lines, self.cursors.update(i, c)), ..self }
    }
}


impl CursorState {
    /// The anchor after a movement: while the selection is being extended
    /// the anchor stays, or is dropped where the cursor stands if there was
    /// none; any other movement clears it.
    pub open spec fn anchor_after_move(self, extend: bool) -> Option<(int, int)> {
        if extend {
            if self.selection_start is None {
                Some((self.x, self.y))
            } else {
                self.selection_start
            }
        } else {
            None
        }
    }

    /// The two ends of the selection in document order (by line, then by
    /// column), when a selection is active.
    pub open spec fn selection_range(self) -> ((int, int), (int, int))
        recommends
            self.selection_start is Some,
    {
        let (ax, ay) = self.selection_start->0;
        if ay < self.y || (ay == self.y && ax <= self.x) {
            ((ax, ay), (self.x, self.y))
        } else {
            ((self.x, self.y), (ax, ay))
        }
    }
}

/// The first bound that the position `(x, y)` breaks in `lines`, as the
/// offending index and the length it should have stayed within: the line
/// number first, then the column.
pub open spec fn position_fault(lines: Seq<Seq<char>>, x: int, y: int) -> Option<(int, int)> {
    if y >= lines.len() {
        Some((y, lines.len() as int))
    } else if x > lines[y].len() {
        Some((x, lines[y].len() as int))
    } else {
        None
    }
}

impl CursorState {
    /// The first bound that the cursor's own position breaks.
    pub open spec fn fault(self, lines: Seq<Seq<char>>) -> Option<(int, int)> {
        position_fault(lines, self.x, self.y)
    }

    /// The first bound that the cursor's position breaks, or else its anchor.
    pub open spec fn selection_fault(self, lines: Seq<Seq<char>>) -> Option<(int, int)> {
        match self.fault(lines) {
            Some(fault) => Some(fault),
            None => match self.selection_start {
                Some((ax, ay)) => position_fault(lines, ax, ay),
                None => None,
            },
        }
    }

    /// The cursor after its selection was deleted: it stands where the
    /// selection began, and nothing is selected.
    pub open spec fn after_selection_delete(self) -> CursorState {
        let (start, end) = self.selection_range();
        CursorState { x: start.0, y: start.1, wanted_x: start.0, selection_start: None }
    }
}

/// The column that a vertical move lands on: the wanted column, or the end
/// of the line where the line is shorter.
pub open spec fn column_on(line: Seq<char>, wanted_x: int) -> int {
    if wanted_x <= line.len() {
        wanted_x
    } else {
        line.len() as int
    }
}

/// `line` with `text` spliced in at column `x`.
pub open spec fn splice<T>(line: Seq<T>, x: int, text: Seq<T>) -> Seq<T> {
    line.subrange(0, x) + text + line.subrange(x, line.len() as int)
}

/// `lines` without the characters from `start` up to `end` (both `(x, y)`,
/// `start` not after `end`): the lines in between disappear, and what is
/// left of the two boundary lines becomes one line.
pub open spec fn without_range(lines: Seq<Seq<char>>, start: (int, int), end: (int, int)) -> Seq<
    Seq<char>,
> {
    let joined = lines[start.1].subrange(0, start.0) + lines[end.1].subrange(
        end.0,
        lines[end.1].len() as int,
    );
    lines.subrange(0, start.1).push(joined) + lines.subrange(end.1 + 1, lines.len() as int)
}

impl Document {
    /// The first bound that stops an operation on cursor `i`: the cursor
    /// number, then the cursor's line, then its column.
    pub open spec fn cursor_fault(self, i: int) -> Option<(int, int)> {
        if i >= self.cursors.len() {
            Some((i, self.cursors.len() as int))
        } else {
            self.cursors[i].fault(self.lines)
        }
    }

    /// The first bound that stops an operation that may delete the selection
    /// of cursor `i`: those of the cursor, then those of its anchor.
    pub open spec fn selection_fault(self, i: int) -> Option<(int, int)> {
        if i >= self.cursors.len() {
            Some((i, self.cursors.len() as int))
        } else {
            self.cursors[i].selection_fault(self.lines)
        }
    }

    /// Cursor `i` one line up: on the wanted column, or at the end of a
    /// shorter line.
    pub open spec fn move_up(self, i: int, extend: bool) -> Document {
        let c = self.cursors[i];
        let y = if c.y > 0 { c.y - 1 } else { 0 };
        self.with_cursor(
            i,
            CursorState {
                x: column_on(self.lines[y], c.wanted_x),
                y,
                wanted_x: c.wanted_x,
                selection_start: c.anchor_after_move(extend),
            },
        )
    }

    /// Cursor `i` one line down: on the wanted column, or at the end of a
    /// shorter line.
    pub open spec fn move_down(self, i: int, extend: bool) -> Document {
        let c = self.cursors[i];
        let y = if c.y + 1 < self.lines.len() { c.y + 1 } else { self.lines.len() - 1 };
        self.with_cursor(
            i,
            CursorState {
                x: column_on(self.lines[y], c.wanted_x),
                y,
                wanted_x: c.wanted_x,
                selection_start: c.anchor_after_move(extend),
            },
        )
    }

    /// Cursor `i` one character back, over a line break too; the wanted
    /// column follows.
    pub open spec fn move_left(self, i: int, extend: bool) -> Document {
        let c = self.cursors[i];
        let (x, y) = if c.x > 0 {
            (c.x - 1, c.y)
        } else if c.y > 0 {
            (self.lines[c.y - 1].len() as int, c.y - 1)
        } else {
            (c.x, c.y)
        };
        self.with_cursor(
            i,
            CursorState { x, y, wanted_x: x, selection_start: c.anchor_after_move(extend) },
        )
    }

    /// Cursor `i` one character on, over a line break too; the wanted column
    /// follows.
    pub open spec fn move_right(self, i: int, extend: bool) -> Document {
        let c = self.cursors[i];
        let (x, y) = if c.x < self.lines[c.y].len() {
            (c.x + 1, c.y)
        } else if c.y + 1 < self.lines.len() {
            (0, c.y + 1)
        } else {
            (c.x, c.y)
        };
        self.with_cursor(
            i,
            CursorState { x, y, wanted_x: x, selection_start: c.anchor_after_move(extend) },
        )
    }

    /// Cursor `i` at the end of its line; the wanted column follows.
    pub open spec fn move_end(self, i: int, extend: bool) -> Document {
        let c = self.cursors[i];
        let x = self.lines[c.y].len() as int;
        self.with_cursor(
            i,
            CursorState { x, y: c.y, wanted_x: x, selection_start: c.anchor_after_move(extend) },
        )
    }

    /// `text` spliced into the line of cursor `i` where it stands; the cursor
    /// moves past what was inserted.
    pub open spec fn insert_text(self, i: int, text: Seq<char>) -> Document {
        let c = self.cursors[i];
        let x = c.x + text.len();
        self.edited(
            self.lines.update(c.y, splice(self.lines[c.y], c.x, text)),
            i,
            CursorState { x, wanted_x: x, ..c },
        )
    }

    /// The selection of cursor `i` removed from the text; the cursor goes to
    /// where the selection began and the selection ends.
    pub open spec fn delete_selection(self, i: int) -> Document {
        let c = self.cursors[i];
        let (start, end) = c.selection_range();
        self.edited(without_range(self.lines, start, end), i, c.after_selection_delete())
    }

    /// Backspace at cursor `i`: the selection goes, or else the character
    /// before the cursor, or else the line break before it.
    pub open spec fn backspace(self, i: int) -> Document {
        let c = self.cursors[i];
        if c.selection_start is Some {
            self.delete_selection(i)
        } else if c.x > 0 {
            self.edited(
                self.lines.update(c.y, self.lines[c.y].remove(c.x - 1)),
                i,
                CursorState { x: c.x - 1, wanted_x: c.x - 1, ..c },
            )
        } else if c.y > 0 {
            let x = self.lines[c.y - 1].len() as int;
            self.edited(
                self.lines.update(c.y - 1, self.lines[c.y - 1] + self.lines[c.y]).remove(c.y),
                i,
                CursorState { x, y: c.y - 1, wanted_x: x, ..c },
            )
        } else {
            self
        }
    }

    /// Delete at cursor `i`: the selection goes, or else the character at the
    /// cursor, or else the line break at it.
    pub open spec fn delete_forward(self, i: int) -> Document {
        let c = self.cursors[i];
        if c.selection_start is Some {
            self.delete_selection(i)
        } else if c.x < self.lines[c.y].len() {
            self.edited(
                self.lines.update(c.y, self.lines[c.y].remove(c.x)),
                i,
                CursorState { wanted_x: c.x, ..c },
            )
        } else if c.y + 1 < self.lines.len() {
            self.edited(
                self.lines.update(c.y, self.lines[c.y] + self.lines[c.y + 1]).remove(c.y + 1),
                i,
                c,
            )
        } else {
            self
        }
    }

    /// The line of cursor `i` split where it stands; the cursor goes to the
    /// start of the new line.
    pub open spec fn split_line(self, i: int) -> Document {
        let c = self.cursors[i];
        let line = self.lines[c.y];
        self.edited(
            self.lines.update(c.y, line.subrange(0, c.x)).insert(
                c.y + 1,
                line.subrange(c.x, line.len() as int),
            ),
            i,
            CursorState { x: 0, y: c.y + 1, wanted_x: 0, ..c },
        )
    }
}


/// One operation of the cursor engine, to be applied at a cursor.
pub enum Edit {
    MoveUp,
    MoveDown,
    MoveLeft,
    MoveRight,
    MoveEnd,
    Backspace,
    Delete,
    Return,
    PlaceText(Seq<char>),
}

impl Document {
    /// The first bound that stops `cursor_fn` at cursor `i`, if any does.
    pub open spec fn fault_for(self, i: int, cursor_fn: Edit) -> Option<(int, int)> {
        match cursor_fn {
            Edit::Backspace | Edit::Delete => self.selection_fault(i),
            _ => self.cursor_fault(i),
        }
    }

    /// The document after `cursor_fn` at cursor `i`; `extend` says whether
    /// movement extends the selection.
    pub open spec fn apply(self, i: int, cursor_fn: Edit, extend: bool) -> Document {
        match cursor_fn {
            Edit::MoveUp => self.move_up(i, extend),
            Edit::MoveDown => self.move_down(i, extend),
            Edit::MoveLeft => self.move_left(i, extend),
            Edit::MoveRight => self.move_right(i, extend),
            Edit::MoveEnd => self.move_end(i, extend),
            Edit::Backspace => self.backspace(i),
            Edit::Delete => self.delete_forward(i),
            Edit::Return => self.split_line(i),
            Edit::PlaceText(text) => self.insert_text(i, text),
        }
    }

    /// The document that a pass leaves when it goes on from cursor `i`: the
    /// operation is applied at cursors `i`, `i + 1`, ... below `n`, and the
    /// pass ends early at the first cursor where a bound stops it.
    pub open spec fn pass_from(self, cursor_fn: Edit, extend: bool, i: int, n: int) -> Document
        decreases n - i,
    {
        if i >= n || self.fault_for(i, cursor_fn) is Some {
            self
        } else {
            self.apply(i, cursor_fn, extend).pass_from(cursor_fn, extend, i + 1, n)
        }
    }

    /// The bound that ends such a pass early, if one does.
    pub open spec fn pass_fault(self, cursor_fn: Edit, extend: bool, i: int, n: int) -> Option<
        (int, int),
    >
        decreases n - i,
    {
        if i >= n {
            None
        } else if self.fault_for(i, cursor_fn) is Some {
            self.fault_for(i, cursor_fn)
        } else {
            self.apply(i, cursor_fn, extend).pass_fault(cursor_fn, extend, i + 1, n)
        }
    }

    /// The document with its duplicate cursors removed.
    pub open spec fn deduplicated(self) -> Document {
        Document { cursors: without_duplicates(self.cursors), ..self }
    }
}

/// Applying an operation at a cursor neither adds nor removes a cursor.
pub proof fn lemma_apply_keeps_cursor_count(doc: Document, i: int, cursor_fn: Edit, extend: bool)
    requires
        0 <= i < doc.cursors.len(),
    ensures
        doc.apply(i, cursor_fn, extend).cursors.len() == doc.cursors.len(),
{
}

/// Some cursor of `cursors` stands at `(x, y)`.
pub open spec fn has_cursor_at(cursors: Seq<CursorState>, x: int, y: int) -> bool {
    exists|j: int| 0 <= j < cursors.len() && (#[trigger] cursors[j]).x == x && cursors[j].y == y
}

/// No two cursors of `cursors` stand at the same position.
pub open spec fn no_shared_position(cursors: Seq<CursorState>) -> bool {
    forall|j: int, k: int|
        0 <= j < k < cursors.len() ==> !(#[trigger] cursors[j]).same_position(
            #[trigger] cursors[k],
        )
}

/// `cursors` without every cursor that stands where an earlier one stands:
/// of the cursors at one position the first stays, and the order is kept.
pub open spec fn without_duplicates(cursors: Seq<CursorState>) -> Seq<CursorState>
    decreases cursors.len(),
{
    if cursors.len() == 0 {
        cursors
    } else {
        let earlier = without_duplicates(cursors.drop_last());
        let c = cursors.last();
        if has_cursor_at(cursors.drop_last(), c.x, c.y) {
            earlier
        } else {
            earlier.push(c)
        }
    }
}

/// Removing duplicates neither frees a position nor occupies a new one.
pub proof fn lemma_without_duplicates_keeps_positions(cursors: Seq<CursorState>, x: int, y: int)
    ensures
        has_cursor_at(without_duplicates(cursors), x, y) <==> has_cursor_at(cursors, x, y),
    decreases cursors.len(),
{
    if cursors.len() > 0 {
        let init = cursors.drop_last();
        let c = cursors.last();
        let earlier = without_duplicates(init);
        lemma_without_duplicates_keeps_positions(init, x, y);
        lemma_without_duplicates_keeps_positions(init, c.x, c.y);
        if has_cursor_at(cursors, x, y) {
            let j = choose|j: int| 0 <= j < cursors.len() && (#[trigger] cursors[j]).x == x && cursors[j].y == y;
            if j < init.len() {
                assert(init[j].x == x && init[j].y == y);
                let k = choose|k: int| 0 <= k < earlier.len() && (#[trigger] earlier[k]).x == x && earlier[k].y == y;
                assert(without_duplicates(cursors)[k] == earlier[k]);
            } else if has_cursor_at(init, c.x, c.y) {
            } else {
                assert(without_duplicates(cursors)[earlier.len() as int] == c);
            }
        }
        if has_cursor_at(without_duplicates(cursors), x, y) {
            let result = without_duplicates(cursors);
            let k = choose|k: int| 0 <= k < result.len() && (#[trigger] result[k]).x == x && result[k].y == y;
            if k < earlier.len() {
                assert(earlier[k].x == x && earlier[k].y == y);
                let j = choose|j: int| 0 <= j < init.len() && (#[trigger] init[j]).x == x && init[j].y == y;
                assert(cursors[j] == init[j]);
            } else {
                assert(cursors[cursors.len() - 1] == c);
            }
        }
    }
}

/// Every cursor that is left was there before.
pub proof fn lemma_without_duplicates_members(cursors: Seq<CursorState>, k: int)
    requires
        0 <= k < without_duplicates(cursors).len(),
    ensures
        cursors.contains(without_duplicates(cursors)[k]),
    decreases cursors.len(),
{
    let init = cursors.drop_last();
    let earlier = without_duplicates(init);
    if k < earlier.len() {
        lemma_without_duplicates_members(init, k);
        let j = choose|j: int| 0 <= j < init.len() && init[j] == earlier[k];
        assert(cursors[j] == earlier[k]);
    } else {
        assert(cursors[cursors.len() - 1] == without_duplicates(cursors)[k]);
    }
}

/// After duplicates are removed no two cursors share a position.
pub proof fn lemma_without_duplicates_distinct(cursors: Seq<CursorState>)
    ensures
        no_shared_position(without_duplicates(cursors)),
    decreases cursors.len(),
{
    if cursors.len() > 0 {
        let init = cursors.drop_last();
        let c = cursors.last();
        let earlier = without_duplicates(init);
        lemma_without_duplicates_distinct(init);
        lemma_without_duplicates_keeps_positions(init, c.x, c.y);
        if !has_cursor_at(init, c.x, c.y) {
            let result = earlier.push(c);
            assert forall|j: int, k: int| 0 <= j < k < result.len() implies !(#[trigger] result[j]).same_position(
                #[trigger] result[k],
            ) by {
                if k == earlier.len() {
                    assert(result[j] == earlier[j]);
                } else {
                    assert(result[j] == earlier[j] && result[k] == earlier[k]);
                }
            }
        }
    }
}

/// The first cursor always stays, so a document never loses its last cursor.
pub proof fn lemma_without_duplicates_first(cursors: Seq<CursorState>)
    requires
        cursors.len() > 0,
    ensures
        without_duplicates(cursors).len() > 0,
        without_duplicates(cursors)[0] == cursors[0],
        without_duplicates(cursors).len() <= cursors.len(),
    decreases cursors.len(),
{
    let init = cursors.drop_last();
    if init.len() > 0 {
        lemma_without_duplicates_first(init);
    } else {
        assert(without_duplicates(init).len() == 0);
        assert(!has_cursor_at(init, cursors.last().x, cursors.last().y));
    }
}

/// Where no two cursors share a position there is nothing to remove.
pub proof fn lemma_without_duplicates_of_distinct(cursors: Seq<CursorState>)
    requires
        no_shared_position(cursors),
    ensures
        without_duplicates(cursors) == cursors,
    decreases cursors.len(),
{
    if cursors.len() > 0 {
        let init = cursors.drop_last();
        let c = cursors.last();
        assert forall|j: int, k: int| 0 <= j < k < init.len() implies !(#[trigger] init[j]).same_position(
            #[trigger] init[k],
        ) by {
            assert(init[j] == cursors[j] && init[k] == cursors[k]);
        }
        lemma_without_duplicates_of_distinct(init);
        if has_cursor_at(init, c.x, c.y) {
            let j = choose|j: int| 0 <= j < init.len() && (#[trigger] init[j]).x == c.x && init[j].y == c.y;
            assert(cursors[j].same_position(cursors[cursors.len() - 1]));
        }
        assert(init.push(c) =~= cursors);
    }
}

/// Removing duplicates twice removes no more than removing them once.
pub proof fn lemma_without_duplicates_idempotent(cursors: Seq<CursorState>)
    ensures
        without_duplicates(without_duplicates(cursors)) == without_duplicates(cursors),
{
    lemma_without_duplicates_distinct(cursors);
    lemma_without_duplicates_of_distinct(without_duplicates(cursors));
}

} // verus!
