//! What the drawing side computes before it draws: rectangles cut to the
//! section of the window they belong to, and the spans of text that a
//! selection covers.

use vstd::prelude::*;
use crate::cursor_fns::is_invalid_index;
use crate::document::CursorState;
use crate::errors::{err, ProgramError, RawProgramError};
use crate::program_data::{lines_of, Cursor};

verus! {

/// A rectangle of pixels: its upper left corner and its size.
#[derive(Debug, Clone, Copy, PartialEq, Eq, Structural)]
pub struct Rect {
    pub x: i32,
    pub y: i32,
    pub width: u32,
    pub height: u32,
}

/// The largest coordinate and the largest size that the drawing side uses.
pub const MAX_EXTENT: i32 = 0x3FFF_FFFF;

impl Rect {
    /// The rectangle is small enough to compute with.
    pub open spec fn within_extent(self) -> bool {
        &&& -MAX_EXTENT <= self.x <= MAX_EXTENT
        &&& -MAX_EXTENT <= self.y <= MAX_EXTENT
        &&& self.width <= MAX_EXTENT
        &&& self.height <= MAX_EXTENT
    }
}

/// The part of the stretch from `low` to `low + size` that lies between 0
/// and `limit`, as its start and its length; the length is 0 where the
/// stretch lies outside.
pub open spec fn shown_stretch(low: int, size: int, limit: int) -> (int, int) {
    let shown_low = if low > 0 { low } else { 0 };
    let shown_high = if low + size < limit { low + size } else { limit };
    (shown_low, if shown_high > shown_low { shown_high - shown_low } else { 0 })
}

fn clamp_stretch(low: i32, size: u32, limit: u32) -> (r: (i32, u32))
    requires
        -MAX_EXTENT <= low <= MAX_EXTENT,
        size <= MAX_EXTENT,
        limit <= MAX_EXTENT,
    ensures
        (r.0 as int, r.1 as int) == shown_stretch(low as int, size as int, limit as int),
        0 <= r.0 <= MAX_EXTENT,
{
    let high: i32 = low + size as i32;
    let shown_low: i32 = if low > 0 { low } else { 0 };
    let shown_high: i32 = if high < limit as i32 { high } else { limit as i32 };
    (shown_low, if shown_high > shown_low { (shown_high - shown_low) as u32 } else { 0 })
}

/// Cuts `rect`, whose position is counted from the corner of `section`, to
/// what `section` shows of it. The first rectangle is the part that is
/// shown, counted from the corner of `rect`: the part of a texture to copy.
/// The second is the same part counted as `section` is: where to draw it.
pub fn clamp_to_section(rect: &Rect, section: &Rect) -> (r: (Rect, Rect))
    requires
        rect.within_extent(),
        section.within_extent(),
    ensures
        ({
            let (x, width) = shown_stretch(rect.x as int, rect.width as int, section.width as int);
            let (y, height) = shown_stretch(
                rect.y as int,
                rect.height as int,
                section.height as int,
            );
            &&& r.0.x == x - rect.x && r.0.y == y - rect.y
            &&& r.1.x == x + section.x && r.1.y == y + section.y
            &&& r.0.width == width && r.0.height == height
            &&& r.1.width == width && r.1.height == height
        }),
{
    let (shown_x, width) = clamp_stretch(rect.x, rect.width, section.width);
    let (shown_y, height) = clamp_stretch(rect.y, rect.height, section.height);
    let src = Rect { x: shown_x - rect.x, y: shown_y - rect.y, width, height };
    let dest = Rect { x: shown_x + section.x, y: shown_y + section.y, width, height };
    (src, dest)
}

/// The place of sprite number `index` on a sheet that is
/// `spritesheet_width` pixels wide and holds its sprites row by row.
pub fn get_spritesheet_src_from_index(
    spritesheet_width: u32,
    index: u32,
    sprite_width: u32,
    sprite_height: u32,
) -> (src: Rect)
    requires
        0 < sprite_width <= spritesheet_width,
        (index % (spritesheet_width / sprite_width)) * sprite_width <= i32::MAX,
        (index / (spritesheet_width / sprite_width)) * sprite_height <= i32::MAX,
    ensures
        ({
            let sprites_per_row = spritesheet_width as int / sprite_width as int;
            src == (Rect {
                x: ((index as int % sprites_per_row) * sprite_width) as i32,
                y: ((index as int / sprites_per_row) * sprite_height) as i32,
                width: sprite_width,
                height: sprite_height,
            })
        }),
{
    let sprites_per_row: u32 = spritesheet_width / sprite_width;
    assert(sprites_per_row > 0) by (nonlinear_arith)
        requires
            0 < sprite_width <= spritesheet_width,
            sprites_per_row == spritesheet_width / sprite_width,
    ;
    let row_num: u32 = index % sprites_per_row;
    let column_num: u32 = index / sprites_per_row;
    Rect {
        x: (row_num * sprite_width) as i32,
        y: (column_num * sprite_height) as i32,
        width: sprite_width,
        height: sprite_height,
    }
}

/// A stretch of one line to be highlighted: from column `from` up to column
/// `to` of line `y`. Where the selection goes on in the next line, `to` is
/// one past the end of the line, for the line break.
#[derive(Debug, Clone, Copy, PartialEq, Eq, Structural)]
pub struct Span {
    pub from: usize,
    pub to: usize,
    pub y: usize,
}

/// What stands for a span in the model.
pub struct SpanView {
    pub from: int,
    pub to: int,
    pub y: int,
}

impl View for Span {
    type V = SpanView;

    open spec fn view(&self) -> SpanView {
        SpanView { from: self.from as int, to: self.to as int, y: self.y as int }
    }
}

/// The column one past the end of `line`, which stands for its line break;
/// the largest column there is, where the line is as long as a line can be.
pub open spec fn past_the_end(line: Seq<char>) -> int {
    if line.len() < usize::MAX {
        (line.len() + 1) as int
    } else {
        usize::MAX as int
    }
}

/// The spans of `lines` that the selection of `cursor` covers, from the top
/// down: one span on a single line, or the rest of the first line, every
/// line in between, and the start of the last line. No span where nothing
/// is selected.
pub open spec fn selection_spans(lines: Seq<Seq<char>>, cursor: CursorState) -> Seq<SpanView> {
    match cursor.selection_start {
        None => Seq::empty(),
        Some(_) => {
            let (start, end) = cursor.selection_range();
            if start.1 == end.1 {
                seq![SpanView { from: start.0, to: end.0, y: start.1 }]
            } else {
                seq![SpanView { from: start.0, to: past_the_end(lines[start.1]), y: start.1 }]
                    + Seq::new(
                    (end.1 - start.1 - 1) as nat,
                    |k: int|
                        SpanView {
                            from: 0,
                            to: past_the_end(lines[start.1 + 1 + k]),
                            y: start.1 + 1 + k,
                        },
                ) + seq![SpanView { from: 0, to: end.0, y: end.1 }]
            }
        },
    }
}

/// The spans of text to highlight for the selection of `cursor`.
pub fn get_selection_spans(cursor: &Cursor, contents: &Vec<Vec<char>>) -> (r: Result<
    Vec<Span>,
    ProgramError,
>)
    ensures
        match r {
            Ok(spans) => cursor@.selection_fault(lines_of(contents@)) is None && spans@.map_values(
                |s: Span| s@,
            ) == selection_spans(lines_of(contents@), cursor@),
            Err(e) => is_invalid_index(e, cursor@.selection_fault(lines_of(contents@))),
        },
{
    if cursor.y >= contents.len() {
        return err(RawProgramError::InvalidIndex { index: cursor.y, len: contents.len() });
    }
    if cursor.x > contents[cursor.y].len() {
        return err(
            RawProgramError::InvalidIndex { index: cursor.x, len: contents[cursor.y].len() },
        );
    }
    let mut spans: Vec<Span> = Vec::new();
    let (ax, ay) = match cursor.selection_start {
        Some(anchor) => anchor,
        None => {
            assert(spans@.map_values(|s: Span| s@) =~= Seq::empty());
            return Ok(spans);
        },
    };
    if ay >= contents.len() {
        return err(RawProgramError::InvalidIndex { index: ay, len: contents.len() });
    }
    if ax > contents[ay].len() {
        return err(RawProgramError::InvalidIndex { index: ax, len: contents[ay].len() });
    }
    let anchor_first: bool = ay < cursor.y || (ay == cursor.y && ax <= cursor.x);
    let (sx, sy) = if anchor_first { (ax, ay) } else { (cursor.x, cursor.y) };
    let (ex, ey) = if anchor_first { (cursor.x, cursor.y) } else { (ax, ay) };
    let ghost lines = lines_of(contents@);
    let ghost wanted = selection_spans(lines, cursor@);
    assert(cursor@.selection_range() == ((sx as int, sy as int), (ex as int, ey as int)));
    if sy == ey {
        spans.push(Span { from: sx, to: ex, y: sy });
        assert(spans@.map_values(|s: Span| s@) =~= wanted);
        return Ok(spans);
    }
    spans.push(Span { from: sx, to: contents[sy].len().saturating_add(1), y: sy });
    let mut i: usize = sy + 1;
    while i < ey
        invariant
            sy < i <= ey < contents.len(),
            lines == lines_of(contents@),
            spans.len() == i - sy,
            forall|k: int| 0 <= k < spans.len() ==> (#[trigger] spans[k])@ == wanted[k],
            wanted.len() == ey - sy + 1,
            forall|k: int|
                1 <= k < ey - sy ==> #[trigger] wanted[k] == (SpanView {
                    from: 0,
                    to: past_the_end(lines[sy + k]),
                    y: sy + k,
                }),
        decreases ey - i,
    {
        spans.push(Span { from: 0, to: contents[i].len().saturating_add(1), y: i });
        i += 1;
    }
    spans.push(Span { from: 0, to: ex, y: ey });
    assert(spans@.map_values(|s: Span| s@) =~= wanted);
    Ok(spans)
}

/// The number of the texture that draws `character`: its code, for the
/// characters that have one below 256.
pub fn get_char_texture_index(character: char) -> (r: Result<usize, ProgramError>)
    ensures
        match r {
            Ok(index) => index == character as u32 && index < 256,
            Err(e) => character as u32 >= 256 && e@ == (crate::session::Problem::WIP {
                details: "cannot render char"@,
            }),
        },
{
    let code: u32 = character as u32;
    if code < 256 {
        Ok(code as usize)
    } else {
        err(RawProgramError::WIP { details: "cannot render char".to_string() })
    }
}

} // verus!
