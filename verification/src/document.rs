//! The document: an ordered buffer of lines plus the point (the cursor), the
//! movement state machine with its line-wrap policies, and the full-page
//! render that composes the lines' rendering.

use vstd::prelude::*;
use vstd::math::min;
use crate::geometry::{sat_sub, Coordinate};
use crate::line::{single_line, Line};
use crate::surface::{RenderingError, Surface};

verus! {

/// A directional command for the point. `Up` and `Down` carry a repeat
/// count, so a page scroll is one command.
#[derive(Copy, Clone, PartialEq, Eq, Structural, Debug)]
pub enum Direction {
    Up(usize),
    Down(usize),
    Left,
    Right,
    StartOfLine,
    EndOfLine,
}

/// The width of row `row` of the buffer: its character count, and zero for a
/// row that does not exist (in particular for the virtual row one past the
/// last line).
pub open spec fn width_of(lines: Seq<Seq<char>>, row: int) -> nat {
    if 0 <= row < lines.len() {
        lines[row].len()
    } else {
        0
    }
}

/// Ranks the directions so that the wrap-around moves, which are defined in
/// terms of the simple ones, sit strictly above them.
pub open spec fn dir_rank(d: Direction) -> nat {
    match d {
        Direction::Left => 1,
        Direction::Right => 1,
        _ => 0,
    }
}

/// Where the point `(x, y)` lands in the buffer `lines` after one move `d`.
///
/// A vertical move clamps the row to `[0, lines.len()]` (one row past the
/// last line is a valid resting position) and then snaps the column down to
/// the new row's width. `Left` at column 0 is `Up(1)` followed by
/// `EndOfLine`; `Right` past the row's last column is `Down(1)` followed by
/// `StartOfLine`; both are no-ops at the buffer's respective end.
pub open spec fn moved_point(lines: Seq<Seq<char>>, x: int, y: int, d: Direction) -> (int, int)
    decreases dir_rank(d),
{
    match d {
        Direction::Up(step) => {
            let ny = sat_sub(y, step as int);
            (min(x, width_of(lines, ny) as int), ny)
        },
        Direction::Down(step) => {
            let ny = min(y + step, lines.len() as int);
            (min(x, width_of(lines, ny) as int), ny)
        },
        Direction::Left => {
            if x > 0 {
                (x - 1, y)
            } else if y > 0 {
                let up = moved_point(lines, x, y, Direction::Up(1));
                moved_point(lines, up.0, up.1, Direction::EndOfLine)
            } else {
                (x, y)
            }
        },
        Direction::Right => {
            if x < width_of(lines, y) {
                (x + 1, y)
            } else if y < lines.len() {
                let down = moved_point(lines, x, y, Direction::Down(1));
                moved_point(lines, down.0, down.1, Direction::StartOfLine)
            } else {
                (x, y)
            }
        },
        Direction::StartOfLine => (0, y),
        Direction::EndOfLine => (width_of(lines, y) as int, y),
    }
}

/// Where the point lands after a whole sequence of moves, applied in order.
pub open spec fn moved_point_seq(
    lines: Seq<Seq<char>>,
    x: int,
    y: int,
    dirs: Seq<Direction>,
) -> (int, int)
    decreases dirs.len(),
{
    if dirs.len() == 0 {
        (x, y)
    } else {
        let p = moved_point(lines, x, y, dirs[0]);
        moved_point_seq(lines, p.0, p.1, dirs.drop_first())
    }
}

/// The point's bounds: the row stays in `[0, lines.len()]` and the column in
/// `[0, width_of(row)]`, both ends inclusive.
pub open spec fn point_in_bounds(lines: Seq<Seq<char>>, x: int, y: int) -> bool {
    &&& 0 <= y <= lines.len()
    &&& 0 <= x <= width_of(lines, y)
}

/// One move keeps the point inside the buffer's bounds: saturation at every
/// edge, never a negative coordinate, never past the virtual end positions.
pub proof fn lemma_move_stays_in_bounds(lines: Seq<Seq<char>>, x: int, y: int, d: Direction)
    requires
        point_in_bounds(lines, x, y),
    ensures
        point_in_bounds(lines, moved_point(lines, x, y, d).0, moved_point(lines, x, y, d).1),
    decreases dir_rank(d),
{
    match d {
        Direction::Left => {
            if x == 0 && y > 0 {
                let up = moved_point(lines, x, y, Direction::Up(1));
                lemma_move_stays_in_bounds(lines, x, y, Direction::Up(1));
                lemma_move_stays_in_bounds(lines, up.0, up.1, Direction::EndOfLine);
            }
        },
        Direction::Right => {
            if !(x < width_of(lines, y)) && y < lines.len() {
                let down = moved_point(lines, x, y, Direction::Down(1));
                lemma_move_stays_in_bounds(lines, x, y, Direction::Down(1));
                lemma_move_stays_in_bounds(lines, down.0, down.1, Direction::StartOfLine);
            }
        },
        _ => {},
    }
}

/// Any sequence of moves keeps the point inside the buffer's bounds.
pub proof fn lemma_moves_stay_in_bounds(lines: Seq<Seq<char>>, x: int, y: int, dirs: Seq<Direction>)
    requires
        point_in_bounds(lines, x, y),
    ensures
        point_in_bounds(
            lines,
            moved_point_seq(lines, x, y, dirs).0,
            moved_point_seq(lines, x, y, dirs).1,
        ),
    decreases dirs.len(),
{
    if dirs.len() > 0 {
        lemma_move_stays_in_bounds(lines, x, y, dirs[0]);
        let p = moved_point(lines, x, y, dirs[0]);
        lemma_moves_stay_in_bounds(lines, p.0, p.1, dirs.drop_first());
    }
}

/// `Left` at column 0 of a row `r > 0` is exactly `Up(1)` followed by
/// `EndOfLine`: the point lands at the end of the previous line.
pub proof fn lemma_left_wraps_to_previous_line_end(lines: Seq<Seq<char>>, r: int)
    requires
        1 <= r <= lines.len(),
    ensures
        moved_point(lines, 0, r, Direction::Left) == moved_point(
            lines,
            moved_point(lines, 0, r, Direction::Up(1)).0,
            moved_point(lines, 0, r, Direction::Up(1)).1,
            Direction::EndOfLine,
        ),
        moved_point(lines, 0, r, Direction::Left) == ((width_of(lines, r - 1) as int, r - 1)),
{
    let up = moved_point(lines, 0, r, Direction::Up(1));
    assert(up == ((0int, r - 1)));
    assert(moved_point(lines, up.0, up.1, Direction::EndOfLine) == ((width_of(lines, r - 1) as int, r
        - 1)));
}

/// `Right` at the last column of a row `r < lines.len()` is exactly `Down(1)`
/// followed by `StartOfLine`: the point lands at the start of the next row
/// (possibly the virtual row past the last line).
pub proof fn lemma_right_wraps_to_next_line_start(lines: Seq<Seq<char>>, r: int)
    requires
        0 <= r < lines.len(),
    ensures
        moved_point(lines, width_of(lines, r) as int, r, Direction::Right) == moved_point(
            lines,
            moved_point(lines, width_of(lines, r) as int, r, Direction::Down(1)).0,
            moved_point(lines, width_of(lines, r) as int, r, Direction::Down(1)).1,
            Direction::StartOfLine,
        ),
        moved_point(lines, width_of(lines, r) as int, r, Direction::Right) == ((0int, r + 1)),
{
    let down = moved_point(lines, width_of(lines, r) as int, r, Direction::Down(1));
    assert(down.1 == r + 1);
    assert(moved_point(lines, down.0, down.1, Direction::StartOfLine) == ((0int, r + 1)));
}

/// The views of a buffer's lines, in order.
pub open spec fn views_of(strings: Seq<String>) -> Seq<Seq<char>> {
    strings.map_values(|s: String| s@)
}

/// An ordered buffer of lines and the point, the current cursor location.
/// Row `point.y` may rest one past the last line, and column `point.x` one
/// past the row's last character.
pub struct Document {
    lines: Vec<Line>,
    point_location: Coordinate,
}

impl Document {
    /// The buffer's content: the characters of each line, in file order.
    pub closed spec fn lines_view(&self) -> Seq<Seq<char>> {
        self.lines@.map_values(|l: Line| l@)
    }

    /// The point's current location.
    pub closed spec fn point(&self) -> Coordinate {
        self.point_location
    }

    /// The document's invariant: the point is in bounds and every line is
    /// free of line terminators. Constructors establish it and every
    /// movement preserves it.
    pub open spec fn wf(&self) -> bool {
        &&& point_in_bounds(self.lines_view(), self.point().x as int, self.point().y as int)
        &&& forall|i: int|
            0 <= i < self.lines_view().len() ==> single_line(#[trigger] self.lines_view()[i])
    }

    /// Builds a document from lines already split on line boundaries, with
    /// the point at the origin. Loading the file itself is a collaborator's
    /// job; it hands the line strings here.
    pub fn from_lines(strings: Vec<String>) -> (d: Document)
        requires
            forall|i: int| 0 <= i < strings@.len() ==> single_line(#[trigger] strings@[i]@),
        ensures
            d.wf(),
            d.lines_view() == views_of(strings@),
            d.point() == (Coordinate { x: 0, y: 0 }),
    {
        let ghost all = strings@;
        let mut lines: Vec<Line> = Vec::new();
        let mut i: usize = 0;
        while i < strings.len()
            invariant
                i <= all.len(),
                strings@ == all,
                forall|j: int| 0 <= j < all.len() ==> single_line(#[trigger] all[j]@),
                lines@.len() == i,
                forall|j: int| 0 <= j < i ==> (#[trigger] lines@[j])@ == all[j]@,
            decreases all.len() - i,
        {
            let line = Line::from(strings[i].as_str());
            lines.push(line);
            i = i + 1;
        }
        let d = Document { lines, point_location: Coordinate { x: 0, y: 0 } };
        proof {
            assert(d.lines_view() =~= views_of(strings@));
        }
        d
    }

    /// How many lines the buffer holds.
    pub fn line_count(&self) -> (n: usize)
        ensures
            n as int == self.lines_view().len(),
    {
        self.lines.len()
    }

    /// The width of row `at`: the character count of that line, or zero for
    /// a row past the end of the buffer.
    pub fn width_at(&self, at: usize) -> (w: usize)
        ensures
            w as int == width_of(self.lines_view(), at as int),
    {
        if at < self.lines.len() {
            self.lines[at].len()
        } else {
            0
        }
    }

    /// Moves the point one command's worth through the text; the new
    /// location is exactly `moved_point` of the old one. The buffer itself
    /// never changes, and the point never leaves its bounds:
    /// - `Up`/`Down` clamp the row with saturating arithmetic and snap the
    ///   column down to the new row's width.
    /// - `Left` at the start of a line wraps to the end of the previous
    ///   line; `Right` at the end of a line wraps to the start of the next.
    pub fn move_point(&mut self, direction: Direction)
        requires
            old(self).wf(),
        ensures
            final(self).wf(),
            final(self).lines_view() == old(self).lines_view(),
            final(self).point().x as int == moved_point(
                old(self).lines_view(),
                old(self).point().x as int,
                old(self).point().y as int,
                direction,
            ).0,
            final(self).point().y as int == moved_point(
                old(self).lines_view(),
                old(self).point().x as int,
                old(self).point().y as int,
                direction,
            ).1,
        decreases dir_rank(direction),
    {
        let height = self.lines.len();
        match direction {
            Direction::Up(step) => {
                self.point_location.y = self.point_location.y.saturating_sub(step);
                let width = self.width_at(self.point_location.y);
                if self.point_location.x > width {
                    self.point_location.x = width;
                }
            },
            Direction::Down(step) => {
                let moved = self.point_location.y.saturating_add(step);
                self.point_location.y = if moved > height {
                    height
                } else {
                    moved
                };
                let width = self.width_at(self.point_location.y);
                if self.point_location.x > width {
                    self.point_location.x = width;
                }
            },
            Direction::Left => {
                if self.point_location.x > 0 {
                    self.point_location.x = self.point_location.x - 1;
                } else if self.point_location.y > 0 {
                    // A step left at the start of a line is, by definition,
                    // a step up followed by a move to that line's end.
                    self.move_point(Direction::Up(1));
                    self.move_point(Direction::EndOfLine);
                }
            },
            Direction::Right => {
                let width = self.width_at(self.point_location.y);
                if self.point_location.x < width {
                    self.point_location.x = self.point_location.x + 1;
                } else if self.point_location.y < height {
                    // A step right at the end of a line is, by definition, a
                    // step down followed by a move to that line's start.
                    self.move_point(Direction::Down(1));
                    self.move_point(Direction::StartOfLine);
                }
            },
            Direction::StartOfLine => {
                self.point_location.x = 0;
            },
            Direction::EndOfLine => {
                let width = self.width_at(self.point_location.y);
                self.point_location.x = width;
            },
        }
    }

    /// The point's current location.
    pub fn point_location(&self) -> (r: Coordinate)
        ensures
            r == self.point(),
    {
        self.point_location
    }

    /// True exactly when the buffer holds no lines.
    pub fn is_empty(&self) -> (r: bool)
        ensures
            r == (self.lines_view().len() == 0),
    {
        self.lines.len() == 0
    }

    /// Paints the visible page: for each screen row, the document row
    /// `scroll_offset.y` further down, shifted left by `scroll_offset.x`;
    /// every screen row past the last line gets a single `~` placeholder at
    /// its start. Stops at the first failure the surface reports and hands
    /// it back unchanged.
    pub fn render_into<T: Surface>(&self, view: &T, scroll_offset: Coordinate) -> Result<
        (),
        RenderingError,
    >
        requires
            self.wf(),
    {
        let height = view.size().height;
        let mut row: usize = 0;
        while row < height
            invariant
                self.wf(),
            decreases height - row,
        {
            let doc_row = scroll_offset.y.saturating_add(row);
            if doc_row < self.lines.len() {
                let res = self.lines[doc_row].render_into(
                    view,
                    Coordinate { x: 0, y: row },
                    scroll_offset,
                );
                if let Err(e) = res {
                    return Err(e);
                }
            } else {
                let res = view.render_str("~", Coordinate { x: 0, y: row });
                if let Err(e) = res {
                    return Err(e);
                }
            }
            row = row + 1;
        }
        Ok(())
    }
}

impl Default for Document {
    /// The empty document: no lines, point at the origin.
    fn default() -> (d: Self)
        ensures
            d.wf(),
            d.lines_view().len() == 0,
            d.point() == (Coordinate { x: 0, y: 0 }),
    {
        Self { lines: Vec::new(), point_location: Coordinate { x: 0, y: 0 } }
    }
}

} // verus!
