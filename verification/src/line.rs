//! A single line of the document: an immutable text holder that can paint a
//! horizontal window of itself onto a display surface.

use vstd::prelude::*;
use vstd::math::min;
use crate::geometry::Coordinate;
use crate::surface::{RenderingError, Surface};

verus! {

/// True when `s` is a single line: it holds no line-terminator characters.
pub open spec fn single_line(s: Seq<char>) -> bool {
    forall|i: int| 0 <= i < s.len() ==> s[i] != '\n' && s[i] != '\r'
}

/// The window of `content` that is visible on a surface of width
/// `surface_width` when the line is painted at screen column `origin_x`
/// while the viewport is scrolled `column_offset` columns to the right: the
/// characters in `[origin_x + column_offset, column_offset + (surface_width
/// - origin_x))`, clipped to the content. A line shorter than the scroll
/// offset yields the empty window.
pub open spec fn visible_window(
    content: Seq<char>,
    origin_x: int,
    surface_width: int,
    column_offset: int,
) -> Seq<char> {
    let width = if surface_width >= origin_x {
        surface_width - origin_x
    } else {
        0
    };
    let start = column_offset + origin_x;
    let end = min(column_offset + width, content.len() as int);
    if start >= end {
        Seq::empty()
    } else {
        content.subrange(start, end)
    }
}

/// One line of text. Its view is the sequence of its characters; the
/// well-formed lines hold no line terminators, an invariant established at
/// construction and never broken afterwards, since a line is immutable.
pub struct Line {
    content: String,
}

impl View for Line {
    type V = Seq<char>;

    closed spec fn view(&self) -> Seq<char> {
        self.content@
    }
}

impl Line {
    /// Constructs a line from one line of text. Text with embedded line
    /// breaks is a caller bug, ruled out here rather than recovered from.
    pub fn from(text: &str) -> (line: Self)
        requires
            single_line(text@),
        ensures
            line@ == text@,
    {
        Self { content: text.to_owned() }
    }

    /// The character count of the line.
    pub fn len(&self) -> (l: usize)
        ensures
            l as int == self@.len(),
    {
        self.content.as_str().unicode_len()
    }

    /// The slice of this line that lands on the surface: the visible window
    /// for the given screen column, surface width and horizontal scroll.
    /// Empty when the window starts at or past its end.
    pub fn visible_slice(&self, origin_x: usize, surface_width: usize, column_offset: usize) -> (s:
        &str)
        ensures
            s@ == visible_window(self@, origin_x as int, surface_width as int, column_offset as int),
    {
        let width = surface_width.saturating_sub(origin_x);
        let len = self.len();
        let reach = column_offset.saturating_add(width);
        let end = if reach < len {
            reach
        } else {
            len
        };
        let start = column_offset.saturating_add(origin_x);
        if start >= end {
            let empty = "";
            proof {
                reveal_strlit("");
                assert(empty@ =~= visible_window(
                    self@,
                    origin_x as int,
                    surface_width as int,
                    column_offset as int,
                ));
            }
            empty
        } else {
            self.content.as_str().substring_char(start, end)
        }
    }

    /// Paints the visible window of this line at `origin`, given the current
    /// horizontal scroll. The window is clipped here, so the surface is
    /// never asked for characters outside the line; whether the paint itself
    /// succeeds is the surface's to say.
    pub fn render_into<T: Surface>(
        &self,
        view: &T,
        origin: Coordinate,
        scroll_offset: Coordinate,
    ) -> Result<(), RenderingError> {
        let width = view.size().width;
        let slice = self.visible_slice(origin.x, width, scroll_offset.x);
        view.render_str(slice, origin)
    }
}

} // verus!
