//! The viewer's top-level state: the document, the viewport scroll offset,
//! and the quit flag, with the scroll policy that keeps the point visible
//! and the welcome page shown while no document is loaded.

use vstd::prelude::*;
use crate::document::Document;
use crate::geometry::{sat_add, sat_sub, Coordinate, Size};
use crate::surface::{RenderingError, Surface};

verus! {

/// The scroll offset for one axis after a recompute: where the point `p` is
/// above the window starting at `off`, the window's top snaps to `p`; where
/// it is at or below the window's far edge (`extent` cells from `off`), the
/// window's bottom snaps to `p`; otherwise the offset stays. The arithmetic
/// saturates at the `usize` range, as the executable policy's does.
pub open spec fn scroll_axis(off: int, p: int, extent: int) -> int {
    if p < off {
        p
    } else if p >= sat_add(off, extent) {
        sat_add(sat_sub(p, extent), 1)
    } else {
        off
    }
}

/// One recompute puts the offset where a second one keeps it: on any axis
/// with at least one cell of extent, the scroll recompute is idempotent as
/// long as the point does not move in between.
pub proof fn lemma_scroll_axis_idempotent(off: int, p: int, extent: int)
    requires
        0 <= off <= usize::MAX,
        0 <= p <= usize::MAX,
        1 <= extent <= usize::MAX,
    ensures
        scroll_axis(scroll_axis(off, p, extent), p, extent) == scroll_axis(off, p, extent),
{
}

/// Recomputing the scroll offset twice in a row, with the point and the
/// surface size unchanged in between, yields the same offset both times —
/// provided the surface has at least one column and one row.
pub proof fn lemma_scroll_recompute_idempotent(offset: Coordinate, point: Coordinate, size: Size)
    requires
        size.width >= 1,
        size.height >= 1,
    ensures
        scroll_axis(
            scroll_axis(offset.x as int, point.x as int, size.width as int),
            point.x as int,
            size.width as int,
        ) == scroll_axis(offset.x as int, point.x as int, size.width as int),
        scroll_axis(
            scroll_axis(offset.y as int, point.y as int, size.height as int),
            point.y as int,
            size.height as int,
        ) == scroll_axis(offset.y as int, point.y as int, size.height as int),
{
    lemma_scroll_axis_idempotent(offset.x as int, point.x as int, size.width as int);
    lemma_scroll_axis_idempotent(offset.y as int, point.y as int, size.height as int);
}

/// Where the welcome message of `len` characters goes on a surface of the
/// given size: nowhere when the surface has no row or is narrower than the
/// message; otherwise roughly a third of the way down and roughly centered.
pub open spec fn spec_welcome_origin(size: Size, len: int) -> Option<Coordinate> {
    if size.height < 1 || size.width < len {
        None
    } else {
        Some(
            Coordinate {
                x: (sat_sub(sat_sub(size.width as int, len) / 2, 1)) as usize,
                y: (size.height as int / 3) as usize,
            },
        )
    }
}

/// The viewer's state: the loaded document, the scroll offset (the document
/// cell shown at the surface's top-left corner), and the quit flag. The
/// event loop around it moves the point, recomputes the scroll, and renders,
/// in that order.
pub struct Editor {
    pub should_quit: bool,
    pub document: Document,
    pub scroll_offset: Coordinate,
}

impl Editor {
    /// Recomputes the scroll offset so the point stays inside the visible
    /// rectangle, adjusting each axis minimally as `scroll_axis` says; the
    /// document and the quit flag are untouched. Runs after every point
    /// movement, before the next render.
    pub fn scroll_document(&mut self, size: Size)
        ensures
            final(self).document == old(self).document,
            final(self).should_quit == old(self).should_quit,
            final(self).scroll_offset.x as int == scroll_axis(
                old(self).scroll_offset.x as int,
                old(self).document.point().x as int,
                size.width as int,
            ),
            final(self).scroll_offset.y as int == scroll_axis(
                old(self).scroll_offset.y as int,
                old(self).document.point().y as int,
                size.height as int,
            ),
    {
        let point = self.document.point_location();
        if point.y < self.scroll_offset.y {
            self.scroll_offset.y = point.y;
        } else if point.y >= self.scroll_offset.y.saturating_add(size.height) {
            self.scroll_offset.y = point.y.saturating_sub(size.height).saturating_add(1);
        }
        if point.x < self.scroll_offset.x {
            self.scroll_offset.x = point.x;
        } else if point.x >= self.scroll_offset.x.saturating_add(size.width) {
            self.scroll_offset.x = point.x.saturating_sub(size.width).saturating_add(1);
        }
    }

    /// Where a message of `len` characters goes on a surface of the given
    /// size, or `None` when it does not fit: exactly `spec_welcome_origin`.
    pub fn welcome_origin(size: Size, len: usize) -> (r: Option<Coordinate>)
        ensures
            r == spec_welcome_origin(size, len as int),
    {
        if size.height < 1 || size.width < len {
            None
        } else {
            Some(
                Coordinate { x: ((size.width - len) / 2).saturating_sub(1), y: size.height / 3 },
            )
        }
    }

    /// Paints the welcome message at its place on the surface; a surface too
    /// small for the message is left untouched, which is a success.
    pub fn render_welcome_message_into<T: Surface>(view: &T) -> Result<(), RenderingError> {
        let message = "lineview -- a tiny text viewer";
        let size = view.size();
        let len = message.unicode_len();
        match Self::welcome_origin(size, len) {
            None => Ok(()),
            Some(origin) => view.render_str(message, origin),
        }
    }
}

impl Default for Editor {
    /// A viewer with an empty document, the scroll offset at the origin, and
    /// the quit flag down.
    fn default() -> (e: Self)
        ensures
            e.should_quit == false,
            e.document.wf(),
            e.document.lines_view().len() == 0,
            e.document.point() == (Coordinate { x: 0, y: 0 }),
            e.scroll_offset == (Coordinate { x: 0, y: 0 }),
    {
        Self {
            should_quit: false,
            document: Document::default(),
            scroll_offset: Coordinate { x: 0, y: 0 },
        }
    }
}

} // verus!
