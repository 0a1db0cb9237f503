//! The abstract display surface the viewer renders into, the error a paint
//! call may fail with, and the text that blanks a whole surface.

use vstd::prelude::*;
use crate::geometry::{sat_sub, Coordinate, Size};

verus! {

/// Declares `std::io::Error` so a rendering failure can carry the underlying
/// device error through the library unchanged. The library never looks
/// inside such a value; it only hands it back to the caller.
#[verifier::external_type_specification]
#[verifier::external_body]
pub struct ExIoError(std::io::Error);

/// Why a render call failed: the device reported an I/O error. The library
/// itself raises no errors during movement or rendering; this only carries a
/// surface's failure to the caller, unchanged.
#[derive(Debug)]
pub enum RenderingError {
    IO(std::io::Error),
}

/// A rectangle of character cells that text can be painted into: a real
/// terminal, a headless buffer, or a recording double in tests. The library
/// only ever borrows a surface for the duration of one render call.
///
/// `size` may change between calls (a terminal resize), so callers re-query
/// it every frame and never cache it; accordingly nothing is promised about
/// its result. `render_str` paints `text` starting at `origin`; callers keep
/// `text` free of line terminators and within the surface width, but
/// enforcing that is the implementation's own affair.
pub trait Surface {
    fn size(&self) -> Size;

    fn render_str(&self, text: &str, origin: Coordinate) -> Result<(), RenderingError>;
}

/// One blanked row: a `~` marker followed by `width - 1` spaces.
pub open spec fn blank_row(width: int) -> Seq<char> {
    seq!['~'] + Seq::new(sat_sub(width, 1) as nat, |i: int| ' ')
}

/// The first `rows_done` rows of the text that blanks a `width x height`
/// surface: each row of `blank_row`, with a `\r\n` separator after every row
/// but the last of the `height`.
pub open spec fn blank_prefix(width: int, rows_done: int, height: int) -> Seq<char>
    decreases rows_done,
{
    if rows_done <= 0 {
        Seq::empty()
    } else {
        blank_prefix(width, rows_done - 1, height) + blank_row(width) + (if rows_done < height {
            seq!['\r', '\n']
        } else {
            Seq::empty()
        })
    }
}

/// The text that blanks a whole `width x height` surface.
pub open spec fn blank_text(width: int, height: int) -> Seq<char> {
    blank_prefix(width, height, height)
}

/// Builds the string that clears a surface of the given size: every row a
/// `~` marker padded with spaces to the surface width, rows separated by
/// `\r\n`. A device prints this in one call to blank its screen.
pub fn clear_text(size: Size) -> (s: String)
    ensures
        s@ == blank_text(size.width as int, size.height as int),
{
    let mut s = String::new();
    let mut row: usize = 0;
    while row < size.height
        invariant
            row <= size.height,
            s@ == blank_prefix(size.width as int, row as int, size.height as int),
        decreases size.height - row,
    {
        proof {
            reveal_strlit("~");
            reveal_strlit("\r\n");
        }
        let ghost prefix = s@;
        s.append("~");
        let mut pad: usize = 0;
        let target = size.width.saturating_sub(1);
        let ghost row_start = s@;
        proof {
            assert(s@ =~= row_start + Seq::new(0nat, |i: int| ' '));
        }
        while pad < target
            invariant
                pad <= target,
                s@ == row_start + Seq::new(pad as nat, |i: int| ' '),
            decreases target - pad,
        {
            proof {
                reveal_strlit(" ");
            }
            s.append(" ");
            proof {
                assert(s@ =~= row_start + Seq::new((pad + 1) as nat, |i: int| ' '));
            }
            pad = pad + 1;
        }
        proof {
            assert(s@ =~= prefix + blank_row(size.width as int));
        }
        if row + 1 < size.height {
            s.append("\r\n");
        }
        proof {
            assert(s@ =~= blank_prefix(size.width as int, row + 1, size.height as int));
        }
        row = row + 1;
    }
    s
}

} // verus!
