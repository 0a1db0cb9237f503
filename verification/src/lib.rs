//! A small text-viewer core: a line buffer, a cursor ("point") moved by
//! directional commands, a viewport scroll policy that keeps the point
//! visible, and rendering of the visible slice into an abstract display
//! surface. The concrete terminal device is a collaborator outside this
//! library; it implements the [`surface::Surface`] trait.

pub mod document;
pub mod editor;
pub mod geometry;
pub mod line;
pub mod surface;
