//! What every annotation tool and every annotation object can do.

use vstd::prelude::*;

use crate::math::Vec2D;
use crate::sketch_board::KeyEventMsg;
use crate::sketch_board::MouseEventMsg;
use crate::style::Color;
use crate::style::Size;
use crate::style::Style;

pub mod line;

verus! {

/// One operation on a drawing context.
#[derive(Clone, Copy, Debug, PartialEq)]
pub enum DrawCommand {
    /// Save the state of the context. It can fail.
    Save,
    /// Set the width of strokes to the line width of the given size.
    SetLineWidth(Size),
    /// Set the source to the given colour.
    SetSourceRgba(Color),
    /// Begin a new path at the given point.
    MoveTo(Vec2D),
    /// Add a line from the current point to the point that lies the given
    /// displacement further.
    RelLineTo(Vec2D),
    /// Stroke the current path. It can fail.
    Stroke,
    /// Restore the state saved last. It can fail.
    Restore,
}

/// What an event did to a tool.
#[derive(Debug)]
pub enum ToolUpdateResult<D> {
    /// The gesture is finished: the object is handed over, and the tool keeps
    /// nothing of it.
    Commit(Box<D>),
    /// The preview changed and is to be drawn again.
    Redraw,
    /// Nothing that can be seen changed.
    Unmodified,
}

/// An annotation object that can be drawn and duplicated.
pub trait Drawable: Sized {
    /// The operations that draw the object, in the order in which they are to
    /// be performed.
    spec fn draw_commands(&self) -> Seq<DrawCommand>;

    /// Gives the operations that draw the object. Whoever performs them stops
    /// at the first that fails.
    fn draw(&self) -> (commands: Vec<DrawCommand>)
        ensures
            commands@ == self.draw_commands(),
    ;

    /// Gives a copy of the object that shares nothing with it.
    fn clone_box(&self) -> (copy: Box<Self>)
        ensures
            *copy == *self,
    ;
}

/// A tool that turns input events into annotation objects.
pub trait Tool {
    /// The kind of object that the tool makes.
    type Drawing: Drawable;

    /// The object of the gesture in progress, if there is one.
    spec fn preview(&self) -> Option<Self::Drawing>;

    fn handle_mouse_event(&mut self, event: MouseEventMsg) -> (result: ToolUpdateResult<
        Self::Drawing,
    >)
        ensures
            result is Commit ==> final(self).preview() is None,
            result is Unmodified ==> final(self).preview() == old(self).preview(),
    ;

    fn handle_key_event(&mut self, event: KeyEventMsg) -> (result: ToolUpdateResult<Self::Drawing>)
        ensures
            result is Commit ==> final(self).preview() is None,
            result is Unmodified ==> final(self).preview() == old(self).preview(),
    ;

    fn handle_style_event(&mut self, style: Style) -> (result: ToolUpdateResult<Self::Drawing>)
        ensures
            result is Commit ==> final(self).preview() is None,
            result is Unmodified ==> final(self).preview() == old(self).preview(),
    ;

    /// The object of the gesture in progress, for drawing the preview.
    fn get_drawable(&self) -> (drawable: Option<&Self::Drawing>)
        ensures
            match drawable {
                Some(d) => self.preview() == Some(*d),
                None => self.preview() is None,
            },
    ;
}

} // verus!
