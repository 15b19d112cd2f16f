//! The drawing surface, as the list of drawing operations issued on it.
//!
//! The renderers record what is to be drawn; the host replays the list on
//! its canvas, in order.

use vstd::prelude::*;
use crate::geometry::{Color, Rect, Triangle};
use crate::loader::Image;

verus! {

/// One drawing operation.
#[derive(Debug, PartialEq, Eq)]
pub enum DrawCommand {
    /// Erase the region to transparent.
    ClearRegion { x: u16, y: u16, w: u16, h: u16 },
    /// Copy `src` of `image` onto the destination region.
    Blit { image: Image, src: Rect, dst_x: u16, dst_y: u16, dst_w: u16, dst_h: u16 },
    /// Fill a triangle with one colour.
    FillTriangle { triangle: Triangle, color: Color },
}

/// A drawing target that records the operations issued on it.
pub struct Surface {
    commands: Vec<DrawCommand>,
}

impl View for Surface {
    type V = Seq<DrawCommand>;

    closed spec fn view(&self) -> Seq<DrawCommand> {
        self.commands@
    }
}

impl Surface {
    /// A surface on which nothing was drawn yet.
    pub fn new() -> (surface: Surface)
        ensures
            surface@ == Seq::<DrawCommand>::empty(),
    {
        Surface { commands: Vec::new() }
    }

    /// Erases the region with corner `(x, y)` and extent `w` by `h`.
    pub fn clear_region(&mut self, x: u16, y: u16, w: u16, h: u16)
        ensures
            final(self)@ == old(self)@.push(DrawCommand::ClearRegion { x, y, w, h }),
    {
        self.commands.push(DrawCommand::ClearRegion { x, y, w, h });
    }

    /// Copies the region `src` of `image` to the destination region with
    /// corner `(dst_x, dst_y)` and extent `dst_w` by `dst_h`.
    pub fn blit(&mut self, image: &Image, src: Rect, dst_x: u16, dst_y: u16, dst_w: u16, dst_h: u16)
        ensures
            final(self)@ == old(self)@.push(
                DrawCommand::Blit { image: *image, src, dst_x, dst_y, dst_w, dst_h },
            ),
    {
        self.commands.push(DrawCommand::Blit { image: image.clone(), src, dst_x, dst_y, dst_w, dst_h });
    }

    /// Fills `triangle` with `color`.
    pub fn fill_triangle(&mut self, triangle: Triangle, color: Color)
        ensures
            final(self)@ == old(self)@.push(DrawCommand::FillTriangle { triangle, color }),
    {
        self.commands.push(DrawCommand::FillTriangle { triangle, color });
    }

    /// How many operations are recorded.
    pub fn len(&self) -> (n: usize)
        ensures
            n == self@.len(),
    {
        self.commands.len()
    }

    /// The recorded operations, oldest first.
    pub fn commands(&self) -> (list: &Vec<DrawCommand>)
        ensures
            list@ == self@,
    {
        &self.commands
    }

    /// Hands the recorded operations out, oldest first, and leaves the
    /// surface empty for the next frame.
    pub fn drain(&mut self) -> (list: Vec<DrawCommand>)
        ensures
            list@ == old(self)@,
            final(self)@ == Seq::<DrawCommand>::empty(),
    {
        let mut list: Vec<DrawCommand> = Vec::new();
        core::mem::swap(&mut self.commands, &mut list);
        list
    }
}

} // verus!
