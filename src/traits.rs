//! The capabilities a widget can have.

use vstd::prelude::*;

use crate::event::ExtEvent;

verus! {

// Each implementor states in its own `ensures` what these methods do to it.

/// A widget with a text label.
pub trait HasLabel {
    fn get_label(&self) -> &str;

    fn set_label(&mut self, label: &str);
}

/// A widget with a width and height.
pub trait HasSize {
    fn get_size(&self) -> (u32, u32);

    fn set_size(&mut self, width: u32, height: u32);
}

/// A widget placed at a point.
pub trait HasPosition {
    fn get_position(&self) -> (i32, i32);

    fn set_position(&mut self, x: i32, y: i32);
}

/// A widget that can be shown or hidden.
pub trait HasVisibility {
    /// Whether the widget is shown.
    spec fn visible(&self) -> bool;

    fn is_visible(&self) -> (r: bool)
        ensures
            r == self.visible(),
    ;

    fn set_visible(&mut self, vis: bool)
        ensures
            final(self).visible() == vis,
    ;

    fn show(&mut self)
        ensures
            final(self).visible(),
    {
        self.set_visible(true)
    }

    fn conceal(&mut self)
        ensures
            !final(self).visible(),
    {
        self.set_visible(false)
    }
}

/// A widget that takes part in event propagation.
pub trait HasEvents {
    type Handler;

    /// Offers `ev` to the children first, then to this widget's own handler;
    /// reports whether anyone took it.
    fn push_event(&mut self, ev: &crate::event::Event) -> bool;

    /// Reports each changed property to its owner's handler, this widget
    /// first, then every descendant.
    fn pull_events(&mut self);

    /// Replaces the handler.
    fn on_event(&mut self, handler: Self::Handler);
}

/// A surface that widgets draw on.
pub trait DrawContext {
    /// The texts drawn since the surface was last cleared, in order.
    spec fn drawn(&self) -> Seq<Seq<char>>;

    fn clear(&mut self)
        ensures
            final(self).drawn() == Seq::<Seq<char>>::empty(),
    ;

    fn draw_text(&mut self, text: &str)
        ensures
            final(self).drawn() == old(self).drawn().push(text@),
    ;
}

/// A widget that can draw itself on a surface.
pub trait CanDraw {
    fn draw<D: DrawContext>(&self, ctx: &mut D);
}

/// What the host has to do after a window-system event was taken in.
#[derive(Debug, Clone, Copy, PartialEq, Eq, Structural)]
pub enum Reaction {
    /// Nothing beyond what the toolkit did itself.
    Continue,
    /// Draw the window again.
    Redraw,
    /// Close the window and leave the event loop.
    Close,
}

/// The top of a tree, which takes events from the window system.
pub trait TopLevel {
    fn push_ext_event(&mut self, ext_ev: ExtEvent) -> Reaction;
}

/// What a widget needs to be the child of another.
pub trait Containable: HasEvents + CanDraw {
}

} // verus!
