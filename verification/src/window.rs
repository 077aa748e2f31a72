//! The description of the window that will host the renderer: its title
//! and initial size. Opening the window is the embedding application's
//! concern.

use vstd::prelude::*;

verus! {

/// A window about to be opened: title and initial size in pixels.
pub struct OpenGlWindow {
    title: &'static str,
    w: u32,
    h: u32,
}

impl OpenGlWindow {
    /// The window title's characters.
    pub closed spec fn spec_title(&self) -> Seq<char> {
        self.title@
    }

    /// The window's initial width in pixels.
    pub closed spec fn spec_width(&self) -> u32 {
        self.w
    }

    /// The window's initial height in pixels.
    pub closed spec fn spec_height(&self) -> u32 {
        self.h
    }

    /// Describes a window with the given title and size.
    pub fn new(title: &'static str, w: u32, h: u32) -> (r: Self)
        ensures
            r.spec_title() == title@,
            r.spec_width() == w,
            r.spec_height() == h,
    {
        OpenGlWindow { title, w, h }
    }

    /// The window title.
    pub fn title(&self) -> (r: &'static str)
        ensures
            r@ == self.spec_title(),
    {
        self.title
    }

    /// The window's initial width in pixels.
    pub fn width(&self) -> (r: u32)
        ensures
            r == self.spec_width(),
    {
        self.w
    }

    /// The window's initial height in pixels.
    pub fn height(&self) -> (r: u32)
        ensures
            r == self.spec_height(),
    {
        self.h
    }
}

} // verus!
