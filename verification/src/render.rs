//! Shared rendering values: 8-bit colors, per-pixel draw commands, render
//! sizes, texture handles, and the framebuffer helpers built on them.

use vstd::prelude::*;

use crate::conversions::index_2d_to_1d;

verus! {

/// An 8-bit RGBA color.
#[derive(Copy, Clone, Debug, PartialEq, Eq, Structural)]
pub struct Color {
    pub r: u8,
    pub g: u8,
    pub b: u8,
    pub a: u8,
}

impl Color {
    /// Builds a color from all four channels.
    pub fn new(r: u8, g: u8, b: u8, a: u8) -> (c: Color)
        ensures
            c == (Color { r, g, b, a }),
    {
        Color { r, g, b, a }
    }

    /// Builds a fully opaque color from the three color channels.
    pub fn from_rgb(r: u8, g: u8, b: u8) -> (c: Color)
        ensures
            c == (Color { r, g, b, a: 255u8 }),
    {
        Color { r, g, b, a: 255 }
    }
}

/// A handle naming a texture that was handed to the render backend. Handles
/// are chosen by the caller, not managed here.
#[derive(Copy, Clone, Debug, PartialEq, Eq, Hash, Structural)]
pub struct TextureId {
    id: u32,
}

impl TextureId {
    /// The raw id behind the handle.
    pub closed spec fn spec_id(&self) -> u32 {
        self.id
    }

    /// Wraps a raw texture id.
    pub fn new(id: u32) -> (t: TextureId)
        ensures
            t.spec_id() == id,
    {
        TextureId { id }
    }

    /// Returns the raw texture id.
    pub fn id(&self) -> (r: u32)
        ensures
            r == self.spec_id(),
    {
        self.id
    }
}

/// A render resolution in pixels.
#[derive(Copy, Clone, Debug, PartialEq, Eq, Structural)]
pub struct Size {
    pub width: u32,
    pub height: u32,
}

/// One framebuffer cell: the glyph drawn at a pixel and its color.
#[derive(Copy, Clone, Debug, PartialEq, Eq, Structural)]
pub struct Command {
    pub c: char,
    pub color: Color,
    pub x: u32,
    pub y: u32,
}

impl Command {
    /// The placeholder cell: a white `@` at the origin.
    pub fn default() -> (cmd: Command)
        ensures
            cmd == (Command { c: '@', color: Color { r: 255u8, g: 255u8, b: 255u8, a: 255u8 }, x: 0u32, y: 0u32 }),
    {
        Command { c: '@', color: Color::from_rgb(255, 255, 255), x: 0, y: 0 }
    }

    /// Resets the cell to a black `@`, keeping its position.
    pub fn reset(&mut self)
        ensures
            *final(self) == (Command {
                c: '@',
                color: Color { r: 0u8, g: 0u8, b: 0u8, a: 255u8 },
                x: old(self).x,
                y: old(self).y,
            }),
    {
        self.c = '@';
        self.color = Color::from_rgb(0, 0, 0);
    }
}

/// How many cells a framebuffer of resolution `size` holds.
pub open spec fn cell_count(size: Size) -> int {
    size.width * size.height
}

/// A framebuffer holds one command per pixel, in row-major order, each cell
/// within the resolution's bounds.
pub open spec fn is_framebuffer(cmds: Seq<Command>, size: Size) -> bool {
    cmds.len() == cell_count(size)
}

/// The resolution that a window maps to when every `render_scalar`-th pixel
/// is traced: the window size divided by the scalar, which is first raised
/// to at least 1.
pub fn render_dimensions(window_width: u32, window_height: u32, render_scalar: u32) -> (s: Size)
    ensures
        s.width == window_width as int / (if render_scalar == 0 { 1int } else { render_scalar as int }),
        s.height == window_height as int / (if render_scalar == 0 { 1int } else { render_scalar as int }),
{
    let scalar: u32 = if render_scalar == 0 { 1 } else { render_scalar };

    Size { width: window_width / scalar, height: window_height / scalar }
}

/// A fresh framebuffer of resolution `size` with every cell set to `cell`.
pub fn filled_commands(size: Size, cell: Command) -> (cmds: Vec<Command>)
    requires
        cell_count(size) <= usize::MAX,
    ensures
        is_framebuffer(cmds@, size),
        forall|i: int| 0 <= i < cmds@.len() ==> cmds@[i] == cell,
{
    let n: usize = (size.width as usize) * (size.height as usize);
    let mut cmds: Vec<Command> = Vec::with_capacity(n);
    let mut i: usize = 0;
    while i < n
        invariant
            i <= n,
            cmds@.len() == i,
            forall|j: int| 0 <= j < i ==> cmds@[j] == cell,
        decreases n - i,
    {
        cmds.push(cell);
        i = i + 1;
    }

    cmds
}

/// Resets every framebuffer cell to a black `@`, keeping each cell's
/// position.
pub fn reset_commands(cmds: &mut Vec<Command>)
    ensures
        final(cmds)@.len() == old(cmds)@.len(),
        forall|i: int|
            0 <= i < old(cmds)@.len() ==> final(cmds)@[i] == (Command {
                c: '@',
                color: Color { r: 0u8, g: 0u8, b: 0u8, a: 255u8 },
                x: old(cmds)@[i].x,
                y: old(cmds)@[i].y,
            }),
{
    let n = cmds.len();
    let mut i: usize = 0;
    while i < n
        invariant
            i <= n,
            cmds@.len() == n,
            n == old(cmds)@.len(),
            forall|j: int|
                0 <= j < i ==> cmds@[j] == (Command {
                    c: '@',
                    color: Color { r: 0u8, g: 0u8, b: 0u8, a: 255u8 },
                    x: old(cmds)@[j].x,
                    y: old(cmds)@[j].y,
                }),
            forall|j: int| i <= j < n ==> cmds@[j] == old(cmds)@[j],
        decreases n - i,
    {
        let cell = cmds[i];
        cmds[i] = Command { c: '@', color: Color::from_rgb(0, 0, 0), x: cell.x, y: cell.y };
        i = i + 1;
    }
}

/// Stores an arriving command into the framebuffer cell addressed by its
/// coordinates, which wrap at the resolution's bounds.
pub fn store_command(cmds: &mut Vec<Command>, size: Size, cmd: Command)
    requires
        is_framebuffer(old(cmds)@, size),
        size.width > 0,
        size.height > 0,
    ensures
        is_framebuffer(final(cmds)@, size),
        final(cmds)@ == old(cmds)@.update(
            (cmd.x % size.width) + size.width * (cmd.y % size.height),
            cmd,
        ),
{
    let x = cmd.x % size.width;
    let y = cmd.y % size.height;
    let len = cmds.len();

    proof {
        crate::conversions::lemma_grid_index_bound(
            x as int,
            y as int,
            size.width as int,
            size.height as int,
        );
        assert(cell_count(size) == len);
    }

    let i = index_2d_to_1d(x as usize, y as usize, size.width as usize);
    cmds[i] = cmd;
}

} // verus!
