//! Two-stop linear gradients and fills that are either solid or a gradient.
//!
//! A gradient is painted as a vertex-colored mesh; this module holds its
//! colors and direction, the colors of the four corners of a rectangle, and
//! the palette remapping of fills. Sampling and meshing happen where the
//! geometry lives, in the application layer.

use crate::color::Color32;
use vstd::prelude::*;

verus! {

/// Axis of a linear gradient across a rectangle.
#[derive(Copy, Clone, Debug, PartialEq, Eq, Hash, Structural)]
pub enum GradientDir {
    /// `from` at the top edge, `to` at the bottom.
    TopDown,
    /// `from` at the bottom edge, `to` at the top.
    BottomUp,
    /// `from` at the left edge, `to` at the right.
    LeftToRight,
    /// `from` at the right edge, `to` at the left.
    RightToLeft,
}

impl Default for GradientDir {
    fn default() -> (d: GradientDir)
        ensures
            d == GradientDir::TopDown,
    {
        GradientDir::TopDown
    }
}

/// Two-color linear gradient.
#[derive(Copy, Clone, Debug, PartialEq, Eq, Hash, Structural)]
pub struct Gradient {
    pub from: Color32,
    pub to: Color32,
    pub dir: GradientDir,
}

/// Corner colors `[left_top, right_top, left_bottom, right_bottom]` of a
/// rectangle filled with gradient `g`: the `from` edge carries `from`, the
/// opposite edge carries `to`.
pub open spec fn corners(g: Gradient) -> Seq<Color32> {
    match g.dir {
        GradientDir::TopDown => seq![g.from, g.from, g.to, g.to],
        GradientDir::BottomUp => seq![g.to, g.to, g.from, g.from],
        GradientDir::LeftToRight => seq![g.from, g.to, g.from, g.to],
        GradientDir::RightToLeft => seq![g.to, g.from, g.to, g.from],
    }
}

/// The gradient with its two stops swapped.
pub open spec fn reversed(g: Gradient) -> Gradient {
    Gradient { from: g.to, to: g.from, dir: g.dir }
}

/// The direction that runs the other way along the same axis.
pub open spec fn opposite(d: GradientDir) -> GradientDir {
    match d {
        GradientDir::TopDown => GradientDir::BottomUp,
        GradientDir::BottomUp => GradientDir::TopDown,
        GradientDir::LeftToRight => GradientDir::RightToLeft,
        GradientDir::RightToLeft => GradientDir::LeftToRight,
    }
}

impl Gradient {
    /// `from` at the top, `to` at the bottom.
    pub fn new(from: Color32, to: Color32) -> (g: Gradient)
        ensures
            g == (Gradient { from, to, dir: GradientDir::TopDown }),
    {
        Gradient { from, to, dir: GradientDir::TopDown }
    }

    /// `from` at the top, `to` at the bottom.
    pub fn vertical(from: Color32, to: Color32) -> (g: Gradient)
        ensures
            g == (Gradient { from, to, dir: GradientDir::TopDown }),
    {
        Gradient { from, to, dir: GradientDir::TopDown }
    }

    /// `from` at the left, `to` at the right.
    pub fn horizontal(from: Color32, to: Color32) -> (g: Gradient)
        ensures
            g == (Gradient { from, to, dir: GradientDir::LeftToRight }),
    {
        Gradient { from, to, dir: GradientDir::LeftToRight }
    }

    /// Same stops, along `dir`.
    pub fn with_dir(self, dir: GradientDir) -> (g: Gradient)
        ensures
            g == (Gradient { from: self.from, to: self.to, dir }),
    {
        Gradient { from: self.from, to: self.to, dir }
    }

    /// Same direction, stops swapped.
    pub fn reverse(self) -> (g: Gradient)
        ensures
            g == reversed(self),
    {
        Gradient { from: self.to, to: self.from, dir: self.dir }
    }

    /// Corner colors `[left_top, right_top, left_bottom, right_bottom]`.
    pub fn corner_colors(self) -> (c: [Color32; 4])
        ensures
            c@ == corners(self),
    {
        let c = match self.dir {
            GradientDir::TopDown => [self.from, self.from, self.to, self.to],
            GradientDir::BottomUp => [self.to, self.to, self.from, self.from],
            GradientDir::LeftToRight => [self.from, self.to, self.from, self.to],
            GradientDir::RightToLeft => [self.to, self.from, self.to, self.from],
        };
        assert(c@ =~= corners(self));
        c
    }
}

/// Solid color or gradient, the fill of a widget or frame.
#[derive(Copy, Clone, Debug, PartialEq, Eq, Hash, Structural)]
pub enum Fill {
    Solid(Color32),
    Gradient(Gradient),
}

/// `fill` after replacing every stop (or the solid color) equal to `from`
/// with `to`.
pub open spec fn remapped_fill(fill: Fill, from: Color32, to: Color32) -> Fill {
    match fill {
        Fill::Solid(c) => Fill::Solid(if c == from { to } else { c }),
        Fill::Gradient(g) => Fill::Gradient(
            Gradient {
                from: if g.from == from { to } else { g.from },
                to: if g.to == from { to } else { g.to },
                dir: g.dir,
            },
        ),
    }
}

impl Fill {
    /// A solid fill.
    pub fn solid(color: Color32) -> (f: Fill)
        ensures
            f == Fill::Solid(color),
    {
        Fill::Solid(color)
    }

    /// Two-stop vertical fill (`from` at the top).
    pub fn vertical(from: Color32, to: Color32) -> (f: Fill)
        ensures
            f == Fill::Gradient(Gradient { from, to, dir: GradientDir::TopDown }),
    {
        Fill::Gradient(Gradient::vertical(from, to))
    }

    /// Two-stop horizontal fill (`from` at the left).
    pub fn horizontal(from: Color32, to: Color32) -> (f: Fill)
        ensures
            f == Fill::Gradient(Gradient { from, to, dir: GradientDir::LeftToRight }),
    {
        Fill::Gradient(Gradient::horizontal(from, to))
    }

    /// If a stop (or the solid color) equals `from`, replace it with `to`.
    pub fn remap_color(&mut self, from: Color32, to: Color32)
        ensures
            *final(self) == remapped_fill(*old(self), from, to),
    {
        match self {
            Fill::Solid(color) => {
                if *color == from {
                    *color = to;
                }
            },
            Fill::Gradient(gradient) => {
                if gradient.from == from {
                    gradient.from = to;
                }
                if gradient.to == from {
                    gradient.to = to;
                }
            },
        }
    }
}

impl Default for Fill {
    /// A transparent solid fill.
    fn default() -> (f: Fill)
        ensures
            f == Fill::Solid(Color32::transparent()),
    {
        Fill::Solid(Color32::transparent())
    }
}

impl From<Color32> for Fill {
    fn from(color: Color32) -> (f: Fill) {
        Fill::Solid(color)
    }
}

impl vstd::std_specs::convert::FromSpecImpl<Color32> for Fill {
    open spec fn obeys_from_spec() -> bool {
        true
    }

    open spec fn from_spec(color: Color32) -> Fill {
        Fill::Solid(color)
    }
}

impl From<Gradient> for Fill {
    fn from(gradient: Gradient) -> (f: Fill) {
        Fill::Gradient(gradient)
    }
}

impl vstd::std_specs::convert::FromSpecImpl<Gradient> for Fill {
    open spec fn obeys_from_spec() -> bool {
        true
    }

    open spec fn from_spec(gradient: Gradient) -> Fill {
        Fill::Gradient(gradient)
    }
}

/// Reversing a gradient twice gives it back.
pub proof fn reverse_is_an_involution(g: Gradient)
    ensures
        reversed(reversed(g)) == g,
{
}

/// Reversing a gradient paints the same rectangle as running its stops along
/// the opposite direction.
pub proof fn reverse_matches_opposite_direction(g: Gradient)
    ensures
        corners(reversed(g)) == corners(Gradient { from: g.from, to: g.to, dir: opposite(g.dir) }),
{
}

/// The `from` color sits on the edge the direction starts from: the top for
/// `TopDown`, the left for `LeftToRight`, and so on; the `to` color sits on
/// the opposite edge.
pub proof fn from_color_sits_on_the_starting_edge(g: Gradient)
    ensures
        g.dir == GradientDir::TopDown ==> corners(g)[0] == g.from && corners(g)[1] == g.from
            && corners(g)[2] == g.to && corners(g)[3] == g.to,
        g.dir == GradientDir::LeftToRight ==> corners(g)[0] == g.from && corners(g)[2] == g.from
            && corners(g)[1] == g.to && corners(g)[3] == g.to,
        corners(g).len() == 4,
{
}

/// Remapping a fill twice with the same colors changes nothing more than
/// remapping it once, and remapping a color to itself changes nothing.
pub proof fn remap_color_is_idempotent(fill: Fill, from: Color32, to: Color32)
    ensures
        remapped_fill(remapped_fill(fill, from, to), from, to) == remapped_fill(fill, from, to),
        remapped_fill(fill, from, from) == fill,
{
}

/// Remapping a color treats each stop on its own: a stop equal to the old
/// color takes the new one and any other stop is kept, whatever the other
/// stop is; the direction is kept, and a solid fill stays solid.
pub proof fn remap_color_treats_each_stop_alone(g: Gradient, h: Gradient, c: Color32, from: Color32, to: Color32)
    ensures
        remapped_fill(Fill::Gradient(g), from, to) is Gradient,
        g.to == from ==> (remapped_fill(Fill::Gradient(g), from, to)->Gradient_0).to == to,
        g.to != from ==> (remapped_fill(Fill::Gradient(g), from, to)->Gradient_0).to == g.to,
        g.from == from ==> (remapped_fill(Fill::Gradient(g), from, to)->Gradient_0).from == to,
        g.from != from ==> (remapped_fill(Fill::Gradient(g), from, to)->Gradient_0).from == g.from,
        (remapped_fill(Fill::Gradient(g), from, to)->Gradient_0).dir == g.dir,
        g.to == h.to ==> (remapped_fill(Fill::Gradient(g), from, to)->Gradient_0).to == (remapped_fill(
            Fill::Gradient(h),
            from,
            to,
        )->Gradient_0).to,
        g.from == h.from ==> (remapped_fill(Fill::Gradient(g), from, to)->Gradient_0).from == (
        remapped_fill(Fill::Gradient(h), from, to)->Gradient_0).from,
        c == from ==> remapped_fill(Fill::Solid(c), from, to) == Fill::Solid(to),
        c != from ==> remapped_fill(Fill::Solid(c), from, to) == Fill::Solid(c),
{
}

} // verus!
