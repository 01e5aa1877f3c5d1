//! Window counting for the full-screen dimming overlay.
//!
//! Every open window or modal adds one to the count; the overlay darkens the
//! canvas more the more windows are stacked, and is not painted at all when
//! none is open. Painting itself happens in the application layer, which asks
//! [`OverlayCounter::overlay_to_paint`] what to draw.

use crate::color::Color32;
use vstd::prelude::*;

verus! {

/// Paint layer of an overlay, from the bottom of the stack to the top.
#[derive(Clone, Copy, Debug, PartialEq, Eq, Structural)]
pub enum Order {
    /// Painted behind all floating windows.
    Background,
    /// Normal movable windows.
    Middle,
    /// Popups and menus, above windows.
    Foreground,
    /// Tooltips, above everything interactive.
    Tooltip,
    /// The debug layer, painted last.
    Debug,
}

/// Opacity of the overlay for a given number of open windows: none for no
/// window, 80 for one, 40 more for each further window up to three, and 220
/// from four windows on.
pub open spec fn overlay_alpha(count: int) -> int {
    if count <= 0 {
        0
    } else if count > 3 {
        220
    } else {
        80 + 40 * (count - 1)
    }
}

/// Window count after one more window opened.
pub open spec fn count_after_open(count: int) -> int {
    count + 1
}

/// Window count after a window closed; it never drops below zero.
pub open spec fn count_after_close(count: int) -> int {
    if count > 0 {
        count - 1
    } else {
        0
    }
}

/// Layer suggested for a given number of open windows.
pub open spec fn recommended_layer(count: int) -> Order {
    if count == 1 {
        Order::Background
    } else if count == 2 {
        Order::Middle
    } else {
        Order::Foreground
    }
}

/// Counts the open windows and remembers the layer chosen for the overlay.
#[derive(Clone, Copy, Debug)]
pub struct OverlayCounter {
    counter: u8,
    order: Order,
}

impl OverlayCounter {
    /// Number of open windows.
    pub closed spec fn count(&self) -> u8 {
        self.counter
    }

    /// Layer last selected with one of the `paint_*` methods.
    pub closed spec fn layer(&self) -> Order {
        self.order
    }

    /// No open window, background layer.
    pub fn new() -> (c: OverlayCounter)
        ensures
            c.count() == 0,
            c.layer() == Order::Background,
    {
        OverlayCounter { counter: 0, order: Order::Background }
    }

    /// Number of open windows.
    pub fn counter(&self) -> (n: u8)
        ensures
            n == self.count(),
    {
        self.counter
    }

    /// Layer last selected with one of the `paint_*` methods.
    pub fn order(&self) -> (o: Order)
        ensures
            o == self.layer(),
    {
        self.order
    }

    /// Paint the next overlay on the background layer.
    pub fn paint_background(&mut self)
        ensures
            final(self).count() == old(self).count(),
            final(self).layer() == Order::Background,
    {
        self.order = Order::Background;
    }

    /// Paint the next overlay on the middle layer.
    pub fn paint_middle(&mut self)
        ensures
            final(self).count() == old(self).count(),
            final(self).layer() == Order::Middle,
    {
        self.order = Order::Middle;
    }

    /// Paint the next overlay on the foreground layer.
    pub fn paint_foreground(&mut self)
        ensures
            final(self).count() == old(self).count(),
            final(self).layer() == Order::Foreground,
    {
        self.order = Order::Foreground;
    }

    /// Paint the next overlay on the tooltip layer.
    pub fn paint_tooltip(&mut self)
        ensures
            final(self).count() == old(self).count(),
            final(self).layer() == Order::Tooltip,
    {
        self.order = Order::Tooltip;
    }

    /// Paint the next overlay on the debug layer.
    pub fn paint_debug(&mut self)
        ensures
            final(self).count() == old(self).count(),
            final(self).layer() == Order::Debug,
    {
        self.order = Order::Debug;
    }

    /// Record that a window was opened. The count is a byte, so at most 255
    /// windows can be tracked.
    pub fn window_opened(&mut self)
        requires
            old(self).count() < 255,
        ensures
            final(self).count() == count_after_open(old(self).count() as int),
            final(self).layer() == old(self).layer(),
    {
        self.counter = self.counter + 1;
    }

    /// Record that a window was closed. Closing with no window open keeps the
    /// count at zero.
    pub fn window_closed(&mut self)
        ensures
            final(self).count() == count_after_close(old(self).count() as int),
            final(self).layer() == old(self).layer(),
    {
        if self.counter > 0 {
            self.counter = self.counter - 1;
        }
    }

    /// Opacity of the overlay for the current count.
    pub fn calculate_alpha(&self) -> (a: u8)
        ensures
            a == overlay_alpha(self.count() as int),
    {
        let counter = self.counter;

        if counter == 0 {
            return 0;
        }
        if counter > 3 {
            return 220;
        }
        let mut a: u8 = 80;
        let mut i: u8 = 1;
        while i < counter
            invariant
                1 <= i <= counter <= 3,
                a == 80 + 40 * (i - 1),
            decreases counter - i,
        {
            a = a + 40;
            i = i + 1;
        }
        a
    }

    /// Darkening tint for the current count: black at
    /// [`OverlayCounter::calculate_alpha`].
    pub fn overlay_tint(&self) -> (c: Color32)
        ensures
            c == Color32::from_black_alpha_spec(overlay_alpha(self.count() as int) as u8),
    {
        if self.counter == 1 {
            return Color32::from_black_alpha(80);
        }
        let alpha = self.calculate_alpha();
        Color32::from_black_alpha(alpha)
    }

    /// Layer suggested by the current count: background for one window,
    /// middle for two, foreground otherwise.
    pub fn recommended_order(&self) -> (o: Order)
        ensures
            o == recommended_layer(self.count() as int),
    {
        if self.counter == 1 {
            Order::Background
        } else if self.counter == 2 {
            Order::Middle
        } else {
            Order::Foreground
        }
    }

    /// What the full-screen overlay should paint this frame: nothing when no
    /// window is open, otherwise the layer (the recommended one, or the one
    /// last selected) and the tint.
    pub fn overlay_to_paint(&self, recommend_order: bool) -> (p: Option<(Order, Color32)>)
        ensures
            self.count() == 0 ==> p is None,
            self.count() != 0 ==> p == Some((
                if recommend_order {
                    recommended_layer(self.count() as int)
                } else {
                    self.layer()
                },
                Color32::from_black_alpha_spec(overlay_alpha(self.count() as int) as u8),
            )),
    {
        if self.counter == 0 {
            return None;
        }
        let order = if recommend_order {
            self.recommended_order()
        } else {
            self.order()
        };
        Some((order, self.overlay_tint()))
    }
}

impl Default for OverlayCounter {
    fn default() -> (c: OverlayCounter)
        ensures
            c.count() == 0,
            c.layer() == Order::Background,
    {
        OverlayCounter::new()
    }
}

/// There is no overlay exactly when no window is open.
pub proof fn overlay_is_transparent_exactly_without_windows(count: u8)
    ensures
        (overlay_alpha(count as int) == 0) <==> count == 0,
{
}

/// Each window opened darkens the overlay further until four windows are
/// open; beyond that the overlay keeps its darkest tint. The alpha always fits
/// a byte.
pub proof fn overlay_darkens_with_each_window(m: int, n: int)
    requires
        0 <= m <= n,
    ensures
        overlay_alpha(m) <= overlay_alpha(n),
        m < n <= 4 ==> overlay_alpha(m) < overlay_alpha(n),
        0 <= overlay_alpha(n) <= 220,
        n > 3 ==> overlay_alpha(n) == 220,
{
}

/// Closing the window that was just opened restores the count.
pub proof fn close_undoes_open(count: u8)
    ensures
        count_after_close(count_after_open(count as int)) == count,
{
}

/// Closing a window never makes the overlay darker.
pub proof fn close_never_darkens(count: u8)
    ensures
        overlay_alpha(count_after_close(count as int)) <= overlay_alpha(count as int),
{
}

} // verus!
