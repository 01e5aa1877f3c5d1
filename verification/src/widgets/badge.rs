//! Which corner of a widget a notification badge sits in.

use crate::align::{Align, Align2};
use vstd::prelude::*;

verus! {

/// Which corner of a widget a badge is anchored to.
#[derive(Clone, Copy, Debug, PartialEq, Eq, Structural)]
pub enum BadgeCorner {
    TopLeft,
    /// Where notification badges usually live; the default.
    TopRight,
    BottomLeft,
    BottomRight,
}

/// The anchor of a corner: left or right along x, top or bottom along y.
pub open spec fn corner_anchor(corner: BadgeCorner) -> Align2 {
    match corner {
        BadgeCorner::TopLeft => Align2 { x: Align::Min, y: Align::Min },
        BadgeCorner::TopRight => Align2 { x: Align::Max, y: Align::Min },
        BadgeCorner::BottomLeft => Align2 { x: Align::Min, y: Align::Max },
        BadgeCorner::BottomRight => Align2 { x: Align::Max, y: Align::Max },
    }
}

/// Display name of a corner.
pub open spec fn corner_name(corner: BadgeCorner) -> Seq<char> {
    match corner {
        BadgeCorner::TopLeft => "Top left"@,
        BadgeCorner::TopRight => "Top right"@,
        BadgeCorner::BottomLeft => "Bottom left"@,
        BadgeCorner::BottomRight => "Bottom right"@,
    }
}

/// Every corner, in picker order.
pub open spec fn all_corners() -> Seq<BadgeCorner> {
    seq![
        BadgeCorner::TopLeft,
        BadgeCorner::TopRight,
        BadgeCorner::BottomLeft,
        BadgeCorner::BottomRight,
    ]
}

impl Default for BadgeCorner {
    fn default() -> (c: BadgeCorner)
        ensures
            c == BadgeCorner::TopRight,
    {
        BadgeCorner::TopRight
    }
}

impl BadgeCorner {
    /// Anchor used to place the circle inside the widget rect.
    pub fn align2(self) -> (a: Align2)
        ensures
            a == corner_anchor(self),
    {
        match self {
            BadgeCorner::TopLeft => Align2 { x: Align::Min, y: Align::Min },
            BadgeCorner::TopRight => Align2 { x: Align::Max, y: Align::Min },
            BadgeCorner::BottomLeft => Align2 { x: Align::Min, y: Align::Max },
            BadgeCorner::BottomRight => Align2 { x: Align::Max, y: Align::Max },
        }
    }

    /// Display name of the corner.
    pub fn to_str(self) -> (s: &'static str)
        ensures
            s@ == corner_name(self),
    {
        match self {
            BadgeCorner::TopLeft => "Top left",
            BadgeCorner::TopRight => "Top right",
            BadgeCorner::BottomLeft => "Bottom left",
            BadgeCorner::BottomRight => "Bottom right",
        }
    }

    /// Every corner, in picker order.
    pub fn to_vec() -> (v: &'static [BadgeCorner])
        ensures
            v@ == all_corners(),
    {
        let v: &'static [BadgeCorner] = &[
            BadgeCorner::TopLeft,
            BadgeCorner::TopRight,
            BadgeCorner::BottomLeft,
            BadgeCorner::BottomRight,
        ];
        assert(v@ =~= all_corners());
        v
    }
}

/// Each corner has its own anchor, on the corner's sides: left corners align
/// to the minimum x, top corners to the minimum y.
pub proof fn corners_anchor_to_their_sides(a: BadgeCorner, b: BadgeCorner)
    ensures
        a != b ==> corner_anchor(a) != corner_anchor(b),
        (a == BadgeCorner::TopLeft || a == BadgeCorner::BottomLeft) <==> corner_anchor(a).x
            == Align::Min,
        (a == BadgeCorner::TopLeft || a == BadgeCorner::TopRight) <==> corner_anchor(a).y
            == Align::Min,
        corner_anchor(a).x != Align::Center && corner_anchor(a).y != Align::Center,
{
}

/// The picker lists every corner exactly once.
pub proof fn all_corners_lists_each_corner_once(corner: BadgeCorner)
    ensures
        all_corners().contains(corner),
        all_corners().no_duplicates(),
{
    match corner {
        BadgeCorner::TopLeft => assert(all_corners()[0] == corner),
        BadgeCorner::TopRight => assert(all_corners()[1] == corner),
        BadgeCorner::BottomLeft => assert(all_corners()[2] == corner),
        BadgeCorner::BottomRight => assert(all_corners()[3] == corner),
    }
}

} // verus!
