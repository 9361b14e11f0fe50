use vstd::prelude::*;
use vstd::string::StringExecFns;

use crate::text::{push_signed_decimal, signed_decimal};

verus! {

/// Room added on each side of the canvas for the border decorations.
pub const EDGE_MARGIN: i32 = 100;

/// Largest extent of a canvas.
pub const MAX_EXTENT: i32 = 1000000;

/// The visible region of the canvas.
pub struct ViewBox {
    x: i32,
    y: i32,
    width: i32,
    height: i32,
}

/// The model of a visible region: its top-left corner and its size.
pub struct ViewBoxView {
    pub x: int,
    pub y: int,
    pub width: int,
    pub height: int,
}

/// The visible region of a canvas of `width` by `height`, with no border.
pub open spec fn base_view_box(width: int, height: int) -> ViewBoxView {
    ViewBoxView { x: 0, y: 0, width, height }
}

/// A visible region grown on every side by the border margin.
pub open spec fn with_edges(v: ViewBoxView) -> ViewBoxView {
    ViewBoxView {
        x: v.x - EDGE_MARGIN,
        y: v.y - EDGE_MARGIN,
        width: v.width + 2 * EDGE_MARGIN,
        height: v.height + 2 * EDGE_MARGIN,
    }
}

/// The text of a visible region: `<min-x> <min-y> <width> <height>`.
pub open spec fn view_box_text(v: ViewBoxView) -> Seq<char> {
    signed_decimal(v.x) + " "@ + signed_decimal(v.y) + " "@ + signed_decimal(v.width) + " "@
        + signed_decimal(v.height)
}

impl ViewBox {
    pub closed spec fn view(&self) -> ViewBoxView {
        ViewBoxView { x: self.x as int, y: self.y as int, width: self.width as int, height: self.height as int }
    }

    /// The visible region of a canvas of `width` by `height`.
    pub fn new(width: i32, height: i32) -> (r: Self)
        requires
            0 <= width <= MAX_EXTENT,
            0 <= height <= MAX_EXTENT,
        ensures
            r@ == base_view_box(width as int, height as int),
    {
        ViewBox { x: 0, y: 0, width, height }
    }

    /// Back to the region of a canvas of `width` by `height`.
    pub fn reset(&mut self, width: i32, height: i32)
        requires
            0 <= width <= MAX_EXTENT,
            0 <= height <= MAX_EXTENT,
        ensures
            final(self)@ == base_view_box(width as int, height as int),
    {
        self.x = 0;
        self.y = 0;
        self.width = width;
        self.height = height;
    }

    /// Grows the region to show the border decorations.
    pub fn insert_edges(&mut self)
        requires
            old(self)@ == base_view_box(old(self)@.width, old(self)@.height),
            0 <= old(self)@.width <= MAX_EXTENT,
            0 <= old(self)@.height <= MAX_EXTENT,
        ensures
            final(self)@ == with_edges(old(self)@),
    {
        self.x = self.x - EDGE_MARGIN;
        self.y = self.y - EDGE_MARGIN;
        self.width = self.width + 2 * EDGE_MARGIN;
        self.height = self.height + 2 * EDGE_MARGIN;
    }

    /// The text of the region, `<min-x> <min-y> <width> <height>`.
    pub fn as_string(&self) -> (r: String)
        ensures
            r@ == view_box_text(self@),
    {
        let mut s = String::new();
        push_signed_decimal(&mut s, self.x);
        s.append(" ");
        push_signed_decimal(&mut s, self.y);
        s.append(" ");
        push_signed_decimal(&mut s, self.width);
        s.append(" ");
        push_signed_decimal(&mut s, self.height);
        assert(s@ =~= view_box_text(self@));
        s
    }
}

} // verus!
