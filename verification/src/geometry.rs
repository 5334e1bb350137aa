use vstd::prelude::*;

verus! {

/// A rectangle in terminal cell coordinates, measured in character cells.
/// A width or height of zero makes the rectangle empty: it contains no cell.
#[derive(Clone, Copy, PartialEq, Eq, Structural, Debug)]
pub struct Rect {
    pub x: u16,
    pub y: u16,
    pub width: u16,
    pub height: u16,
}

impl Rect {
    /// The cell (column, row) lies inside the rectangle.
    pub open spec fn spec_contains(self, column: u16, row: u16) -> bool {
        &&& self.x <= column < self.x + self.width
        &&& self.y <= row < self.y + self.height
    }

    /// The zero-area sentinel used for items that are scrolled out of view.
    pub open spec fn is_zero(self) -> bool {
        self == (Rect { x: 0, y: 0, width: 0, height: 0 })
    }

    pub fn zero() -> (r: Rect)
        ensures
            r.is_zero(),
    {
        Rect { x: 0, y: 0, width: 0, height: 0 }
    }

    pub fn contains(&self, column: u16, row: u16) -> (b: bool)
        ensures
            b == self.spec_contains(column, row),
    {
        column >= self.x && (column as u32) < self.x as u32 + self.width as u32
            && row >= self.y && (row as u32) < self.y as u32 + self.height as u32
    }
}

/// A popup rectangle of the given height, centered inside `r`, spanning
/// `percent_x` percent of `r`'s width.  The height is clamped to `r`'s height.
pub fn centered_rect_fixed_height(percent_x: u16, height_lines: u16, r: Rect) -> (popup: Rect)
    requires
        percent_x <= 100,
        r.x + r.width <= 0xffff,
        r.y + r.height <= 0xffff,
    ensures
        popup.height == if height_lines <= r.height { height_lines as int } else { r.height as int },
        popup.width == r.width * percent_x / 100,
        popup.y == r.y + (r.height - popup.height) / 2,
        popup.x == r.x + (r.width - popup.width) / 2,
{
    let height: u16 = if height_lines <= r.height {
        height_lines
    } else {
        r.height
    };
    let top_padding: u16 = (r.height - height) / 2;
    assert(r.width as int * percent_x as int / 100 <= r.width as int) by (nonlinear_arith)
        requires
            percent_x <= 100,
            r.width <= 0xffff,
    ;
    let width: u16 = (r.width as u32 * percent_x as u32 / 100) as u16;
    let left_padding: u16 = (r.width - width) / 2;
    Rect { x: r.x + left_padding, y: r.y + top_padding, width, height }
}

} // verus!
