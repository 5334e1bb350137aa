use vstd::prelude::*;
use crate::geometry::Rect;

verus! {

/// The one-row rectangle of a list item on screen, or the zero-area sentinel
/// for an item outside the visible window.  The list's content starts one
/// border column in and `1 + pad_top` rows down; `pad_top + 2` rows of the
/// area's height are not content (borders, padding).  An item `i` is visible
/// when `scroll <= i < scroll + visible_height`.
pub open spec fn list_item_rect(area: Rect, scroll: int, pad_top: int, i: int) -> Rect {
    let content_y = area.y + 1 + pad_top;
    let visible_height = if area.height >= 2 + pad_top { area.height - 2 - pad_top } else { 0 };
    if scroll <= i < scroll + visible_height {
        Rect {
            x: (area.x + 1) as u16,
            y: (content_y + (i - scroll)) as u16,
            width: if area.width >= 2 { (area.width - 2) as u16 } else { 0 },
            height: 1,
        }
    } else {
        Rect { x: 0, y: 0, width: 0, height: 0 }
    }
}

/// The rectangles of all `count` items of a list, recomputed from the
/// current geometry and scroll offset: positions are never cached across
/// frames.
#[verifier::loop_isolation(false)]
pub fn list_item_positions(area: Rect, scroll: usize, pad_top: u16, count: usize) -> (r: Vec<Rect>)
    requires
        area.x + area.width + 1 <= 0xffff,
        area.y + area.height + 1 + pad_top <= 0xffff,
    ensures
        r@.len() == count,
        forall|i: int| 0 <= i < count ==> #[trigger] r@[i]
            == list_item_rect(area, scroll as int, pad_top as int, i),
{
    let content_x: u16 = area.x + 1;
    let content_y: u16 = area.y + 1 + pad_top;
    let content_width: u16 = if area.width >= 2 { area.width - 2 } else { 0 };
    let visible_height: u16 = if area.height as u32 >= 2 + pad_top as u32 {
        (area.height as u32 - 2 - pad_top as u32) as u16
    } else {
        0
    };
    let mut r: Vec<Rect> = Vec::new();
    let mut i: usize = 0;
    while i < count
        invariant
            i <= count,
            r@.len() == i,
            forall|j: int| 0 <= j < i ==> #[trigger] r@[j]
                == list_item_rect(area, scroll as int, pad_top as int, j),
        decreases count - i,
    {
        if i >= scroll && i - scroll < visible_height as usize {
            r.push(Rect {
                x: content_x,
                y: content_y + (i - scroll) as u16,
                width: content_width,
                height: 1,
            });
        } else {
            r.push(Rect { x: 0, y: 0, width: 0, height: 0 });
        }
        i = i + 1;
    }
    r
}

/// The law of the hit tester's geometry: for a scroll offset S and a visible
/// window of H rows, the items with index in [S, S+H) map to one-row
/// rectangles with strictly increasing, pairwise non-overlapping rows, and
/// every item outside that window maps to the zero-area sentinel.
pub proof fn lemma_item_rects_disjoint(area: Rect, scroll: int, pad_top: int, i: int, j: int)
    requires
        area.y + area.height + 1 + pad_top <= 0xffff,
        0 <= pad_top,
        0 <= scroll,
    ensures
        ({
            let h = if area.height >= 2 + pad_top { area.height - 2 - pad_top } else { 0int };
            &&& (scroll <= i < scroll + h ==> list_item_rect(area, scroll, pad_top, i).height == 1)
            &&& (scroll <= i < j < scroll + h ==> list_item_rect(area, scroll, pad_top, i).y
                < list_item_rect(area, scroll, pad_top, j).y)
            &&& (scroll <= i < j < scroll + h ==> list_item_rect(area, scroll, pad_top, i).y
                + list_item_rect(area, scroll, pad_top, i).height
                <= list_item_rect(area, scroll, pad_top, j).y)
            &&& (!(scroll <= i < scroll + h) ==> list_item_rect(area, scroll, pad_top, i).is_zero())
        }),
{
}

/// The first index whose rectangle is visible (not the zero sentinel) and
/// contains the cell, or -1 when no rectangle does.
pub open spec fn first_hit(positions: Seq<Rect>, column: u16, row: u16) -> int
    decreases positions.len(),
{
    if positions.len() == 0 {
        -1
    } else if !positions[0].is_zero() && positions[0].spec_contains(column, row) {
        0
    } else {
        let r = first_hit(positions.drop_first(), column, row);
        if r < 0 {
            -1
        } else {
            r + 1
        }
    }
}

/// When a first visible hit exists at `i`, `first_hit` is `i`.
pub proof fn lemma_first_hit_at(positions: Seq<Rect>, column: u16, row: u16, i: int)
    requires
        0 <= i < positions.len(),
        !positions[i].is_zero(),
        positions[i].spec_contains(column, row),
        forall|j: int| 0 <= j < i ==> !(!(#[trigger] positions[j]).is_zero()
            && positions[j].spec_contains(column, row)),
    ensures
        first_hit(positions, column, row) == i,
    decreases i,
{
    if i > 0 {
        assert(positions.drop_first()[i - 1] == positions[i]);
        assert forall|j: int| 0 <= j < i - 1
            implies !(!(#[trigger] positions.drop_first()[j]).is_zero()
                && positions.drop_first()[j].spec_contains(column, row)) by {
            assert(positions.drop_first()[j] == positions[j + 1]);
        }
        lemma_first_hit_at(positions.drop_first(), column, row, i - 1);
    }
}

/// When no visible rectangle contains the cell, `first_hit` is negative.
pub proof fn lemma_first_hit_none(positions: Seq<Rect>, column: u16, row: u16)
    requires
        forall|j: int| 0 <= j < positions.len() ==> !(!(#[trigger] positions[j]).is_zero()
            && positions[j].spec_contains(column, row)),
    ensures
        first_hit(positions, column, row) < 0,
    decreases positions.len(),
{
    if positions.len() > 0 {
        assert forall|j: int| 0 <= j < positions.drop_first().len()
            implies !(!(#[trigger] positions.drop_first()[j]).is_zero()
                && positions.drop_first()[j].spec_contains(column, row)) by {
            assert(positions.drop_first()[j] == positions[j + 1]);
        }
        lemma_first_hit_none(positions.drop_first(), column, row);
    }
}

/// The first item whose visible rectangle contains the pointer cell:
/// exactly `first_hit`, with `None` for a miss.
pub fn clicked_index(positions: &Vec<Rect>, column: u16, row: u16) -> (r: Option<usize>)
    ensures
        match r {
            Some(i) => i < positions@.len() && first_hit(positions@, column, row) == i,
            None => first_hit(positions@, column, row) < 0,
        },
{
    let mut i: usize = 0;
    while i < positions.len()
        invariant
            i <= positions@.len(),
            forall|j: int| 0 <= j < i ==> !(!(#[trigger] positions@[j]).is_zero()
                && positions@[j].spec_contains(column, row)),
        decreases positions@.len() - i,
    {
        let rect = positions[i];
        if (rect.width > 0 || rect.height > 0 || rect.x > 0 || rect.y > 0)
            && rect.contains(column, row) {
            proof {
                lemma_first_hit_at(positions@, column, row, i as int);
            }
            return Some(i);
        }
        i = i + 1;
    }
    proof {
        lemma_first_hit_none(positions@, column, row);
    }
    None
}

} // verus!
