//! The card compositor's region arithmetic.
//!
//! Given the drawing surface and the module count, the dashboard shows one
//! flexible margin, N equal columns and a trailing flexible margin, with a
//! fixed vertical margin above and below. Each column's target width is
//! `100 / N` percent of the surface (integer division); the leftover
//! percentage is absorbed by the margins, never distributed among columns.
//! Inside each card a bordered, padded inner region is split into a glyph
//! area, vertically centered within its middle 60 percent, and a
//! fixed-height title strip at the bottom. All of that arithmetic lives
//! here, verified; the binary only hands the resulting regions to the
//! terminal backend for drawing.

use vstd::prelude::*;

verus! {

/// A rectangular screen region in terminal cells.
#[derive(Clone, Copy, Debug, PartialEq, Eq, Structural)]
pub struct Rect {
    pub x: u16,
    pub y: u16,
    pub width: u16,
    pub height: u16,
}

impl Rect {
    /// The region lies within the addressable cell grid.
    pub open spec fn wf(self) -> bool {
        &&& self.x + self.width <= 65535
        &&& self.y + self.height <= 65535
    }
}

/// The width of every column: the surface width times `100 / n` percent,
/// integer division at both steps.
pub open spec fn column_width(w: int, n: int) -> int {
    w * (100int / n) / 100
}

/// The left edge of the first column: the leftover width not taken by the
/// `n` columns is split between the two flexible margins, the left one
/// taking the floor half.
pub open spec fn columns_left(area: Rect, n: int) -> int {
    area.x + (area.width - n * column_width(area.width as int, n)) / 2
}

/// The top edge shared by all columns: the surface top pushed down by the
/// vertical margin, clamped to the surface.
pub open spec fn columns_y(area: Rect) -> int {
    if area.height >= 2 {
        area.y + 2
    } else {
        area.y + area.height
    }
}

/// The height shared by all columns: the surface height less both vertical
/// margins, zero when the surface is too small for them.
pub open spec fn columns_height(area: Rect) -> int {
    if area.height >= 4 {
        area.height - 4
    } else {
        0
    }
}

/// The column widths fit inside the surface: each is at most the surface
/// width, and all `n` together still are.
proof fn lemma_columns_fit(w: int, n: int)
    requires
        0 <= w,
        1 <= n,
    ensures
        0 <= column_width(w, n) <= w,
        n * column_width(w, n) <= w,
{
    let per = 100int / n;
    let d = w * per / 100;
    vstd::arithmetic::div_mod::lemma_div_pos_is_pos(100int, n);
    vstd::arithmetic::div_mod::lemma_fundamental_div_mod(100int, n);
    vstd::arithmetic::div_mod::lemma_mod_bound(100int, n);
    assert(n * per <= 100);
    assert(per <= 100) by (nonlinear_arith)
        requires 1 <= n, 0 <= per, n * per <= 100;
    assert(w * per >= 0) by (nonlinear_arith)
        requires 0 <= w, 0 <= per;
    vstd::arithmetic::div_mod::lemma_div_pos_is_pos(w * per, 100int);
    vstd::arithmetic::div_mod::lemma_fundamental_div_mod(w * per, 100int);
    vstd::arithmetic::div_mod::lemma_mod_bound(w * per, 100int);
    assert(100 * d <= w * per);
    assert(d <= w && n * d <= w) by (nonlinear_arith)
        requires 0 <= w, 1 <= n, 0 <= per <= 100, n * per <= 100, 0 <= d, 100 * d <= w * per;
}

/// Compute the `n` column regions for the card row on the given surface.
///
/// The regions share the same top edge, height and width; they are laid out
/// contiguously left to right in module order, starting after the left
/// flexible margin; and any two distinct regions are non-overlapping, the
/// earlier one ending at or before the later one begins.
pub fn column_regions(area: Rect, n: usize) -> (r: Vec<Rect>)
    requires
        n >= 1,
        area.wf(),
    ensures
        r@.len() == n,
        forall|i: int| 0 <= i < n ==> (#[trigger] r@[i]).width as int == column_width(
            area.width as int,
            n as int,
        ),
        forall|i: int| 0 <= i < n ==> (#[trigger] r@[i]).x as int == columns_left(area, n as int)
            + i * column_width(area.width as int, n as int),
        forall|i: int| 0 <= i < n ==> (#[trigger] r@[i]).y as int == columns_y(area)
            && r@[i].height as int == columns_height(area),
        forall|i: int| 0 <= i < n ==> (#[trigger] r@[i]).wf(),
        forall|i: int, j: int| 0 <= i < j < n ==> #[trigger] r@[i].x + r@[i].width
            <= #[trigger] r@[j].x,
{
    proof {
        lemma_columns_fit(area.width as int, n as int);
    }
    let per: u64 = 100 / (n as u64);
    let col_w: u16 = ((area.width as u64) * per / 100) as u16;
    proof {
        assert(col_w as int == column_width(area.width as int, n as int));
    }
    let y: u16 = if area.height >= 2 {
        area.y + 2
    } else {
        area.y + area.height
    };
    let h: u16 = if area.height >= 4 {
        area.height - 4
    } else {
        0
    };
    let leftover: u16 = area.width - ((n as u64 * col_w as u64) as u16);
    let left: u16 = leftover / 2;
    let mut r: Vec<Rect> = Vec::new();
    let mut x: u16 = area.x + left;
    let mut i: usize = 0;
    proof {
        assert(x as int == columns_left(area, n as int));
    }
    while i < n
        invariant
            i <= n,
            r@.len() == i,
            area.wf(),
            n >= 1,
            col_w as int == column_width(area.width as int, n as int),
            x as int == columns_left(area, n as int) + i as int * col_w as int,
            x as int + (n - i) as int * col_w as int <= area.x + area.width,
            y as int == columns_y(area),
            h as int == columns_height(area),
            y as int + h as int <= 65535,
            forall|k: int| 0 <= k < i ==> (#[trigger] r@[k]).x as int == columns_left(
                area,
                n as int,
            ) + k * col_w as int,
            forall|k: int| 0 <= k < i ==> (#[trigger] r@[k]).y == y && r@[k].width == col_w
                && r@[k].height == h,
            forall|k: int| 0 <= k < i ==> (#[trigger] r@[k]).x + r@[k].width <= area.x
                + area.width,
        decreases n - i,
    {
        proof {
            assert((n - i) as int * col_w as int >= col_w as int) by (nonlinear_arith)
                requires i < n, col_w >= 0;
        }
        r.push(Rect { x, y, width: col_w, height: h });
        proof {
            assert((i + 1) as int * col_w as int == i as int * col_w as int + col_w as int)
                by (nonlinear_arith);
            assert((n - i) as int * col_w as int == (n - (i + 1)) as int * col_w as int
                + col_w as int) by (nonlinear_arith);
        }
        x = x + col_w;
        i = i + 1;
    }
    proof {
        assert forall|a: int, b: int| 0 <= a < b < n implies #[trigger] r@[a].x + r@[a].width
            <= #[trigger] r@[b].x by {
            assert(a * col_w as int + col_w as int <= b * col_w as int) by (nonlinear_arith)
                requires a + 1 <= b, col_w >= 0;
        }
    }
    r
}

/// Shrink a card region to the drawable area inside its thick border and
/// one cell of uniform padding: two cells in from every edge, clamped on a
/// region too small to hold them.
pub fn card_inner(area: Rect) -> (r: Rect)
    requires
        area.wf(),
    ensures
        r.x as int == area.x + (if area.width >= 2 { 2int } else { area.width as int }),
        r.y as int == area.y + (if area.height >= 2 { 2int } else { area.height as int }),
        r.width as int == (if area.width >= 4 { area.width - 4 } else { 0int }),
        r.height as int == (if area.height >= 4 { area.height - 4 } else { 0int }),
        r.wf(),
{
    let dx: u16 = if area.width >= 2 {
        2
    } else {
        area.width
    };
    let dy: u16 = if area.height >= 2 {
        2
    } else {
        area.height
    };
    Rect {
        x: area.x + dx,
        y: area.y + dy,
        width: if area.width >= 4 {
            area.width - 4
        } else {
            0
        },
        height: if area.height >= 4 {
            area.height - 4
        } else {
            0
        },
    }
}

/// Split a card's inner region into the glyph area and the title strip.
///
/// The title strip takes the bottom three rows (less on a very short
/// region); the glyph area is the middle 60 percent of what remains,
/// vertically centered. The glyph area always ends at or above the title
/// strip, and both span the inner region's full width.
pub fn card_content_regions(inner: Rect) -> (r: (Rect, Rect))
    requires
        inner.wf(),
    ensures
        ({
            let content_h = if inner.height >= 3 { inner.height - 3 } else { 0int };
            let glyph_h = content_h * 60 / 100;
            let pad = (content_h - glyph_h) / 2;
            &&& r.0.x == inner.x
            &&& r.0.width == inner.width
            &&& r.0.y as int == inner.y + pad
            &&& r.0.height as int == glyph_h
            &&& r.1.x == inner.x
            &&& r.1.width == inner.width
            &&& r.1.y as int == inner.y + content_h
            &&& r.1.height as int == (if inner.height >= 3 { 3int } else { inner.height as int })
            &&& r.0.y + r.0.height <= r.1.y
            &&& r.1.y + r.1.height == inner.y + inner.height
            &&& r.0.wf()
            &&& r.1.wf()
        }),
{
    let title_h: u16 = if inner.height >= 3 {
        3
    } else {
        inner.height
    };
    let content_h: u16 = inner.height - title_h;
    let glyph_h: u16 = ((content_h as u32) * 60 / 100) as u16;
    proof {
        assert((content_h as int) * 60 / 100 <= content_h as int && (content_h as int) * 60 / 100
            >= 0) by (nonlinear_arith);
    }
    let pad: u16 = (content_h - glyph_h) / 2;
    let glyph = Rect { x: inner.x, y: inner.y + pad, width: inner.width, height: glyph_h };
    let title = Rect { x: inner.x, y: inner.y + content_h, width: inner.width, height: title_h };
    (glyph, title)
}

} // verus!
