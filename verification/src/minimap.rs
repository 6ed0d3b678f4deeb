//! Layout projection: scale a window's pane rectangles, given in multiplexer
//! cell coordinates, onto a destination viewport in terminal cells.
//!
//! Corners are scaled independently and sizes derived from corner
//! differences, so shared pane boundaries land on the same projected line and
//! rounding cannot open gaps or overlaps there; a rectangle is then floored
//! at the minimum drawable size and clamped to the viewport.

use vstd::prelude::*;

use vstd::arithmetic::div_mod::lemma_div_is_ordered;
use vstd::arithmetic::div_mod::lemma_div_multiples_vanish;
use vstd::arithmetic::mul::lemma_mul_inequality;
use vstd::arithmetic::mul::lemma_mul_upper_bound;

use crate::model::TmuxPane;
use crate::text::dec_str;
use crate::text::push_dec_u64;
use vstd::string::StringExecFns;

verus! {

/// Narrowest drawable cell: room for two border columns and one interior.
pub const MIN_CELL_WIDTH: u16 = 3;

/// Shortest drawable cell: a top and a bottom border row.
pub const MIN_CELL_HEIGHT: u16 = 2;

/// A rectangle in terminal cells: origin and extent.
#[derive(Clone, Copy, Debug, PartialEq, Eq, Structural)]
pub struct Rect {
    pub x: u16,
    pub y: u16,
    pub width: u16,
    pub height: u16,
}

/// One pane projected into the viewport, ready to draw.
#[derive(Debug)]
pub struct MappedPane {
    pub x: u16,
    pub y: u16,
    pub w: u16,
    pub h: u16,
    pub label: String,
    pub selected: bool,
}

/// Width of the enclosing window bound: the largest `left + width` over the
/// panes, 0 for none.
pub open spec fn win_bound_w(panes: Seq<TmuxPane>) -> int
    decreases panes.len(),
{
    if panes.len() == 0 {
        0
    } else {
        let rest = win_bound_w(panes.drop_last());
        let edge = panes.last().left + panes.last().width;
        if edge > rest {
            edge
        } else {
            rest
        }
    }
}

/// Height of the enclosing window bound: the largest `top + height`.
pub open spec fn win_bound_h(panes: Seq<TmuxPane>) -> int
    decreases panes.len(),
{
    if panes.len() == 0 {
        0
    } else {
        let rest = win_bound_h(panes.drop_last());
        let edge = panes.last().top + panes.last().height;
        if edge > rest {
            edge
        } else {
            rest
        }
    }
}

/// Every pane lies within the window bound.
pub proof fn lemma_win_bounds(panes: Seq<TmuxPane>)
    ensures
        forall|j: int|
            0 <= j < panes.len() ==> panes[j].left + panes[j].width <= win_bound_w(panes),
        forall|j: int|
            0 <= j < panes.len() ==> panes[j].top + panes[j].height <= win_bound_h(panes),
    decreases panes.len(),
{
    if panes.len() > 0 {
        lemma_win_bounds(panes.drop_last());
        assert(forall|j: int| 0 <= j < panes.len() - 1 ==> panes[j] == panes.drop_last()[j]);
    }
}

/// The label drawn inside a projected pane: a star for the active pane, the
/// pane index, and the running command.
pub open spec fn label_of(p: TmuxPane) -> Seq<char> {
    (if p.active {
        "*"@
    } else {
        Seq::<char>::empty()
    }) + dec_str(p.index as nat) + " "@ + p.command@
}

/// Build the label of one pane.
fn pane_label(p: &TmuxPane) -> (r: String)
    ensures
        r@ == label_of(*p),
{
    let mut s = String::new();
    if p.active {
        s.append("*");
    }
    proof {
        if !p.active {
            assert(s@ =~= Seq::<char>::empty() + Seq::<char>::empty());
        }
    }
    push_dec_u64(&mut s, p.index as u64);
    s.append(" ");
    s.append(p.command.as_str());
    proof {
        assert(s@ =~= label_of(*p));
    }
    s
}

/// `mp` is the projection of `p` from a window bound of `ww` by `wh` onto
/// `area`: each corner scaled by the integer ratio of viewport extent to
/// window extent, the size floored at the minimum drawable cell and clamped
/// so the rectangle cannot leave the viewport.
pub open spec fn pane_projection(
    p: TmuxPane,
    area: Rect,
    ww: int,
    wh: int,
    mp: MappedPane,
    sel: bool,
) -> bool {
    let x = area.x + p.left * area.width / ww;
    let y = area.y + p.top * area.height / wh;
    let right = area.x + (p.left + p.width) * area.width / ww;
    let bottom = area.y + (p.top + p.height) * area.height / wh;
    let w = {
        let floored = if right - x < MIN_CELL_WIDTH as int {
            MIN_CELL_WIDTH as int
        } else {
            right - x
        };
        let avail = area.x + area.width - x;
        if floored > avail {
            avail
        } else {
            floored
        }
    };
    let h = {
        let floored = if bottom - y < MIN_CELL_HEIGHT as int {
            MIN_CELL_HEIGHT as int
        } else {
            bottom - y
        };
        let avail = area.y + area.height - y;
        if floored > avail {
            avail
        } else {
            floored
        }
    };
    &&& mp.x == x
    &&& mp.y == y
    &&& mp.w == w
    &&& mp.h == h
    &&& mp.label@ == label_of(p)
    &&& mp.selected == sel
}

/// Whether projection `i` is the selected one.
pub open spec fn is_selected_index(selected: Option<usize>, i: int) -> bool {
    match selected {
        Some(s) => s == i,
        None => false,
    }
}

/// Scale one coordinate: `v * extent / bound`, proved to stay within the
/// viewport extent when `v` is within the window bound.
fn scale_coord(v: u64, extent: u16, bound: u64) -> (r: u64)
    requires
        0 < bound <= 0x2_0000_0000u64,
        v <= bound,
    ensures
        r == v as int * extent as int / bound as int,
        r <= extent,
{
    proof {
        lemma_mul_upper_bound(v as int, bound as int, extent as int, u16::MAX as int);
        lemma_mul_inequality(v as int, bound as int, extent as int);
        lemma_div_is_ordered(v as int * extent as int, bound as int * extent as int, bound as int);
        lemma_div_multiples_vanish(extent as int, bound as int);
    }
    let prod: u64 = v * extent as u64;
    prod / bound
}

/// Project the panes of one window onto `area`.
///
/// An empty list or a degenerate zero window bound projects to no cells. A
/// viewport narrower than the minimum cell width per pane, or shorter than
/// the minimum cell height, cannot hold a faithful minimap and yields `None`
/// rather than degenerate rectangles. Otherwise every pane maps to one
/// drawable rectangle as `pane_projection` states.
pub fn map_panes(panes: &Vec<TmuxPane>, area: Rect, selected: Option<usize>) -> (r: Option<
    Vec<MappedPane>,
>)
    requires
        area.x + area.width <= u16::MAX,
        area.y + area.height <= u16::MAX,
    ensures
        ({
            let ww = win_bound_w(panes@);
            let wh = win_bound_h(panes@);
            if panes@.len() == 0 || ww == 0 || wh == 0 {
                r matches Some(v) && v@.len() == 0
            } else if area.width < MIN_CELL_WIDTH * panes@.len() || area.height < MIN_CELL_HEIGHT {
                r is None
            } else {
                &&& r matches Some(v)
                &&& v@.len() == panes@.len()
                &&& forall|i: int|
                    0 <= i < panes@.len() ==> pane_projection(
                        panes@[i],
                        area,
                        ww,
                        wh,
                        #[trigger] v@[i],
                        is_selected_index(selected, i),
                    )
            }
        }),
{
    let n = panes.len();
    if n == 0 {
        let empty: Vec<MappedPane> = Vec::new();
        return Some(empty);
    }
    let mut ww: u64 = 0;
    let mut wh: u64 = 0;
    let mut i: usize = 0;
    while i < n
        invariant
            i <= n,
            n == panes@.len(),
            ww == win_bound_w(panes@.take(i as int)),
            wh == win_bound_h(panes@.take(i as int)),
            ww <= 0x1_FFFF_FFFEu64,
            wh <= 0x1_FFFF_FFFEu64,
        decreases n - i,
    {
        let ghost prefix = panes@.take(i as int);
        let edge_w: u64 = panes[i].left as u64 + panes[i].width as u64;
        if edge_w > ww {
            ww = edge_w;
        }
        let edge_h: u64 = panes[i].top as u64 + panes[i].height as u64;
        if edge_h > wh {
            wh = edge_h;
        }
        proof {
            assert(panes@.take(i + 1).drop_last() =~= prefix);
            assert(panes@.take(i + 1).last() == panes@[i as int]);
        }
        i = i + 1;
    }
    proof {
        assert(panes@.take(n as int) =~= panes@);
    }
    if ww == 0 || wh == 0 {
        let empty: Vec<MappedPane> = Vec::new();
        return Some(empty);
    }
    if (area.width as u128) < 3 * (n as u128) || area.height < 2 {
        proof {
            if !((area.width as int) < MIN_CELL_WIDTH * panes@.len()) {
                assert(area.height < MIN_CELL_HEIGHT);
            }
        }
        return None;
    }
    proof {
        lemma_win_bounds(panes@);
    }
    let mut out: Vec<MappedPane> = Vec::new();
    let mut i: usize = 0;
    while i < n
        invariant
            i <= n,
            n == panes@.len(),
            0 < ww <= 0x1_FFFF_FFFEu64,
            0 < wh <= 0x1_FFFF_FFFEu64,
            ww == win_bound_w(panes@),
            wh == win_bound_h(panes@),
            area.x + area.width <= u16::MAX,
            area.y + area.height <= u16::MAX,
            forall|j: int|
                0 <= j < panes@.len() ==> panes@[j].left + panes@[j].width <= win_bound_w(panes@),
            forall|j: int|
                0 <= j < panes@.len() ==> panes@[j].top + panes@[j].height <= win_bound_h(panes@),
            out@.len() == i,
            forall|j: int|
                0 <= j < i ==> pane_projection(
                    panes@[j],
                    area,
                    ww as int,
                    wh as int,
                    #[trigger] out@[j],
                    is_selected_index(selected, j),
                ),
        decreases n - i,
    {
        let p = &panes[i];
        let x64: u64 = scale_coord(p.left as u64, area.width, ww);
        let right64: u64 = scale_coord(p.left as u64 + p.width as u64, area.width, ww);
        let y64: u64 = scale_coord(p.top as u64, area.height, wh);
        let bottom64: u64 = scale_coord(p.top as u64 + p.height as u64, area.height, wh);
        proof {
            lemma_mul_inequality(
                p.left as int,
                p.left as int + p.width as int,
                area.width as int,
            );
            lemma_div_is_ordered(
                p.left as int * area.width as int,
                (p.left + p.width) as int * area.width as int,
                ww as int,
            );
            lemma_mul_inequality(p.top as int, p.top as int + p.height as int, area.height as int);
            lemma_div_is_ordered(
                p.top as int * area.height as int,
                (p.top + p.height) as int * area.height as int,
                wh as int,
            );
        }
        let x: u16 = area.x + x64 as u16;
        let y: u16 = area.y + y64 as u16;
        let raw_w: u64 = right64 - x64;
        let raw_h: u64 = bottom64 - y64;
        let floored_w: u64 = if raw_w < MIN_CELL_WIDTH as u64 {
            MIN_CELL_WIDTH as u64
        } else {
            raw_w
        };
        let floored_h: u64 = if raw_h < MIN_CELL_HEIGHT as u64 {
            MIN_CELL_HEIGHT as u64
        } else {
            raw_h
        };
        let avail_w: u64 = (area.x + area.width - x) as u64;
        let avail_h: u64 = (area.y + area.height - y) as u64;
        let w: u16 = if floored_w > avail_w {
            avail_w as u16
        } else {
            floored_w as u16
        };
        let h: u16 = if floored_h > avail_h {
            avail_h as u16
        } else {
            floored_h as u16
        };
        let label = pane_label(p);
        let sel = match selected {
            Some(s) => s == i,
            None => false,
        };
        let mp = MappedPane { x, y, w, h, label, selected: sel };
        proof {
            assert(pane_projection(
                panes@[i as int],
                area,
                ww as int,
                wh as int,
                mp,
                is_selected_index(selected, i as int),
            ));
        }
        out.push(mp);
        i = i + 1;
    }
    Some(out)
}

} // verus!
