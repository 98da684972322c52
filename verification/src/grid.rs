//! Evenly spaced grid planning.
//!
//! A `GridLayer` describes a grid of hairlines over the viewport.  Its
//! verified part computes the exact line positions as rationals; the host
//! converts them to the hairline records' float bit patterns when it
//! realizes the grid as a `HairlinesLayer`.

use vstd::prelude::*;

use crate::color::Color;
use crate::hairline::Orientation;
use crate::layer::DrawContext;
use crate::rat::{add_fits, div_fits, int_q, mul_fits, q_add, q_div, q_mul, Frac, Rat};
use crate::zoom::ViewError;

verus! {

/// Bound on the magnitude of a product from bounds on its factors.
proof fn nl_abs_mul(a: int, b: int, ma: int, mb: int)
    by (nonlinear_arith)
    requires
        -ma <= a <= ma,
        -mb <= b <= mb,
        0 <= ma,
        0 <= mb,
    ensures
        -(ma * mb) <= a * b <= ma * mb,
{
}

/// Offset of the first grid line along one axis: `-len + len * 2 / count`.
pub open spec fn grid_offset(len: int, count: int) -> Rat {
    q_add(int_q(-len), q_div(q_mul(int_q(len), int_q(2)), int_q(count)))
}

/// Spacing between grid lines along one axis: `2 * len / (count + 1)`.
pub open spec fn grid_step(len: int, count: int) -> Rat {
    q_div(q_mul(int_q(2), int_q(len)), int_q(count + 1))
}

/// Position of grid line `idx` along one axis:
/// `grid_offset + idx * grid_step`.
pub open spec fn grid_line_pos(len: int, count: int, idx: int) -> Rat {
    q_add(grid_offset(len, count), q_mul(int_q(idx), grid_step(len, count)))
}

/// One planned grid line: its axis, its exact position, its stroke width
/// and its color.  The host turns these into `Hairline` records.
#[derive(Clone, Copy, Debug)]
pub struct GridLine {
    /// Which axis the line runs along.
    pub orientation: Orientation,
    /// Exact position along the crossing axis, in window-length units.
    pub location: Frac,
    /// Exact stroke width, in device-normalized units.
    pub width: Frac,
    /// Packed RGBA color.
    pub color: Color,
}

/// The device-normalized stroke width of every grid line, as the exact
/// fraction `4 / 1000`.
pub open spec fn grid_line_width() -> Rat {
    Rat { n: 4, d: 1000 }
}

/// A grid of `rows` horizontal and `cols` vertical evenly spaced
/// hairlines in one color.
#[derive(Clone, Copy, Debug)]
pub struct GridLayer {
    rows: u32,
    cols: u32,
    color: Color,
}

impl GridLayer {
    /// The number of horizontal lines.
    pub closed spec fn rows_spec(&self) -> u32 {
        self.rows
    }

    /// The number of vertical lines.
    pub closed spec fn cols_spec(&self) -> u32 {
        self.cols
    }

    /// The color of every line.
    pub closed spec fn color_spec(&self) -> Color {
        self.color
    }

    /// Describe a grid of `rows` by `cols` lines in the given color.
    pub fn new(rows: u32, cols: u32, color: Color) -> (r: GridLayer)
        ensures
            r.rows_spec() == rows,
            r.cols_spec() == cols,
            r.color_spec() == color,
    {
        GridLayer { rows, cols, color }
    }

    /// The color a default grid uses.
    pub open spec fn default_color() -> Color {
        Color(0x000000ff)
    }

    /// Plan the grid's hairlines for the given swap-target size: first
    /// the `rows` horizontal lines in row order, then the `cols` vertical
    /// lines in column order, each at its exact evenly spaced position.
    ///
    /// Fails with `IllegalArgument` exactly when the grid has zero rows
    /// or zero columns.
    pub fn hairlines(&self, ctx: &DrawContext) -> (r: Result<Vec<GridLine>, ViewError>)
        ensures
            ((self.rows_spec() == 0 || self.cols_spec() == 0) <==> r == Err::<
                Vec<GridLine>,
                ViewError,
            >(ViewError::IllegalArgument)),
            (r.is_ok() <==> self.rows_spec() >= 1 && self.cols_spec() >= 1),
            r.is_ok() ==> {
                let v = r.unwrap()@;
                let rows = self.rows_spec() as int;
                let cols = self.cols_spec() as int;
                &&& v.len() == rows + cols
                &&& forall|i: int|
                    0 <= i < rows ==> {
                        &&& (#[trigger] v[i]).orientation == Orientation::Horizontal
                        &&& v[i].location.wf()
                        &&& v[i].location.q() == grid_line_pos(ctx.height as int, rows, i)
                        &&& v[i].width.q() == grid_line_width()
                        &&& v[i].color == self.color_spec()
                    }
                &&& forall|j: int|
                    0 <= j < cols ==> {
                        &&& (#[trigger] v[rows + j]).orientation == Orientation::Vertical
                        &&& v[rows + j].location.wf()
                        &&& v[rows + j].location.q() == grid_line_pos(ctx.width as int, cols, j)
                        &&& v[rows + j].width.q() == grid_line_width()
                        &&& v[rows + j].color == self.color_spec()
                    }
            },
    {
        if self.rows == 0 || self.cols == 0 {
            return Err(ViewError::IllegalArgument);
        }
        let mut v: Vec<GridLine> = Vec::new();
        let width = Frac::new(4, 1000);
        let mut i: u32 = 0;
        while i < self.rows
            invariant
                0 <= i <= self.rows,
                self.rows >= 1,
                v@.len() == i as int,
                forall|k: int|
                    0 <= k < i as int ==> {
                        &&& (#[trigger] v@[k]).orientation == Orientation::Horizontal
                        &&& v@[k].location.wf()
                        &&& v@[k].location.q() == grid_line_pos(
                            ctx.height as int,
                            self.rows as int,
                            k,
                        )
                        &&& v@[k].width.q() == grid_line_width()
                        &&& v@[k].color == self.color
                    },
                width.wf(),
                width.q() == grid_line_width(),
            decreases self.rows - i,
        {
            let location = grid_pos_exec(ctx.height, self.rows, i);
            v.push(
                GridLine { orientation: Orientation::Horizontal, location, width, color: self.color },
            );
            i = i + 1;
        }
        let ghost rows_done = v@;
        proof {
            assert(rows_done.len() == self.rows as int);
            assert(forall|k: int|
                0 <= k < rows_done.len() ==> {
                    &&& (#[trigger] rows_done[k]).orientation == Orientation::Horizontal
                    &&& rows_done[k].location.wf()
                    &&& rows_done[k].location.q() == grid_line_pos(
                        ctx.height as int,
                        self.rows as int,
                        k,
                    )
                    &&& rows_done[k].width.q() == grid_line_width()
                    &&& rows_done[k].color == self.color
                });
        }
        let mut j: u32 = 0;
        while j < self.cols
            invariant
                0 <= j <= self.cols,
                self.cols >= 1,
                v@.len() == rows_done.len() + j as int,
                v@.take(rows_done.len() as int) == rows_done,
                forall|k: int|
                    0 <= k < j as int ==> {
                        &&& (#[trigger] v@[rows_done.len() + k]).orientation
                            == Orientation::Vertical
                        &&& v@[rows_done.len() + k].location.wf()
                        &&& v@[rows_done.len() + k].location.q() == grid_line_pos(
                            ctx.width as int,
                            self.cols as int,
                            k,
                        )
                        &&& v@[rows_done.len() + k].width.q() == grid_line_width()
                        &&& v@[rows_done.len() + k].color == self.color
                    },
                width.wf(),
                width.q() == grid_line_width(),
            decreases self.cols - j,
        {
            let location = grid_pos_exec(ctx.width, self.cols, j);
            proof {
                assert(v@.push(
                    GridLine {
                        orientation: Orientation::Vertical,
                        location,
                        width,
                        color: self.color,
                    },
                ).take(rows_done.len() as int) =~= v@.take(rows_done.len() as int));
            }
            v.push(
                GridLine { orientation: Orientation::Vertical, location, width, color: self.color },
            );
            j = j + 1;
        }
        proof {
            assert(forall|k: int|
                0 <= k < rows_done.len() ==> #[trigger] v@[k] == rows_done[k]) by {
                assert(forall|k: int|
                    0 <= k < rows_done.len() ==> v@.take(rows_done.len() as int)[k] == #[trigger] v@[k]);
            }
        }
        Ok(v)
    }
}

impl Default for GridLayer {
    /// A ten-by-ten grid in the default color.
    fn default() -> (r: GridLayer)
        ensures
            r.rows_spec() == 10,
            r.cols_spec() == 10,
            r.color_spec() == GridLayer::default_color(),
    {
        GridLayer { rows: 10, cols: 10, color: Color(0x000000ff) }
    }
}

/// Evaluate `grid_line_pos` exactly; all intermediates provably fit.
fn grid_pos_exec(len: u32, count: u32, idx: u32) -> (r: Frac)
    requires
        1 <= count,
        idx < count,
    ensures
        r.wf(),
        r.q() == grid_line_pos(len as int, count as int, idx as int),
{
    let two = Frac::from_int(2);
    let lenf = Frac::from_int(len as i64);
    let countf = Frac::from_int(count as i64);
    let count1f = Frac::from_int(count as i64 + 1);
    let neg_lenf = Frac::from_int(-(len as i64));
    let idxf = Frac::from_int(idx as i64);
    let ghost b32: int = 0x1_0000_0000;

    let len2 = match lenf.mul(&two) {
        Some(v) => v,
        None => {
            proof {
                assert(mul_fits(int_q(len as int), int_q(2)));
                assert(false);
            }
            return Frac::from_int(0);
        },
    };
    let off_div = match len2.div(&countf) {
        Some(v) => v,
        None => {
            proof {
                assert(div_fits(q_mul(int_q(len as int), int_q(2)), int_q(count as int)));
                assert(false);
            }
            return Frac::from_int(0);
        },
    };
    let offset = match neg_lenf.add(&off_div) {
        Some(v) => v,
        None => {
            proof {
                nl_abs_mul(-(len as int), 1 * (count as int), b32, b32);
                assert(add_fits(
                    int_q(-(len as int)),
                    q_div(q_mul(int_q(len as int), int_q(2)), int_q(count as int)),
                ));
                assert(false);
            }
            return Frac::from_int(0);
        },
    };
    let step_num = match two.mul(&lenf) {
        Some(v) => v,
        None => {
            proof {
                assert(mul_fits(int_q(2), int_q(len as int)));
                assert(false);
            }
            return Frac::from_int(0);
        },
    };
    let step = match step_num.div(&count1f) {
        Some(v) => v,
        None => {
            proof {
                assert(div_fits(q_mul(int_q(2), int_q(len as int)), int_q(count as int + 1)));
                assert(false);
            }
            return Frac::from_int(0);
        },
    };
    let term = match idxf.mul(&step) {
        Some(v) => v,
        None => {
            proof {
                nl_abs_mul(idx as int, (2 * (len as int)) * 1, b32, 2 * b32);
                assert(mul_fits(int_q(idx as int), grid_step(len as int, count as int)));
                assert(false);
            }
            return Frac::from_int(0);
        },
    };
    match offset.add(&term) {
        Some(v) => v,
        None => {
            proof {
                let off = grid_offset(len as int, count as int);
                let t = q_mul(int_q(idx as int), grid_step(len as int, count as int));
                nl_abs_mul(-(len as int), 1 * (count as int), b32, b32);
                assert(-(b32 * b32) - 2 * b32 <= off.n <= b32 * b32 + 2 * b32);
                assert(0 < off.d <= b32);
                nl_abs_mul(idx as int, (2 * (len as int)) * 1, b32, 2 * b32);
                assert(-(b32 * (2 * b32)) <= t.n <= b32 * (2 * b32));
                assert(0 < t.d <= 2 * b32);
                nl_abs_mul(off.n, t.d, b32 * b32 + 2 * b32, 2 * b32);
                nl_abs_mul(t.n, off.d, b32 * (2 * b32), b32);
                nl_abs_mul(off.d, t.d, b32, 2 * b32);
                assert(add_fits(off, t));
                assert(false);
            }
            return Frac::from_int(0);
        },
    }
}

} // verus!
