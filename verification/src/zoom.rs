//! Interactive pan/zoom view transform.
//!
//! Three coordinate systems are reconciled here:
//! - window coordinates: raw pointer pixels, origin top-left, Y down;
//! - device-normalized coordinates: `[-1, 1]` squared, origin center, Y up;
//! - scene coordinates: world positions, independent of viewport and zoom.
//!
//! `ZoomState` is a pure state machine from pointer/scroll events to a pan
//! offset (`center`) and a per-axis zoom `scale`, and produces the affine
//! scene-to-device transform consumed each frame.  All arithmetic is exact:
//! an operation whose result would leave the representable range reports
//! `ViewError::Overflow` and leaves the state untouched, rather than
//! rounding.

use vstd::prelude::*;
use vstd::arithmetic::power::{lemma_pow_increases, pow};

use crate::rat::{
    add_fits, div_fits, fits_i128, int_q, mul_fits, q_add, q_div, q_eq, q_mul, q_neg, q_sub, q_wf,
    sub_fits, Frac, Rat,
};

verus! {

/// Raw pointer position in window pixels; Y increases going down.
#[derive(Clone, Copy, Debug)]
pub struct WindowCoordinate {
    pub x: Frac,
    pub y: Frac,
}

/// Device-normalized position in `[-1, 1]` squared; Y increases going up.
#[derive(Clone, Copy, Debug)]
pub struct GPUCoordinate {
    pub x: Frac,
    pub y: Frac,
}

/// World-space position of drawn geometry; Y increases going up.
#[derive(Clone, Copy, Debug)]
pub struct SceneCoordinate {
    pub x: Frac,
    pub y: Frac,
}

/// Viewport size in whole pixels.
#[derive(Clone, Copy, Debug, PartialEq, Eq, Structural)]
pub struct ViewportSize {
    pub width: u32,
    pub height: u32,
}

/// Cursor affordance requested from the host windowing system.
#[derive(Clone, Copy, Debug, PartialEq, Eq, Structural)]
pub enum CursorRequest {
    Grabbing,
    Arrow,
}

/// What the host should do after an event was handled.
#[derive(Clone, Copy, Debug, PartialEq, Eq)]
pub struct EventResponse {
    /// The event was consumed by the view transform.
    pub consumed: bool,
    /// The host should schedule a redraw.
    pub redraw: bool,
    /// The host should change the pointer cursor.
    pub cursor: Option<CursorRequest>,
}

/// Input events understood by the view transform.
#[derive(Clone, Copy, Debug)]
pub enum ViewEvent {
    /// Primary mouse button went down: start dragging.
    PrimaryButtonPressed,
    /// Primary mouse button went up: stop dragging.
    PrimaryButtonReleased,
    /// Pointer moved to the given window coordinate.
    PointerMoved(WindowCoordinate),
    /// Scroll by the given number of whole scroll-pixels; positive zooms in.
    ScrollDelta(i32),
}

/// Failure of a view-transform operation.
#[derive(Clone, Copy, Debug, PartialEq, Eq, Structural)]
pub enum ViewError {
    /// A precondition was violated (zero viewport dimension).
    IllegalArgument,
    /// An exact intermediate result left the representable range.
    Overflow,
}

impl WindowCoordinate {
    /// Both components are well-formed scalars.
    pub open spec fn wf(self) -> bool {
        self.x.wf() && self.y.wf()
    }
}

impl GPUCoordinate {
    /// Both components are well-formed scalars.
    pub open spec fn wf(self) -> bool {
        self.x.wf() && self.y.wf()
    }
}

impl SceneCoordinate {
    /// Both components are well-formed scalars.
    pub open spec fn wf(self) -> bool {
        self.x.wf() && self.y.wf()
    }
}

// ---------------------------------------------------------------------------
// The ideal transforms, as rational functions.
// ---------------------------------------------------------------------------

/// Device-normalized X of a window X: `2 * (x / width) - 1`.
pub open spec fn q_w2d_x(x: Rat, len: int) -> Rat {
    q_sub(q_mul(int_q(2), q_div(x, int_q(len))), int_q(1))
}

/// Device-normalized Y of a window Y: `2 * ((height - y) / height) - 1`
/// (the sign of Y flips: window Y grows downward, device Y upward).
pub open spec fn q_w2d_y(y: Rat, len: int) -> Rat {
    q_sub(q_mul(int_q(2), q_div(q_sub(int_q(len), y), int_q(len))), int_q(1))
}

/// Scene coordinate of a device coordinate, per axis:
/// `(len / scale) * d + center`.
pub open spec fn q_d2s(d: Rat, c: Rat, s: Rat, len: int) -> Rat {
    q_add(q_mul(q_div(int_q(len), s), d), c)
}

/// Device coordinate of a scene coordinate, per axis (the inverse of
/// `q_d2s`): `(p - center) * (scale / len)`.
pub open spec fn q_s2d(p: Rat, c: Rat, s: Rat, len: int) -> Rat {
    q_mul(q_sub(p, c), q_div(s, int_q(len)))
}

/// New center after a pan by the window-space delta, per axis:
/// `center + 2 * (delta / scale)`.
pub open spec fn q_pan(c: Rat, s: Rat, delta: Rat) -> Rat {
    q_add(c, q_mul(int_q(2), q_div(delta, s)))
}

/// The zoom multiplier `1.001 ^ steps`, exactly: `(1001/1000) ^ steps`.
pub open spec fn q_zoom_mult(steps: int) -> Rat {
    if steps >= 0 {
        Rat { n: pow(1001, steps as nat), d: pow(1000, steps as nat) }
    } else {
        Rat { n: pow(1000, (-steps) as nat), d: pow(1001, (-steps) as nat) }
    }
}

/// New center after an anchored zoom, per axis: the scene point that was
/// under the device coordinate `d` keeps mapping to `d` under the new
/// scale `s * m`.
pub open spec fn q_zoom_center(c: Rat, s: Rat, m: Rat, d: Rat, len: int) -> Rat {
    q_sub(q_d2s(d, c, s, len), q_mul(q_div(int_q(len), q_mul(s, m)), d))
}

// ---------------------------------------------------------------------------
// Exact success conditions of the executable transforms.
// ---------------------------------------------------------------------------

/// Success condition of the executable `q_w2d_x` computation.
pub open spec fn w2d_x_fits(x: Rat, len: int) -> bool {
    &&& div_fits(x, int_q(len))
    &&& mul_fits(int_q(2), q_div(x, int_q(len)))
    &&& sub_fits(q_mul(int_q(2), q_div(x, int_q(len))), int_q(1))
}

/// Success condition of the executable `q_w2d_y` computation.
pub open spec fn w2d_y_fits(y: Rat, len: int) -> bool {
    &&& sub_fits(int_q(len), y)
    &&& div_fits(q_sub(int_q(len), y), int_q(len))
    &&& mul_fits(int_q(2), q_div(q_sub(int_q(len), y), int_q(len)))
    &&& sub_fits(q_mul(int_q(2), q_div(q_sub(int_q(len), y), int_q(len))), int_q(1))
}

/// Success condition of the executable `q_d2s` computation.
pub open spec fn d2s_fits(d: Rat, c: Rat, s: Rat, len: int) -> bool {
    &&& div_fits(int_q(len), s)
    &&& mul_fits(q_div(int_q(len), s), d)
    &&& add_fits(q_mul(q_div(int_q(len), s), d), c)
}

/// Success condition of the executable `q_s2d` computation.
pub open spec fn s2d_fits(p: Rat, c: Rat, s: Rat, len: int) -> bool {
    &&& sub_fits(p, c)
    &&& div_fits(s, int_q(len))
    &&& mul_fits(q_sub(p, c), q_div(s, int_q(len)))
}

// ---------------------------------------------------------------------------
// Executable coordinate conversions.
// ---------------------------------------------------------------------------

/// One axis of the window-to-device conversion (the X formula).
fn w2d_x_exec(x: &Frac, len: u32) -> (r: Option<Frac>)
    requires
        x.wf(),
        len >= 1,
    ensures
        r.is_some() <==> w2d_x_fits(x.q(), len as int),
        r.is_some() ==> r.unwrap().wf() && r.unwrap().q() == q_w2d_x(x.q(), len as int),
{
    let lenf = Frac::from_int(len as i64);
    let two = Frac::from_int(2);
    let one = Frac::from_int(1);
    let t0 = match x.div(&lenf) {
        Some(v) => v,
        None => { return None; },
    };
    let t1 = match two.mul(&t0) {
        Some(v) => v,
        None => { return None; },
    };
    t1.sub(&one)
}

/// One axis of the window-to-device conversion (the Y formula, with the
/// sign of the axis flipped).
fn w2d_y_exec(y: &Frac, len: u32) -> (r: Option<Frac>)
    requires
        y.wf(),
        len >= 1,
    ensures
        r.is_some() <==> w2d_y_fits(y.q(), len as int),
        r.is_some() ==> r.unwrap().wf() && r.unwrap().q() == q_w2d_y(y.q(), len as int),
{
    let lenf = Frac::from_int(len as i64);
    let two = Frac::from_int(2);
    let one = Frac::from_int(1);
    let t0 = match lenf.sub(y) {
        Some(v) => v,
        None => { return None; },
    };
    let t1 = match t0.div(&lenf) {
        Some(v) => v,
        None => { return None; },
    };
    let t2 = match two.mul(&t1) {
        Some(v) => v,
        None => { return None; },
    };
    t2.sub(&one)
}

/// One axis of the device-to-scene conversion.
fn d2s_exec(d: &Frac, c: &Frac, s: &Frac, len: u32) -> (r: Option<Frac>)
    requires
        d.wf(),
        c.wf(),
        s.wf(),
        s.q().n > 0,
        len >= 1,
    ensures
        r.is_some() <==> d2s_fits(d.q(), c.q(), s.q(), len as int),
        r.is_some() ==> r.unwrap().wf() && r.unwrap().q() == q_d2s(d.q(), c.q(), s.q(), len as int),
{
    let lenf = Frac::from_int(len as i64);
    let t0 = match lenf.div(s) {
        Some(v) => v,
        None => { return None; },
    };
    let t1 = match t0.mul(d) {
        Some(v) => v,
        None => { return None; },
    };
    t1.add(c)
}

/// One axis of the scene-to-device conversion.
fn s2d_exec(p: &Frac, c: &Frac, s: &Frac, len: u32) -> (r: Option<Frac>)
    requires
        p.wf(),
        c.wf(),
        s.wf(),
        len >= 1,
    ensures
        r.is_some() <==> s2d_fits(p.q(), c.q(), s.q(), len as int),
        r.is_some() ==> r.unwrap().wf() && r.unwrap().q() == q_s2d(p.q(), c.q(), s.q(), len as int),
{
    let lenf = Frac::from_int(len as i64);
    let t0 = match p.sub(c) {
        Some(v) => v,
        None => { return None; },
    };
    let t1 = match s.div(&lenf) {
        Some(v) => v,
        None => { return None; },
    };
    t0.mul(&t1)
}

impl WindowCoordinate {
    /// Convert a window coordinate to a device-normalized coordinate:
    /// `d = 2 * (x / width, (height - y) / height) - (1, 1)`.
    ///
    /// Fails with `IllegalArgument` exactly when a viewport dimension is
    /// zero, and with `Overflow` exactly when an exact intermediate leaves
    /// the representable range.
    pub fn to_gpu_coordinate(&self, size: &ViewportSize) -> (r: Result<GPUCoordinate, ViewError>)
        requires
            self.wf(),
        ensures
            ((size.width == 0 || size.height == 0) <==> r == Err::<GPUCoordinate, ViewError>(
                ViewError::IllegalArgument,
            )),
            size.width >= 1 && size.height >= 1 ==> {
                &&& (r.is_ok() <==> w2d_x_fits(self.x.q(), size.width as int) && w2d_y_fits(
                    self.y.q(),
                    size.height as int,
                ))
                &&& (r.is_err() ==> r == Err::<GPUCoordinate, ViewError>(ViewError::Overflow))
                &&& (r.is_ok() ==> {
                    &&& r.unwrap().wf()
                    &&& r.unwrap().x.q() == q_w2d_x(self.x.q(), size.width as int)
                    &&& r.unwrap().y.q() == q_w2d_y(self.y.q(), size.height as int)
                })
            },
    {
        if size.width == 0 || size.height == 0 {
            return Err(ViewError::IllegalArgument);
        }
        let x = match w2d_x_exec(&self.x, size.width) {
            Some(v) => v,
            None => { return Err(ViewError::Overflow); },
        };
        let y = match w2d_y_exec(&self.y, size.height) {
            Some(v) => v,
            None => { return Err(ViewError::Overflow); },
        };
        Ok(GPUCoordinate { x, y })
    }
}

impl GPUCoordinate {
    /// Convert a device-normalized coordinate to a scene coordinate:
    /// `s = (viewport_size / scale) * d + center`, elementwise.
    ///
    /// Fails with `IllegalArgument` exactly when a viewport dimension is
    /// zero, and with `Overflow` exactly when an exact intermediate leaves
    /// the representable range.
    pub fn to_scene_coordinate(
        &self,
        center: &SceneCoordinate,
        scale_x: &Frac,
        scale_y: &Frac,
        size: &ViewportSize,
    ) -> (r: Result<SceneCoordinate, ViewError>)
        requires
            self.wf(),
            center.wf(),
            scale_x.wf(),
            scale_y.wf(),
            scale_x.q().n > 0,
            scale_y.q().n > 0,
        ensures
            ((size.width == 0 || size.height == 0) <==> r == Err::<SceneCoordinate, ViewError>(
                ViewError::IllegalArgument,
            )),
            size.width >= 1 && size.height >= 1 ==> {
                &&& (r.is_ok() <==> d2s_fits(self.x.q(), center.x.q(), scale_x.q(), size.width as int)
                    && d2s_fits(self.y.q(), center.y.q(), scale_y.q(), size.height as int))
                &&& (r.is_err() ==> r == Err::<SceneCoordinate, ViewError>(ViewError::Overflow))
                &&& (r.is_ok() ==> {
                    &&& r.unwrap().wf()
                    &&& r.unwrap().x.q() == q_d2s(self.x.q(), center.x.q(), scale_x.q(), size.width as int)
                    &&& r.unwrap().y.q() == q_d2s(self.y.q(), center.y.q(), scale_y.q(), size.height as int)
                })
            },
    {
        if size.width == 0 || size.height == 0 {
            return Err(ViewError::IllegalArgument);
        }
        let x = match d2s_exec(&self.x, &center.x, scale_x, size.width) {
            Some(v) => v,
            None => { return Err(ViewError::Overflow); },
        };
        let y = match d2s_exec(&self.y, &center.y, scale_y, size.height) {
            Some(v) => v,
            None => { return Err(ViewError::Overflow); },
        };
        Ok(SceneCoordinate { x, y })
    }
}

impl SceneCoordinate {
    /// Convert a scene coordinate back to a device-normalized coordinate:
    /// `d = (p - center) * (scale / viewport_size)`, elementwise.  This is
    /// the transform the draw-time matrix applies.
    ///
    /// Fails with `IllegalArgument` exactly when a viewport dimension is
    /// zero, and with `Overflow` exactly when an exact intermediate leaves
    /// the representable range.
    pub fn to_gpu_coordinate(
        &self,
        center: &SceneCoordinate,
        scale_x: &Frac,
        scale_y: &Frac,
        size: &ViewportSize,
    ) -> (r: Result<GPUCoordinate, ViewError>)
        requires
            self.wf(),
            center.wf(),
            scale_x.wf(),
            scale_y.wf(),
        ensures
            ((size.width == 0 || size.height == 0) <==> r == Err::<GPUCoordinate, ViewError>(
                ViewError::IllegalArgument,
            )),
            size.width >= 1 && size.height >= 1 ==> {
                &&& (r.is_ok() <==> s2d_fits(self.x.q(), center.x.q(), scale_x.q(), size.width as int)
                    && s2d_fits(self.y.q(), center.y.q(), scale_y.q(), size.height as int))
                &&& (r.is_err() ==> r == Err::<GPUCoordinate, ViewError>(ViewError::Overflow))
                &&& (r.is_ok() ==> {
                    &&& r.unwrap().wf()
                    &&& r.unwrap().x.q() == q_s2d(self.x.q(), center.x.q(), scale_x.q(), size.width as int)
                    &&& r.unwrap().y.q() == q_s2d(self.y.q(), center.y.q(), scale_y.q(), size.height as int)
                })
            },
    {
        if size.width == 0 || size.height == 0 {
            return Err(ViewError::IllegalArgument);
        }
        let x = match s2d_exec(&self.x, &center.x, scale_x, size.width) {
            Some(v) => v,
            None => { return Err(ViewError::Overflow); },
        };
        let y = match s2d_exec(&self.y, &center.y, scale_y, size.height) {
            Some(v) => v,
            None => { return Err(ViewError::Overflow); },
        };
        Ok(GPUCoordinate { x, y })
    }
}

// ---------------------------------------------------------------------------
// The zoom multiplier.
// ---------------------------------------------------------------------------

/// Success condition of the executable zoom-multiplier computation: the
/// larger of the two powers must be representable.
pub open spec fn zmult_fits(steps: int) -> bool {
    if steps >= 0 {
        pow(1001, steps as nat) <= i128::MAX
    } else {
        pow(1001, (-steps) as nat) <= i128::MAX
    }
}

/// For bases `1 <= a <= b`, powers of `a` stay between 1 and the matching
/// powers of `b`.
proof fn lemma_pow_base_le(a: int, b: int, e: nat)
    requires
        1 <= a <= b,
    ensures
        1 <= pow(a, e) <= pow(b, e),
    decreases e,
{
    reveal(pow);
    if e == 0 {
    } else {
        lemma_pow_base_le(a, b, (e - 1) as nat);
        assert(pow(a, e) == a * pow(a, (e - 1) as nat));
        assert(pow(b, e) == b * pow(b, (e - 1) as nat));
        assert(1 <= a * pow(a, (e - 1) as nat) <= b * pow(b, (e - 1) as nat)) by (nonlinear_arith)
            requires
                1 <= a <= b,
                1 <= pow(a, (e - 1) as nat) <= pow(b, (e - 1) as nat),
        ;
    }
}

/// The exact zoom multiplier `(1001/1000) ^ steps`, or `None` exactly when
/// it is not representable.
fn zoom_multiplier(steps: i32) -> (r: Option<Frac>)
    ensures
        r.is_some() <==> zmult_fits(steps as int),
        r.is_some() ==> {
            &&& r.unwrap().wf()
            &&& r.unwrap().q() == q_zoom_mult(steps as int)
            &&& r.unwrap().q().n > 0
        },
{
    let k: u32 = if steps >= 0 {
        steps as u32
    } else {
        (-(steps as i64)) as u32
    };
    let ghost kn: nat = k as nat;
    let mut np: i128 = 1;
    let mut dp: i128 = 1;
    let mut i: u32 = 0;
    proof {
        reveal(pow);
    }
    while i < k
        invariant
            0 <= i <= k,
            kn == k as nat,
            (k as int == if steps >= 0 {
                steps as int
            } else {
                -(steps as int)
            }),
            np as int == pow(1001, i as nat),
            dp as int == pow(1000, i as nat),
            1 <= np,
            1 <= dp,
        decreases k - i,
    {
        proof {
            reveal(pow);
            assert(pow(1001, (i + 1) as nat) == 1001 * pow(1001, i as nat));
            assert(pow(1000, (i + 1) as nat) == 1000 * pow(1000, i as nat));
            assert(np as int * 1001 == 1001 * (np as int)) by (nonlinear_arith);
            assert(dp as int * 1000 == 1000 * (dp as int)) by (nonlinear_arith);
        }
        np = match np.checked_mul(1001) {
            Some(v) => v,
            None => {
                proof {
                    lemma_pow_increases(1001nat, (i + 1) as nat, kn);
                }
                return None;
            },
        };
        dp = match dp.checked_mul(1000) {
            Some(v) => v,
            None => {
                proof {
                    lemma_pow_base_le(1000, 1001, (i + 1) as nat);
                    lemma_pow_increases(1001nat, (i + 1) as nat, kn);
                }
                return None;
            },
        };
        i = i + 1;
    }
    proof {
        lemma_pow_base_le(1000, 1001, kn);
    }
    if steps >= 0 {
        Some(Frac::new(np, dp))
    } else {
        Some(Frac::new(dp, np))
    }
}

// ---------------------------------------------------------------------------
// The pan/zoom state machine.
// ---------------------------------------------------------------------------

/// The pan/zoom state: the scene point mapped to the viewport center, the
/// per-axis zoom scale, the viewport size, the last observed pointer
/// position, and whether a drag is in progress.
#[derive(Clone, Copy, Debug)]
pub struct ZoomState {
    /// Scene-space point mapped to the viewport center.
    pub center: SceneCoordinate,
    /// Zoom scale along X; always strictly positive.
    pub scale_x: Frac,
    /// Zoom scale along Y; always strictly positive.
    pub scale_y: Frac,
    /// Current viewport size in pixels; both dimensions strictly positive.
    pub size: ViewportSize,
    /// Last observed pointer position, in window coordinates.
    pub last_position: WindowCoordinate,
    /// Whether the primary button is held and pans are applied.
    pub dragging: bool,
}

/// Whether the event's payload is well-formed.
pub open spec fn event_wf(event: ViewEvent) -> bool {
    match event {
        ViewEvent::PointerMoved(pos) => pos.wf(),
        _ => true,
    }
}

/// Success condition of one pan axis.
pub open spec fn pan_axis_fits(c: Rat, s: Rat, delta: Rat) -> bool {
    &&& div_fits(delta, s)
    &&& mul_fits(int_q(2), q_div(delta, s))
    &&& add_fits(c, q_mul(int_q(2), q_div(delta, s)))
}

/// Success condition of a pan step at pointer position `pos`.
pub open spec fn pan_fits(st: ZoomState, pos: WindowCoordinate) -> bool {
    let dx = q_sub(st.last_position.x.q(), pos.x.q());
    let dy0 = q_sub(st.last_position.y.q(), pos.y.q());
    &&& sub_fits(st.last_position.x.q(), pos.x.q())
    &&& sub_fits(st.last_position.y.q(), pos.y.q())
    &&& fits_i128(-dy0.n)
    &&& pan_axis_fits(st.center.x.q(), st.scale_x.q(), dx)
    &&& pan_axis_fits(st.center.y.q(), st.scale_y.q(), q_neg(dy0))
}

/// Success condition of one zoom axis.
pub open spec fn zoom_axis_fits(c: Rat, s: Rat, m: Rat, d: Rat, len: int) -> bool {
    &&& d2s_fits(d, c, s, len)
    &&& mul_fits(s, m)
    &&& div_fits(int_q(len), q_mul(s, m))
    &&& mul_fits(q_div(int_q(len), q_mul(s, m)), d)
    &&& sub_fits(q_d2s(d, c, s, len), q_mul(q_div(int_q(len), q_mul(s, m)), d))
}

/// Success condition of a zoom step by `steps`.
pub open spec fn scroll_fits(st: ZoomState, steps: int) -> bool {
    let w = st.size.width as int;
    let h = st.size.height as int;
    let m = q_zoom_mult(steps);
    let dx = q_w2d_x(st.last_position.x.q(), w);
    let dy = q_w2d_y(st.last_position.y.q(), h);
    &&& zmult_fits(steps)
    &&& w2d_x_fits(st.last_position.x.q(), w)
    &&& w2d_y_fits(st.last_position.y.q(), h)
    &&& zoom_axis_fits(st.center.x.q(), st.scale_x.q(), m, dx, w)
    &&& zoom_axis_fits(st.center.y.q(), st.scale_y.q(), m, dy, h)
}

impl ZoomState {
    /// Internal invariant: well-formed scalars, strictly positive scales,
    /// strictly positive viewport dimensions.
    pub open spec fn wf(self) -> bool {
        &&& self.center.wf()
        &&& self.scale_x.wf()
        &&& self.scale_x.q().n > 0
        &&& self.scale_y.wf()
        &&& self.scale_y.q().n > 0
        &&& self.size.width >= 1
        &&& self.size.height >= 1
        &&& self.last_position.wf()
    }

    /// The initial view over the given viewport: `center = (0, 0)`,
    /// `scale = (1, 1)`, pointer at the origin, not dragging.
    ///
    /// Fails with `IllegalArgument` exactly when a viewport dimension is
    /// zero.
    pub fn new(size: ViewportSize) -> (r: Result<ZoomState, ViewError>)
        ensures
            (size.width == 0 || size.height == 0) <==> r == Err::<ZoomState, ViewError>(
                ViewError::IllegalArgument,
            ),
            r.is_ok() <==> size.width >= 1 && size.height >= 1,
            r.is_ok() ==> {
                &&& r.unwrap().wf()
                &&& r.unwrap().size == size
                &&& r.unwrap().center.x.q() == int_q(0)
                &&& r.unwrap().center.y.q() == int_q(0)
                &&& r.unwrap().scale_x.q() == int_q(1)
                &&& r.unwrap().scale_y.q() == int_q(1)
                &&& r.unwrap().last_position.x.q() == int_q(0)
                &&& r.unwrap().last_position.y.q() == int_q(0)
                &&& !r.unwrap().dragging
            },
    {
        if size.width == 0 || size.height == 0 {
            return Err(ViewError::IllegalArgument);
        }
        Ok(ZoomState {
            center: SceneCoordinate { x: Frac::from_int(0), y: Frac::from_int(0) },
            scale_x: Frac::from_int(1),
            scale_y: Frac::from_int(1),
            size,
            last_position: WindowCoordinate { x: Frac::from_int(0), y: Frac::from_int(0) },
            dragging: false,
        })
    }

    /// Replace the viewport size; `center` and `scale` are unchanged.
    ///
    /// Fails with `IllegalArgument` exactly when a dimension is zero, and
    /// then leaves the state untouched.
    pub fn set_size(&mut self, size: ViewportSize) -> (r: Result<(), ViewError>)
        requires
            old(self).wf(),
        ensures
            final(self).wf(),
            (size.width == 0 || size.height == 0) <==> r == Err::<(), ViewError>(
                ViewError::IllegalArgument,
            ),
            r.is_ok() <==> size.width >= 1 && size.height >= 1,
            r.is_err() ==> *final(self) == *old(self),
            r.is_ok() ==> {
                &&& final(self).size == size
                &&& final(self).center == old(self).center
                &&& final(self).scale_x == old(self).scale_x
                &&& final(self).scale_y == old(self).scale_y
                &&& final(self).last_position == old(self).last_position
                &&& final(self).dragging == old(self).dragging
            },
    {
        if size.width == 0 || size.height == 0 {
            return Err(ViewError::IllegalArgument);
        }
        self.size = size;
        Ok(())
    }
}

// ---------------------------------------------------------------------------
// Event handling.
// ---------------------------------------------------------------------------

impl ZoomState {
    /// Feed one input event through the state machine.
    ///
    /// - `PrimaryButtonPressed` starts dragging and asks for a grabbing
    ///   cursor.
    /// - `PrimaryButtonReleased` stops dragging and restores the arrow
    ///   cursor.
    /// - `PointerMoved` always records the new pointer position; while
    ///   dragging it also pans: `center += 2 * (delta / scale)` with the
    ///   window-space delta's Y sign flipped to match the scene's upward Y.
    /// - `ScrollDelta(steps)` zooms by `1.001 ^ steps` about the pointer:
    ///   the scene point under the pointer stays put on screen.
    ///
    /// Fails with `Overflow` exactly when an exact intermediate leaves the
    /// representable range; the state is then unchanged.
    pub fn handle_event(&mut self, event: &ViewEvent) -> (r: Result<EventResponse, ViewError>)
        requires
            old(self).wf(),
            event_wf(*event),
        ensures
            final(self).wf(),
            final(self).size == old(self).size,
            r.is_err() ==> *final(self) == *old(self) && r == Err::<EventResponse, ViewError>(
                ViewError::Overflow,
            ),
            match *event {
                ViewEvent::PrimaryButtonPressed => {
                    &&& r == Ok::<EventResponse, ViewError>(EventResponse {
                        consumed: true,
                        redraw: false,
                        cursor: Some(CursorRequest::Grabbing),
                    })
                    &&& final(self).dragging
                    &&& final(self).center == old(self).center
                    &&& final(self).scale_x == old(self).scale_x
                    &&& final(self).scale_y == old(self).scale_y
                    &&& final(self).last_position == old(self).last_position
                },
                ViewEvent::PrimaryButtonReleased => {
                    &&& r == Ok::<EventResponse, ViewError>(EventResponse {
                        consumed: true,
                        redraw: false,
                        cursor: Some(CursorRequest::Arrow),
                    })
                    &&& !final(self).dragging
                    &&& final(self).center == old(self).center
                    &&& final(self).scale_x == old(self).scale_x
                    &&& final(self).scale_y == old(self).scale_y
                    &&& final(self).last_position == old(self).last_position
                },
                ViewEvent::PointerMoved(pos) => {
                    &&& (r.is_ok() <==> (!old(self).dragging || pan_fits(*old(self), pos)))
                    &&& r.is_ok() ==> {
                        &&& final(self).last_position == pos
                        &&& final(self).scale_x == old(self).scale_x
                        &&& final(self).scale_y == old(self).scale_y
                        &&& final(self).dragging == old(self).dragging
                        &&& r == Ok::<EventResponse, ViewError>(EventResponse {
                            consumed: true,
                            redraw: old(self).dragging,
                            cursor: None,
                        })
                        &&& if old(self).dragging {
                            &&& final(self).center.x.q() == q_pan(
                                old(self).center.x.q(),
                                old(self).scale_x.q(),
                                q_sub(old(self).last_position.x.q(), pos.x.q()),
                            )
                            &&& final(self).center.y.q() == q_pan(
                                old(self).center.y.q(),
                                old(self).scale_y.q(),
                                q_neg(q_sub(old(self).last_position.y.q(), pos.y.q())),
                            )
                        } else {
                            final(self).center == old(self).center
                        }
                    }
                },
                ViewEvent::ScrollDelta(steps) => {
                    &&& (r.is_ok() <==> scroll_fits(*old(self), steps as int))
                    &&& r.is_ok() ==> {
                        let w = old(self).size.width as int;
                        let h = old(self).size.height as int;
                        let m = q_zoom_mult(steps as int);
                        let dx = q_w2d_x(old(self).last_position.x.q(), w);
                        let dy = q_w2d_y(old(self).last_position.y.q(), h);
                        &&& final(self).scale_x.q() == q_mul(old(self).scale_x.q(), m)
                        &&& final(self).scale_y.q() == q_mul(old(self).scale_y.q(), m)
                        &&& final(self).center.x.q() == q_zoom_center(
                            old(self).center.x.q(),
                            old(self).scale_x.q(),
                            m,
                            dx,
                            w,
                        )
                        &&& final(self).center.y.q() == q_zoom_center(
                            old(self).center.y.q(),
                            old(self).scale_y.q(),
                            m,
                            dy,
                            h,
                        )
                        &&& final(self).last_position == old(self).last_position
                        &&& final(self).dragging == old(self).dragging
                        &&& r == Ok::<EventResponse, ViewError>(EventResponse {
                            consumed: true,
                            redraw: true,
                            cursor: None,
                        })
                    }
                },
            },
    {
        match event {
            ViewEvent::PrimaryButtonPressed => {
                self.dragging = true;
                Ok(EventResponse {
                    consumed: true,
                    redraw: false,
                    cursor: Some(CursorRequest::Grabbing),
                })
            },
            ViewEvent::PrimaryButtonReleased => {
                self.dragging = false;
                Ok(EventResponse {
                    consumed: true,
                    redraw: false,
                    cursor: Some(CursorRequest::Arrow),
                })
            },
            ViewEvent::PointerMoved(pos) => {
                if self.dragging {
                    let dx = match self.last_position.x.sub(&pos.x) {
                        Some(v) => v,
                        None => { return Err(ViewError::Overflow); },
                    };
                    let dy0 = match self.last_position.y.sub(&pos.y) {
                        Some(v) => v,
                        None => { return Err(ViewError::Overflow); },
                    };
                    let dy = match dy0.neg() {
                        Some(v) => v,
                        None => { return Err(ViewError::Overflow); },
                    };
                    let cx = match pan_axis_exec(&self.center.x, &self.scale_x, &dx) {
                        Some(v) => v,
                        None => { return Err(ViewError::Overflow); },
                    };
                    let cy = match pan_axis_exec(&self.center.y, &self.scale_y, &dy) {
                        Some(v) => v,
                        None => { return Err(ViewError::Overflow); },
                    };
                    self.center = SceneCoordinate { x: cx, y: cy };
                    self.last_position = *pos;
                    Ok(EventResponse { consumed: true, redraw: true, cursor: None })
                } else {
                    self.last_position = *pos;
                    Ok(EventResponse { consumed: true, redraw: false, cursor: None })
                }
            },
            ViewEvent::ScrollDelta(steps) => {
                let m = match zoom_multiplier(*steps) {
                    Some(v) => v,
                    None => { return Err(ViewError::Overflow); },
                };
                let dx = match w2d_x_exec(&self.last_position.x, self.size.width) {
                    Some(v) => v,
                    None => { return Err(ViewError::Overflow); },
                };
                let dy = match w2d_y_exec(&self.last_position.y, self.size.height) {
                    Some(v) => v,
                    None => { return Err(ViewError::Overflow); },
                };
                let (sx, cx) = match zoom_axis_exec(
                    &self.center.x,
                    &self.scale_x,
                    &m,
                    &dx,
                    self.size.width,
                ) {
                    Some(v) => v,
                    None => { return Err(ViewError::Overflow); },
                };
                let (sy, cy) = match zoom_axis_exec(
                    &self.center.y,
                    &self.scale_y,
                    &m,
                    &dy,
                    self.size.height,
                ) {
                    Some(v) => v,
                    None => { return Err(ViewError::Overflow); },
                };
                self.center = SceneCoordinate { x: cx, y: cy };
                self.scale_x = sx;
                self.scale_y = sy;
                Ok(EventResponse { consumed: true, redraw: true, cursor: None })
            },
        }
    }
}

// ---------------------------------------------------------------------------
// Laws of the view transform.
//
// Each law is reduced to a handful of small rational identities; every
// identity is discharged by one nonlinear query over the raw integer
// components, kept small enough for the solver.
// ---------------------------------------------------------------------------

/// Adding and then subtracting the same rational is the identity.
proof fn lemma_add_sub_cancel(x: Rat, c: Rat)
    ensures
        q_eq(q_sub(q_add(x, c), c), x),
{
    let l = q_sub(q_add(x, c), c);
    assert(l.n == (x.n * c.d + c.n * x.d) * c.d - c.n * (x.d * c.d));
    assert(l.d == (x.d * c.d) * c.d);
    assert(((x.n * c.d + c.n * x.d) * c.d - c.n * (x.d * c.d)) * x.d == x.n * ((x.d * c.d) * c.d))
        by (nonlinear_arith);
}

/// Subtracting `a - t` from `a` leaves `t`.
proof fn lemma_sub_sub_cancel(a: Rat, t: Rat)
    ensures
        q_eq(q_sub(a, q_sub(a, t)), t),
{
    let l = q_sub(a, q_sub(a, t));
    assert(l.n == a.n * (a.d * t.d) - (a.n * t.d - t.n * a.d) * a.d);
    assert(l.d == a.d * (a.d * t.d));
    assert((a.n * (a.d * t.d) - (a.n * t.d - t.n * a.d) * a.d) * t.d == t.n * (a.d * (a.d * t.d)))
        by (nonlinear_arith);
}

/// Scaling by `len / s` and then by `s / len` is the identity.
proof fn lemma_len_scale_cancel(d: Rat, s: Rat, len: int)
    ensures
        q_eq(q_mul(q_mul(q_div(int_q(len), s), d), q_div(s, int_q(len))), d),
{
    let l = q_mul(q_mul(q_div(int_q(len), s), d), q_div(s, int_q(len)));
    assert(l.n == ((len * s.d) * d.n) * (s.n * 1));
    assert(l.d == ((1 * s.n) * d.d) * (s.d * len));
    assert((((len * s.d) * d.n) * (s.n * 1)) * d.d == d.n * (((1 * s.n) * d.d) * (s.d * len)))
        by (nonlinear_arith);
}

/// Multiplying two equal rationals by the same rational keeps them equal.
proof fn lemma_mul_cong_left(a: Rat, a2: Rat, b: Rat)
    requires
        q_eq(a, a2),
    ensures
        q_eq(q_mul(a, b), q_mul(a2, b)),
{
    assert((a.n * b.n) * (a2.d * b.d) == (a2.n * b.n) * (a.d * b.d)) by (nonlinear_arith)
        requires
            a.n * a2.d == a2.n * a.d,
    ;
}

/// Adding the same rational to two equal rationals keeps them equal.
proof fn lemma_add_cong_right(a: Rat, b: Rat, b2: Rat)
    requires
        q_eq(b, b2),
    ensures
        q_eq(q_add(a, b), q_add(a, b2)),
{
    assert((a.n * b.d + b.n * a.d) * (a.d * b2.d) == (a.n * b.d) * (a.d * b2.d) + (b.n * a.d) * (
    a.d * b2.d)) by (nonlinear_arith);
    assert((a.n * b2.d + b2.n * a.d) * (a.d * b.d) == (a.n * b2.d) * (a.d * b.d) + (b2.n * a.d) * (
    a.d * b.d)) by (nonlinear_arith);
    assert((a.n * b.d) * (a.d * b2.d) == (a.n * b2.d) * (a.d * b.d)) by (nonlinear_arith);
    assert((b.n * a.d) * (a.d * b2.d) == (b2.n * a.d) * (a.d * b.d)) by (nonlinear_arith)
        requires
            b.n * b2.d == b2.n * b.d,
    ;
}

/// Rational equality is transitive through a rational with a nonzero
/// denominator.
proof fn lemma_q_eq_trans(a: Rat, b: Rat, c: Rat)
    requires
        q_eq(a, b),
        q_eq(b, c),
        b.d != 0,
    ensures
        q_eq(a, c),
{
    assert(a.n * c.d == c.n * a.d) by (nonlinear_arith)
        requires
            a.n * b.d == b.n * a.d,
            b.n * c.d == c.n * b.d,
            b.d != 0,
    ;
}

/// The two components of reassociated rational sums, over raw integers.
proof fn nl_add_assoc(an: int, ad: int, bn: int, bd: int, en: int, ed: int)
    ensures
        (an * bd + bn * ad) * ed + en * (ad * bd) == an * (bd * ed) + (bn * ed + en * bd) * ad,
        (ad * bd) * ed == ad * (bd * ed),
{
    assert((an * bd + bn * ad) * ed == (an * bd) * ed + (bn * ad) * ed) by (nonlinear_arith);
    assert((an * bd) * ed == an * (bd * ed)) by (nonlinear_arith);
    assert((bn * ad) * ed == (bn * ed) * ad) by (nonlinear_arith);
    assert(en * (ad * bd) == (en * bd) * ad) by (nonlinear_arith);
    assert((bn * ed + en * bd) * ad == (bn * ed) * ad + (en * bd) * ad) by (nonlinear_arith);
    assert((ad * bd) * ed == ad * (bd * ed)) by (nonlinear_arith);
}

/// Rational addition reassociates.
proof fn lemma_add_assoc(a: Rat, b: Rat, e: Rat)
    ensures
        q_eq(q_add(q_add(a, b), e), q_add(a, q_add(b, e))),
{
    let l = q_add(q_add(a, b), e);
    let r = q_add(a, q_add(b, e));
    nl_add_assoc(a.n, a.d, b.n, b.d, e.n, e.d);
    assert(l == r);
}

/// Cross-multiplied equality of a rational and the same rational with
/// both components scaled by `k`.
proof fn nl_scaled_eq(ln: int, ld: int, rn: int, rd: int, k: int)
    by (nonlinear_arith)
    requires
        ln == k * rn,
        ld == k * rd,
    ensures
        ln * rd == rn * ld,
{
}

/// The numerator of two summed pan contributions is the numerator of the
/// single summed-delta contribution, scaled by `sn`.
proof fn nl_pan_parts_num(sn: int, sd: int, d1n: int, d1d: int, d2n: int, d2d: int)
    ensures
        (2 * (d1n * sd)) * (1 * (d2d * sn)) + (2 * (d2n * sd)) * (1 * (d1d * sn)) == sn * (2 * ((
        d1n * d2d + d2n * d1d) * sd)),
{
    let x = d1n * d2d;
    let y = d2n * d1d;
    assert((2 * (d1n * sd)) * (1 * (d2d * sn)) == sn * (2 * ((d1n * d2d) * sd)))
        by (nonlinear_arith);
    assert((2 * (d2n * sd)) * (1 * (d1d * sn)) == sn * (2 * ((d2n * d1d) * sd)))
        by (nonlinear_arith);
    assert((x + y) * sd == x * sd + y * sd) by (nonlinear_arith);
    assert(sn * (2 * (x * sd) + 2 * (y * sd)) == sn * (2 * (x * sd)) + sn * (2 * (y * sd)))
        by (nonlinear_arith);
}

/// The denominator of two summed pan contributions is the denominator of
/// the single summed-delta contribution, scaled by `sn`.
#[verifier::rlimit(100)]
proof fn nl_pan_parts_den(sn: int, d1d: int, d2d: int)
    by (nonlinear_arith)
    ensures
        (1 * (d1d * sn)) * (1 * (d2d * sn)) == sn * (1 * ((d1d * d2d) * sn)),
{
}

/// Two pan contributions through the same scale add up to the pan
/// contribution of the summed delta.
proof fn lemma_pan_parts(s: Rat, d1: Rat, d2: Rat)
    ensures
        q_eq(
            q_add(q_mul(int_q(2), q_div(d1, s)), q_mul(int_q(2), q_div(d2, s))),
            q_mul(int_q(2), q_div(q_add(d1, d2), s)),
        ),
{
    let l = q_add(q_mul(int_q(2), q_div(d1, s)), q_mul(int_q(2), q_div(d2, s)));
    let r = q_mul(int_q(2), q_div(q_add(d1, d2), s));
    // `l` is `r` scaled by `s.n` in both components.
    nl_pan_parts_num(s.n, s.d, d1.n, d1.d, d2.n, d2.d);
    nl_pan_parts_den(s.n, d1.d, d2.d);
    assert(l.n == s.n * r.n);
    assert(l.d == s.n * r.d);
    nl_scaled_eq(l.n, l.d, r.n, r.d, s.n);
}

/// Coordinate round-trip: taking a device-normalized coordinate to scene
/// space and back is the identity, for any center, positive scale and
/// positive viewport length.
pub proof fn lemma_device_scene_round_trip(d: Rat, c: Rat, s: Rat, len: int)
    requires
        q_wf(d),
        q_wf(c),
        q_wf(s),
        s.n > 0,
        len > 0,
    ensures
        q_eq(q_s2d(q_d2s(d, c, s, len), c, s, len), d),
{
    let t = q_mul(q_div(int_q(len), s), d);
    let p = q_d2s(d, c, s, len);
    let w = q_div(s, int_q(len));
    assert(p == q_add(t, c));
    lemma_add_sub_cancel(t, c);
    lemma_mul_cong_left(q_sub(p, c), t, w);
    lemma_len_scale_cancel(d, s, len);
    let mid = q_mul(t, w);
    assert(mid.d == ((1 * s.n) * d.d) * (s.d * len));
    assert(((1 * s.n) * d.d) * (s.d * len) > 0) by (nonlinear_arith)
        requires
            s.n > 0,
            d.d > 0,
            s.d > 0,
            len > 0,
    ;
    lemma_q_eq_trans(q_mul(q_sub(p, c), w), mid, d);
    assert(q_s2d(p, c, s, len) == q_mul(q_sub(p, c), w));
}

/// The window-coordinate form of the round trip, along each axis: the
/// device image of a window coordinate, taken to scene space and back,
/// is unchanged.
pub proof fn lemma_window_round_trip(x: Rat, y: Rat, c: Rat, s: Rat, len: int)
    requires
        q_wf(x),
        q_wf(y),
        q_wf(c),
        q_wf(s),
        s.n > 0,
        len > 0,
    ensures
        q_eq(q_s2d(q_d2s(q_w2d_x(x, len), c, s, len), c, s, len), q_w2d_x(x, len)),
        q_eq(q_s2d(q_d2s(q_w2d_y(y, len), c, s, len), c, s, len), q_w2d_y(y, len)),
{
    assert(q_w2d_x(x, len).d == ((1 * (x.d * len)) * 1));
    assert(q_w2d_y(y, len).d == ((1 * ((1 * y.d) * len)) * 1));
    assert((1 * (x.d * len)) * 1 > 0 && (1 * ((1 * y.d) * len)) * 1 > 0) by (nonlinear_arith)
        requires
            x.d > 0,
            y.d > 0,
            len > 0,
    ;
    lemma_device_scene_round_trip(q_w2d_x(x, len), c, s, len);
    lemma_device_scene_round_trip(q_w2d_y(y, len), c, s, len);
}

/// Zoom anchoring: after a zoom by the multiplier `m` anchored at the
/// device coordinate `d`, the scene point that was under `d` still maps
/// to `d` under the new center and scale — the pixel under the cursor
/// does not move.  (That it mapped to `d` before the zoom is the round
/// trip above.)
pub proof fn lemma_zoom_anchor_stable(d: Rat, c: Rat, s: Rat, m: Rat, len: int)
    requires
        q_wf(d),
        q_wf(c),
        q_wf(s),
        s.n > 0,
        q_wf(m),
        m.n > 0,
        len > 0,
    ensures
        q_eq(q_s2d(q_d2s(d, c, s, len), q_zoom_center(c, s, m, d, len), q_mul(s, m), len), d),
{
    let a = q_d2s(d, c, s, len);
    let s2 = q_mul(s, m);
    let t2 = q_mul(q_div(int_q(len), s2), d);
    let c2 = q_zoom_center(c, s, m, d, len);
    assert(c2 == q_sub(a, t2));
    let w2 = q_div(s2, int_q(len));
    lemma_sub_sub_cancel(a, t2);
    lemma_mul_cong_left(q_sub(a, c2), t2, w2);
    lemma_len_scale_cancel(d, s2, len);
    let mid = q_mul(t2, w2);
    assert(mid.d == ((1 * (s.n * m.n)) * d.d) * ((s.d * m.d) * len));
    assert(((1 * (s.n * m.n)) * d.d) * ((s.d * m.d) * len) > 0) by (nonlinear_arith)
        requires
            s.n > 0,
            m.n > 0,
            d.d > 0,
            s.d > 0,
            m.d > 0,
            len > 0,
    ;
    lemma_q_eq_trans(q_mul(q_sub(a, c2), w2), mid, d);
    assert(q_s2d(a, c2, s2, len) == q_mul(q_sub(a, c2), w2));
}

/// Pan superposition: panning by `d1` and then by `d2` lands on the same
/// center as panning once by `d1 + d2`.
pub proof fn lemma_pan_superposition(c: Rat, s: Rat, d1: Rat, d2: Rat)
    requires
        q_wf(c),
        q_wf(s),
        s.n > 0,
        q_wf(d1),
        q_wf(d2),
    ensures
        q_eq(q_pan(q_pan(c, s, d1), s, d2), q_pan(c, s, q_add(d1, d2))),
{
    let t1 = q_mul(int_q(2), q_div(d1, s));
    let t2 = q_mul(int_q(2), q_div(d2, s));
    let t12 = q_mul(int_q(2), q_div(q_add(d1, d2), s));
    lemma_add_assoc(c, t1, t2);
    lemma_pan_parts(s, d1, d2);
    lemma_add_cong_right(c, q_add(t1, t2), t12);
    let mid = q_add(c, q_add(t1, t2));
    assert(mid.d == c.d * ((1 * (d1.d * s.n)) * (1 * (d2.d * s.n))));
    assert(c.d * ((1 * (d1.d * s.n)) * (1 * (d2.d * s.n))) != 0) by (nonlinear_arith)
        requires
            c.d > 0,
            d1.d > 0,
            d2.d > 0,
            s.n > 0,
    ;
    lemma_q_eq_trans(q_add(q_add(c, t1), t2), mid, q_add(c, t12));
    assert(q_pan(q_pan(c, s, d1), s, d2) == q_add(q_add(c, t1), t2));
    assert(q_pan(c, s, q_add(d1, d2)) == q_add(c, t12));
}

/// The numerator of one applied matrix axis is the numerator of the
/// scene-to-device image, scaled by `sd * len`.
proof fn nl_matrix_parts_num(pn: int, pd: int, cn: int, cd: int, sn: int, sd: int, len: int)
    ensures
        ((sn * 1) * pn) * ((sd * len) * cd) + ((sn * 1) * (-cn)) * ((sd * len) * pd) == (sd * len)
            * ((pn * cd - cn * pd) * (sn * 1)),
{
    let u = pn * cd;
    let v = cn * pd;
    assert(((sn * 1) * pn) * ((sd * len) * cd) == (sd * len) * ((pn * cd) * (sn * 1)))
        by (nonlinear_arith);
    assert(((sn * 1) * (-cn)) * ((sd * len) * pd) == -((sd * len) * ((cn * pd) * (sn * 1))))
        by (nonlinear_arith);
    assert((u - v) * (sn * 1) == u * (sn * 1) - v * (sn * 1)) by (nonlinear_arith);
    assert((sd * len) * (u * (sn * 1) - v * (sn * 1)) == (sd * len) * (u * (sn * 1)) - (sd * len)
        * (v * (sn * 1))) by (nonlinear_arith);
}

/// The denominator of one applied matrix axis is the denominator of the
/// scene-to-device image, scaled by `sd * len`.
#[verifier::rlimit(100)]
proof fn nl_matrix_parts_den(pd: int, cd: int, sd: int, len: int)
    by (nonlinear_arith)
    ensures
        ((sd * len) * pd) * ((sd * len) * cd) == (sd * len) * ((pd * cd) * (sd * len)),
{
}

/// The matrix entries mean what `matrix` claims: applying one axis of the
/// affine transform (`xx * p + xw`) to a scene coordinate gives exactly
/// its device-normalized coordinate.
pub proof fn lemma_matrix_maps_scene_to_device(p: Rat, c: Rat, s: Rat, len: int)
    requires
        q_wf(p),
        q_wf(c),
        q_wf(s),
        len > 0,
    ensures
        q_eq(
            q_add(q_mul(q_div(s, int_q(len)), p), q_mul(q_div(s, int_q(len)), q_neg(c))),
            q_s2d(p, c, s, len),
        ),
{
    let w = q_div(s, int_q(len));
    let l = q_add(q_mul(w, p), q_mul(w, q_neg(c)));
    let r = q_s2d(p, c, s, len);
    // `l` is `r` scaled by `s.d * len` in both components.
    nl_matrix_parts_num(p.n, p.d, c.n, c.d, s.n, s.d, len);
    nl_matrix_parts_den(p.d, c.d, s.d, len);
    assert(l.n == (s.d * len) * r.n);
    assert(l.d == (s.d * len) * r.d);
    nl_scaled_eq(l.n, l.d, r.n, r.d, s.d * len);
}



// ---------------------------------------------------------------------------
// The draw-time transform matrix.
// ---------------------------------------------------------------------------

/// The four nontrivial entries of the affine scene-to-device transform, as
/// exact rationals.  Encoded as a 4x4 matrix they sit at: `xx` and `yy` on
/// the diagonal, `xw` and `yw` in the translation row, with 1 on the two
/// remaining diagonal entries and 0 elsewhere.
#[derive(Clone, Copy, Debug)]
pub struct TransformMatrix {
    /// Scale entry for X: `scale_x / width`.
    pub xx: Frac,
    /// Scale entry for Y: `scale_y / height`.
    pub yy: Frac,
    /// Translation entry for X: `(scale_x / width) * -center_x`.
    pub xw: Frac,
    /// Translation entry for Y: `(scale_y / height) * -center_y`.
    pub yw: Frac,
}

/// Success condition of one axis of the matrix computation.
pub open spec fn matrix_axis_fits(c: Rat, s: Rat, len: int) -> bool {
    &&& div_fits(s, int_q(len))
    &&& fits_i128(-c.n)
    &&& mul_fits(q_div(s, int_q(len)), q_neg(c))
}

/// Success condition of the matrix computation.
pub open spec fn matrix_fits(st: ZoomState) -> bool {
    &&& matrix_axis_fits(st.center.x.q(), st.scale_x.q(), st.size.width as int)
    &&& matrix_axis_fits(st.center.y.q(), st.scale_y.q(), st.size.height as int)
}

impl ZoomState {
    /// The affine transform taking scene coordinates directly to
    /// device-normalized coordinates, used as the vertex-stage uniform:
    /// scale `scale / viewport_size` on the diagonal and translation
    /// `(scale / viewport_size) * -center`.
    ///
    /// Fails with `Overflow` exactly when an exact entry leaves the
    /// representable range.
    pub fn matrix(&self) -> (r: Result<TransformMatrix, ViewError>)
        requires
            self.wf(),
        ensures
            r.is_ok() <==> matrix_fits(*self),
            r.is_err() ==> r == Err::<TransformMatrix, ViewError>(ViewError::Overflow),
            r.is_ok() ==> {
                let w = self.size.width as int;
                let h = self.size.height as int;
                &&& r.unwrap().xx.wf()
                &&& r.unwrap().yy.wf()
                &&& r.unwrap().xw.wf()
                &&& r.unwrap().yw.wf()
                &&& r.unwrap().xx.q() == q_div(self.scale_x.q(), int_q(w))
                &&& r.unwrap().yy.q() == q_div(self.scale_y.q(), int_q(h))
                &&& r.unwrap().xw.q() == q_mul(q_div(self.scale_x.q(), int_q(w)), q_neg(self.center.x.q()))
                &&& r.unwrap().yw.q() == q_mul(q_div(self.scale_y.q(), int_q(h)), q_neg(self.center.y.q()))
            },
    {
        let wf_ = Frac::from_int(self.size.width as i64);
        let hf_ = Frac::from_int(self.size.height as i64);
        let xx = match self.scale_x.div(&wf_) {
            Some(v) => v,
            None => { return Err(ViewError::Overflow); },
        };
        let nx = match self.center.x.neg() {
            Some(v) => v,
            None => { return Err(ViewError::Overflow); },
        };
        let xw = match xx.mul(&nx) {
            Some(v) => v,
            None => { return Err(ViewError::Overflow); },
        };
        let yy = match self.scale_y.div(&hf_) {
            Some(v) => v,
            None => { return Err(ViewError::Overflow); },
        };
        let ny = match self.center.y.neg() {
            Some(v) => v,
            None => { return Err(ViewError::Overflow); },
        };
        let yw = match yy.mul(&ny) {
            Some(v) => v,
            None => { return Err(ViewError::Overflow); },
        };
        Ok(TransformMatrix { xx, yy, xw, yw })
    }
}

/// One axis of a pan step: `c + 2 * (delta / s)`.
fn pan_axis_exec(c: &Frac, s: &Frac, delta: &Frac) -> (r: Option<Frac>)
    requires
        c.wf(),
        s.wf(),
        s.q().n > 0,
        delta.wf(),
    ensures
        r.is_some() <==> pan_axis_fits(c.q(), s.q(), delta.q()),
        r.is_some() ==> r.unwrap().wf() && r.unwrap().q() == q_pan(c.q(), s.q(), delta.q()),
{
    let two = Frac::from_int(2);
    let t0 = match delta.div(s) {
        Some(v) => v,
        None => { return None; },
    };
    let t1 = match two.mul(&t0) {
        Some(v) => v,
        None => { return None; },
    };
    c.add(&t1)
}

/// One axis of a zoom step: the new scale `s * m` and the new center that
/// keeps the scene point under the device coordinate `d` fixed.
fn zoom_axis_exec(c: &Frac, s: &Frac, m: &Frac, d: &Frac, len: u32) -> (r: Option<(Frac, Frac)>)
    requires
        c.wf(),
        s.wf(),
        s.q().n > 0,
        m.wf(),
        m.q().n > 0,
        d.wf(),
        len >= 1,
    ensures
        r.is_some() <==> zoom_axis_fits(c.q(), s.q(), m.q(), d.q(), len as int),
        r.is_some() ==> {
            &&& r.unwrap().0.wf()
            &&& r.unwrap().0.q() == q_mul(s.q(), m.q())
            &&& r.unwrap().0.q().n > 0
            &&& r.unwrap().1.wf()
            &&& r.unwrap().1.q() == q_zoom_center(c.q(), s.q(), m.q(), d.q(), len as int)
        },
{
    let lenf = Frac::from_int(len as i64);
    let anchor = match d2s_exec(d, c, s, len) {
        Some(v) => v,
        None => { return None; },
    };
    let s_new = match s.mul(m) {
        Some(v) => v,
        None => { return None; },
    };
    proof {
        assert(s.q().n * m.q().n > 0) by (nonlinear_arith)
            requires s.q().n > 0, m.q().n > 0;
    }
    let t0 = match lenf.div(&s_new) {
        Some(v) => v,
        None => { return None; },
    };
    let t1 = match t0.mul(d) {
        Some(v) => v,
        None => { return None; },
    };
    match anchor.sub(&t1) {
        Some(c_new) => Some((s_new, c_new)),
        None => None,
    }
}

} // verus!
