//! The size hints a client sets on its window (`WM_NORMAL_HINTS`), and the geometry
//! that the floating placements derive from them.
use vstd::prelude::*;

use crate::geometry::{centered_in, centered_spec, fits_in, Rect};
use crate::query::QueryError;

verus! {

/// Fractions of a screen, in thousandths: a relative rectangle whose parts lie in `[0, 1]`.
#[derive(Clone, Copy, Debug, PartialEq, Eq, Structural)]
pub struct RelRect {
    pub x: u32,
    pub y: u32,
    pub w: u32,
    pub h: u32,
}

/// One whole, in thousandths.
pub const WHOLE: u32 = 1000;

/// Margin left between a notification and the screen's top right corner, in thousandths.
pub const PADDING: u32 = 25;

pub open spec fn clamp_whole(v: u32) -> u32 {
    if v > WHOLE {
        WHOLE
    } else {
        v
    }
}

/// `frac` thousandths of `len`, rounded down.
pub open spec fn part_of(len: u32, frac: u32) -> int {
    (len as int * frac as int) / (WHOLE as int)
}

proof fn lemma_part_bounded(len: u32, frac: u32)
    requires
        frac <= WHOLE,
    ensures
        len as int * frac as int <= len as int * WHOLE as int,
        len as int * WHOLE as int <= u64::MAX,
        0 <= part_of(len, frac) <= len,
{
    assert(len as int * frac as int <= len as int * WHOLE as int) by (nonlinear_arith)
        requires frac <= WHOLE;
    assert(0 <= len as int * frac as int) by (nonlinear_arith);
    assert((len as int * WHOLE as int) / (WHOLE as int) == len as int) by (nonlinear_arith);
    assert(part_of(len, frac) <= (len as int * WHOLE as int) / (WHOLE as int)) by (nonlinear_arith)
        requires len as int * frac as int <= len as int * WHOLE as int;
}

impl RelRect {
    pub open spec fn wf(self) -> bool {
        self.x <= WHOLE && self.y <= WHOLE && self.w <= WHOLE && self.h <= WHOLE
    }

    /// A relative rectangle with each part clamped to `[0, 1]`.
    pub fn new(x: u32, y: u32, w: u32, h: u32) -> (r: RelRect)
        ensures
            r == (RelRect { x: clamp_whole(x), y: clamp_whole(y), w: clamp_whole(w), h: clamp_whole(h) }),
            r.wf(),
    {
        RelRect {
            x: if x > WHOLE { WHOLE } else { x },
            y: if y > WHOLE { WHOLE } else { y },
            w: if w > WHOLE { WHOLE } else { w },
            h: if h > WHOLE { WHOLE } else { h },
        }
    }

    /// The absolute rectangle these proportions give within `r`.
    pub open spec fn applied_spec(self, r: Rect) -> Rect {
        Rect {
            x: (r.x + part_of(r.w, self.x)) as u32,
            y: (r.y + part_of(r.h, self.y)) as u32,
            w: part_of(r.w, self.w) as u32,
            h: part_of(r.h, self.h) as u32,
        }
    }

    /// Applies the proportions to `r`, rounding each part down.
    pub fn applied_to(&self, r: &Rect) -> (res: Rect)
        requires
            self.wf(),
            r.x + r.w <= u32::MAX,
            r.y + r.h <= u32::MAX,
        ensures
            res == self.applied_spec(*r),
            res.w <= r.w,
            res.h <= r.h,
    {
        proof {
            lemma_part_bounded(r.w, self.x);
            lemma_part_bounded(r.h, self.y);
            lemma_part_bounded(r.w, self.w);
            lemma_part_bounded(r.h, self.h);
        }
        let px = (r.w as u64 * self.x as u64) / (WHOLE as u64);
        let py = (r.h as u64 * self.y as u64) / (WHOLE as u64);
        let pw = (r.w as u64 * self.w as u64) / (WHOLE as u64);
        let ph = (r.h as u64 * self.h as u64) / (WHOLE as u64);
        Rect { x: r.x + px as u32, y: r.y + py as u32, w: pw as u32, h: ph as u32 }
    }
}

/// The parts of a window's normal hints that placement reads.
#[derive(Clone, Copy, Debug, PartialEq, Eq, Structural)]
pub struct SizeHints {
    pub base: Option<Rect>,
    pub min: Option<Rect>,
    pub max: Option<Rect>,
    pub user_specified: Option<Rect>,
}

/// `r` with its extents capped by the maximum size, then raised to the minimum size.
pub open spec fn clamped_spec(hints: SizeHints, r: Rect) -> Rect {
    let w1 = match hints.max {
        Some(mx) => if r.w > mx.w { mx.w } else { r.w },
        None => r.w,
    };
    let h1 = match hints.max {
        Some(mx) => if r.h > mx.h { mx.h } else { r.h },
        None => r.h,
    };
    let w2 = match hints.min {
        Some(mn) => if w1 < mn.w { mn.w } else { w1 },
        None => w1,
    };
    let h2 = match hints.min {
        Some(mn) => if h1 < mn.h { mn.h } else { h1 },
        None => h1,
    };
    Rect { x: r.x, y: r.y, w: w2, h: h2 }
}

/// A window whose minimum and maximum sizes are both given and equal cannot be resized.
pub open spec fn constrained_spec(hints: Option<SizeHints>) -> bool {
    match hints {
        Some(hs) => match (hs.min, hs.max) {
            (Some(mn), Some(mx)) => mn.w == mx.w && mn.h == mx.h,
            _ => false,
        },
        None => false,
    }
}

impl SizeHints {
    pub fn new(base: Option<Rect>, min: Option<Rect>, max: Option<Rect>, user_specified: Option<Rect>) -> (r: SizeHints)
        ensures
            r == (SizeHints { base, min, max, user_specified }),
    {
        SizeHints { base, min, max, user_specified }
    }

    pub fn max(&self) -> (r: Option<Rect>)
        ensures
            r == self.max,
    {
        self.max
    }

    pub fn min(&self) -> (r: Option<Rect>)
        ensures
            r == self.min,
    {
        self.min
    }

    pub fn base(&self) -> (r: Option<Rect>)
        ensures
            r == self.base,
    {
        self.base
    }

    pub fn user_specified(&self) -> (r: Option<Rect>)
        ensures
            r == self.user_specified,
    {
        self.user_specified
    }

    /// Caps the extents of `r` by the maximum size, then raises them to the minimum size;
    /// the position is kept.
    pub fn apply_to_elementwise(&self, r: Rect) -> (res: Rect)
        ensures
            res == clamped_spec(*self, r),
    {
        let mut out = r;
        if let Some(mx) = self.max {
            if out.w > mx.w {
                out.w = mx.w;
            }
            if out.h > mx.h {
                out.h = mx.h;
            }
        }
        if let Some(mn) = self.min {
            if out.w < mn.w {
                out.w = mn.w;
            }
            if out.h < mn.h {
                out.h = mn.h;
            }
        }
        out
    }
}

/// Whether a window cannot be resized: its minimum and maximum sizes are both
/// given and equal. Missing hints mean it can.
pub fn is_constrained(hints: &Option<SizeHints>) -> (r: bool)
    ensures
        r == constrained_spec(*hints),
{
    match hints {
        Some(hs) => match (hs.min, hs.max) {
            (Some(mn), Some(mx)) => mn.w == mx.w && mn.h == mx.h,
            _ => false,
        },
        None => false,
    }
}

/// Why a placement could not be computed.
#[derive(Clone, Copy, Debug, PartialEq, Eq, Structural)]
pub enum GeometryError {
    /// The rectangle is wider or taller than the screen it should sit in.
    LargerThanScreen,
}

/// The screen can be split into parts without leaving `u32`.
pub open spec fn screen_ok(screen: Rect) -> bool {
    screen.x + screen.w <= u32::MAX && screen.y + screen.h <= u32::MAX
}

/// The rectangle that suggested-centered placement starts from: the base size if
/// the hints give one, else `fallback` applied to the screen.
pub open spec fn suggested_start(hints: SizeHints, fallback: RelRect, screen: Rect) -> Rect {
    match hints.base {
        Some(b) => b,
        None => fallback.applied_spec(screen),
    }
}

/// What suggested-centered placement gives: the start rectangle clamped by the
/// hints, centered on the screen; an error if it does not fit on the screen.
pub open spec fn suggested_centered_spec(hints: SizeHints, fallback: RelRect, screen: Rect) -> Result<Rect, GeometryError> {
    let r = clamped_spec(hints, suggested_start(hints, fallback, screen));
    if fits_in(r, screen) {
        Ok(centered_spec(r, screen))
    } else {
        Err(GeometryError::LargerThanScreen)
    }
}

/// Takes the base size from the hints (else `fallback` of the screen), clamps it
/// to the minimum and maximum sizes and centers it on the screen.
pub fn suggested_centered(hints: &SizeHints, fallback: RelRect, screen: Rect) -> (res: Result<Rect, GeometryError>)
    requires
        fallback.wf(),
        screen_ok(screen),
    ensures
        res == suggested_centered_spec(*hints, fallback, screen),
{
    let start = match hints.base {
        Some(b) => b,
        None => fallback.applied_to(&screen),
    };
    let r = hints.apply_to_elementwise(start);
    match centered_in(r, screen) {
        Some(c) => Ok(c),
        None => Err(GeometryError::LargerThanScreen),
    }
}

/// The relative rectangle a notification falls back to: `width` by `height`,
/// its corner a padding's width from the right edge and above the top.
pub open spec fn notification_fallback(width: u32, height: u32) -> RelRect {
    RelRect {
        x: (WHOLE - PADDING) as u32,
        y: if height >= PADDING { 0 } else { (PADDING - height) as u32 },
        w: clamp_whole(width),
        h: clamp_whole(height),
    }
}

/// The anchor point of notifications: a padding's width in from the screen's top right corner.
pub open spec fn notification_anchor() -> RelRect {
    RelRect { x: (WHOLE - PADDING) as u32, y: PADDING, w: PADDING, h: PADDING }
}

/// What notification placement gives: the user-specified size (else the fallback
/// size of the screen), with its top right corner on the anchor; an error where
/// it is wider than the space left of the anchor.
pub open spec fn notification_spec(hints: SizeHints, width: u32, height: u32, screen: Rect) -> Result<Rect, GeometryError> {
    let r = match hints.user_specified {
        Some(u) => u,
        None => notification_fallback(width, height).applied_spec(screen),
    };
    let anchor = notification_anchor().applied_spec(screen);
    if r.w <= anchor.x {
        Ok(Rect { x: (anchor.x - r.w) as u32, y: anchor.y, w: r.w, h: r.h })
    } else {
        Err(GeometryError::LargerThanScreen)
    }
}

/// Places a notification window at the top right of the screen: its size is the
/// user-specified one if the hints give it, else `width` by `height` thousandths
/// of the screen.
pub fn notification_rect(hints: &SizeHints, width: u32, height: u32, screen: Rect) -> (res: Result<Rect, GeometryError>)
    requires
        screen_ok(screen),
    ensures
        res == notification_spec(*hints, width, height, screen),
{
    let y = if height >= PADDING { 0 } else { PADDING - height };
    let fallback = RelRect::new(WHOLE - PADDING, y, width, height);
    let r = match hints.user_specified {
        Some(u) => u,
        None => fallback.applied_to(&screen),
    };
    let anchor = RelRect::new(WHOLE - PADDING, PADDING, PADDING, PADDING).applied_to(&screen);
    if r.w <= anchor.x {
        Ok(Rect { x: anchor.x - r.w, y: anchor.y, w: r.w, h: r.h })
    } else {
        Err(GeometryError::LargerThanScreen)
    }
}

/// The X value of static window gravity.
pub const STATIC_GRAVITY: u32 = 10;

/// Number of 32-bit words in a `WM_SIZE_HINTS` property.
pub const SIZE_HINTS_WORDS: usize = 18;

/// Index of the window gravity among those words.
pub const GRAVITY_WORD: usize = 17;

/// Relies on x11rb's `Gravity`: a raw value converts one for one, and
/// `Gravity::STATIC` is the value 10.
#[verifier::external_body]
fn gravity_value_is_static(v: u32) -> (r: bool)
    ensures
        r == (v == STATIC_GRAVITY),
{
    x11rb::protocol::xproto::Gravity::from(v) == x11rb::protocol::xproto::Gravity::STATIC
}

/// What the raw size hints say of static gravity. `prop_type` is the name of the
/// property's type (`None` where the window does not set the property) and
/// `words` its data read as 32-bit words (`None` where it is not in that format).
pub open spec fn gravity_spec(prop_type: Option<Seq<char>>, words: Option<Seq<u32>>) -> Result<bool, QueryError> {
    match prop_type {
        None => Ok(false),
        Some(t) => if t != "WM_SIZE_HINTS"@ {
            Err(QueryError::InvalidHints)
        } else {
            match words {
                None => Err(QueryError::InvalidPropertyData),
                Some(ws) => if ws.len() != SIZE_HINTS_WORDS {
                    Err(QueryError::InvalidHints)
                } else {
                    Ok(ws[GRAVITY_WORD as int] == STATIC_GRAVITY)
                },
            }
        },
    }
}

/// Reads the window gravity out of a raw `WM_SIZE_HINTS` property: unset means
/// not static; a property of another type or length is an error.
pub fn gravity_is_static(prop_type: &Option<String>, words: &Option<Vec<u32>>) -> (r: Result<bool, QueryError>)
    ensures
        r == gravity_spec(
            match prop_type { Some(t) => Some(t@), None => None },
            match words { Some(ws) => Some(ws@), None => None },
        ),
{
    match prop_type {
        None => Ok(false),
        Some(t) => {
            let expected = "WM_SIZE_HINTS".to_owned();
            if *t != expected {
                Err(QueryError::InvalidHints)
            } else {
                match words {
                    None => Err(QueryError::InvalidPropertyData),
                    Some(ws) => if ws.len() != SIZE_HINTS_WORDS {
                        Err(QueryError::InvalidHints)
                    } else {
                        Ok(gravity_value_is_static(ws[GRAVITY_WORD]))
                    },
                }
            }
        },
    }
}

} // verus!
