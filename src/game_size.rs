//! Logical bounds of the visible play field, derived from the window size.
use vstd::prelude::*;
use crate::config::GameConfig;
use crate::fixed::MILLI;

verus! {

/// Largest logical width or height of the play field, in milli-units.
pub const MAX_EXTENT: i64 = 1_000_000_000_000_000;

/// Largest window width or height, in physical pixels, that a resize accepts.
pub const MAX_PHYSICAL: u32 = 100_000;

/// Bounds of the play field, in milli-units, centred on the origin.
#[derive(Debug, Clone, Copy, PartialEq, Eq, Structural)]
pub struct GameSize {
    pub min_x: i64,
    pub max_x: i64,
    pub min_y: i64,
    pub max_y: i64,
}

/// The bounds of a field `width` wide and `height` high: each half on either side
/// of the origin, rounded down to a milli-unit.
pub open spec fn size_of_extent(width: int, height: int) -> GameSize {
    GameSize {
        min_x: -(width / 2) as i64,
        max_x: (width / 2) as i64,
        min_y: -(height / 2) as i64,
        max_y: (height / 2) as i64,
    }
}

/// A scale factor `num / den`, both positive.
pub type Scale = (i64, i64);

/// Smallest logical width: two obstacles and the distance between them.
pub open spec fn minimal_width_spec(c: GameConfig) -> int {
    4 * c.moai_half_width + c.moai_horizontal_distance
}

/// Smallest logical height: the lower and upper obstacles, the range of the
/// gap's position, and the gap itself.
pub open spec fn minimal_height_spec(c: GameConfig) -> int {
    2 * c.moai_height + (c.moai_gap_max - c.moai_gap_min) + c.moai_vertical_distance
}

/// Scale that fits `minimal` logical milli-units into `physical` milli-units:
/// shrink when the window is smaller, never enlarge.
pub open spec fn scale_spec(minimal: int, physical: int) -> (int, int) {
    if physical < minimal {
        (physical, minimal)
    } else {
        (1, 1)
    }
}

/// The smaller of two scale factors (the first one on a tie).
pub open spec fn min_scale_spec(a: (int, int), b: (int, int)) -> (int, int) {
    if a.0 * b.1 <= b.0 * a.1 {
        a
    } else {
        b
    }
}

/// Logical extent, in milli-units, of `physical` pixels seen at scale `s`.
pub open spec fn logical_extent_spec(physical: int, s: (int, int)) -> int {
    physical * MILLI * s.1 / s.0
}

/// The bounds for a window of `width` x `height` physical pixels, or `None`
/// when either side is zero or beyond `MAX_PHYSICAL`.
pub open spec fn resized_spec(c: GameConfig, width: int, height: int) -> Option<GameSize> {
    if width == 0 || height == 0 || width > MAX_PHYSICAL || height > MAX_PHYSICAL {
        None
    } else {
        let s = min_scale_spec(
            scale_spec(minimal_width_spec(c), width * MILLI),
            scale_spec(minimal_height_spec(c), height * MILLI),
        );
        Some(size_of_extent(logical_extent_spec(width, s), logical_extent_spec(height, s)))
    }
}

/// The bounds after a resize report: the new ones where the report is usable,
/// else those held before.
pub open spec fn after_resize_spec(g: GameSize, c: GameConfig, width: int, height: int) -> GameSize {
    match resized_spec(c, width, height) {
        Some(n) => n,
        None => g,
    }
}

impl GameSize {
    /// Centred on the origin, within `MAX_EXTENT`.
    pub open spec fn wf(&self) -> bool {
        &&& self.min_x == -self.max_x
        &&& self.min_y == -self.max_y
        &&& 0 <= self.max_x <= MAX_EXTENT / 2
        &&& 0 <= self.max_y <= MAX_EXTENT / 2
    }

    /// The bounds of a field `width` wide and `height` high, in milli-units.
    pub fn new(width: i64, height: i64) -> (s: GameSize)
        requires
            0 <= width <= MAX_EXTENT,
            0 <= height <= MAX_EXTENT,
        ensures
            s == size_of_extent(width as int, height as int),
            s.wf(),
    {
        GameSize { min_x: -(width / 2), max_x: width / 2, min_y: -(height / 2), max_y: height / 2 }
    }

    /// Replaces the bounds by those of a field `width` wide and `height` high.
    pub fn update(&mut self, width: i64, height: i64)
        requires
            0 <= width <= MAX_EXTENT,
            0 <= height <= MAX_EXTENT,
        ensures
            *final(self) == size_of_extent(width as int, height as int),
            final(self).wf(),
    {
        *self = GameSize::new(width, height);
    }

    /// Handles a window resize to `width` x `height` physical pixels: the field
    /// keeps the window's aspect and is shrunk uniformly, never enlarged, so that
    /// two obstacles with their spacing fit across and both obstacles of a pair
    /// with the gap fit from top to bottom. Returns whether the bounds were
    /// replaced: a report with a zero side, or one beyond `MAX_PHYSICAL`, is
    /// ignored.
    pub fn on_resize(&mut self, c: &GameConfig, width: u32, height: u32) -> (changed: bool)
        requires
            c.wf(),
        ensures
            changed == resized_spec(*c, width as int, height as int).is_some(),
            *final(self) == after_resize_spec(*old(self), *c, width as int, height as int),
            old(self).wf() ==> final(self).wf(),
    {
        match resized(c, width, height) {
            Some(n) => {
                *self = n;
                true
            },
            None => false,
        }
    }
}

/// Smallest logical width: two obstacles and the distance between them.
pub fn minimal_logical_width(c: &GameConfig) -> (w: i64)
    requires
        c.wf(),
    ensures
        w == minimal_width_spec(*c),
        0 < w <= 5 * crate::fixed::CONFIG_LIMIT,
{
    4 * c.moai_half_width + c.moai_horizontal_distance
}

/// Smallest logical height: the lower and upper obstacles, the range of the
/// gap's position, and the gap itself.
pub fn minimal_logical_height(c: &GameConfig) -> (h: i64)
    requires
        c.wf(),
    ensures
        h == minimal_height_spec(*c),
        0 < h <= 5 * crate::fixed::CONFIG_LIMIT,
{
    2 * c.moai_height + (c.moai_gap_max - c.moai_gap_min) + c.moai_vertical_distance
}

/// Scale that fits `minimal` logical milli-units into `physical` milli-units.
pub fn calculate_scale(minimal: i64, physical: i64) -> (s: Scale)
    requires
        0 < minimal,
        0 < physical,
    ensures
        (s.0 as int, s.1 as int) == scale_spec(minimal as int, physical as int),
        0 < s.0 <= s.1 <= minimal,
{
    if physical < minimal {
        (physical, minimal)
    } else {
        (1, 1)
    }
}

proof fn lemma_extent_bound(p: int, n: int, d: int)
    requires
        0 < p <= MAX_PHYSICAL as int * MILLI,
        0 < n <= d,
        n == 1 || n >= MILLI,
        n == 1 ==> d == 1,
        d <= 5 * crate::fixed::CONFIG_LIMIT,
    ensures
        0 < p * d <= 500_000_000_000_000_000,
        0 <= p * d / n <= MAX_EXTENT,
{
    assert(0 < p * d <= 100_000_000 * 5_000_000_000) by (nonlinear_arith)
        requires
            0 < p <= 100_000_000,
            0 < d <= 5_000_000_000,
    ;
    if n == 1 {
        assert(p * d / n == p);
    } else {
        assert(0 <= p * d / n <= p * d / 1000) by (nonlinear_arith)
            requires
                p * d >= 0,
                n >= 1000,
        ;
    }
}

proof fn lemma_scale_product_bound(a: int, b: int)
    requires
        0 < a <= 5 * crate::fixed::CONFIG_LIMIT,
        0 < b <= 5 * crate::fixed::CONFIG_LIMIT,
    ensures
        0 < a * b <= 25_000_000_000_000_000_000,
{
    assert(0 < a * b <= 25_000_000_000_000_000_000) by (nonlinear_arith)
        requires
            0 < a <= 5_000_000_000,
            0 < b <= 5_000_000_000,
    ;
}

/// The scale from logical to physical size for a window of `width` x `height`
/// physical pixels, as `num / den`: the smaller of the two that fit the
/// minimal width and height, never above one. `None` when the report is
/// unusable. A renderer draws the field at this scale.
pub fn resize_scale(c: &GameConfig, width: u32, height: u32) -> (r: Option<Scale>)
    requires
        c.wf(),
    ensures
        (width == 0 || height == 0 || width > MAX_PHYSICAL || height > MAX_PHYSICAL) ==> r.is_none(),
        !(width == 0 || height == 0 || width > MAX_PHYSICAL || height > MAX_PHYSICAL) ==> r is Some,
        r matches Some(s) ==> (s.0 as int, s.1 as int) == min_scale_spec(
            scale_spec(minimal_width_spec(*c), width * MILLI),
            scale_spec(minimal_height_spec(*c), height * MILLI),
        ),
        r matches Some(s) ==> 0 < s.0 <= s.1 && s.1 <= 5 * crate::fixed::CONFIG_LIMIT,
        r matches Some(s) ==> (s.0 == 1 || s.0 >= MILLI) && (s.0 == 1 ==> s.1 == 1),
{
    if width == 0 || height == 0 || width > MAX_PHYSICAL || height > MAX_PHYSICAL {
        return None;
    }
    let pw = width as i64 * MILLI;
    let ph = height as i64 * MILLI;
    let sw = calculate_scale(minimal_logical_width(c), pw);
    let sh = calculate_scale(minimal_logical_height(c), ph);
    proof {
        lemma_scale_product_bound(sw.0 as int, sh.1 as int);
        lemma_scale_product_bound(sh.0 as int, sw.1 as int);
    }
    if (sw.0 as i128) * (sh.1 as i128) <= (sh.0 as i128) * (sw.1 as i128) {
        Some(sw)
    } else {
        Some(sh)
    }
}

/// The bounds for a window of `width` x `height` physical pixels; `None` when
/// the report is unusable.
pub fn resized(c: &GameConfig, width: u32, height: u32) -> (r: Option<GameSize>)
    requires
        c.wf(),
    ensures
        r == resized_spec(*c, width as int, height as int),
        r matches Some(g) ==> g.wf(),
{
    if width == 0 || height == 0 || width > MAX_PHYSICAL || height > MAX_PHYSICAL {
        return None;
    }
    let pw = width as i64 * MILLI;
    let ph = height as i64 * MILLI;
    let s = match resize_scale(c, width, height) {
        Some(s) => s,
        None => {
            return None;
        },
    };
    proof {
        lemma_extent_bound(pw as int, s.0 as int, s.1 as int);
        lemma_extent_bound(ph as int, s.0 as int, s.1 as int);
    }
    let lw = (pw as i128 * s.1 as i128 / s.0 as i128) as i64;
    let lh = (ph as i128 * s.1 as i128 / s.0 as i128) as i64;
    Some(GameSize::new(lw, lh))
}

/// The initial play field of a game.
#[derive(Debug, Clone, Copy, PartialEq, Eq, Structural)]
pub struct GameSizePlugin {
    pub width: i64,
    pub height: i64,
}

impl GameSizePlugin {
    /// A play field `width` wide and `height` high, in milli-units, until the
    /// first resize report.
    pub fn new(width: i64, height: i64) -> (p: GameSizePlugin)
        ensures
            p.width == width,
            p.height == height,
    {
        GameSizePlugin { width, height }
    }

    /// The bounds this plugin starts a game with.
    pub fn initial_size(&self) -> (s: GameSize)
        requires
            0 <= self.width <= MAX_EXTENT,
            0 <= self.height <= MAX_EXTENT,
        ensures
            s == size_of_extent(self.width as int, self.height as int),
            s.wf(),
    {
        GameSize::new(self.width, self.height)
    }
}

proof fn lemma_scaled_at_least(p: int, q: int, d: int, m: int)
    requires
        0 < q,
        m * q <= p * d,
    ensures
        m <= p * d / q,
{
    let t = p * d;
    vstd::arithmetic::div_mod::lemma_fundamental_div_mod(t, q);
    assert(m <= t / q) by (nonlinear_arith)
        requires
            0 < q,
            m * q <= t,
            t == q * (t / q) + t % q,
            0 <= t % q < q,
    ;
}

/// After a usable resize report the field is at least as wide as two obstacles
/// with their spacing, and at least as high as the two obstacles of a pair,
/// the range of the gap's position and the gap, up to the milli-unit lost when
/// halving.
pub proof fn lemma_resize_shows_minimum(c: GameConfig, width: u32, height: u32)
    requires
        c.wf(),
        resized_spec(c, width as int, height as int) is Some,
    ensures
        ({
            let g = resized_spec(c, width as int, height as int)->0;
            &&& 2 * g.max_x + 1 >= minimal_width_spec(c)
            &&& 2 * g.max_y + 1 >= minimal_height_spec(c)
        }),
{
    let mw = minimal_width_spec(c);
    let mh = minimal_height_spec(c);
    let pw = width * MILLI;
    let ph = height * MILLI;
    let sw = scale_spec(mw, pw);
    let sh = scale_spec(mh, ph);
    let s = min_scale_spec(sw, sh);
    // the chosen scale s = n / d is at most pw / mw and at most ph / mh
    assert(mw * s.0 <= pw * s.1 && mh * s.0 <= ph * s.1) by (nonlinear_arith)
        requires
            sw == scale_spec(mw, pw),
            sh == scale_spec(mh, ph),
            s == min_scale_spec(sw, sh),
            0 < mw,
            0 < mh,
            0 < pw,
            0 < ph,
    ;
    lemma_scaled_at_least(pw, s.0, s.1, mw);
    lemma_scaled_at_least(ph, s.0, s.1, mh);
    assert(0 < mw <= 5 * crate::fixed::CONFIG_LIMIT && 0 < mh <= 5 * crate::fixed::CONFIG_LIMIT);
    assert(0 < s.0 <= s.1 && (s.0 == 1 || s.0 >= MILLI) && (s.0 == 1 ==> s.1 == 1) && s.1 <= 5
        * crate::fixed::CONFIG_LIMIT);
    lemma_extent_bound(pw, s.0, s.1);
    lemma_extent_bound(ph, s.0, s.1);
    assert(logical_extent_spec(width as int, s) == pw * s.1 / s.0);
    assert(logical_extent_spec(height as int, s) == ph * s.1 / s.0);
}

/// Reporting the same window size twice leaves the same bounds as reporting it
/// once.
pub proof fn lemma_resize_idempotent(g: GameSize, c: GameConfig, width: u32, height: u32)
    ensures
        after_resize_spec(after_resize_spec(g, c, width as int, height as int), c, width as int, height as int)
            == after_resize_spec(g, c, width as int, height as int),
{
}

} // verus!
