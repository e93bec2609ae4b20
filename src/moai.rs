//! Obstacle pairs: moving them, scoring their passing, spawning and removing.
use vstd::prelude::*;
use crate::config::GameConfig;
use crate::fixed::{floor_div, MAX_TICK_US, MICROS};
use crate::game_size::{GameSize, MAX_EXTENT};
use crate::gamescore::GameScore;

verus! {

broadcast use vstd::seq_lib::group_seq_properties;

/// Lowest position an obstacle can hold between ticks: half of `MAX_EXTENT`
/// and `CONFIG_LIMIT` left of the origin.
pub const MOAI_X_MIN: i64 = -500_001_000_000_000;

/// Highest position an obstacle can be spawned at.
pub const MOAI_X_MAX: i64 = 2 * MAX_EXTENT;

/// An obstacle pair: its horizontal centre, the bottom of its gap, and whether
/// the player has passed it.
#[derive(Debug, Clone, Copy, PartialEq, Eq, Structural)]
pub struct Moai {
    pub x: i64,
    pub height: i64,
    pub passed: bool,
}

impl Moai {
    /// A fresh obstacle at `x` whose gap starts at `height`.
    pub fn new(x: i64, height: i64) -> (m: Moai)
        ensures
            m == (Moai { x, height, passed: false }),
    {
        Moai { x, height, passed: false }
    }

    /// Within the positions an obstacle holds between ticks, with its gap in
    /// the configured range.
    pub open spec fn wf(&self, c: GameConfig) -> bool {
        &&& MOAI_X_MIN <= self.x <= MOAI_X_MAX
        &&& c.moai_gap_min <= self.height < c.moai_gap_max
    }
}

/// Distance the obstacles move left in a tick of `dt` microseconds.
pub open spec fn step_spec(c: GameConfig, dt: int) -> int {
    floor_div(c.moai_move_speed * dt, MICROS as int)
}

/// Whether moving `m` left by `d` passes it: it is crossing the player's
/// column, from at or right of it to at or left of it, and was not passed yet.
pub open spec fn newly_passed(m: Moai, d: int) -> bool {
    !m.passed && m.x >= 0 && m.x - d <= 0
}

/// `m` moved left by `d`.
pub open spec fn moved(m: Moai, d: int) -> Moai {
    Moai { x: (m.x - d) as i64, height: m.height, passed: m.passed || newly_passed(m, d) }
}

/// How many of `ms` moving left by `d` passes.
pub open spec fn count_passed(ms: Seq<Moai>, d: int) -> nat
    decreases ms.len(),
{
    if ms.len() == 0 {
        0
    } else {
        count_passed(ms.drop_last(), d) + if newly_passed(ms.last(), d) {
            1nat
        } else {
            0nat
        }
    }
}

/// `s` after `k` more obstacles were passed.
pub open spec fn scored(s: GameScore, k: int) -> GameScore {
    GameScore {
        current_score: (s.current_score + k) as u32,
        high_score: s.high_score,
        is_high_score: s.is_high_score || s.current_score + k > s.high_score,
    }
}

/// Where an obstacle enters: just beyond the right edge of the field.
pub open spec fn entry_x(g: GameSize, c: GameConfig) -> int {
    g.max_x + c.moai_half_width
}

/// A new obstacle is due when none is within the spacing of the entry point.
pub open spec fn spawn_due(ms: Seq<Moai>, g: GameSize, c: GameConfig) -> bool {
    forall|i: int| 0 <= i < ms.len() ==> #[trigger] ms[i].x <= entry_x(g, c) - c.moai_horizontal_distance
}

/// Whether `m` has scrolled past the left edge of the field.
pub open spec fn off_screen(m: Moai, g: GameSize, c: GameConfig) -> bool {
    m.x < g.min_x - c.moai_half_width
}

/// The obstacles of `ms` still in play.
pub open spec fn on_screen(ms: Seq<Moai>, g: GameSize, c: GameConfig) -> Seq<Moai> {
    ms.filter(|m: Moai| !off_screen(m, g, c))
}

/// Where the first obstacle of a run goes: three times the smaller half-extent
/// of the field, but at least at the entry point.
pub open spec fn init_x(g: GameSize, c: GameConfig) -> int {
    let far = 3 * if g.max_x < g.max_y {
        g.max_x
    } else {
        g.max_y
    };
    if far < entry_x(g, c) {
        entry_x(g, c)
    } else {
        far
    }
}

/// Distance the obstacles move left in a tick of `dt` microseconds.
pub fn move_step(c: &GameConfig, dt: u32) -> (d: i64)
    requires
        c.wf(),
        dt <= MAX_TICK_US,
    ensures
        d == step_spec(*c, dt as int),
        0 <= d <= 1_000_000_000_000,
{
    assert(0 <= c.moai_move_speed * dt <= 1_000_000_000 * 1_000_000_000) by (nonlinear_arith)
        requires
            0 <= c.moai_move_speed <= 1_000_000_000,
            0 <= dt <= 1_000_000_000,
    ;
    let d = c.moai_move_speed * (dt as i64) / MICROS;
    d
}

/// Moves every obstacle left by `d`, counting each one passed on the way, once.
pub fn advance_moai(moai: &mut Vec<Moai>, score: &mut GameScore, d: i64)
    requires
        0 <= d <= 1_000_000_000_000,
        forall|i: int| 0 <= i < old(moai).len() ==> MOAI_X_MIN <= #[trigger] old(moai)[i].x <= MOAI_X_MAX,
        old(score).current_score + old(moai).len() <= u32::MAX,
        old(score).wf(),
    ensures
        final(moai)@ == old(moai)@.map_values(|m: Moai| moved(m, d as int)),
        *final(score) == scored(*old(score), count_passed(old(moai)@, d as int) as int),
        count_passed(old(moai)@, d as int) <= old(moai).len(),
        final(score).current_score == old(score).current_score + flipped(old(moai)@, final(moai)@, old(moai).len() as int),
        forall|i: int| 0 <= i < old(moai).len() ==> old(moai)[i].passed ==> #[trigger] final(moai)[i].passed,
{
    let ghost m0 = moai@;
    let ghost s0 = *score;
    let mut i: usize = 0;
    while i < moai.len()
        invariant
            0 <= i <= moai.len(),
            moai.len() == m0.len(),
            0 <= d <= 1_000_000_000_000,
            forall|j: int| 0 <= j < m0.len() ==> MOAI_X_MIN <= #[trigger] m0[j].x <= MOAI_X_MAX,
            forall|j: int| 0 <= j < i ==> #[trigger] moai@[j] == moved(m0[j], d as int),
            forall|j: int| i <= j < m0.len() ==> #[trigger] moai@[j] == m0[j],
            *score == scored(s0, count_passed(m0.subrange(0, i as int), d as int) as int),
            count_passed(m0.subrange(0, i as int), d as int) <= i,
            s0.current_score + m0.len() <= u32::MAX,
            s0.wf(),
        decreases moai.len() - i,
    {
        let ghost before = m0.subrange(0, i as int);
        assert(m0.subrange(0, i as int + 1).drop_last() =~= before);
        let m = moai[i];
        let after = m.x - d;
        let crossed = !m.passed && m.x >= 0 && after <= 0;
        if crossed {
            score.inc_score();
        }
        moai.set(i, Moai { x: after, height: m.height, passed: m.passed || crossed });
        i = i + 1;
    }
    assert(m0.subrange(0, m0.len() as int) =~= m0);
    assert(moai@ =~= m0.map_values(|m: Moai| moved(m, d as int)));
    proof {
        lemma_count_is_flips(m0, d as int, m0.len() as int);
    }
}

/// Whether obstacles further right in `ms` stand at least `gap` further right.
pub open spec fn spaced(ms: Seq<Moai>, gap: int) -> bool {
    forall|i: int, j: int| 0 <= i < j < ms.len() ==> #[trigger] ms[i].x + gap <= #[trigger] ms[j].x
}

/// How many of the first `n` obstacles went from not passed in `a` to passed
/// in `b`.
pub open spec fn flipped(a: Seq<Moai>, b: Seq<Moai>, n: int) -> nat
    decreases n,
{
    if n <= 0 {
        0
    } else {
        flipped(a, b, n - 1) + if !a[n - 1].passed && b[n - 1].passed {
            1nat
        } else {
            0nat
        }
    }
}

/// The obstacles after the step of a tick: each moved left by `d`, joined by a
/// new one at the entry point, with its gap at `height`, where one is due.
pub open spec fn stepped(ms: Seq<Moai>, g: GameSize, c: GameConfig, d: int, height: i64) -> Seq<Moai> {
    let moved_all = ms.map_values(|m: Moai| moved(m, d));
    if spawn_due(moved_all, g, c) {
        moved_all.push(Moai { x: entry_x(g, c) as i64, height, passed: false })
    } else {
        moved_all
    }
}

/// Counting the obstacles passed by a move counts the flags it flips.
proof fn lemma_count_is_flips(ms: Seq<Moai>, d: int, n: int)
    requires
        0 <= n <= ms.len(),
    ensures
        count_passed(ms.take(n), d) == flipped(ms, ms.map_values(|m: Moai| moved(m, d)), n),
    decreases n,
{
    if n > 0 {
        assert(ms.take(n).drop_last() =~= ms.take(n - 1));
        lemma_count_is_flips(ms, d, n - 1);
    }
}

/// Flags flipped among the first `n` obstacles depend on those alone.
proof fn lemma_flipped_prefix(a: Seq<Moai>, b: Seq<Moai>, e: Seq<Moai>, n: int)
    requires
        0 <= n <= b.len(),
        n <= e.len(),
        forall|i: int| 0 <= i < n ==> b[i] == e[i],
    ensures
        flipped(a, b, n) == flipped(a, e, n),
    decreases n,
{
    if n > 0 {
        lemma_flipped_prefix(a, b, e, n - 1);
    }
}

/// The obstacle step of a tick: moves every obstacle left by `d`, counting each
/// one passed on the way, once; then, where none is within the spacing of the
/// entry point, spawns one there with its gap at `height`.
pub fn move_moai(
    moai: &mut Vec<Moai>,
    score: &mut GameScore,
    g: &GameSize,
    c: &GameConfig,
    d: i64,
    height: i64,
)
    requires
        c.wf(),
        g.wf(),
        0 <= d <= 1_000_000_000_000,
        forall|i: int| 0 <= i < old(moai).len() ==> MOAI_X_MIN <= #[trigger] old(moai)[i].x <= MOAI_X_MAX,
        old(score).current_score + old(moai).len() <= u32::MAX,
        old(score).wf(),
    ensures
        final(moai)@ == stepped(old(moai)@, *g, *c, d as int, height),
        *final(score) == scored(*old(score), count_passed(old(moai)@, d as int) as int),
        final(score).current_score == old(score).current_score + flipped(old(moai)@, final(moai)@, old(moai).len() as int),
        forall|i: int| 0 <= i < old(moai).len() ==> old(moai)[i].passed ==> #[trigger] final(moai)[i].passed,
        spaced(old(moai)@, c.moai_horizontal_distance as int) ==> spaced(final(moai)@, c.moai_horizontal_distance as int),
        final(score).wf(),
{
    let ghost m0 = moai@;
    advance_moai(moai, score, d);
    let ghost m1 = moai@;
    assert(spaced(m0, c.moai_horizontal_distance as int) ==> spaced(m1, c.moai_horizontal_distance as int));
    if check_spawn_due(moai, g, c) {
        spawn_moai(moai, g, c, height);
        proof {
            lemma_flipped_prefix(m0, m1, moai@, m0.len() as int);
        }
    }
}

/// Whether a new obstacle is due: none is within the spacing of the entry
/// point.
pub fn check_spawn_due(moai: &Vec<Moai>, g: &GameSize, c: &GameConfig) -> (due: bool)
    requires
        c.wf(),
        g.wf(),
        forall|i: int| 0 <= i < moai.len() ==> MOAI_X_MIN - 1_000_000_000_000 <= #[trigger] moai[i].x <= MOAI_X_MAX,
    ensures
        due == spawn_due(moai@, *g, *c),
{
    let limit = g.max_x + c.moai_half_width - c.moai_horizontal_distance;
    let mut i: usize = 0;
    while i < moai.len()
        invariant
            0 <= i <= moai.len(),
            limit == entry_x(*g, *c) - c.moai_horizontal_distance,
            forall|j: int| 0 <= j < i ==> #[trigger] moai@[j].x <= limit,
        decreases moai.len() - i,
    {
        if moai[i].x > limit {
            return false;
        }
        i = i + 1;
    }
    true
}

/// Removes the obstacles that scrolled past the left edge, keeping the order of
/// the others.
pub fn despawn_moai_outside_screen(moai: &mut Vec<Moai>, g: &GameSize, c: &GameConfig)
    requires
        c.wf(),
        g.wf(),
        forall|i: int|
            0 <= i < old(moai).len() ==> MOAI_X_MIN - 1_000_000_000_000 <= #[trigger] old(moai)[i].x
                <= MOAI_X_MAX && c.moai_gap_min <= old(moai)[i].height < c.moai_gap_max,
    ensures
        final(moai)@ == on_screen(old(moai)@, *g, *c),
        forall|i: int| 0 <= i < final(moai).len() ==> (#[trigger] final(moai)[i]).wf(*c),
        spaced(old(moai)@, c.moai_horizontal_distance as int) ==> spaced(final(moai)@, c.moai_horizontal_distance as int),
{
    let ghost m0 = moai@;
    let ghost keep = |m: Moai| !off_screen(m, *g, *c);
    let edge = g.min_x - c.moai_half_width;
    let mut kept: Vec<Moai> = Vec::new();
    let mut i: usize = 0;
    while i < moai.len()
        invariant
            0 <= i <= moai.len(),
            moai@ == m0,
            edge == g.min_x - c.moai_half_width,
            keep == (|m: Moai| !off_screen(m, *g, *c)),
            kept@ == m0.subrange(0, i as int).filter(keep),
            forall|j: int| 0 <= j < kept.len() ==> #[trigger] kept[j].x >= edge,
            forall|j: int| 0 <= j < kept.len() ==> (#[trigger] kept[j]).wf(*c),
            forall|j: int|
                0 <= j < m0.len() ==> MOAI_X_MIN - 1_000_000_000_000 <= #[trigger] m0[j].x
                    <= MOAI_X_MAX && c.moai_gap_min <= m0[j].height < c.moai_gap_max,
            g.wf(),
            c.wf(),
            spaced(m0, c.moai_horizontal_distance as int) ==> spaced(kept@, c.moai_horizontal_distance as int),
            spaced(m0, c.moai_horizontal_distance as int) ==> forall|j: int, k: int|
                0 <= j < kept.len() && i <= k < m0.len() ==> #[trigger] kept[j].x + c.moai_horizontal_distance
                    <= #[trigger] m0[k].x,
        decreases moai.len() - i,
    {
        let m = moai[i];
        assert(m0.subrange(0, i as int + 1) =~= m0.subrange(0, i as int).push(m));
        proof {
            m0.subrange(0, i as int).lemma_filter_push(m, keep);
        }
        if !(m.x < edge) {
            kept.push(m);
        }
        i = i + 1;
    }
    assert(m0.subrange(0, m0.len() as int) =~= m0);
    *moai = kept;
}

/// Spawns an obstacle at the entry point, with its gap at `height`.
pub fn spawn_moai(moai: &mut Vec<Moai>, g: &GameSize, c: &GameConfig, height: i64)
    requires
        c.wf(),
        g.wf(),
    ensures
        final(moai)@ == old(moai)@.push(
            Moai { x: entry_x(*g, *c) as i64, height, passed: false },
        ),
{
    moai.push(Moai::new(g.max_x + c.moai_half_width, height));
}

/// Clears the obstacles and spawns the first one of a run, with its gap at
/// `height`.
pub fn spawn_init_moai(moai: &mut Vec<Moai>, g: &GameSize, c: &GameConfig, height: i64)
    requires
        c.wf(),
        g.wf(),
    ensures
        final(moai)@ == seq![Moai { x: init_x(*g, *c) as i64, height, passed: false }],
        MOAI_X_MIN <= init_x(*g, *c) <= MOAI_X_MAX,
        spaced(final(moai)@, c.moai_horizontal_distance as int),
{
    let smaller = if g.max_x < g.max_y {
        g.max_x
    } else {
        g.max_y
    };
    let mut x = smaller * 3;
    if x < g.max_x + c.moai_half_width {
        x = g.max_x + c.moai_half_width;
    }
    moai.clear();
    moai.push(Moai::new(x, height));
    assert(moai@ =~= seq![Moai { x: init_x(*g, *c) as i64, height, passed: false }]);
}

/// Moving one obstacle by any sequence of distances.
pub open spec fn moved_along(m: Moai, ds: Seq<int>) -> Moai
    decreases ds.len(),
{
    if ds.len() == 0 {
        m
    } else {
        moved(moved_along(m, ds.drop_last()), ds.last())
    }
}

/// How many of those moves pass the obstacle.
pub open spec fn passes_along(m: Moai, ds: Seq<int>) -> nat
    decreases ds.len(),
{
    if ds.len() == 0 {
        0
    } else {
        passes_along(m, ds.drop_last()) + if newly_passed(moved_along(m, ds.drop_last()), ds.last()) {
            1nat
        } else {
            0nat
        }
    }
}

/// Over any sequence of moves an obstacle is scored once when its passed flag
/// goes from false to true, and never otherwise: at most once in its lifetime.
pub proof fn lemma_passed_scored_once(m: Moai, ds: Seq<int>)
    ensures
        passes_along(m, ds) == (if !m.passed && moved_along(m, ds).passed {
            1nat
        } else {
            0nat
        }),
        m.passed ==> moved_along(m, ds).passed,
    decreases ds.len(),
{
    if ds.len() > 0 {
        lemma_passed_scored_once(m, ds.drop_last());
    }
}

} // verus!
