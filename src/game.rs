//! The simulation context of a game and its fixed tick.
use vstd::prelude::*;
use crate::config::GameConfig;
use crate::fixed::MAX_TICK_US;
use crate::game_size::{after_resize_spec, GameSize};
use crate::gamescore::GameScore;
use crate::gamestate::{requested_spec, requested_transition, Actions, GameState};
use crate::moai::{
    count_passed, despawn_moai_outside_screen, init_x, move_moai, move_step, on_screen, scored,
    spaced, spawn_init_moai, step_spec, stepped, Moai,
};
use crate::random::{sample_gap_height, sample_start_y};
use crate::pebble::{
    below_floor, check_collisions, check_death_down, hits_any, moved_pebble, pebble_move,
    reset_pebble_velocity, Pebble,
};

verus! {

/// The lifecycle state of the game and the scores.
#[derive(Debug, Clone, Copy, PartialEq, Eq, Structural)]
pub struct StatePlugin {
    pub state: GameState,
    pub score: GameScore,
}

/// The entities of a run: the player and the obstacle pairs, left to right.
#[derive(Debug)]
pub struct GameEntityPlugin {
    pub pebble: Option<Pebble>,
    pub moai: Vec<Moai>,
}

/// The random draws a tick may use: a starting height for a new run's player
/// and a gap for a new obstacle.
#[derive(Debug, Clone, Copy, PartialEq, Eq, Structural)]
pub struct Draws {
    pub start_y: i64,
    pub gap_height: i64,
}

/// Everything the simulation owns.
#[derive(Debug)]
pub struct Game {
    pub config: GameConfig,
    pub size: GameSize,
    pub states: StatePlugin,
    pub entities: GameEntityPlugin,
}

/// A game as values.
pub struct GameView {
    pub config: GameConfig,
    pub size: GameSize,
    pub state: GameState,
    pub score: GameScore,
    pub pebble: Option<Pebble>,
    pub moai: Seq<Moai>,
}

impl View for Game {
    type V = GameView;

    open spec fn view(&self) -> GameView {
        GameView {
            config: self.config,
            size: self.size,
            state: self.states.state,
            score: self.states.score,
            pebble: self.entities.pebble,
            moai: self.entities.moai@,
        }
    }
}

/// Whether entities exist in state `s`: from the start of a run until the
/// return to the main menu.
pub open spec fn in_run(s: GameState) -> bool {
    s == GameState::Playing || s == GameState::Pause || s == GameState::GameOver
}

impl GameView {
    /// Exactly one player during a run and none outside, no obstacles outside a
    /// run, the obstacles ordered left to right at least the spacing apart, and
    /// every value within its limits.
    pub open spec fn wf(&self) -> bool {
        &&& self.config.wf()
        &&& self.size.wf()
        &&& self.score.wf()
        &&& self.pebble.is_some() == in_run(self.state)
        &&& (self.pebble matches Some(p) ==> p.wf())
        &&& !in_run(self.state) ==> self.moai.len() == 0
        &&& forall|i: int| 0 <= i < self.moai.len() ==> (#[trigger] self.moai[i]).wf(self.config)
        &&& spaced(self.moai, self.config.moai_horizontal_distance as int)
    }

    /// The draws fit the configured ranges.
    pub open spec fn draws_fit(&self, r: Draws) -> bool {
        &&& self.config.pebble_start_y_min <= r.start_y < self.config.pebble_start_y_max
        &&& self.config.moai_gap_min <= r.gap_height < self.config.moai_gap_max
    }

    /// What a tick asks of the game: well formed, a tick not beyond
    /// `MAX_TICK_US`, draws from the configured ranges, and room in the score
    /// for every obstacle to be passed.
    pub open spec fn tick_pre(&self, dt: int, r: Draws) -> bool {
        &&& self.wf()
        &&& 0 <= dt <= MAX_TICK_US
        &&& self.draws_fit(r)
        &&& self.score.current_score + self.moai.len() <= u32::MAX
    }
}

/// A new run: the player at the drawn height with the jump velocity, the first
/// obstacle ahead, and the score at zero.
pub open spec fn start_run_spec(g: GameView, r: Draws) -> GameView {
    GameView {
        state: GameState::Playing,
        score: GameScore { current_score: 0, is_high_score: false, ..g.score },
        pebble: Some(Pebble { velocity: g.config.pebble_jump_velocity, x: 0, y: r.start_y }),
        moai: seq![Moai { x: init_x(g.size, g.config) as i64, height: r.gap_height, passed: false }],
        ..g
    }
}

/// The game after the transition to `t`.
pub open spec fn enter_spec(g: GameView, t: GameState, r: Draws) -> GameView {
    match t {
        GameState::Playing => if g.state == GameState::Pause {
            GameView { state: GameState::Playing, ..g }
        } else {
            start_run_spec(g, r)
        },
        GameState::Pause => GameView { state: GameState::Pause, ..g },
        GameState::MainMenu => GameView {
            state: GameState::MainMenu,
            score: GameScore { current_score: 0, is_high_score: false, ..g.score },
            pebble: None,
            moai: Seq::empty(),
            ..g
        },
        GameState::Exit => GameView { state: GameState::Exit, ..g },
        GameState::GameOver => g,
    }
}

/// `s` at the end of a run: a score that beat the best becomes the best.
pub open spec fn ended_spec(s: GameScore) -> GameScore {
    if s.is_high_score {
        GameScore { high_score: s.current_score, ..s }
    } else {
        s
    }
}

/// The player after a tick: moved, then given the jump velocity on a jump.
pub open spec fn played_pebble(p: Pebble, c: GameConfig, a: Actions, dt: int) -> Pebble {
    let q = moved_pebble(p, c.gravity as int, dt);
    if a.jump {
        Pebble { velocity: c.pebble_jump_velocity, ..q }
    } else {
        q
    }
}

/// The obstacles after a tick: moved, joined by a new one where one is due,
/// and cleared of those past the left edge.
pub open spec fn played_moai(g: GameView, dt: int, r: Draws) -> Seq<Moai> {
    on_screen(stepped(g.moai, g.size, g.config, step_spec(g.config, dt), r.gap_height), g.size, g.config)
}

/// Whether the run ends on this tick: the player is below the floor or hits an
/// obstacle.
pub open spec fn run_over(g: GameView, a: Actions, dt: int, r: Draws) -> bool {
    let p = played_pebble(g.pebble.unwrap(), g.config, a, dt);
    below_floor(p, g.size) || hits_any(p, played_moai(g, dt, r), g.config)
}

/// One tick of play: physics, obstacles and scoring, then collisions.
pub open spec fn play_spec(g: GameView, a: Actions, dt: int, r: Draws) -> GameView {
    let sc = scored(g.score, count_passed(g.moai, step_spec(g.config, dt)) as int);
    let over = run_over(g, a, dt, r);
    GameView {
        state: if over {
            GameState::GameOver
        } else {
            GameState::Playing
        },
        score: if over {
            ended_spec(sc)
        } else {
            sc
        },
        pebble: Some(played_pebble(g.pebble.unwrap(), g.config, a, dt)),
        moai: played_moai(g, dt, r),
        ..g
    }
}

/// The game after one tick with input `a`, lasting `dt` microseconds, with
/// draws `r`: a requested transition, else a tick of play while playing, else
/// nothing.
pub open spec fn tick_spec(g: GameView, a: Actions, dt: int, r: Draws) -> GameView {
    match requested_spec(g.state, a) {
        Some(t) => enter_spec(g, t, r),
        None => if g.state == GameState::Playing {
            play_spec(g, a, dt, r)
        } else {
            g
        },
    }
}

/// The best score a tick hands out for storing: the run's score, when the run
/// ends on this tick having beaten the best.
pub open spec fn tick_saved_spec(g: GameView, a: Actions, dt: int, r: Draws) -> Option<u32> {
    if requested_spec(g.state, a).is_none() && g.state == GameState::Playing && run_over(g, a, dt, r) {
        let sc = scored(g.score, count_passed(g.moai, step_spec(g.config, dt)) as int);
        if sc.is_high_score {
            Some(sc.current_score)
        } else {
            None
        }
    } else {
        None
    }
}

impl Game {
    /// A game in the main menu, with no entities and `high_score` as the best.
    pub fn new(config: GameConfig, size: GameSize, high_score: u32) -> (g: Game)
        requires
            config.wf(),
            size.wf(),
        ensures
            g@.wf(),
            g@.config == config,
            g@.size == size,
            g@.state == GameState::MainMenu,
            g@.score == GameScore::new_spec(high_score),
            g@.pebble.is_none(),
            g@.moai.len() == 0,
    {
        Game {
            config,
            size,
            states: StatePlugin { state: GameState::MainMenu, score: GameScore::new(high_score) },
            entities: GameEntityPlugin { pebble: None, moai: Vec::new() },
        }
    }

    /// Handles a window resize report; see `GameSize::on_resize`.
    pub fn on_resize(&mut self, width: u32, height: u32) -> (changed: bool)
        requires
            old(self)@.wf(),
        ensures
            final(self)@ == (GameView {
                size: after_resize_spec(old(self)@.size, old(self)@.config, width as int, height as int),
                ..old(self)@
            }),
            final(self)@.wf(),
    {
        self.size.on_resize(&self.config, width, height)
    }

    /// Starts a run: despawns what is left, spawns the player and the first
    /// obstacle, and zeroes the score.
    fn start_run(&mut self, r: &Draws)
        requires
            old(self)@.wf(),
            old(self)@.draws_fit(*r),
        ensures
            final(self)@ == start_run_spec(old(self)@, *r),
            final(self)@.wf(),
    {
        self.entities.pebble = Some(Pebble::new(r.start_y, self.config.pebble_jump_velocity));
        spawn_init_moai(&mut self.entities.moai, &self.size, &self.config, r.gap_height);
        self.states.score.reset_score();
        self.states.state = GameState::Playing;
    }

    fn enter(&mut self, t: GameState, a: &Actions, r: &Draws)
        requires
            old(self)@.wf(),
            requested_spec(old(self)@.state, *a) == Some(t),
            old(self)@.draws_fit(*r),
        ensures
            final(self)@ == enter_spec(old(self)@, t, *r),
            final(self)@.wf(),
    {
        match t {
            GameState::Playing => {
                if self.states.state == GameState::Pause {
                    self.states.state = GameState::Playing;
                } else {
                    self.start_run(r);
                }
            },
            GameState::Pause => {
                self.states.state = GameState::Pause;
            },
            GameState::MainMenu => {
                self.entities.pebble = None;
                self.entities.moai.clear();
                self.states.score.reset_score();
                self.states.state = GameState::MainMenu;
                assert(self@.moai =~= Seq::<Moai>::empty());
            },
            GameState::Exit => {
                self.states.state = GameState::Exit;
            },
            GameState::GameOver => {},
        }
    }

    /// One tick of play.
    fn play(&mut self, a: &Actions, dt: u32, r: &Draws) -> (saved: Option<u32>)
        requires
            old(self)@.tick_pre(dt as int, *r),
            old(self)@.state == GameState::Playing,
            requested_spec(old(self)@.state, *a).is_none(),
        ensures
            final(self)@ == play_spec(old(self)@, *a, dt as int, *r),
            saved == tick_saved_spec(old(self)@, *a, dt as int, *r),
            final(self)@.wf(),
    {
        let mut p = match self.entities.pebble {
            Some(p) => p,
            None => {
                return None;
            },
        };
        pebble_move(&mut p, &self.config, dt);
        if a.jump {
            reset_pebble_velocity(&mut p, &self.config);
        }
        let d = move_step(&self.config, dt);
        move_moai(&mut self.entities.moai, &mut self.states.score, &self.size, &self.config, d, r.gap_height);
        despawn_moai_outside_screen(&mut self.entities.moai, &self.size, &self.config);
        let over = check_death_down(&p, &self.size) || check_collisions(&p, &self.entities.moai, &self.config);
        self.entities.pebble = Some(p);
        if over {
            self.states.state = GameState::GameOver;
            self.states.score.handle_highscore()
        } else {
            None
        }
    }

    /// Advances the game by one fixed tick of `dt` microseconds, given the input
    /// edges `a` of the tick and the draws `r` it may use. At most one transition
    /// happens per tick: one that the input asks for, else, while playing, the
    /// physics, the obstacles and the scoring, then a game over on a fall below
    /// the floor or a collision. Returns the new best score when a run ends
    /// having beaten the best, for storing.
    pub fn tick(&mut self, a: &Actions, dt: u32, r: &Draws) -> (saved: Option<u32>)
        requires
            old(self)@.tick_pre(dt as int, *r),
        ensures
            final(self)@ == tick_spec(old(self)@, *a, dt as int, *r),
            saved == tick_saved_spec(old(self)@, *a, dt as int, *r),
            final(self)@.wf(),
    {
        match requested_transition(self.states.state, a) {
            Some(t) => {
                self.enter(t, a, r);
                None
            },
            None => {
                if self.states.state == GameState::Playing {
                    self.play(a, dt, r)
                } else {
                    None
                }
            },
        }
    }
}

impl Draws {
    /// Fresh draws from the ranges of `c`.
    pub fn sample(c: &GameConfig) -> (r: Draws)
        requires
            c.wf(),
        ensures
            c.pebble_start_y_min <= r.start_y < c.pebble_start_y_max,
            c.moai_gap_min <= r.gap_height < c.moai_gap_max,
    {
        Draws { start_y: sample_start_y(c), gap_height: sample_gap_height(c) }
    }
}

impl Game {
    /// `tick` with fresh random draws: the game ends up as `tick` leaves it for
    /// some draws from the configured ranges.
    pub fn step(&mut self, a: &Actions, dt: u32) -> (saved: Option<u32>)
        requires
            old(self)@.wf(),
            dt <= MAX_TICK_US,
            old(self)@.score.current_score + old(self)@.moai.len() <= u32::MAX,
        ensures
            exists|r: Draws|
                old(self)@.draws_fit(r) && final(self)@ == tick_spec(old(self)@, *a, dt as int, r)
                    && saved == tick_saved_spec(old(self)@, *a, dt as int, r),
            final(self)@.wf(),
    {
        let ghost g0 = self@;
        let r = Draws::sample(&self.config);
        let saved = self.tick(a, dt, &r);
        assert(g0.draws_fit(r) && self@ == tick_spec(g0, *a, dt as int, r) && saved
            == tick_saved_spec(g0, *a, dt as int, r));
        saved
    }
}

/// The input, duration and draws of one tick.
pub struct TickInput {
    pub actions: Actions,
    pub dt: u32,
    pub draws: Draws,
}

/// The game after the ticks of `steps`, in order.
pub open spec fn run_spec(g: GameView, steps: Seq<TickInput>) -> GameView
    decreases steps.len(),
{
    if steps.len() == 0 {
        g
    } else {
        let s = steps.last();
        tick_spec(run_spec(g, steps.drop_last()), s.actions, s.dt as int, s.draws)
    }
}

/// Every tick of `steps` meets what a tick asks of the game.
pub open spec fn run_pre(g: GameView, steps: Seq<TickInput>) -> bool {
    forall|i: int|
        0 <= i < steps.len() ==> #[trigger] run_spec(g, steps.take(i)).tick_pre(
            steps[i].dt as int,
            steps[i].draws,
        )
}

proof fn lemma_count_passed_bound(ms: Seq<Moai>, d: int)
    ensures
        count_passed(ms, d) <= ms.len(),
    decreases ms.len(),
{
    if ms.len() > 0 {
        lemma_count_passed_bound(ms.drop_last(), d);
    }
}

/// A tick never lowers the best score, and a best score it hands out for
/// storing is the new best.
pub proof fn lemma_tick_keeps_best(g: GameView, a: Actions, dt: int, r: Draws)
    requires
        g.tick_pre(dt, r),
    ensures
        tick_spec(g, a, dt, r).score.high_score >= g.score.high_score,
        tick_spec(g, a, dt, r).score.wf(),
        tick_saved_spec(g, a, dt, r) matches Some(v) ==> v == tick_spec(g, a, dt, r).score.high_score,
{
    lemma_count_passed_bound(g.moai, step_spec(g.config, dt));
}

/// Over any sequence of ticks, of one run or many, the best score never
/// decreases.
pub proof fn lemma_best_never_decreases(g: GameView, steps: Seq<TickInput>)
    requires
        run_pre(g, steps),
    ensures
        run_spec(g, steps).score.high_score >= g.score.high_score,
    decreases steps.len(),
{
    if steps.len() > 0 {
        let prefix = steps.drop_last();
        assert forall|i: int| 0 <= i < prefix.len() implies #[trigger] run_spec(g, prefix.take(i)).tick_pre(
            prefix[i].dt as int,
            prefix[i].draws,
        ) by {
            assert(prefix.take(i) =~= steps.take(i));
            assert(run_spec(g, steps.take(i)).tick_pre(steps[i].dt as int, steps[i].draws));
        }
        lemma_best_never_decreases(g, prefix);
        let last = steps.len() - 1;
        assert(steps.take(last) =~= prefix);
        assert(run_spec(g, steps.take(last)).tick_pre(steps[last].dt as int, steps[last].draws));
        let s = steps.last();
        lemma_tick_keeps_best(run_spec(g, prefix), s.actions, s.dt as int, s.draws);
    }
}

} // verus!
