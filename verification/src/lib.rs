//! Simulation core of a terminal side-scrolling runner.
//!
//! A character standing in a fixed column jumps over obstacles while the
//! track scrolls underneath it.  The crate holds the terrain window and its
//! generator, the player's kinematic state machine and the score-driven
//! difficulty curve.  Terminal handling, rendering and the clock belong to the
//! program that drives the simulation.
use vstd::prelude::*;

pub mod player;
pub mod session;
pub mod terrain;

verus! {

/// Key code that ends the run (`q`).
pub const KEY_QUIT: i32 = 113;

/// Key code that toggles the pause (`p`).
pub const KEY_PAUSE: i32 = 112;

/// Key code that requests a jump (`j`).
pub const KEY_JUMP: i32 = 106;

/// Baseline ground row.
pub const IY: i32 = 6;

/// Index of the player's column inside the terrain window.
pub const PX: i32 = 23;

/// Tick interval, in milliseconds, below which the game never speeds up.
pub const MAX_SPEED: i64 = 40;

/// Score interval at which the difficulty rises.
pub const SPEED_CHANGE_INTERVAL: u32 = 300;

/// Tick interval, in milliseconds, at the start of a run.
pub const INITIAL_SPEED: i64 = 100;

/// Ticks that the player may hold the apex at the start of a run.
pub const INITIAL_AIR_TIME: i32 = 7;

/// Tenths in a whole speed multiplier.
pub const SPEED_MULT_UNIT: i64 = 10;

/// Score and difficulty of one run.
///
/// The speed multiplier is kept in tenths, so that a drop of `0.1` is the
/// integer step `1` and every derived quantity is exact.
pub struct Game {
    pub playing: bool,
    pub pause: bool,
    pub score: u32,
    /// Tick interval in milliseconds.
    pub speed: i64,
    /// Ticks that the player may hold the apex before falling.
    pub max_air_time: i32,
    /// Speed multiplier in tenths: `10` is `1.0`.
    pub speed_mult: i64,
}

/// Mathematical model of a [`Game`].
pub struct GameView {
    pub playing: bool,
    pub pause: bool,
    pub score: nat,
    pub speed: int,
    pub max_air_time: int,
    pub speed_mult: int,
}

impl View for Game {
    type V = GameView;

    open spec fn view(&self) -> GameView {
        GameView {
            playing: self.playing,
            pause: self.pause,
            score: self.score as nat,
            speed: self.speed as int,
            max_air_time: self.max_air_time as int,
            speed_mult: self.speed_mult as int,
        }
    }
}

/// A tenth part of `x`, rounded to the nearest integer, halves upwards.
pub open spec fn nearest_tenth(x: int) -> int {
    (x + 5) / 10
}

/// A tenth part of `x`, rounded to the nearest integer, halves upwards.
pub fn round_tenths(x: u64) -> (r: u64)
    ensures
        r == nearest_tenth(x as int),
{
    if x % 10 >= 5 {
        x / 10 + 1
    } else {
        x / 10
    }
}

/// Tick interval, in milliseconds, under the speed multiplier `mult`, given
/// in tenths.
pub open spec fn speed_at(mult: int) -> int {
    nearest_tenth(INITIAL_SPEED * mult)
}

/// Apex hold time that a run has reached once its speed multiplier has come
/// down to `mult` tenths, one tenth at a time.
pub open spec fn air_time_at(mult: int) -> int
    decreases SPEED_MULT_UNIT - mult,
{
    if mult >= SPEED_MULT_UNIT {
        INITIAL_AIR_TIME as int
    } else {
        INITIAL_AIR_TIME + nearest_tenth(air_time_at(mult + 1) * (SPEED_MULT_UNIT - mult))
    }
}

/// The apex hold time at each multiplier that a run can reach.
pub proof fn lemma_air_time_values()
    ensures
        air_time_at(10) == 7,
        air_time_at(9) == 8,
        air_time_at(8) == 9,
        air_time_at(7) == 10,
        air_time_at(6) == 11,
        air_time_at(5) == 13,
        air_time_at(4) == 15,
{
    assert(air_time_at(10) == 7);
    assert(air_time_at(9) == 7 + nearest_tenth(7));
    assert(air_time_at(8) == 7 + nearest_tenth(16));
    assert(air_time_at(7) == 7 + nearest_tenth(27));
    assert(air_time_at(6) == 7 + nearest_tenth(40));
    assert(air_time_at(5) == 7 + nearest_tenth(55));
    assert(air_time_at(4) == 7 + nearest_tenth(78));
}

impl GameView {
    /// The state in which every run begins.
    pub open spec fn start() -> GameView {
        GameView {
            playing: true,
            pause: false,
            score: 0,
            speed: INITIAL_SPEED as int,
            max_air_time: INITIAL_AIR_TIME as int,
            speed_mult: SPEED_MULT_UNIT as int,
        }
    }

    /// The difficulty is one that a run can reach: the multiplier has dropped
    /// from `1.0` in whole tenths, the tick interval and the apex hold time
    /// are the ones that belong to it, and the interval is not under its
    /// floor.
    pub open spec fn wf(self) -> bool {
        &&& self.speed_mult <= SPEED_MULT_UNIT
        &&& self.speed == speed_at(self.speed_mult)
        &&& self.speed >= MAX_SPEED
        &&& self.max_air_time == air_time_at(self.speed_mult)
    }

    /// Whether the difficulty rises at this score.
    pub open spec fn speeds_up(self) -> bool {
        self.score % (SPEED_CHANGE_INTERVAL as nat) == 0 && self.speed > MAX_SPEED
    }

    /// The game after its difficulty has been derived anew.
    ///
    /// At a score that is a multiple of the interval, and while the tick
    /// interval is above its floor, the multiplier drops by a tenth, the tick
    /// interval follows it linearly and the apex hold time grows.  Otherwise
    /// nothing changes.
    pub open spec fn sped_up(self) -> GameView {
        if self.speeds_up() {
            let mult = self.speed_mult - 1;
            GameView {
                speed_mult: mult,
                speed: speed_at(mult),
                max_air_time: INITIAL_AIR_TIME + nearest_tenth(
                    self.max_air_time * (SPEED_MULT_UNIT - mult),
                ),
                ..self
            }
        } else {
            self
        }
    }

    /// The game after one more tick has been counted.
    pub open spec fn scored(self) -> GameView {
        GameView { score: self.score + 1, ..self }
    }
}

/// A well-formed difficulty lies between the one at the start of a run and
/// the one at the floor of the tick interval.
pub proof fn lemma_wf_bounds(g: GameView)
    requires
        g.wf(),
    ensures
        4 <= g.speed_mult <= SPEED_MULT_UNIT,
        g.speed == 10 * g.speed_mult,
        MAX_SPEED <= g.speed <= INITIAL_SPEED,
        INITIAL_AIR_TIME <= g.max_air_time <= 15,
{
    lemma_air_time_values();
}

/// Deriving the difficulty changes nothing at a score that is no multiple of
/// the interval, nor once the tick interval has reached its floor, so that
/// doing it again changes nothing either.  At a multiple of the interval and
/// above the floor the tick interval drops by a tenth of the initial one and
/// stays at or above the floor.  The apex hold time never shrinks.
pub proof fn lemma_sped_up(g: GameView)
    requires
        g.wf(),
    ensures
        g.sped_up().wf(),
        g.score % (SPEED_CHANGE_INTERVAL as nat) != 0 ==> g.sped_up() == g,
        g.speed <= MAX_SPEED ==> g.sped_up() == g,
        !g.speeds_up() ==> g.sped_up().sped_up() == g.sped_up(),
        g.speeds_up() ==> g.sped_up().speed < g.speed,
        g.speeds_up() ==> g.sped_up().speed == g.speed - INITIAL_SPEED / SPEED_MULT_UNIT,
        g.sped_up().speed >= MAX_SPEED,
        g.sped_up().max_air_time >= g.max_air_time,
        g.sped_up().score == g.score,
        g.sped_up().playing == g.playing,
        g.sped_up().pause == g.pause,
{
    lemma_air_time_values();
}

impl Game {
    /// A game at the start of a run.
    pub fn new() -> (g: Game)
        ensures
            g@ == GameView::start(),
            g@.wf(),
    {
        proof {
            reveal_with_fuel(air_time_at, 1);
        }
        Game {
            playing: true,
            pause: false,
            score: 0,
            speed: INITIAL_SPEED,
            max_air_time: INITIAL_AIR_TIME,
            speed_mult: SPEED_MULT_UNIT,
        }
    }

    /// Derives the difficulty from the score.
    pub fn update_speed(&mut self)
        requires
            old(self)@.wf(),
        ensures
            final(self)@ == old(self)@.sped_up(),
            final(self)@.wf(),
            !old(self)@.speeds_up() ==> final(self)@ == old(self)@,
            old(self)@.speeds_up() ==> MAX_SPEED <= final(self).speed < old(self).speed,
            final(self).max_air_time >= old(self).max_air_time,
    {
        proof {
            lemma_sped_up(self@);
        }
        if self.score % SPEED_CHANGE_INTERVAL == 0 && self.speed > MAX_SPEED {
            proof {
                lemma_air_time_values();
            }
            self.speed_mult -= 1;
            self.speed = round_tenths((INITIAL_SPEED * self.speed_mult) as u64) as i64;
            let scaled = self.max_air_time as i64 * (SPEED_MULT_UNIT - self.speed_mult);
            self.max_air_time = INITIAL_AIR_TIME + round_tenths(scaled as u64) as i32;
        }
    }

    /// Counts one tick.
    pub fn update_score(&mut self)
        requires
            old(self).score < u32::MAX,
        ensures
            final(self)@ == old(self)@.scored(),
    {
        self.score += 1;
    }
}

} // verus!
