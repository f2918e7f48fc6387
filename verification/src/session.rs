//! One run of the game as its driving loop sees it: the terrain, the player
//! and the score, advanced by key presses and by the clock.
//!
//! The session decides; the program around it polls the keyboard, watches
//! the clock, and draws what the session tells it to.
use vstd::prelude::*;
use crate::player::{Player, PlayerState, PlayerView};
use crate::terrain::{
    all_in_range, draw_roll, flat_unit, lemma_scrolled_wf, Roll, Terrain, TerrainView, SAFE_START, TERRAIN_LEN,
};
use crate::player::lemma_consistent_is_invariant;
use crate::{
    lemma_sped_up, lemma_wf_bounds, Game, GameView, IY, KEY_JUMP, KEY_PAUSE, KEY_QUIT, MAX_SPEED, PX,
};

verus! {

/// Key code that stands for "no key was pressed".
pub const KEY_NONE: i32 = -1;

/// What a key code means to the game.
#[derive(Clone, Copy, PartialEq, Eq, Structural, Debug)]
pub enum Input {
    Quit,
    Pause,
    Jump,
    /// A key that has no meaning of its own.
    Other,
    /// No key was pressed.
    Nothing,
}

/// Where a session stands.
#[derive(Clone, Copy, PartialEq, Eq, Structural, Debug)]
pub enum Phase {
    /// The player waits for a key to start the run.
    Waiting,
    /// The run is on, paused or not.
    Running,
    /// The run has ended, by death or by the quit key.
    Over,
}

/// What the driving loop has to do after a key.
#[derive(Clone, Copy, PartialEq, Eq, Structural, Debug)]
pub enum Command {
    /// Go on polling.
    Continue,
    /// Leave the program.
    Exit,
    /// Start a new session.
    Restart,
}

/// What the driving loop has to show after the clock has come round.
#[derive(Clone, Copy, PartialEq, Eq, Structural, Debug)]
pub enum Frame {
    /// Nothing has changed.
    Still,
    /// The simulation has advanced: draw the scene and restart the clock.
    Scene,
    /// The run is paused: show the pause banner.
    Pause,
    /// The player is dead: show the death banner; the run is over.
    Dead,
}

/// The meaning of a key code: the three bound keys, `KEY_NONE` for no key,
/// and every other code alike.
pub open spec fn spec_classify_key(key: i32) -> Input {
    if key == KEY_QUIT {
        Input::Quit
    } else if key == KEY_JUMP {
        Input::Jump
    } else if key == KEY_PAUSE {
        Input::Pause
    } else if key == KEY_NONE {
        Input::Nothing
    } else {
        Input::Other
    }
}

/// Tells what a key code means.
pub fn classify_key(key: i32) -> (input: Input)
    ensures
        input == spec_classify_key(key),
{
    if key == KEY_QUIT {
        Input::Quit
    } else if key == KEY_JUMP {
        Input::Jump
    } else if key == KEY_PAUSE {
        Input::Pause
    } else if key == KEY_NONE {
        Input::Nothing
    } else {
        Input::Other
    }
}

/// Mathematical model of a [`Session`].
pub struct SessionView {
    pub terrain: TerrainView,
    pub player: PlayerView,
    pub game: GameView,
}

impl SessionView {
    /// What holds of every session: the terrain and the difficulty are well
    /// formed, the player's air time agrees with its state, and a player
    /// that has not started yet stands untouched at the baseline.
    pub open spec fn wf(self) -> bool {
        &&& self.terrain.wf()
        &&& self.game.wf()
        &&& self.player.consistent(self.game.max_air_time)
        &&& self.player.state == PlayerState::Idle ==> self.player == PlayerView::start()
    }

    /// Whether every number of the session fits its machine integer.
    pub open spec fn representable(self) -> bool {
        &&& self.terrain.representable()
        &&& self.player.representable()
        &&& self.game.score <= u32::MAX
    }

    /// Where the session stands.
    pub open spec fn phase(self) -> Phase {
        if !self.game.playing {
            Phase::Over
        } else if self.player.state == PlayerState::Idle {
            Phase::Waiting
        } else {
            Phase::Running
        }
    }

    /// Whether the clock advances the simulation: the run is on, not paused,
    /// and the player is alive.
    pub open spec fn live(self) -> bool {
        self.phase() == Phase::Running && !self.game.pause && self.player.state
            != PlayerState::Dead
    }

    /// The session after the key `input`.
    ///
    /// A waiting player starts to run on any key but the quit key.  During
    /// the run the quit key ends it, the jump key asks the player to jump
    /// unless the game is paused, and the pause key toggles the pause unless
    /// the player is dead.  After the run no key changes anything.
    pub open spec fn keyed(self, input: Input) -> SessionView {
        match self.phase() {
            Phase::Waiting => match input {
                Input::Quit | Input::Nothing => self,
                _ => SessionView {
                    player: PlayerView { state: PlayerState::Running, ..self.player },
                    ..self
                },
            },
            Phase::Running => match input {
                Input::Quit => SessionView {
                    game: GameView { playing: false, ..self.game },
                    ..self
                },
                Input::Jump => if self.game.pause {
                    self
                } else {
                    SessionView {
                        player: self.player.jumped(self.terrain.units[PX as int].unit_type),
                        ..self
                    }
                },
                Input::Pause => if self.player.state == PlayerState::Dead {
                    self
                } else {
                    SessionView { game: GameView { pause: !self.game.pause, ..self.game }, ..self }
                },
                _ => self,
            },
            Phase::Over => self,
        }
    }

    /// What the driving loop has to do after the key `input`: leave on the
    /// quit key before and after a run, start anew on the jump key after a
    /// run, and go on otherwise.
    pub open spec fn command(self, input: Input) -> Command {
        match self.phase() {
            Phase::Waiting => if input == Input::Quit {
                Command::Exit
            } else {
                Command::Continue
            },
            Phase::Running => Command::Continue,
            Phase::Over => match input {
                Input::Quit => Command::Exit,
                Input::Jump => Command::Restart,
                _ => Command::Continue,
            },
        }
    }

    /// The session after one tick of the simulation: the terrain ticks with
    /// the unit generated from `roll`, the player moves over the unit that
    /// has arrived in its column, at the elevation applied by then, and the
    /// game counts the tick and derives the difficulty.
    pub open spec fn ticked(self, roll: Roll) -> SessionView {
        let terrain = self.terrain.ticked(roll);
        SessionView {
            terrain,
            player: self.player.stepped(
                terrain.units[PX as int],
                terrain.offset_y,
                self.game.max_air_time,
            ),
            game: self.game.scored().sped_up(),
        }
    }

    /// The session after the clock has come round: a live session ticks, a
    /// run whose player is dead ends, and nothing else changes.
    pub open spec fn clocked(self, roll: Roll) -> SessionView {
        if self.live() {
            self.ticked(roll)
        } else if self.phase() == Phase::Running && !self.game.pause {
            SessionView { game: GameView { playing: false, ..self.game }, ..self }
        } else {
            self
        }
    }

    /// What the driving loop has to show after the clock has come round.
    pub open spec fn frame(self) -> Frame {
        if self.phase() != Phase::Running {
            Frame::Still
        } else if self.game.pause {
            Frame::Pause
        } else if self.player.state == PlayerState::Dead {
            Frame::Dead
        } else {
            Frame::Scene
        }
    }

    /// Bounds within which a tick cannot leave the machine integers,
    /// whatever the dice show.
    pub open spec fn within_limits(self) -> bool {
        &&& self.game.score < u32::MAX
        &&& self.terrain.last_incline_dist < u32::MAX
        &&& self.terrain.last_obst_dist < u32::MAX
        &&& IY - i32::MAX < self.terrain.offset_y < i32::MAX
        &&& i32::MIN < self.terrain.roffset_y < i32::MAX
        &&& i32::MIN < self.player.y_pos < i32::MAX
        &&& self.player.air_dist < i32::MAX
    }
}

/// A tick keeps a well-formed session well formed and the window as long as
/// it was; within the limits, its result fits the machine integers.
pub proof fn lemma_ticked_wf(s: SessionView, roll: Roll)
    requires
        s.wf(),
        s.phase() == Phase::Running,
    ensures
        s.ticked(roll).wf(),
        s.ticked(roll).terrain.units.len() == s.terrain.units.len(),
        s.ticked(roll).phase() == Phase::Running,
        s.representable() && s.within_limits() ==> s.ticked(roll).representable(),
{
    lemma_scrolled_wf(s.terrain, roll);
    let terrain = s.terrain.ticked(roll);
    assert(terrain.units == s.terrain.scrolled(roll).units);
    lemma_sped_up(s.game.scored());
    lemma_wf_bounds(s.game);
    lemma_consistent_is_invariant(
        s.player,
        terrain.units[PX as int],
        terrain.offset_y,
        s.game.max_air_time,
        s.game.scored().sped_up().max_air_time,
    );
    lemma_consistent_is_invariant(
        s.player.stepped(terrain.units[PX as int], terrain.offset_y, s.game.max_air_time),
        terrain.units[PX as int],
        terrain.offset_y,
        s.game.max_air_time,
        s.game.scored().sped_up().max_air_time,
    );
}

/// What can happen to a session.
pub enum Event {
    /// A key was read.
    Key(Input),
    /// The clock has come round, with the dice showing the roll.
    Clock(Roll),
}

impl SessionView {
    /// The session after `event`.
    pub open spec fn after(self, event: Event) -> SessionView {
        match event {
            Event::Key(input) => self.keyed(input),
            Event::Clock(roll) => self.clocked(roll),
        }
    }

    /// The session after each of `events`, in order.
    pub open spec fn after_all(self, events: Seq<Event>) -> SessionView
        decreases events.len(),
    {
        if events.len() == 0 {
            self
        } else {
            self.after_all(events.drop_last()).after(events.last())
        }
    }
}

/// Whatever happens to a well-formed session, it stays well formed, its
/// window keeps its length, its score and its apex hold time never shrink,
/// its tick interval never grows nor falls under the floor, a player that has
/// started never waits again, a dead player stays dead where it is, and a run
/// that is over stays as it ended.
pub proof fn lemma_run(s: SessionView, events: Seq<Event>)
    requires
        s.wf(),
    ensures
        ({
            let end = s.after_all(events);
            &&& end.wf()
            &&& end.terrain.units.len() == s.terrain.units.len()
            &&& end.game.score >= s.game.score
            &&& end.game.max_air_time >= s.game.max_air_time
            &&& MAX_SPEED <= end.game.speed <= s.game.speed
            &&& s.phase() != Phase::Waiting ==> end.phase() != Phase::Waiting
            &&& s.player.state == PlayerState::Dead ==> end.player.state == PlayerState::Dead
                && end.player.y_pos == s.player.y_pos && end.player.air_dist == s.player.air_dist
            &&& s.phase() == Phase::Over ==> end == s
        }),
    decreases events.len(),
{
    lemma_wf_bounds(s.game);
    if events.len() > 0 {
        let before = s.after_all(events.drop_last());
        lemma_run(s, events.drop_last());
        lemma_wf_bounds(before.game);
        match events.last() {
            Event::Key(input) => {
                lemma_consistent_is_invariant(
                    before.player,
                    before.terrain.units[PX as int],
                    before.terrain.offset_y,
                    before.game.max_air_time,
                    before.game.max_air_time,
                );
            },
            Event::Clock(roll) => {
                if before.live() {
                    lemma_ticked_wf(before, roll);
                    lemma_sped_up(before.game.scored());
                }
            },
        }
    }
}

/// One run of the game.
///
/// Every session is well formed, in the sense of [`SessionView::wf`]: its
/// parts can be read but change only through the session.
pub struct Session {
    terrain: Terrain,
    player: Player,
    game: Game,
}

impl View for Session {
    type V = SessionView;

    closed spec fn view(&self) -> SessionView {
        SessionView { terrain: self.terrain@, player: self.player@, game: self.game@ }
    }
}

impl Session {
    #[verifier::type_invariant]
    spec fn inv(self) -> bool {
        self@.wf()
    }

    /// A session that waits for a key, on the terrain that the generator
    /// makes from the start of a run with `rolls`.
    pub fn generated(rolls: &Vec<Roll>) -> (s: Session)
        requires
            SAFE_START + rolls@.len() <= u32::MAX,
        ensures
            s@.wf(),
            s@.player == PlayerView::start(),
            s@.game == GameView::start(),
            s@.terrain == TerrainView::start().extended_by(rolls@),
            s@.terrain.units.len() == SAFE_START + rolls@.len(),
            forall|i: int| 0 <= i < SAFE_START ==> s@.terrain.units[i] == flat_unit(IY),
            s@.terrain.offset_y == 0,
            s@.terrain.roffset_y == 0,
    {
        Session { terrain: Terrain::generated(rolls), player: Player::new(), game: Game::new() }
    }

    /// A session that waits for a key, on a terrain that the dice decide.
    pub fn new() -> (s: Session)
        ensures
            s@.wf(),
            s@.phase() == Phase::Waiting,
            s@.player == PlayerView::start(),
            s@.game == GameView::start(),
            s@.terrain.units.len() == TERRAIN_LEN,
            forall|i: int| 0 <= i < SAFE_START ==> s@.terrain.units[i] == flat_unit(IY),
            s@.terrain.offset_y == 0,
            s@.terrain.roffset_y == 0,
            exists|rolls: Seq<Roll>|
                {
                    &&& rolls.len() == TERRAIN_LEN - SAFE_START
                    &&& all_in_range(rolls)
                    &&& s@.terrain == TerrainView::start().extended_by(rolls)
                },
    {
        Session { terrain: Terrain::new(), player: Player::new(), game: Game::new() }
    }

    /// The terrain of the session.
    pub fn terrain(&self) -> (t: &Terrain)
        ensures
            t@ == self@.terrain,
            self@.wf(),
    {
        proof {
            use_type_invariant(self);
        }
        &self.terrain
    }

    /// The player of the session.
    pub fn player(&self) -> (p: &Player)
        ensures
            p@ == self@.player,
            self@.wf(),
    {
        proof {
            use_type_invariant(self);
        }
        &self.player
    }

    /// The score and difficulty of the session.
    pub fn game(&self) -> (g: &Game)
        ensures
            g@ == self@.game,
            self@.wf(),
    {
        proof {
            use_type_invariant(self);
        }
        &self.game
    }

    /// Where the session stands.
    pub fn phase(&self) -> (phase: Phase)
        ensures
            phase == self@.phase(),
    {
        if !self.game.playing {
            Phase::Over
        } else if self.player.state == PlayerState::Idle {
            Phase::Waiting
        } else {
            Phase::Running
        }
    }

    /// Whether the clock has come round: at least a tick interval has
    /// passed since the last tick, `elapsed_ms` milliseconds ago.
    pub fn due(&self, elapsed_ms: i64) -> (b: bool)
        ensures
            b == (elapsed_ms >= self@.game.speed),
    {
        elapsed_ms >= self.game.speed
    }

    /// Whether the clock advances the simulation.
    pub fn live(&self) -> (b: bool)
        ensures
            b == self@.live(),
    {
        self.game.playing && self.player.state != PlayerState::Idle && !self.game.pause
            && self.player.state != PlayerState::Dead
    }

    /// Handles the key code `key`.  Returns the session after the key and
    /// what the driving loop has to do.
    pub fn handle_key(self, key: i32) -> (next: (Session, Command))
        ensures
            next.0@ == self@.keyed(spec_classify_key(key)),
            next.1 == self@.command(spec_classify_key(key)),
            next.0@.wf(),
    {
        proof {
            use_type_invariant(&self);
            lemma_wf_bounds(self@.game);
            lemma_consistent_is_invariant(
                self@.player,
                self@.terrain.units[PX as int],
                self@.terrain.offset_y,
                self@.game.max_air_time,
                self@.game.max_air_time,
            );
        }
        let input = classify_key(key);
        let phase = self.phase();
        let Session { terrain, mut player, mut game } = self;
        let command = match phase {
            Phase::Waiting => match input {
                Input::Quit => Command::Exit,
                Input::Nothing => Command::Continue,
                _ => {
                    player.state = PlayerState::Running;
                    Command::Continue
                },
            },
            Phase::Running => {
                match input {
                    Input::Quit => {
                        game.playing = false;
                    },
                    Input::Jump => {
                        if !game.pause {
                            player.jump(&terrain);
                        }
                    },
                    Input::Pause => {
                        if player.state != PlayerState::Dead {
                            game.pause = !game.pause;
                        }
                    },
                    _ => {},
                }
                Command::Continue
            },
            Phase::Over => match input {
                Input::Quit => Command::Exit,
                Input::Jump => Command::Restart,
                _ => Command::Continue,
            },
        };
        (Session { terrain, player, game }, command)
    }

    /// Whether a tick is sure to stay within the machine integers.
    pub fn within_limits(&self) -> (b: bool)
        ensures
            b == self@.within_limits(),
            self@.representable(),
            self@.wf(),
    {
        proof {
            use_type_invariant(self);
        }
        self.game.score < u32::MAX && self.terrain.last_incline_dist < u32::MAX
            && self.terrain.last_obst_dist < u32::MAX && self.terrain.offset_y > IY - i32::MAX
            && self.terrain.offset_y < i32::MAX && self.terrain.roffset_y > i32::MIN
            && self.terrain.roffset_y < i32::MAX && self.player.y_pos > i32::MIN && self.player.y_pos
            < i32::MAX && self.player.air_dist < i32::MAX
    }

    /// Reacts to the clock having come round, with `roll` for the unit that
    /// enters if the terrain scrolls.  Returns the session after that and
    /// what the driving loop has to show.
    ///
    /// If the session is live, its tick must stay within the machine
    /// integers.
    pub fn on_timer_with(self, roll: Roll) -> (next: (Session, Frame))
        requires
            self@.live() ==> self@.terrain.ground() <= i32::MAX && self@.ticked(
                roll,
            ).representable(),
        ensures
            next.0@ == self@.clocked(roll),
            next.1 == self@.frame(),
            next.0@.wf(),
            next.0@.terrain.units.len() == self@.terrain.units.len(),
    {
        proof {
            use_type_invariant(&self);
        }
        let phase = self.phase();
        let Session { mut terrain, mut player, mut game } = self;
        let frame = if phase != Phase::Running {
            Frame::Still
        } else if game.pause {
            Frame::Pause
        } else if player.state == PlayerState::Dead {
            game.playing = false;
            Frame::Dead
        } else {
            proof {
                lemma_ticked_wf(self@, roll);
                lemma_scrolled_wf(self@.terrain, roll);
            }
            terrain.scroll_with(roll);
            terrain.offset(&player);
            player.update_pos(&terrain, &game);
            terrain.roffset();
            game.update_score();
            game.update_speed();
            Frame::Scene
        };
        (Session { terrain, player, game }, frame)
    }

    /// Reacts to the clock having come round, with dice thrown for the unit
    /// that enters if the terrain scrolls.  Returns the session after that
    /// and what the driving loop has to show.
    ///
    /// A live session must be within the limits of its machine integers.
    pub fn on_timer(self) -> (next: (Session, Frame))
        requires
            self@.live() ==> self@.within_limits(),
        ensures
            exists|roll: Roll| roll.in_range() && next.0@ == self@.clocked(roll),
            next.1 == self@.frame(),
            next.0@.wf(),
            next.0@.terrain.units.len() == self@.terrain.units.len(),
    {
        let roll = draw_roll();
        proof {
            use_type_invariant(&self);
            if self@.live() {
                lemma_ticked_wf(self@, roll);
            }
        }
        self.on_timer_with(roll)
    }
}

} // verus!
