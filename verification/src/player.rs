//! The player's kinematic state machine.
use vstd::prelude::*;
use crate::terrain::{ground_row, Terrain, TerrainType, TerrainUnit};
use crate::{Game, IY, PX};

verus! {

/// Ticks of ascent after which a jump reaches its apex.
pub const JUMP_TO_MAX_HEIGHT_DIST: i32 = 3;

#[derive(Copy, Clone, PartialEq, Eq, Structural, Debug)]
pub enum PlayerState {
    Idle,
    Running,
    Jumping,
    MaxHeight,
    Falling,
    Dead,
}

#[derive(Copy, Clone, PartialEq, Eq, Structural, Debug)]
pub struct Player {
    /// Current row; rows grow downwards.
    pub y_pos: i32,
    /// Ticks spent in the air since the player left the ground.
    pub air_dist: i32,
    pub state: PlayerState,
    /// A jump that was requested on an upslope and waits for its end.
    pub remember_jump: bool,
}

/// Mathematical model of a [`Player`].
pub struct PlayerView {
    pub y_pos: int,
    pub air_dist: int,
    pub state: PlayerState,
    pub remember_jump: bool,
}

impl View for Player {
    type V = PlayerView;

    open spec fn view(&self) -> PlayerView {
        PlayerView {
            y_pos: self.y_pos as int,
            air_dist: self.air_dist as int,
            state: self.state,
            remember_jump: self.remember_jump,
        }
    }
}

impl PlayerView {
    /// The player that waits for a run to start.
    pub open spec fn start() -> PlayerView {
        PlayerView { y_pos: IY as int, air_dist: 0, state: PlayerState::Idle, remember_jump: false }
    }

    /// The air time agrees with the state: short of the apex threshold on the
    /// ground and during the ascent, from the threshold up to but short of
    /// `max_air_time` at the apex, and no more than `max_air_time` during the
    /// fall.
    pub open spec fn consistent(self, max_air_time: int) -> bool {
        match self.state {
            PlayerState::Idle | PlayerState::Running | PlayerState::Jumping => 0 <= self.air_dist
                < JUMP_TO_MAX_HEIGHT_DIST,
            PlayerState::MaxHeight => JUMP_TO_MAX_HEIGHT_DIST <= self.air_dist < max_air_time,
            PlayerState::Falling => JUMP_TO_MAX_HEIGHT_DIST <= self.air_dist <= max_air_time,
            PlayerState::Dead => true,
        }
    }

    /// Whether both coordinates fit the machine integers of a [`Player`].
    pub open spec fn representable(self) -> bool {
        &&& i32::MIN <= self.y_pos <= i32::MAX
        &&& i32::MIN <= self.air_dist <= i32::MAX
    }

    /// The player after a jump request made on a unit of shape `on`.
    ///
    /// On an upslope the request is only remembered.  Elsewhere a running
    /// player takes off and every other player ignores the request.
    pub open spec fn jumped(self, on: TerrainType) -> PlayerView {
        if on == TerrainType::Up {
            PlayerView { remember_jump: true, ..self }
        } else if self.state == PlayerState::Running {
            PlayerView { state: PlayerState::Jumping, ..self }
        } else {
            self
        }
    }

    /// One tick of motion over a unit of shape `on`, with the ground at row
    /// `ground`, before obstacles are looked at.
    pub open spec fn moved(self, on: TerrainType, ground: int, max_air_time: int) -> PlayerView {
        match self.state {
            PlayerState::Jumping => {
                let y_pos = self.y_pos - 1;
                let air_dist = self.air_dist + 1;
                let state = if air_dist == JUMP_TO_MAX_HEIGHT_DIST {
                    PlayerState::MaxHeight
                } else if y_pos >= ground {
                    PlayerState::Running
                } else {
                    PlayerState::Jumping
                };
                PlayerView { y_pos, air_dist, state, ..self }
            },
            PlayerState::MaxHeight => {
                if self.y_pos >= ground {
                    PlayerView { state: PlayerState::Running, air_dist: 0, ..self }
                } else if self.air_dist + 1 == max_air_time {
                    PlayerView { state: PlayerState::Falling, air_dist: self.air_dist + 1, ..self }
                } else {
                    PlayerView { air_dist: self.air_dist + 1, ..self }
                }
            },
            PlayerState::Falling => {
                if self.y_pos >= ground {
                    PlayerView { state: PlayerState::Running, air_dist: 0, ..self }
                } else {
                    PlayerView { y_pos: self.y_pos + 1, ..self }
                }
            },
            PlayerState::Idle | PlayerState::Running => {
                if self.remember_jump && on != TerrainType::Up {
                    PlayerView { state: PlayerState::Jumping, remember_jump: false, ..self }
                } else {
                    PlayerView { y_pos: ground, ..self }
                }
            },
            PlayerState::Dead => self,
        }
    }

    /// Whether a player at this position runs into `unit` while `offset_y`
    /// rows of elevation are applied.
    pub open spec fn collides(self, unit: TerrainUnit, offset_y: int) -> bool {
        unit.obstacle && self.y_pos == unit.initial_y + offset_y
    }

    /// One full tick over `unit`: the motion, then death if the player has
    /// run into an obstacle, whatever the motion decided.  A dead player
    /// stays as it is.
    pub open spec fn stepped(self, unit: TerrainUnit, offset_y: int, max_air_time: int) -> PlayerView {
        if self.state == PlayerState::Dead {
            self
        } else {
            let after = self.moved(unit.unit_type, ground_row(offset_y), max_air_time);
            if after.collides(unit, offset_y) {
                PlayerView { state: PlayerState::Dead, ..after }
            } else {
                after
            }
        }
    }
}

/// At the apex the air time never exceeds `max_air_time`: a player that
/// holds the apex either stays there with air time to spare, lands, or
/// reaches `max_air_time` and is falling after that very tick, unless an
/// obstacle kills it.
pub proof fn lemma_apex_hold_bounded(
    p: PlayerView,
    unit: TerrainUnit,
    offset_y: int,
    max_air_time: int,
)
    requires
        p.state == PlayerState::MaxHeight,
        p.consistent(max_air_time),
    ensures
        ({
            let q = p.stepped(unit, offset_y, max_air_time);
            &&& q.air_dist <= max_air_time
            &&& q.state == PlayerState::MaxHeight ==> q.air_dist < max_air_time
            &&& q.air_dist == max_air_time ==> q.state == PlayerState::Falling || q.state
                == PlayerState::Dead
            &&& q.state == PlayerState::Dead <==> q.collides(unit, offset_y)
            &&& q.y_pos == p.y_pos
        }),
{
}

/// A living player dies in a tick exactly when, after its motion, it stands
/// in the row of an obstacle in its column; dying changes nothing but the
/// state.
pub proof fn lemma_collision_iff(p: PlayerView, unit: TerrainUnit, offset_y: int, max_air_time: int)
    requires
        p.state != PlayerState::Dead,
    ensures
        ({
            let after = p.moved(unit.unit_type, ground_row(offset_y), max_air_time);
            let q = p.stepped(unit, offset_y, max_air_time);
            &&& q.state == PlayerState::Dead <==> unit.obstacle && after.y_pos == unit.initial_y
                + offset_y
            &&& q.y_pos == after.y_pos
            &&& q.air_dist == after.air_dist
            &&& q.remember_jump == after.remember_jump
            &&& q.state != PlayerState::Dead ==> q == after
        }),
{
}

/// Death is final: neither a tick nor a jump request moves a dead player or
/// brings it back.
pub proof fn lemma_dead_is_absorbing(
    p: PlayerView,
    unit: TerrainUnit,
    offset_y: int,
    max_air_time: int,
)
    requires
        p.state == PlayerState::Dead,
    ensures
        p.stepped(unit, offset_y, max_air_time) == p,
        p.jumped(unit.unit_type).state == PlayerState::Dead,
        p.jumped(unit.unit_type).y_pos == p.y_pos,
        p.jumped(unit.unit_type).air_dist == p.air_dist,
{
}

/// The agreement between air time and state holds at the start, survives
/// every tick and every jump request, and survives a growing `max_air_time`.
pub proof fn lemma_consistent_is_invariant(
    p: PlayerView,
    unit: TerrainUnit,
    offset_y: int,
    max_air_time: int,
    later_max_air_time: int,
)
    requires
        p.consistent(max_air_time),
        JUMP_TO_MAX_HEIGHT_DIST < max_air_time <= later_max_air_time,
    ensures
        PlayerView::start().consistent(max_air_time),
        p.stepped(unit, offset_y, max_air_time).consistent(max_air_time),
        p.jumped(unit.unit_type).consistent(max_air_time),
        p.consistent(later_max_air_time),
{
}

impl Player {
    /// A player that waits at the baseline row for the run to start.
    pub fn new() -> (p: Player)
        ensures
            p == (Player { y_pos: IY, air_dist: 0, state: PlayerState::Idle, remember_jump: false }),
            p@ == PlayerView::start(),
    {
        Player { y_pos: IY, air_dist: 0, state: PlayerState::Idle, remember_jump: false }
    }

    /// Handles a jump request while the player stands on the unit in its
    /// column of `t`.
    pub fn jump(&mut self, t: &Terrain)
        requires
            PX < t.vec@.len(),
        ensures
            final(self)@ == old(self)@.jumped(t.vec@[PX as int].unit_type),
    {
        if t.vec[PX as usize].unit_type == TerrainType::Up {
            self.remember_jump = true;
        } else if self.state == PlayerState::Running {
            self.state = PlayerState::Jumping;
        }
    }

    /// Advances the player by one tick over the unit in its column of `t`.
    ///
    /// The new position must fit the player's integers.
    pub fn update_pos(&mut self, t: &Terrain, g: &Game)
        requires
            PX < t.vec@.len(),
            old(self)@.stepped(t.vec@[PX as int], t@.offset_y, g@.max_air_time).representable(),
        ensures
            final(self)@ == old(self)@.stepped(t.vec@[PX as int], t@.offset_y, g@.max_air_time),
            old(self).state != PlayerState::Dead ==> (final(self).state == PlayerState::Dead
                <==> final(self)@.collides(t.vec@[PX as int], t@.offset_y)),
            old(self).state == PlayerState::MaxHeight && old(self)@.consistent(g@.max_air_time) ==> {
                &&& final(self).air_dist <= g.max_air_time
                &&& final(self).air_dist == g.max_air_time ==> final(self).state
                    == PlayerState::Falling || final(self).state == PlayerState::Dead
            },
    {
        let current_unit = t.vec[PX as usize];
        let ground: i64 = IY as i64 - t.offset_y as i64;

        match self.state {
            PlayerState::Jumping => {
                self.y_pos -= 1;
                self.air_dist += 1;

                if self.air_dist == JUMP_TO_MAX_HEIGHT_DIST {
                    self.state = PlayerState::MaxHeight;
                } else if self.y_pos as i64 >= ground {
                    self.state = PlayerState::Running;
                }
            },
            PlayerState::MaxHeight => {
                if self.y_pos as i64 >= ground {
                    self.state = PlayerState::Running;
                    self.air_dist = 0;
                } else {
                    self.air_dist += 1;

                    if self.air_dist == g.max_air_time {
                        self.state = PlayerState::Falling;
                    }
                }
            },
            PlayerState::Falling => {
                if self.y_pos as i64 >= ground {
                    self.state = PlayerState::Running;
                    self.air_dist = 0;
                } else {
                    self.y_pos += 1;
                }
            },
            PlayerState::Idle | PlayerState::Running => {
                if self.remember_jump && current_unit.unit_type != TerrainType::Up {
                    self.state = PlayerState::Jumping;
                    self.remember_jump = false;
                } else {
                    self.y_pos = ground as i32;
                }
            },
            PlayerState::Dead => {
                return;
            },
        }

        if self.y_pos as i64 == current_unit.initial_y as i64 + t.offset_y as i64
            && current_unit.obstacle {
            self.state = PlayerState::Dead;
        }
    }
}

} // verus!
