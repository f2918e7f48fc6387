//! The scrolling track: its units, the window the player runs on and the
//! generator that extends it.
use vstd::prelude::*;
use crate::player::Player;
use crate::{IY, PX};

verus! {

/// Number of units in a freshly made window.
pub const TERRAIN_LEN: usize = 100;

/// Number of flat, obstacle-free units at the start of a run.
pub const SAFE_START: usize = 40;

/// Fewest flat units between two inclines.
pub const MIN_INCLINE_DIST: u32 = 6;

/// Fewest obstacle-free units between two obstacles.
pub const MIN_OBST_DIST: u32 = 12;

/// Number of outcomes of each of the generator's two dice.
pub const ROLL_SIDES: u32 = 100;

/// Outcomes of the shape die that ask for an upslope.
pub const UP_ROLLS: u32 = 10;

/// Outcomes of the shape die that ask for a downslope.
pub const DOWN_ROLLS: u32 = 10;

/// Outcomes of the obstacle die that ask for an obstacle.
pub const OBSTACLE_ROLLS: u32 = 25;

/// Shape of one column of track.
#[derive(Clone, Copy, PartialEq, Eq, Structural, Debug)]
pub enum TerrainType {
    Flat,
    Up,
    Down,
}

impl TerrainType {
    /// Rows of elevation that a unit of this shape contributes when it
    /// reaches the player's column.
    pub open spec fn slope(self) -> int {
        match self {
            TerrainType::Flat => 0,
            TerrainType::Up => 1,
            TerrainType::Down => -1,
        }
    }

    /// Whether a unit of this shape changes the elevation.
    pub open spec fn is_incline(self) -> bool {
        self != TerrainType::Flat
    }

    /// Elevation contribution of this shape: `0`, `1` or `-1`.
    pub fn elevation(self) -> (d: i32)
        ensures
            d == self.slope(),
    {
        match self {
            TerrainType::Flat => 0,
            TerrainType::Up => 1,
            TerrainType::Down => -1,
        }
    }
}

/// One column of track.  A unit never changes after it is generated.
#[derive(Clone, Copy, PartialEq, Eq, Structural, Debug)]
pub struct TerrainUnit {
    pub unit_type: TerrainType,
    /// Ground row at the time the unit was generated.
    pub initial_y: i32,
    pub obstacle: bool,
}

/// The window of track that is on screen or about to be, with the elevation
/// bookkeeping that the player's ground row is derived from.
pub struct Terrain {
    /// The units of the window, leftmost first.
    pub vec: Vec<TerrainUnit>,
    /// Elevation applied to the ground row so far.
    pub offset_y: i32,
    /// Elevation owed to `offset_y` and not applied yet.
    pub roffset_y: i32,
    /// Columns generated since the last incline.
    pub last_incline_dist: u32,
    /// Columns generated since the last obstacle.
    pub last_obst_dist: u32,
}

/// The two dice that decide one generated unit.
#[derive(Clone, Copy, PartialEq, Eq, Structural, Debug)]
pub struct Roll {
    /// Decides the shape of the unit.
    pub kind: u32,
    /// Decides whether the unit carries an obstacle.
    pub obstacle: u32,
}

/// Mathematical model of a [`Terrain`].
pub struct TerrainView {
    pub units: Seq<TerrainUnit>,
    pub offset_y: int,
    pub roffset_y: int,
    pub last_incline_dist: nat,
    pub last_obst_dist: nat,
}

impl View for Terrain {
    type V = TerrainView;

    open spec fn view(&self) -> TerrainView {
        TerrainView {
            units: self.vec@,
            offset_y: self.offset_y as int,
            roffset_y: self.roffset_y as int,
            last_incline_dist: self.last_incline_dist as nat,
            last_obst_dist: self.last_obst_dist as nat,
        }
    }
}

/// Row of the ground under the player once `offset_y` rows of elevation have
/// been applied.
pub open spec fn ground_row(offset_y: int) -> int {
    IY - offset_y
}

/// `-1`, `0` or `1` as `x` is negative, zero or positive.
pub open spec fn sign(x: int) -> int {
    if x > 0 {
        1
    } else if x < 0 {
        -1
    } else {
        0
    }
}

/// The flat, obstacle-free unit at ground row `ground`.
pub open spec fn flat_unit(ground: i32) -> TerrainUnit {
    TerrainUnit { unit_type: TerrainType::Flat, initial_y: ground, obstacle: false }
}

/// Shape that the generator gives the next unit.
///
/// An incline is possible only when at least `MIN_INCLINE_DIST` units have
/// been generated since the last one; the die then picks among the shapes.
pub open spec fn generated_type(kind_roll: u32, last_incline_dist: nat) -> TerrainType {
    if last_incline_dist < MIN_INCLINE_DIST {
        TerrainType::Flat
    } else if kind_roll < UP_ROLLS {
        TerrainType::Up
    } else if kind_roll < UP_ROLLS + DOWN_ROLLS {
        TerrainType::Down
    } else {
        TerrainType::Flat
    }
}

/// Unit that the generator makes next.
///
/// It carries an obstacle only if it is flat, at least `MIN_OBST_DIST` units
/// have been generated since the last obstacle, and the die asks for one.
pub open spec fn generated_unit(
    roll: Roll,
    last_incline_dist: nat,
    last_obst_dist: nat,
    ground: i32,
) -> TerrainUnit {
    let unit_type = generated_type(roll.kind, last_incline_dist);
    TerrainUnit {
        unit_type,
        initial_y: ground,
        obstacle: unit_type == TerrainType::Flat && last_obst_dist >= MIN_OBST_DIST
            && roll.obstacle < OBSTACLE_ROLLS,
    }
}

impl Roll {
    /// Whether both dice show one of their sides.
    pub open spec fn in_range(self) -> bool {
        self.kind < ROLL_SIDES && self.obstacle < ROLL_SIDES
    }
}

/// Whether every roll of `rolls` shows sides of the dice.
pub open spec fn all_in_range(rolls: Seq<Roll>) -> bool {
    forall|i: int| 0 <= i < rolls.len() ==> (#[trigger] rolls[i]).in_range()
}

impl TerrainView {
    /// The flat stretch on which every run begins.
    pub open spec fn start() -> TerrainView {
        TerrainView {
            units: Seq::new(SAFE_START as nat, |i: int| flat_unit(IY)),
            offset_y: 0,
            roffset_y: 0,
            last_incline_dist: SAFE_START as nat,
            last_obst_dist: SAFE_START as nat,
        }
    }

    /// Row of the ground under the player.
    pub open spec fn ground(self) -> int {
        ground_row(self.offset_y)
    }

    /// Whether every scalar fits the machine integers of a [`Terrain`].
    pub open spec fn representable(self) -> bool {
        &&& i32::MIN <= self.offset_y <= i32::MAX
        &&& i32::MIN <= self.roffset_y <= i32::MAX
        &&& self.last_incline_dist <= u32::MAX
        &&& self.last_obst_dist <= u32::MAX
    }

    /// Unit that the generator makes next from `roll`.
    pub open spec fn next_unit(self, roll: Roll) -> TerrainUnit {
        generated_unit(roll, self.last_incline_dist, self.last_obst_dist, self.ground() as i32)
    }

    /// The terrain with `unit` added at its right edge.  Each distance
    /// counter starts again at zero if the unit is of its kind and counts one
    /// more column otherwise.
    pub open spec fn appended(self, unit: TerrainUnit) -> TerrainView {
        TerrainView {
            units: self.units.push(unit),
            last_incline_dist: if unit.unit_type.is_incline() {
                0
            } else {
                self.last_incline_dist + 1
            },
            last_obst_dist: if unit.obstacle {
                0
            } else {
                self.last_obst_dist + 1
            },
            ..self
        }
    }

    /// The terrain with its leftmost unit gone.
    pub open spec fn trimmed(self) -> TerrainView {
        TerrainView { units: self.units.drop_first(), ..self }
    }

    /// The terrain grown by the unit that the generator makes from `roll`.
    pub open spec fn extended(self, roll: Roll) -> TerrainView {
        self.appended(self.next_unit(roll))
    }

    /// The terrain grown by one generated unit for each of `rolls`, in order.
    pub open spec fn extended_by(self, rolls: Seq<Roll>) -> TerrainView
        decreases rolls.len(),
    {
        if rolls.len() == 0 {
            self
        } else {
            self.extended_by(rolls.drop_last()).extended(rolls.last())
        }
    }

    /// The terrain scrolled by one column: the leftmost unit leaves and the
    /// unit generated from `roll` enters at the right edge.
    pub open spec fn scrolled(self, roll: Roll) -> TerrainView {
        self.trimmed().extended(roll)
    }

    /// The terrain after one row of the owed elevation has been applied.
    pub open spec fn integrated(self) -> TerrainView {
        TerrainView {
            offset_y: self.offset_y + sign(self.roffset_y),
            roffset_y: self.roffset_y - sign(self.roffset_y),
            ..self
        }
    }

    /// The terrain after the slope of the unit in the player's column has
    /// been added to the owed elevation.
    pub open spec fn queued(self) -> TerrainView {
        TerrainView {
            roffset_y: self.roffset_y + self.units[PX as int].unit_type.slope(),
            ..self
        }
    }

    /// The terrain after `n` rows of the owed elevation have been applied,
    /// one at a time.
    pub open spec fn integrated_by(self, n: nat) -> TerrainView
        decreases n,
    {
        if n == 0 {
            self
        } else {
            self.integrated_by((n - 1) as nat).integrated()
        }
    }

    /// The terrain after one tick of the simulation: it scrolls with the unit
    /// generated from `roll`, applies one row of the owed elevation and then
    /// queues the slope of the unit that has arrived in the player's column.
    pub open spec fn ticked(self, roll: Roll) -> TerrainView {
        self.scrolled(roll).integrated().queued()
    }

    /// The terrain after one tick for each of `rolls`, in order.
    pub open spec fn ticked_by(self, rolls: Seq<Roll>) -> TerrainView
        decreases rolls.len(),
    {
        if rolls.len() == 0 {
            self
        } else {
            self.ticked_by(rolls.drop_last()).ticked(rolls.last())
        }
    }

    /// The spacing rules of the generator, on the window and its counters:
    /// obstacles stand on flat units only; between two inclines lie at least
    /// `MIN_INCLINE_DIST` units and between two obstacles at least
    /// `MIN_OBST_DIST`; and no unit among the last `last_incline_dist` is an
    /// incline, none among the last `last_obst_dist` an obstacle.
    pub open spec fn spaced(self) -> bool {
        &&& forall|i: int|
            0 <= i < self.units.len() && (#[trigger] self.units[i]).obstacle
                ==> self.units[i].unit_type == TerrainType::Flat
        &&& forall|i: int, j: int|
            0 <= i < j < self.units.len() && (#[trigger] self.units[i]).unit_type.is_incline()
                && (#[trigger] self.units[j]).unit_type.is_incline() ==> j - i > MIN_INCLINE_DIST
        &&& forall|i: int, j: int|
            0 <= i < j < self.units.len() && (#[trigger] self.units[i]).obstacle
                && (#[trigger] self.units[j]).obstacle ==> j - i > MIN_OBST_DIST
        &&& forall|i: int|
            0 <= i < self.units.len() && self.units.len() - self.last_incline_dist <= i
                ==> !(#[trigger] self.units[i]).unit_type.is_incline()
        &&& forall|i: int|
            0 <= i < self.units.len() && self.units.len() - self.last_obst_dist <= i
                ==> !(#[trigger] self.units[i]).obstacle
    }

    /// The window reaches beyond the player's column and obeys the spacing
    /// rules.
    pub open spec fn wf(self) -> bool {
        &&& self.units.len() > PX
        &&& self.spaced()
    }
}

/// The flat stretch at the start of a run obeys the spacing rules and holds
/// the player's column.
pub proof fn lemma_start_wf()
    ensures
        TerrainView::start().wf(),
        TerrainView::start().units.len() == SAFE_START,
        forall|i: int| 0 <= i < SAFE_START ==> TerrainView::start().units[i] == flat_unit(IY),
{
}

/// Growing a terrain by a generated unit keeps the spacing rules, whatever
/// the dice show.
pub proof fn lemma_extended_spaced(v: TerrainView, roll: Roll)
    requires
        v.spaced(),
    ensures
        v.extended(roll).spaced(),
        v.extended(roll).units.len() == v.units.len() + 1,
        forall|i: int| 0 <= i < v.units.len() ==> v.extended(roll).units[i] == v.units[i],
{
    let w = v.extended(roll);
    let n = v.units.len() as int;
    assert(w.units[n] == v.next_unit(roll));
    assert forall|i: int| 0 <= i < n implies #[trigger] w.units[i] == v.units[i] by {}
    assert forall|i: int, j: int|
        0 <= i < j < w.units.len() && (#[trigger] w.units[i]).unit_type.is_incline()
            && (#[trigger] w.units[j]).unit_type.is_incline() implies j - i > MIN_INCLINE_DIST by {
        assert(w.units[i] == v.units[i]);
        if j < n {
            assert(w.units[j] == v.units[j]);
        }
    }
    assert forall|i: int, j: int|
        0 <= i < j < w.units.len() && (#[trigger] w.units[i]).obstacle
            && (#[trigger] w.units[j]).obstacle implies j - i > MIN_OBST_DIST by {
        assert(w.units[i] == v.units[i]);
        if j < n {
            assert(w.units[j] == v.units[j]);
        }
    }
}

/// Dropping the leftmost unit keeps the spacing rules.
pub proof fn lemma_trimmed_spaced(v: TerrainView)
    requires
        v.spaced(),
        v.units.len() > 0,
    ensures
        v.trimmed().spaced(),
        v.trimmed().units.len() == v.units.len() - 1,
        forall|i: int| 0 <= i < v.units.len() - 1 ==> v.trimmed().units[i] == v.units[i + 1],
{
    let w = v.trimmed();
    assert forall|i: int| 0 <= i < w.units.len() implies #[trigger] w.units[i] == v.units[i + 1] by {}
}

/// Scrolling keeps the length of the window and, with it, the spacing rules.
pub proof fn lemma_scrolled_wf(v: TerrainView, roll: Roll)
    requires
        v.wf(),
    ensures
        v.scrolled(roll).wf(),
        v.scrolled(roll).units.len() == v.units.len(),
{
    lemma_trimmed_spaced(v);
    lemma_extended_spaced(v.trimmed(), roll);
}

/// However many ticks pass and whatever the dice show, the window keeps its
/// length and the spacing rules.
pub proof fn lemma_ticked_by_wf(v: TerrainView, rolls: Seq<Roll>)
    requires
        v.wf(),
    ensures
        v.ticked_by(rolls).wf(),
        v.ticked_by(rolls).units.len() == v.units.len(),
    decreases rolls.len(),
{
    if rolls.len() > 0 {
        lemma_ticked_by_wf(v, rolls.drop_last());
        lemma_scrolled_wf(v.ticked_by(rolls.drop_last()), rolls.last());
    }
}

/// Every sequence that the generator makes from the start of a run obeys the
/// spacing rules, whatever the dice show, and begins with the flat stretch.
pub proof fn lemma_generated_spaced(rolls: Seq<Roll>)
    ensures
        ({
            let t = TerrainView::start().extended_by(rolls);
            &&& t.spaced()
            &&& t.units.len() == SAFE_START + rolls.len()
            &&& forall|i: int| 0 <= i < SAFE_START ==> t.units[i] == flat_unit(IY)
            &&& t.offset_y == 0
            &&& t.roffset_y == 0
            &&& t.last_incline_dist <= SAFE_START + rolls.len()
            &&& t.last_obst_dist <= SAFE_START + rolls.len()
        }),
    decreases rolls.len(),
{
    lemma_start_wf();
    if rolls.len() > 0 {
        lemma_generated_spaced(rolls.drop_last());
        lemma_extended_spaced(TerrainView::start().extended_by(rolls.drop_last()), rolls.last());
    }
}

/// Applying owed elevation moves it into the applied elevation row by row:
/// the sum of the two never changes, the debt never grows, and after as many
/// rows as were owed nothing is owed any more.
pub proof fn lemma_integrated_by(v: TerrainView, n: nat)
    ensures
        v.integrated_by(n).offset_y + v.integrated_by(n).roffset_y == v.offset_y + v.roffset_y,
        v.roffset_y >= 0 ==> v.integrated_by(n).roffset_y == if n <= v.roffset_y {
            v.roffset_y - n
        } else {
            0
        },
        v.roffset_y <= 0 ==> v.integrated_by(n).roffset_y == if n <= -v.roffset_y {
            v.roffset_y + n
        } else {
            0
        },
        v.integrated_by(n).units == v.units,
        v.integrated_by(n).last_incline_dist == v.last_incline_dist,
        v.integrated_by(n).last_obst_dist == v.last_obst_dist,
    decreases n,
{
    if n > 0 {
        lemma_integrated_by(v, (n - 1) as nat);
    }
}

/// While the unit that arrives in the player's column is flat tick after
/// tick, the ticks change the elevation exactly as applying one owed row each
/// does.
pub proof fn lemma_ticked_by_on_flat(v: TerrainView, rolls: Seq<Roll>)
    requires
        forall|k: int|
            1 <= k <= rolls.len() ==> (#[trigger] v.ticked_by(rolls.take(k))).units[PX as int].unit_type
                == TerrainType::Flat,
    ensures
        v.ticked_by(rolls).offset_y == v.integrated_by(rolls.len()).offset_y,
        v.ticked_by(rolls).roffset_y == v.integrated_by(rolls.len()).roffset_y,
    decreases rolls.len(),
{
    if rolls.len() > 0 {
        let shorter = rolls.drop_last();
        assert forall|k: int| 1 <= k <= shorter.len() implies (#[trigger] v.ticked_by(
            shorter.take(k),
        )).units[PX as int].unit_type == TerrainType::Flat by {
            assert(shorter.take(k) =~= rolls.take(k));
        }
        lemma_ticked_by_on_flat(v, shorter);
        assert(rolls.take(rolls.len() as int) =~= rolls);
        assert(v.ticked_by(rolls).units[PX as int].unit_type == TerrainType::Flat);
        let moved = v.ticked_by(shorter).scrolled(rolls.last()).integrated();
        assert(v.ticked_by(rolls) == moved.queued());
        assert(moved.units == v.ticked_by(rolls).units);
    }
}

/// The owed elevation reaches zero within as many ticks as rows are owed,
/// provided that no incline arrives in the player's column meanwhile; all
/// that was owed has then been applied.
pub proof fn lemma_owed_elevation_settles(v: TerrainView, rolls: Seq<Roll>)
    requires
        forall|k: int|
            1 <= k <= rolls.len() ==> (#[trigger] v.ticked_by(rolls.take(k))).units[PX as int].unit_type
                == TerrainType::Flat,
        rolls.len() >= v.roffset_y,
        rolls.len() >= -v.roffset_y,
    ensures
        v.ticked_by(rolls).roffset_y == 0,
        v.ticked_by(rolls).offset_y == v.offset_y + v.roffset_y,
{
    lemma_ticked_by_on_flat(v, rolls);
    lemma_integrated_by(v, rolls.len());
}

/// Draws an integer from `0..bound`.
///
/// Calls `rand::random_range` on the half-open range `0..bound`, which
/// samples the thread-local generator.  Trusted: the call panics on an empty
/// range, which `bound > 0` rules out, and what it returns lies in the range.
#[verifier::external_body]
fn random_below(bound: u32) -> (r: u32)
    requires
        bound > 0,
    ensures
        r < bound,
{
    rand::random_range(0..bound)
}

/// Throws the generator's two dice.
pub fn draw_roll() -> (roll: Roll)
    ensures
        roll.in_range(),
{
    let kind = random_below(ROLL_SIDES);
    let obstacle = random_below(ROLL_SIDES);
    Roll { kind, obstacle }
}

/// Makes the next unit of a terrain whose counters and ground row are given.
pub fn generate_unit(roll: Roll, last_incline_dist: u32, last_obst_dist: u32, ground: i32) -> (unit:
    TerrainUnit)
    ensures
        unit == generated_unit(roll, last_incline_dist as nat, last_obst_dist as nat, ground),
{
    let unit_type = if last_incline_dist < MIN_INCLINE_DIST {
        TerrainType::Flat
    } else if roll.kind < UP_ROLLS {
        TerrainType::Up
    } else if roll.kind < UP_ROLLS + DOWN_ROLLS {
        TerrainType::Down
    } else {
        TerrainType::Flat
    };
    let obstacle = unit_type == TerrainType::Flat && last_obst_dist >= MIN_OBST_DIST
        && roll.obstacle < OBSTACLE_ROLLS;
    TerrainUnit { unit_type, initial_y: ground, obstacle }
}

impl Terrain {
    /// The flat stretch on which every run begins.
    pub fn start() -> (t: Terrain)
        ensures
            t@ == TerrainView::start(),
            t@.wf(),
    {
        proof {
            lemma_start_wf();
        }
        let mut vec: Vec<TerrainUnit> = Vec::new();
        while vec.len() < SAFE_START
            invariant
                vec@.len() <= SAFE_START,
                forall|i: int| 0 <= i < vec@.len() ==> vec@[i] == flat_unit(IY),
            decreases SAFE_START - vec@.len(),
        {
            vec.push(TerrainUnit { unit_type: TerrainType::Flat, initial_y: IY, obstacle: false });
        }
        assert(vec@ =~= TerrainView::start().units);
        Terrain {
            vec,
            offset_y: 0,
            roffset_y: 0,
            last_incline_dist: SAFE_START as u32,
            last_obst_dist: SAFE_START as u32,
        }
    }

    /// The terrain that the generator makes from the start of a run with
    /// `rolls`: the flat stretch, then one unit for each roll.
    pub fn generated(rolls: &Vec<Roll>) -> (t: Terrain)
        requires
            SAFE_START + rolls@.len() <= u32::MAX,
        ensures
            t@ == TerrainView::start().extended_by(rolls@),
            t@.wf(),
            t@.units.len() == SAFE_START + rolls@.len(),
            forall|i: int| 0 <= i < SAFE_START ==> t@.units[i] == flat_unit(IY),
            t@.offset_y == 0,
            t@.roffset_y == 0,
            t@.last_incline_dist <= t@.units.len(),
            t@.last_obst_dist <= t@.units.len(),
    {
        let mut t = Terrain::start();
        let mut n: usize = 0;
        proof {
            lemma_generated_spaced(rolls@.take(0));
        }
        while n < rolls.len()
            invariant
                n <= rolls@.len(),
                SAFE_START + rolls@.len() <= u32::MAX,
                t@ == TerrainView::start().extended_by(rolls@.take(n as int)),
            decreases rolls@.len() - n,
        {
            proof {
                lemma_generated_spaced(rolls@.take(n as int));
                assert(rolls@.take(n + 1).drop_last() =~= rolls@.take(n as int));
                lemma_generated_spaced(rolls@.take(n + 1));
            }
            t.grow(rolls[n]);
            n += 1;
        }
        proof {
            assert(rolls@.take(n as int) =~= rolls@);
            lemma_generated_spaced(rolls@);
        }
        t
    }

    /// A terrain for a new run: the flat stretch, then units that the dice
    /// decide, up to the length of the window.
    pub fn new() -> (t: Terrain)
        ensures
            t@.wf(),
            t@.units.len() == TERRAIN_LEN,
            forall|i: int| 0 <= i < SAFE_START ==> t@.units[i] == flat_unit(IY),
            t@.offset_y == 0,
            t@.roffset_y == 0,
            t@.last_incline_dist <= TERRAIN_LEN,
            t@.last_obst_dist <= TERRAIN_LEN,
            exists|rolls: Seq<Roll>|
                {
                    &&& rolls.len() == TERRAIN_LEN - SAFE_START
                    &&& all_in_range(rolls)
                    &&& t@ == TerrainView::start().extended_by(rolls)
                },
    {
        let mut rolls: Vec<Roll> = Vec::new();
        while rolls.len() < TERRAIN_LEN - SAFE_START
            invariant
                rolls@.len() <= TERRAIN_LEN - SAFE_START,
                all_in_range(rolls@),
            decreases TERRAIN_LEN - SAFE_START - rolls@.len(),
        {
            rolls.push(draw_roll());
        }
        Terrain::generated(&rolls)
    }

    /// Adds the unit generated from `roll` at the right edge.
    ///
    /// The ground row and the counters must stay within their integers.
    pub fn grow(&mut self, roll: Roll)
        requires
            old(self)@.ground() <= i32::MAX,
            old(self)@.extended(roll).representable(),
        ensures
            final(self)@ == old(self)@.extended(roll),
            old(self)@.spaced() ==> final(self)@.spaced(),
    {
        proof {
            if self@.spaced() {
                lemma_extended_spaced(self@, roll);
            }
        }
        let unit = generate_unit(
            roll,
            self.last_incline_dist,
            self.last_obst_dist,
            IY - self.offset_y,
        );
        self.vec.push(unit);
        if unit.unit_type != TerrainType::Flat {
            self.last_incline_dist = 0;
        } else {
            self.last_incline_dist += 1;
        }
        if unit.obstacle {
            self.last_obst_dist = 0;
        } else {
            self.last_obst_dist += 1;
        }
    }

    /// Scrolls by one column with the unit generated from `roll`.
    ///
    /// The window must hold a unit to drop, and the ground row and the
    /// counters must stay within their integers.
    pub fn scroll_with(&mut self, roll: Roll)
        requires
            old(self)@.units.len() > 0,
            old(self)@.ground() <= i32::MAX,
            old(self)@.scrolled(roll).representable(),
        ensures
            final(self)@ == old(self)@.scrolled(roll),
            final(self)@.units.len() == old(self)@.units.len(),
            old(self)@.wf() ==> final(self)@.wf(),
    {
        proof {
            if self@.wf() {
                lemma_scrolled_wf(self@, roll);
            }
        }
        self.vec.remove(0);
        self.grow(roll);
    }

    /// Scrolls by one column with a unit that the dice decide.
    pub fn scroll_terrain(&mut self)
        requires
            old(self)@.units.len() > 0,
            old(self)@.ground() <= i32::MAX,
            old(self)@.last_incline_dist < u32::MAX,
            old(self)@.last_obst_dist < u32::MAX,
        ensures
            exists|roll: Roll| roll.in_range() && final(self)@ == old(self)@.scrolled(roll),
            final(self)@.units.len() == old(self)@.units.len(),
            old(self)@.wf() ==> final(self)@.wf(),
    {
        let roll = draw_roll();
        self.scroll_with(roll);
    }

    /// Applies one row of the owed elevation, towards zero debt.
    ///
    /// The applied elevation must stay within its integer.
    pub fn offset(&mut self, _player: &Player)
        requires
            old(self)@.integrated().representable(),
        ensures
            final(self)@ == old(self)@.integrated(),
    {
        if self.roffset_y > 0 {
            self.offset_y += 1;
            self.roffset_y -= 1;
        } else if self.roffset_y < 0 {
            self.offset_y -= 1;
            self.roffset_y += 1;
        }
    }

    /// Adds the slope of the unit in the player's column to the owed
    /// elevation.
    ///
    /// The owed elevation must stay within its integer.
    pub fn roffset(&mut self)
        requires
            PX < old(self)@.units.len(),
            old(self)@.queued().representable(),
        ensures
            final(self)@ == old(self)@.queued(),
    {
        let slope = self.vec[PX as usize].unit_type.elevation();
        self.roffset_y += slope;
    }
}

} // verus!
