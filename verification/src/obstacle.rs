//! A wall with a gap: a fixed world column, a gap centre drawn at random, and
//! a gap size that shrinks as the score grows.

use vstd::prelude::*;
use crate::player::Player;
use crate::units::round_units;

verus! {

/// Gap centres are drawn from `[GAP_MIN, GAP_MAX)`.
pub const GAP_MIN: i64 = 10;

/// Exclusive upper end of the gap-centre range.
pub const GAP_MAX: i64 = 40;

/// The gap never opens wider than this many cells.
pub const MAX_GAP_SIZE: i64 = 20;

/// The gap never closes below this many cells.
pub const MIN_GAP_SIZE: i64 = 2;

#[verifier::external_type_specification]
#[verifier::external_body]
pub struct ExRandomNumberGenerator(bracket_lib::random::RandomNumberGenerator);

/// Relies on bracket_lib's `RandomNumberGenerator::new`: builds a generator
/// seeded from the machine's entropy; nothing is promised of its draws here.
#[verifier::external_body]
fn fresh_rng() -> bracket_lib::random::RandomNumberGenerator {
    bracket_lib::random::RandomNumberGenerator::new()
}

/// Relies on bracket_lib's `RandomNumberGenerator::range`, documented as
/// inclusive of `min` and exclusive of `max`; it panics on an empty range,
/// which the precondition rules out.
#[verifier::external_body]
fn rng_range(rng: &mut bracket_lib::random::RandomNumberGenerator, min: i64, max: i64) -> (r: i64)
    requires
        min < max,
    ensures
        min <= r < max,
{
    rng.range(min, max)
}

/// A wall at world column `x` whose gap of height `size` is centred on row
/// `gap_y`.
#[derive(Clone, Copy, Debug, PartialEq, Eq, Structural)]
pub struct Obstacle {
    pub x: i64,
    pub gap_y: i64,
    pub size: i64,
}

/// Gap size for a score: `20 - score`, floored at 2.
pub open spec fn size_for(score: int) -> int {
    if 20 - score > 2 {
        20 - score
    } else {
        2
    }
}

/// The gap size only shrinks as the score grows, and sits at its floor of 2
/// from a score of 18 on.
pub proof fn lemma_size_monotone(s1: int, s2: int)
    requires
        s1 <= s2,
    ensures
        size_for(s2) <= size_for(s1),
        s2 >= 18 ==> size_for(s2) == 2,
{
}

/// The collision test: the player's rounded column equals the wall's column
/// and its rounded row lies strictly outside `[gap_y - size/2, gap_y + size/2]`.
pub open spec fn hit_spec(o: Obstacle, p: Player) -> bool {
    &&& round_units(p.x as int) == o.x
    &&& {
        ||| round_units(p.y as int) < o.gap_y - o.size / 2
        ||| round_units(p.y as int) > o.gap_y + o.size / 2
    }
}

impl Obstacle {
    /// Gap centre within the drawing range, gap size within its floor and
    /// ceiling.
    pub open spec fn wf(self) -> bool {
        &&& GAP_MIN <= self.gap_y < GAP_MAX
        &&& MIN_GAP_SIZE <= self.size <= MAX_GAP_SIZE
    }

    /// A wall at `x` sized for `score`, with the given gap centre.
    pub fn new_with_gap(x: i64, score: i64, gap_y: i64) -> (o: Obstacle)
        requires
            0 <= score,
            GAP_MIN <= gap_y < GAP_MAX,
        ensures
            o.x == x,
            o.gap_y == gap_y,
            o.size == size_for(score as int),
            o.wf(),
    {
        let shrunk = 20 - score;
        let size = if shrunk > 2 {
            shrunk
        } else {
            2
        };
        Obstacle { x, gap_y, size }
    }

    /// A wall at `x` sized for `score`, its gap centre drawn at random from
    /// `[GAP_MIN, GAP_MAX)`.
    pub fn new(x: i64, score: i64) -> (o: Obstacle)
        requires
            0 <= score,
        ensures
            o.x == x,
            o.size == size_for(score as int),
            o.wf(),
    {
        let mut rng = fresh_rng();
        let gap_y = rng_range(&mut rng, GAP_MIN, GAP_MAX);
        Obstacle::new_with_gap(x, score, gap_y)
    }

    /// Whether the player collides with this wall, per `hit_spec`: true
    /// exactly when the rounded columns coincide and the rounded row is
    /// strictly outside the gap.
    pub fn hit(&self, player: &Player) -> (r: bool)
        requires
            self.wf(),
            player.wf(),
        ensures
            r == hit_spec(*self, *player),
    {
        let half_size = self.size / 2;
        let does_x_match = player.world_x() == self.x;
        let player_above_gap = player.screen_y() < self.gap_y - half_size;
        let player_below_gap = player.screen_y() > self.gap_y + half_size;
        does_x_match && (player_above_gap || player_below_gap)
    }
}

} // verus!
