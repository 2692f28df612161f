use vstd::prelude::*;

use vstd::set_lib::{lemma_int_range, set_int_range};

use crate::rng::random_in_range;

verus! {

/// Number of fixed-point units in one item (speeds are items per tick).
pub const SPEED_SCALE: u32 = 1_000_000;

/// A probability of one, in fixed-point parts.
pub const PROBABILITY_SCALE: u32 = 1_000_000;

/// A `(min, max)` pair of speeds, in `SPEED_SCALE` units.
#[derive(Clone, Copy, Debug, PartialEq, Eq, Structural)]
pub struct SpeedRange {
    pub min: u32,
    pub max: u32,
}

impl SpeedRange {
    /// The pair is ordered.
    pub open spec fn well_formed(self) -> bool {
        self.min <= self.max
    }

    /// The values a sample may take: the half-open range `min..max`, or
    /// `min` itself when the range is a single point.
    pub open spec fn admits(self, v: int) -> bool {
        if self.min < self.max {
            self.min <= v < self.max
        } else {
            v == self.min
        }
    }

    /// The pair with its ends put in order.
    pub open spec fn spec_normalized(self) -> SpeedRange {
        if self.max < self.min {
            SpeedRange { min: self.max, max: self.min }
        } else {
            self
        }
    }

    pub fn new(min: u32, max: u32) -> (r: SpeedRange)
        ensures
            r.min == min,
            r.max == max,
    {
        SpeedRange { min, max }
    }

    /// Swaps an inverted pair so that `min <= max`.
    pub fn normalized(self) -> (r: SpeedRange)
        ensures
            r == self.spec_normalized(),
            r.well_formed(),
    {
        if self.max < self.min {
            SpeedRange { min: self.max, max: self.min }
        } else {
            self
        }
    }

    /// Draws a uniform value from the range.
    pub fn sample(&self) -> (r: u32)
        requires
            self.well_formed(),
        ensures
            self.admits(r as int),
    {
        if self.min < self.max {
            random_in_range(self.min, self.max)
        } else {
            self.min
        }
    }
}

/// Direction in which the wheel turns for one roll.
#[derive(Clone, Copy, Debug, PartialEq, Eq, Structural)]
pub enum Direction {
    Forward,
    Reverse,
}

impl Direction {
    /// `+1` or `-1`.
    pub open spec fn sign(self) -> int {
        match self {
            Direction::Forward => 1,
            Direction::Reverse => -1,
        }
    }
}

/// The direction that a uniform draw out of `0..PROBABILITY_SCALE` selects:
/// the draws below `reverse_chance` turn the wheel backwards.
pub open spec fn direction_for_draw(draw: int, reverse_chance: int) -> Direction {
    if draw < reverse_chance {
        Direction::Reverse
    } else {
        Direction::Forward
    }
}

/// The draws out of `0..PROBABILITY_SCALE` that reverse the wheel.
pub open spec fn reversing_draws(reverse_chance: int) -> Set<int> {
    Set::new(
        |d: int| 0 <= d < PROBABILITY_SCALE && direction_for_draw(d, reverse_chance) == Direction::Reverse,
    )
}

/// Of the `PROBABILITY_SCALE` equally likely draws of a roll's direction,
/// exactly `reverse_chance` (at most all of them) reverse the wheel, so a
/// roll is reversed with probability `reverse_chance / PROBABILITY_SCALE`.
pub proof fn lemma_reverse_draw_count(reverse_chance: int)
    requires
        0 <= reverse_chance,
    ensures
        reversing_draws(reverse_chance).finite(),
        reversing_draws(reverse_chance).len() == if reverse_chance < PROBABILITY_SCALE {
            reverse_chance
        } else {
            PROBABILITY_SCALE as int
        },
{
    let m = if reverse_chance < PROBABILITY_SCALE {
        reverse_chance
    } else {
        PROBABILITY_SCALE as int
    };
    assert(reversing_draws(reverse_chance) =~= set_int_range(0, m));
    lemma_int_range(0, m);
}

/// Normalizing a pair keeps its two values and puts the smaller first.
pub proof fn lemma_normalized_pair(r: SpeedRange)
    ensures
        r.spec_normalized().well_formed(),
        r.spec_normalized().min == if r.min <= r.max { r.min } else { r.max },
        r.spec_normalized().max == if r.min <= r.max { r.max } else { r.min },
{
}

/// Settings of the wheel and of the audio.
#[derive(Clone, Debug)]
pub struct Config {
    pub audio_device: String,
    pub music: bool,
    /// Chance of a reversed roll, in parts of `PROBABILITY_SCALE`.
    pub reverse_chance: u32,
    pub speed_reduce: SpeedRange,
    /// Below this speed the slow decay range applies.
    pub speed_slow_limit: u32,
    pub speed_slow_reduce: SpeedRange,
    pub speed_start: SpeedRange,
    pub speed_stop: SpeedRange,
    pub start_fullscreen: bool,
    pub volume: u32,
}

impl Config {
    /// Every speed range is ordered.
    pub open spec fn well_formed(self) -> bool {
        &&& self.speed_reduce.well_formed()
        &&& self.speed_slow_reduce.well_formed()
        &&& self.speed_start.well_formed()
        &&& self.speed_stop.well_formed()
    }

    /// The range that decays a wheel turning at `speed`.
    pub open spec fn spec_decay_range(self, speed: int) -> SpeedRange {
        if speed < self.speed_slow_limit {
            self.speed_slow_reduce
        } else {
            self.speed_reduce
        }
    }

    /// Puts every inverted `(min, max)` pair in order; nothing else changes.
    pub fn normalize(&mut self)
        ensures
            final(self).speed_reduce == old(self).speed_reduce.spec_normalized(),
            final(self).speed_slow_reduce == old(self).speed_slow_reduce.spec_normalized(),
            final(self).speed_start == old(self).speed_start.spec_normalized(),
            final(self).speed_stop == old(self).speed_stop.spec_normalized(),
            final(self).audio_device == old(self).audio_device,
            final(self).music == old(self).music,
            final(self).reverse_chance == old(self).reverse_chance,
            final(self).speed_slow_limit == old(self).speed_slow_limit,
            final(self).start_fullscreen == old(self).start_fullscreen,
            final(self).volume == old(self).volume,
            final(self).well_formed(),
    {
        self.speed_reduce = self.speed_reduce.normalized();
        self.speed_slow_reduce = self.speed_slow_reduce.normalized();
        self.speed_start = self.speed_start.normalized();
        self.speed_stop = self.speed_stop.normalized();
    }

    /// The range that decays a wheel turning at `speed`.
    pub fn decay_range(&self, speed: i64) -> (r: SpeedRange)
        ensures
            r == self.spec_decay_range(speed as int),
    {
        if speed < self.speed_slow_limit as i64 {
            self.speed_slow_reduce
        } else {
            self.speed_reduce
        }
    }

    /// Draws a normal decay.
    pub fn speed_reduce(&self) -> (r: u32)
        requires
            self.well_formed(),
        ensures
            self.speed_reduce.admits(r as int),
    {
        self.speed_reduce.sample()
    }

    /// Draws a slow decay.
    pub fn speed_slow_reduce(&self) -> (r: u32)
        requires
            self.well_formed(),
        ensures
            self.speed_slow_reduce.admits(r as int),
    {
        self.speed_slow_reduce.sample()
    }

    /// Draws a starting speed.
    pub fn speed_start(&self) -> (r: u32)
        requires
            self.well_formed(),
        ensures
            self.speed_start.admits(r as int),
    {
        self.speed_start.sample()
    }

    /// Draws the cap that a stop request puts on the speed.
    pub fn speed_stop(&self) -> (r: u32)
        requires
            self.well_formed(),
        ensures
            self.speed_stop.admits(r as int),
    {
        self.speed_stop.sample()
    }

    /// The direction that the uniform `draw` selects.
    pub fn direction_for_draw(&self, draw: u32) -> (r: Direction)
        ensures
            r == direction_for_draw(draw as int, self.reverse_chance as int),
    {
        if draw < self.reverse_chance {
            Direction::Reverse
        } else {
            Direction::Forward
        }
    }

    /// Draws the direction of a roll: reversed with chance
    /// `reverse_chance / PROBABILITY_SCALE`.
    pub fn sample_direction(&self) -> (r: Direction)
        ensures
            exists|d: int|
                0 <= d < PROBABILITY_SCALE && r == #[trigger] direction_for_draw(
                    d,
                    self.reverse_chance as int,
                ),
            self.reverse_chance == 0 ==> r == Direction::Forward,
            self.reverse_chance >= PROBABILITY_SCALE ==> r == Direction::Reverse,
    {
        let draw = random_in_range(0, PROBABILITY_SCALE);
        self.direction_for_draw(draw)
    }
}

impl Default for Config {
    fn default() -> (r: Config)
        ensures
            r.audio_device@ == Seq::<char>::empty(),
            r.music,
            r.reverse_chance == 250_000,
            r.speed_reduce == (SpeedRange { min: 30_000, max: 50_000 }),
            r.speed_slow_limit == 1_000_000,
            r.speed_slow_reduce == (SpeedRange { min: 10_000, max: 1_000 }),
            r.speed_start == (SpeedRange { min: 4_500_000, max: 5_000_000 }),
            r.speed_stop == (SpeedRange { min: 250_000, max: 500_000 }),
            !r.start_fullscreen,
            r.volume == 100,
    {
        Config {
            audio_device: String::new(),
            music: true,
            reverse_chance: 250_000,
            speed_reduce: SpeedRange { min: 30_000, max: 50_000 },
            speed_slow_limit: 1_000_000,
            speed_slow_reduce: SpeedRange { min: 10_000, max: 1_000 },
            speed_start: SpeedRange { min: 4_500_000, max: 5_000_000 },
            speed_stop: SpeedRange { min: 250_000, max: 500_000 },
            start_fullscreen: false,
            volume: 100,
        }
    }
}

} // verus!
