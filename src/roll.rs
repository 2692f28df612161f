use vstd::prelude::*;
use vstd::arithmetic::div_mod::{lemma_fundamental_div_mod, lemma_mod_multiples_vanish, lemma_small_mod};

use crate::config::{Config, Direction, SPEED_SCALE};
use crate::rng::shuffle_strings;

verus! {

/// Number of items shown around the wheel's center.
pub const WINDOW_SIZE: usize = 5;

/// Why a roll could not start.
#[derive(Clone, Copy, Debug, PartialEq, Eq, Structural)]
pub enum RollError {
    /// The list holds no item, so there is nothing to turn.
    EmptyList,
}

/// What a tick of the wheel came to.
#[derive(Clone, Copy, Debug, PartialEq, Eq, Structural)]
pub enum TickOutcome {
    /// The wheel still turns: another window follows.
    Continue,
    /// The speed went below zero: the roll is over.
    Stopped,
}

/// Length of the wheel's rim, in `SPEED_SCALE` units, for `total` items.
pub open spec fn circumference(total: int) -> int {
    total * SPEED_SCALE
}

/// The item under the wheel's center: the position rounded to the nearest
/// item (halves up), taken modulo the number of items.
pub open spec fn center_of(position: int, total: int) -> int {
    ((position + SPEED_SCALE / 2) / (SPEED_SCALE as int)) % total
}

/// Index `i` wrapped onto `0..total` (Euclidean remainder).
pub open spec fn wrap_index(i: int, total: int) -> int {
    i % total
}

/// The indices of a window: `center - 2 ..= center + 2`, each wrapped.
pub open spec fn window_indices_of(center: int, total: int) -> Seq<int> {
    Seq::new(WINDOW_SIZE as nat, |k: int| wrap_index(center + k - 2, total))
}

/// The position after turning `speed` units in `direction`, on the rim.
pub open spec fn moved_position(position: int, speed: int, direction: Direction, total: int) -> int {
    (position + direction.sign() * speed) % circumference(total)
}

/// The speed after one decay by `decay`; a stop request caps it at `cap`.
pub open spec fn decayed_speed(speed: int, decay: int, cap: Option<int>) -> int {
    match cap {
        Some(c) => if c < speed - decay { c } else { speed - decay },
        None => speed - decay,
    }
}

/// The cap that a tick applies: `cap` when a stop was requested.
pub open spec fn requested_cap(stop_requested: bool, cap: int) -> Option<int> {
    if stop_requested {
        Some(cap)
    } else {
        None
    }
}

/// Adding a multiple of `t` leaves the remainder modulo `t` as it is.
proof fn lemma_shift_by_multiple(x: int, y: int, t: int, n: int)
    requires
        0 < t,
        x == y + t * n,
    ensures
        x % t == y % t,
{
    lemma_mod_multiples_vanish(n, y, t);
}

/// The indices of the window around `center` on a list of `total` items.
pub fn window_indices(center: usize, total: usize) -> (r: Vec<usize>)
    requires
        0 < total,
        center < total,
    ensures
        r@.len() == WINDOW_SIZE,
        forall|k: int| 0 <= k < WINDOW_SIZE ==> #[trigger] r@[k] < total,
        forall|k: int|
            0 <= k < WINDOW_SIZE ==> #[trigger] r@[k] as int == wrap_index(
                center + k - 2,
                total as int,
            ),
        forall|k: int|
            0 <= k < WINDOW_SIZE ==> r@[k] as int == #[trigger] window_indices_of(
                center as int,
                total as int,
            )[k],
{
    let mut r: Vec<usize> = Vec::new();
    let mut k: usize = 0;
    while k < WINDOW_SIZE
        invariant
            0 < total,
            center < total,
            k <= WINDOW_SIZE,
            r@.len() == k,
            forall|j: int| 0 <= j < k ==> r@[j] < total,
            forall|j: int|
                0 <= j < k ==> r@[j] as int == wrap_index(center + j - 2, total as int),
        decreases WINDOW_SIZE - k,
    {
        let idx: usize = if k < 2 {
            let d: usize = (2 - k) % total;
            if center >= d {
                center - d
            } else {
                center + (total - d)
            }
        } else {
            let d: usize = (k - 2) % total;
            if center < total - d {
                center + d
            } else {
                center - (total - d)
            }
        };
        proof {
            let t = total as int;
            let dd = (if k < 2 { 2 - k } else { k - 2 }) as int;
            lemma_fundamental_div_mod(dd, t);
            let q = dd / t;
            let n: int = if k < 2 {
                if center >= dd % t { -q } else { -q - 1 }
            } else {
                if center < t - dd % t { q } else { q + 1 }
            };
            assert(t * (-q) == -(t * q)) by (nonlinear_arith);
            assert(t * (-q - 1) == -(t * q) - t) by (nonlinear_arith);
            assert(t * (q + 1) == t * q + t) by (nonlinear_arith);
            lemma_shift_by_multiple(center + k - 2, idx as int, t, n);
            lemma_small_mod(idx as nat, t as nat);
        }
        r.push(idx);
        k = k + 1;
    }
    r
}

/// One roll of the wheel over a shuffled list.
#[derive(Clone, Debug)]
pub struct RollSession {
    pub list_name: String,
    /// The items, in wheel order; fixed for the whole roll.
    pub items: Vec<String>,
    /// Point of the rim under the center, in `SPEED_SCALE` units.
    pub position: u128,
    /// Items per tick, in `SPEED_SCALE` units; below zero once the roll is over.
    pub speed: i64,
    pub direction: Direction,
}

impl RollSession {
    /// The list is not empty, the position lies on the rim, and the speed
    /// is bounded by the largest speed a configuration can give.
    pub open spec fn well_formed(self) -> bool {
        &&& self.items@.len() > 0
        &&& self.position < circumference(self.items@.len() as int)
        &&& self.speed <= u32::MAX
        &&& self.speed >= -(u32::MAX as int)
    }

    /// The roll is over.
    pub open spec fn finished(self) -> bool {
        self.speed < 0
    }

    pub open spec fn center(self) -> int {
        center_of(self.position as int, self.items@.len() as int)
    }

    /// The items the window shows now.
    pub open spec fn spec_window(self) -> Seq<String> {
        window_indices_of(self.center(), self.items@.len() as int).map_values(
            |i: int| self.items@[i],
        )
    }

    /// A roll at the wheel's origin over `items` in the given order, turning
    /// at `start_speed` in `direction`; an empty list cannot roll.
    pub fn new(list_name: String, items: Vec<String>, start_speed: u32, direction: Direction) -> (r:
        Result<RollSession, RollError>)
        ensures
            items@.len() == 0 <==> r is Err,
            r is Err ==> r == Err::<RollSession, RollError>(RollError::EmptyList),
            r matches Ok(s) ==> {
                &&& s.well_formed()
                &&& s.list_name == list_name
                &&& s.items@ == items@
                &&& s.position == 0
                &&& s.speed == start_speed
                &&& s.direction == direction
            },
    {
        if items.len() == 0 {
            return Err(RollError::EmptyList);
        }
        Ok(RollSession { list_name, items, position: 0, speed: start_speed as i64, direction })
    }

    /// Shuffles `items` and starts a roll over them, with a starting speed
    /// and a direction drawn from `config`; an empty list cannot roll.
    pub fn start(list_name: String, items: Vec<String>, config: &Config) -> (r: Result<
        RollSession,
        RollError,
    >)
        requires
            config.well_formed(),
        ensures
            items@.len() == 0 <==> r is Err,
            r is Err ==> r == Err::<RollSession, RollError>(RollError::EmptyList),
            r matches Ok(s) ==> {
                &&& s.well_formed()
                &&& s.list_name == list_name
                &&& s.items@.to_multiset() == items@.to_multiset()
                &&& s.position == 0
                &&& config.speed_start.admits(s.speed as int)
                &&& exists|d: int|
                    0 <= d < crate::config::PROBABILITY_SCALE && s.direction
                        == #[trigger] crate::config::direction_for_draw(
                        d,
                        config.reverse_chance as int,
                    )
            },
    {
        if items.len() == 0 {
            return Err(RollError::EmptyList);
        }
        let mut items = items;
        shuffle_strings(&mut items);
        let speed = config.speed_start();
        let direction = config.sample_direction();
        RollSession::new(list_name, items, speed, direction)
    }

    /// Index of the item under the center.
    pub fn center_index(&self) -> (r: usize)
        requires
            self.well_formed(),
        ensures
            r as int == self.center(),
            r < self.items@.len(),
    {
        let total = self.items.len() as u128;
        let half = (SPEED_SCALE / 2) as u128;
        let rounded = (self.position + half) / (SPEED_SCALE as u128);
        ((rounded % total) as usize)
    }

    /// The five items around the center, in wheel order.
    pub fn window(&self) -> (r: Vec<String>)
        requires
            self.well_formed(),
        ensures
            r@ == self.spec_window(),
    {
        let total = self.items.len();
        let indices = window_indices(self.center_index(), total);
        let mut r: Vec<String> = Vec::new();
        let mut k: usize = 0;
        while k < WINDOW_SIZE
            invariant
                self.well_formed(),
                total == self.items@.len(),
                indices@.len() == WINDOW_SIZE,
                forall|j: int| 0 <= j < WINDOW_SIZE ==> indices@[j] < total,
                forall|j: int|
                    0 <= j < WINDOW_SIZE ==> indices@[j] as int == #[trigger] window_indices_of(
                        self.center(),
                        total as int,
                    )[j],
                k <= WINDOW_SIZE,
                r@.len() == k,
                forall|j: int| 0 <= j < k ==> r@[j] == self.spec_window()[j],
            decreases WINDOW_SIZE - k,
        {
            let item = self.items[indices[k]].clone();
            proof {
                assert(window_indices_of(self.center(), total as int)[k as int] == indices@[k as int]);
            }
            r.push(item);
            k = k + 1;
        }
        assert(r@ =~= self.spec_window());
        r
    }

    /// Turns the wheel by its speed, then decays the speed by `decay`; a stop
    /// request caps it at `stop_cap`.
    pub fn advance(&mut self, decay: u32, stop_cap: Option<u32>) -> (r: TickOutcome)
        requires
            old(self).well_formed(),
            !old(self).finished(),
        ensures
            final(self).well_formed(),
            final(self).list_name == old(self).list_name,
            final(self).items@ == old(self).items@,
            final(self).direction == old(self).direction,
            final(self).position as int == moved_position(
                old(self).position as int,
                old(self).speed as int,
                old(self).direction,
                old(self).items@.len() as int,
            ),
            final(self).speed as int == decayed_speed(
                old(self).speed as int,
                decay as int,
                match stop_cap {
                    Some(c) => Some(c as int),
                    None => None,
                },
            ),
            r == TickOutcome::Stopped <==> final(self).finished(),
    {
        let total = self.items.len() as u128;
        let c = total * (SPEED_SCALE as u128);
        let step = (self.speed as u128) % c;
        let ghost p = self.position as int;
        let ghost s = self.speed as int;
        let ghost ci = c as int;
        proof {
            lemma_fundamental_div_mod(s, ci);
        }
        match self.direction {
            Direction::Forward => {
                self.position = (self.position + step) % c;
                proof {
                    lemma_shift_by_multiple(p + s, p + step, ci, s / ci);
                    assert(Direction::Forward.sign() * s == s);
                    assert(ci == circumference(old(self).items@.len() as int));
                }
            },
            Direction::Reverse => {
                self.position = (self.position + (c - step)) % c;
                proof {
                    let q = s / ci;
                    assert(ci * (-q - 1) == -(ci * q) - ci) by (nonlinear_arith);
                    lemma_shift_by_multiple(p - s, p + (ci - step), ci, -q - 1);
                    assert(Direction::Reverse.sign() * s == -s);
                    assert(ci == circumference(old(self).items@.len() as int));
                }
            },
        }
        let mut speed = self.speed - decay as i64;
        if let Some(cap) = stop_cap {
            if (cap as i64) < speed {
                speed = cap as i64;
            }
        }
        self.speed = speed;
        if speed < 0 {
            TickOutcome::Stopped
        } else {
            TickOutcome::Continue
        }
    }

    /// One tick after a window was shown: draws the decay from the range
    /// that the current speed selects and, when a stop was requested, the cap
    /// from `speed_stop`, then advances.
    pub fn tick(&mut self, config: &Config, stop_requested: bool) -> (r: TickOutcome)
        requires
            old(self).well_formed(),
            !old(self).finished(),
            config.well_formed(),
        ensures
            final(self).well_formed(),
            final(self).list_name == old(self).list_name,
            final(self).items@ == old(self).items@,
            final(self).direction == old(self).direction,
            final(self).position as int == moved_position(
                old(self).position as int,
                old(self).speed as int,
                old(self).direction,
                old(self).items@.len() as int,
            ),
            exists|d: int, c: int|
                config.spec_decay_range(old(self).speed as int).admits(d)
                    && config.speed_stop.admits(c) && final(self).speed as int
                    == #[trigger] decayed_speed(
                    old(self).speed as int,
                    d,
                    requested_cap(stop_requested, c),
                ),
            r == TickOutcome::Stopped <==> final(self).finished(),
    {
        let range = config.decay_range(self.speed);
        let decay = range.sample();
        let cap = config.speed_stop();
        let stop_cap = if stop_requested { Some(cap) } else { None };
        let r = self.advance(decay, stop_cap);
        proof {
            assert(final(self).speed as int == decayed_speed(
                old(self).speed as int,
                decay as int,
                requested_cap(stop_requested, cap as int),
            ));
        }
        r
    }
}

} // verus!

verus! {

/// The speed after a run of ticks from `start`, each tick drawing a
/// `(decay, cap)` pair; the cap is present once a stop was requested.
pub open spec fn speed_after(start: int, steps: Seq<(int, Option<int>)>) -> int
    decreases steps.len(),
{
    if steps.len() == 0 {
        start
    } else {
        decayed_speed(speed_after(start, steps.drop_last()), steps.last().0, steps.last().1)
    }
}

/// Without a stop request, `n` decays drawn from `lo..hi` take the speed
/// down by more than `n * lo - 1` and less than `n * hi` (for `n > 0`).
proof fn lemma_free_run_bounds(start: int, steps: Seq<(int, Option<int>)>, lo: int, hi: int)
    requires
        forall|i: int| 0 <= i < steps.len() ==> #[trigger] steps[i].1 is None && lo <= steps[i].0 < hi,
    ensures
        speed_after(start, steps) <= start - steps.len() * lo,
        steps.len() > 0 ==> speed_after(start, steps) > start - steps.len() * hi,
    decreases steps.len(),
{
    if steps.len() > 0 {
        let rest = steps.drop_last();
        assert forall|i: int| 0 <= i < rest.len() implies #[trigger] rest[i].1 is None && lo
            <= rest[i].0 < hi by {
            assert(rest[i] == steps[i]);
        }
        lemma_free_run_bounds(start, rest, lo, hi);
        let n = rest.len() as int;
        assert(steps.last() == steps[n]);
        assert((n + 1) * lo == n * lo + lo) by (nonlinear_arith);
        assert((n + 1) * hi == n * hi + hi) by (nonlinear_arith);
        if n == 0 {
            assert(speed_after(start, rest) == start);
        }
    }
}

/// A roll without a stop request, whose decays all lie in `lo..hi`, that
/// still turned before its last tick and stopped on it, took `n` ticks with
/// `start < n * hi` and `(n - 1) * lo <= start`.
pub proof fn lemma_roll_length_bounds(start: int, steps: Seq<(int, Option<int>)>, lo: int, hi: int)
    requires
        steps.len() > 0,
        forall|i: int| 0 <= i < steps.len() ==> #[trigger] steps[i].1 is None && lo <= steps[i].0 < hi,
        speed_after(start, steps.drop_last()) >= 0,
        speed_after(start, steps) < 0,
    ensures
        start < steps.len() * hi,
        (steps.len() - 1) * lo <= start,
{
    lemma_free_run_bounds(start, steps, lo, hi);
    let rest = steps.drop_last();
    assert forall|i: int| 0 <= i < rest.len() implies #[trigger] rest[i].1 is None && lo <= rest[i].0
        < hi by {
        assert(rest[i] == steps[i]);
    }
    lemma_free_run_bounds(start, rest, lo, hi);
}

/// A stop request never makes a roll longer: with the same decays, a run
/// that applies caps stays at or below the run without them after every
/// tick, and after a capped tick it is at or below that cap.
pub proof fn lemma_stop_never_lengthens(
    start: int,
    free: Seq<(int, Option<int>)>,
    stopped: Seq<(int, Option<int>)>,
)
    requires
        free.len() == stopped.len(),
        forall|i: int| 0 <= i < free.len() ==> #[trigger] free[i].1 is None && stopped[i].0 == free[i].0,
    ensures
        speed_after(start, stopped) <= speed_after(start, free),
        stopped.len() > 0 ==> (stopped.last().1 matches Some(c) ==> speed_after(start, stopped) <= c),
    decreases free.len(),
{
    if free.len() > 0 {
        let n = free.len() - 1;
        assert forall|i: int| 0 <= i < free.drop_last().len() implies #[trigger] free.drop_last()[i].1 is None
            && stopped.drop_last()[i].0 == free.drop_last()[i].0 by {
            assert(free.drop_last()[i] == free[i]);
            assert(stopped.drop_last()[i] == stopped[i]);
        }
        lemma_stop_never_lengthens(start, free.drop_last(), stopped.drop_last());
        assert(free.last() == free[n]);
        assert(stopped.last() == stopped[n]);
    }
}

/// Consecutive window slots hold consecutive items, wrapping from the last
/// item to the first, and every slot is an index into the list.
pub proof fn lemma_window_wraps(center: int, total: int)
    requires
        0 < total,
    ensures
        forall|k: int|
            0 <= k < WINDOW_SIZE ==> 0 <= #[trigger] window_indices_of(center, total)[k] < total,
        forall|k: int|
            0 <= k < WINDOW_SIZE - 1 ==> #[trigger] window_indices_of(center, total)[k + 1]
                == wrap_index(window_indices_of(center, total)[k] + 1, total),
        window_indices_of(center, total)[2] == wrap_index(center, total),
{
    assert forall|k: int| 0 <= k < WINDOW_SIZE - 1 implies #[trigger] window_indices_of(center, total)[k + 1]
        == wrap_index(window_indices_of(center, total)[k] + 1, total) by {
        let a = center + k - 2;
        lemma_fundamental_div_mod(a, total);
        lemma_shift_by_multiple(a + 1, a % total + 1, total, a / total);
    }
}

} // verus!
