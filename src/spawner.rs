use vstd::prelude::*;
use crate::geometry::{Vec2, dist_squared, in_bounds, isqrt, sqrt_floor, lemma_sqrt_floor_at_least, lemma_sqrt_floor_below, lemma_sqrt_floor_monotone};
use crate::timer::{Timer, TimerMode};

verus! {

/// Kill counts beyond this are not tracked by the difficulty curve.
pub const MAX_DIFFICULTY: u64 = 1_000_000_000_000;

/// Period of a spawner's emission timer, in milliseconds.
pub const SPAWN_INTERVAL: u64 = 750;

/// Spawners never appear closer than this to the player, in millimetres.
pub const MIN_SPAWN_DISTANCE: i64 = 15_000;

/// Size of a wave at a given difficulty, in thousandths of an enemy:
/// 5 + 0.4 * sqrt(30 * difficulty).
pub open spec fn skulls_for(difficulty: nat) -> nat {
    5000 + sqrt_floor(4_800_000 * difficulty)
}

/// Pause before the next spawner at a given difficulty, in milliseconds:
/// 10 s - 5 s * difficulty / (difficulty + 100).
pub open spec fn delay_for(difficulty: nat) -> int {
    10_000 - (5000 * difficulty) / (difficulty + 100)
}

/// Number of kills this session, which drives the difficulty.
#[derive(Clone, Copy, Debug, PartialEq, Eq, Structural)]
pub struct SkullsKilled {
    pub count: u64,
}

/// Scheduler state for placing new spawners.
#[derive(Clone, Copy, Debug, PartialEq, Eq, Structural)]
pub struct SpawnParameters {
    /// Size of the next wave, in thousandths of an enemy.
    pub skulls_to_spawn: u64,
    /// Milliseconds between spawners.
    pub delay_before_next_spawner: u64,
    pub timer: Timer,
    pub difficulty: u64,
}

/// Request to place a spawner holding `skulls_left` enemies at `pos`.
#[derive(Clone, Copy, Debug, PartialEq, Eq, Structural)]
pub struct CreateSpawnerEvent {
    pub pos: Vec2,
    pub skulls_left: u64,
}

/// A portal that emits one enemy per period until it has emitted them all.
#[derive(Clone, Copy, Debug, PartialEq, Eq, Structural)]
pub struct Spawner {
    pub skulls_left: u64,
    pub timer: Timer,
}

/// Whether a candidate spawn point is far enough from the player.
pub open spec fn far_enough(candidate: Vec2, player: Vec2) -> bool {
    dist_squared(candidate, player) >= MIN_SPAWN_DISTANCE * MIN_SPAWN_DISTANCE
}

/// Index of the first candidate that is far enough from the player, if any.
pub open spec fn first_far_enough(candidates: Seq<Vec2>, player: Vec2) -> Option<int>
    decreases candidates.len(),
{
    if candidates.len() == 0 {
        None
    } else {
        match first_far_enough(candidates.drop_last(), player) {
            Some(i) => Some(i),
            None => if far_enough(candidates.last(), player) {
                Some(candidates.len() - 1)
            } else {
                None
            },
        }
    }
}

impl SpawnParameters {
    pub open spec fn wf(self) -> bool {
        &&& self.difficulty <= MAX_DIFFICULTY
        &&& self.timer.mode == TimerMode::Once
        &&& self.timer.wf()
    }

    pub open spec fn new_spec() -> SpawnParameters {
        SpawnParameters {
            skulls_to_spawn: 5000,
            delay_before_next_spawner: 10_000,
            timer: Timer::fresh(10_000, TimerMode::Once),
            difficulty: 0,
        }
    }

    /// Session start: five enemies per wave, ten seconds apart.
    pub fn new() -> (r: SpawnParameters)
        ensures
            r == SpawnParameters::new_spec(),
            r.wf(),
            r.skulls_to_spawn == 5000,
            r.delay_before_next_spawner == 10_000,
            r.timer == Timer::fresh(10_000, TimerMode::Once),
            r.difficulty == 0,
            r.skulls_to_spawn == skulls_for(0),
            r.delay_before_next_spawner == delay_for(0),
    {
        proof {
            assert(sqrt_floor(0) == 0);
            assert(skulls_for(0) == 5000);
        }
        SpawnParameters {
            skulls_to_spawn: 5000,
            delay_before_next_spawner: 10_000,
            timer: Timer::from_millis(10_000, TimerMode::Once),
            difficulty: 0,
        }
    }

    /// Derives wave size and pacing from the difficulty.
    pub fn set_difficulty(&mut self, difficulty: u64)
        requires
            difficulty <= MAX_DIFFICULTY,
        ensures
            final(self).difficulty == difficulty,
            final(self).skulls_to_spawn == skulls_for(difficulty as nat),
            final(self).delay_before_next_spawner == delay_for(difficulty as nat),
            final(self).timer == old(self).timer,
    {
        self.difficulty = difficulty;
        let root = isqrt(4_800_000 * difficulty);
        assert(root * root <= 4_800_000 * MAX_DIFFICULTY);
        assert(root <= 3_000_000_000) by (nonlinear_arith)
            requires root * root <= 4_800_000 * 1_000_000_000_000int;
        self.skulls_to_spawn = 5000 + root;
        let cut: u64 = 5000 * difficulty / (difficulty + 100);
        assert(5000 * difficulty / (difficulty + 100) <= 5000) by (nonlinear_arith)
            requires difficulty >= 0;
        self.delay_before_next_spawner = 10_000 - cut;
    }

    /// Whole enemies in the next wave.
    pub fn wave_size(&self) -> (r: u64)
        ensures
            r == self.skulls_to_spawn / 1000,
    {
        self.skulls_to_spawn / 1000
    }

    /// The scheduler after `delta` milliseconds with `kills` kills so far, and
    /// the wave size of a spawner that falls due.
    pub open spec fn scheduled(self, delta: u64, kills: u64) -> (SpawnParameters, Option<u64>) {
        let t = self.timer.ticked(delta);
        if t.times_finished_this_tick == 0 {
            (SpawnParameters { timer: t, ..self }, None)
        } else {
            let delay = delay_for(kills as nat) as u64;
            (
                SpawnParameters {
                    skulls_to_spawn: skulls_for(kills as nat) as u64,
                    delay_before_next_spawner: delay,
                    timer: Timer::fresh(delay, TimerMode::Once),
                    difficulty: kills,
                },
                Some((skulls_for(kills as nat) / 1000) as u64),
            )
        }
    }

    /// Advances the scheduler by `delta` milliseconds. When a spawner is due,
    /// the difficulty is set to the kill count, the timer restarts with the
    /// new delay, and the size of the new spawner's wave is returned.
    pub fn update(&mut self, delta: u64, kills: &SkullsKilled) -> (r: Option<u64>)
        requires
            old(self).wf(),
            old(self).timer.elapsed + delta <= u64::MAX,
            kills.count <= MAX_DIFFICULTY,
        ensures
            final(self).wf(),
            (*final(self), r) == old(self).scheduled(delta, kills.count),
    {
        self.timer.tick(delta);
        if !self.timer.just_finished() {
            return None;
        }
        self.set_difficulty(kills.count);
        let delay = self.delay_before_next_spawner;
        self.timer.set_duration(delay);
        self.timer.reset();
        Some(self.wave_size())
    }

    /// The spawner placed at session start, straight ahead of the player.
    pub fn first_spawner(&self) -> (r: CreateSpawnerEvent)
        ensures
            r.pos.x == 0 && r.pos.z == -20_000,
            r.skulls_left == self.skulls_to_spawn / 1000,
    {
        CreateSpawnerEvent { pos: Vec2 { x: 0, z: -20_000 }, skulls_left: self.wave_size() }
    }
}

/// Whether `candidate` is at least 15 m from the player.
pub fn far_enough_from_player(candidate: &Vec2, player: &Vec2) -> (r: bool)
    requires
        in_bounds(*candidate),
        in_bounds(*player),
    ensures
        r == far_enough(*candidate, *player),
{
    let d2 = candidate.distance_squared(player);
    d2 >= (MIN_SPAWN_DISTANCE * MIN_SPAWN_DISTANCE) as u64
}

/// Rejection sampling over a run of uniformly drawn points of the spawn disk:
/// the first one far enough from the player, or none if all are too close.
pub fn pick_spawn_position(candidates: &Vec<Vec2>, player: &Vec2) -> (r: Option<Vec2>)
    requires
        in_bounds(*player),
        forall|i: int| 0 <= i < candidates.len() ==> in_bounds(#[trigger] candidates@[i]),
    ensures
        r == (match first_far_enough(candidates@, *player) {
            Some(i) => Some(candidates@[i]),
            None => None,
        }),
{
    let mut i: usize = 0;
    while i < candidates.len()
        invariant
            i <= candidates.len(),
            in_bounds(*player),
            forall|j: int| 0 <= j < candidates.len() ==> in_bounds(#[trigger] candidates@[j]),
            first_far_enough(candidates@.take(i as int), *player) == None::<int>,
        decreases candidates.len() - i,
    {
        proof {
            assert(candidates@.take(i + 1).drop_last() == candidates@.take(i as int));
        }
        if far_enough_from_player(&candidates[i], player) {
            proof {
                lemma_first_far_enough_extends(candidates@, *player, i + 1);
            }
            return Some(candidates[i]);
        }
        i = i + 1;
    }
    assert(candidates@.take(i as int) == candidates@);
    None
}

/// A found candidate stays the first one as more candidates follow.
proof fn lemma_first_far_enough_extends(c: Seq<Vec2>, player: Vec2, n: int)
    requires
        0 <= n <= c.len(),
        first_far_enough(c.take(n), player) is Some,
    ensures
        first_far_enough(c, player) == first_far_enough(c.take(n), player),
    decreases c.len() - n,
{
    if n < c.len() {
        assert(c.take(n + 1).drop_last() == c.take(n));
        lemma_first_far_enough_extends(c, player, n + 1);
    } else {
        assert(c.take(n) == c);
    }
}

impl Spawner {
    pub open spec fn wf(self) -> bool {
        &&& self.skulls_left > 0
        &&& self.timer.mode == TimerMode::Repeating
        &&& self.timer.duration == SPAWN_INTERVAL
        &&& self.timer.wf()
    }

    /// A spawner holding `skulls_left` enemies, emitting one every 0.75 s.
    pub fn new(skulls_left: u64) -> (r: Spawner)
        requires
            skulls_left > 0,
        ensures
            r.wf(),
            r.skulls_left == skulls_left,
            r.timer == Timer::fresh(SPAWN_INTERVAL, TimerMode::Repeating),
    {
        Spawner { skulls_left, timer: Timer::from_millis(SPAWN_INTERVAL, TimerMode::Repeating) }
    }

    /// The spawner after `delta` milliseconds, and whether it emits an enemy.
    pub open spec fn ticked(self, delta: u64) -> (Spawner, bool) {
        let t = self.timer.ticked(delta);
        if t.times_finished_this_tick > 0 {
            (Spawner { skulls_left: (self.skulls_left - 1) as u64, timer: t }, true)
        } else {
            (Spawner { timer: t, ..self }, false)
        }
    }

    /// Advances the emission timer; returns true when an enemy is emitted this
    /// frame. After the last one, `skulls_left` is zero and the spawner is done.
    pub fn tick(&mut self, delta: u64) -> (emit: bool)
        requires
            old(self).wf(),
            old(self).timer.elapsed + delta <= u64::MAX,
        ensures
            (*final(self), emit) == old(self).ticked(delta),
            final(self).timer.wf(),
    {
        self.timer.tick(delta);
        if self.timer.just_finished() {
            self.skulls_left = self.skulls_left - 1;
            true
        } else {
            false
        }
    }

    /// Whether every enemy has been emitted.
    pub fn is_exhausted(&self) -> (r: bool)
        ensures
            r == (self.skulls_left == 0),
    {
        self.skulls_left == 0
    }
}

/// The difficulty curve starts at five enemies per wave and ten seconds between
/// spawners. The delay never falls to five seconds, shrinks as kills mount, and
/// from 499,900 kills on rests one millisecond above five seconds.
pub proof fn law_delay_curve(d1: nat, d2: nat)
    requires
        d1 <= d2,
    ensures
        skulls_for(0) == 5000,
        delay_for(0) == 10_000,
        delay_for(d1) > 5000,
        delay_for(d2) <= delay_for(d1),
        d1 >= 499_900 ==> delay_for(d1) == 5001,
{
    assert(sqrt_floor(0) == 0);
    assert((5000 * d1) / (d1 + 100) < 5000) by (nonlinear_arith)
        requires d1 >= 0;
    let q1 = (5000 * d1) / (d1 + 100);
    let q2 = (5000 * d2) / (d2 + 100);
    assert(q1 <= q2) by (nonlinear_arith)
        requires
            d1 <= d2,
            q1 == (5000 * d1) / (d1 + 100),
            q2 == (5000 * d2) / (d2 + 100),
    {
        assert(q1 * (d1 + 100) <= 5000 * d1);
        assert(q1 * (d2 + 100) <= 5000 * d2);
    }
    if d1 >= 499_900 {
        assert(4999 * (d1 + 100) <= 5000 * d1);
        assert(5000 * d1 < 5000 * (d1 + 100));
        assert(q1 == 4999) by (nonlinear_arith)
            requires
                q1 == (5000 * d1) / (d1 + 100),
                4999 * (d1 + 100) <= 5000 * d1,
                5000 * d1 < 5000 * (d1 + 100),
                d1 >= 0;
    }
}

/// Waves never shrink as kills mount, grow with every kill up to a million
/// kills, and grow without bound.
pub proof fn law_wave_growth(d1: nat, d2: nat, bound: nat)
    requires
        d1 <= d2,
    ensures
        skulls_for(d1) <= skulls_for(d2),
        d1 < d2 <= 1_000_000 ==> skulls_for(d1) < skulls_for(d2),
        skulls_for(bound * bound) >= bound,
{
    lemma_sqrt_floor_monotone(4_800_000 * d1, 4_800_000 * d2);
    if d1 < d2 && d2 <= 1_000_000 {
        let n = 4_800_000 * d1;
        assert(n < (n + 1) * (n + 1)) by (nonlinear_arith);
        lemma_sqrt_floor_below(n, n);
        let r = sqrt_floor(n);
        assert(r <= 2_200_000) by (nonlinear_arith)
            requires
                r * r <= n,
                n < 4_800_000_000_000,
        {
            if r > 2_200_000 {
                assert(r * r > 2_200_000 * 2_200_000);
            }
        }
        assert((r + 1) * (r + 1) <= 4_800_000 * (d1 + 1)) by (nonlinear_arith)
            requires
                r * r <= 4_800_000 * d1,
                r <= 2_200_000;
        lemma_sqrt_floor_at_least(4_800_000 * (d1 + 1), r + 1);
        lemma_sqrt_floor_monotone(4_800_000 * (d1 + 1), 4_800_000 * d2);
    }
    assert(bound * bound <= 4_800_000 * (bound * bound)) by (nonlinear_arith);
    lemma_sqrt_floor_at_least(4_800_000 * (bound * bound), bound);
}

/// A fresh spawner emits its first enemy once one full period has passed,
/// and not before.
pub proof fn law_first_emission(s: Spawner, delta: u64)
    requires
        s.wf(),
        s.timer == Timer::fresh(SPAWN_INTERVAL, TimerMode::Repeating),
    ensures
        delta < SPAWN_INTERVAL ==> !s.ticked(delta).1,
        delta == SPAWN_INTERVAL ==> s.ticked(delta).1 && s.ticked(delta).0.skulls_left
            == s.skulls_left - 1,
{
    assert((SPAWN_INTERVAL as int) / (SPAWN_INTERVAL as int) == 1);
}

} // verus!
