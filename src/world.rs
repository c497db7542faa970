use vstd::prelude::*;
use crate::geometry::{Vec2, in_bounds};
use crate::health::{EntityId, Health};
use crate::motion::{CharacterController, CharacterControllerState, ReadHeading, MAX_SPEED_LIMIT, chase, chase_velocity, speed_ok};
use crate::explosion::ExplosionEvent;
use crate::health::DamageEvent;
use crate::player::{Player, PlayerHurtEvent};
use crate::score::ScoreEvent;
use crate::score::Score;
use crate::shotgun::Shotgun;
use crate::spawner::{CreateSpawnerEvent, SkullsKilled, SpawnParameters, Spawner};

verus! {

/// Hit points of a fresh enemy, in thousandths.
pub const SKULL_HEALTH: i64 = 10_000;

/// Hit points of the player at session start, in thousandths.
pub const PLAYER_HEALTH: i64 = 100_000;

/// An enemy that flies straight at the player and explodes when it dies.
#[derive(Clone, Copy, Debug, PartialEq, Eq, Structural)]
pub struct FireSkull {
    pub id: EntityId,
    pub pos: Vec2,
    pub velocity: Vec2,
    pub health: Health,
    pub controller: CharacterController,
    pub motion: CharacterControllerState,
}

impl FireSkull {
    pub open spec fn spawned(id: EntityId, pos: Vec2) -> FireSkull {
        FireSkull {
            id,
            pos,
            velocity: Vec2 { x: 0, z: 0 },
            health: Health { current: SKULL_HEALTH, dead: false },
            controller: CharacterController { acceleration: 10_000, max_speed: 5000 },
            motion: CharacterControllerState {
                heading: 0,
                desired_turn: 0,
                desired_velocity: Vec2 { x: 0, z: 0 },
            },
        }
    }

    /// A fresh enemy at rest: 10 hit points, 5 m/s top speed.
    pub fn new(id: EntityId, pos: Vec2) -> (r: FireSkull)
        ensures
            r == FireSkull::spawned(id, pos),
    {
        FireSkull {
            id,
            pos,
            velocity: Vec2 { x: 0, z: 0 },
            health: Health::new(SKULL_HEALTH),
            controller: CharacterController { acceleration: 10_000, max_speed: 5000 },
            motion: CharacterControllerState::new(),
        }
    }
}

/// A spawner placed in the arena.
#[derive(Clone, Copy, Debug, PartialEq, Eq, Structural)]
pub struct SpawnerSite {
    pub id: EntityId,
    pub pos: Vec2,
    pub spawner: Spawner,
}

/// The player's body and equipment.
#[derive(Clone, Copy, Debug, PartialEq, Eq, Structural)]
pub struct PlayerBody {
    pub id: EntityId,
    pub pos: Vec2,
    pub velocity: Vec2,
    pub health: Health,
    pub player: Player,
    pub shotgun: Shotgun,
    pub controller: CharacterController,
    pub motion: CharacterControllerState,
    pub heading: ReadHeading,
}

/// Everything one game session owns: the bodies in the arena and the
/// session-wide counters.
pub struct World {
    pub player: PlayerBody,
    pub skulls: Vec<FireSkull>,
    pub spawners: Vec<SpawnerSite>,
    pub kills: SkullsKilled,
    pub score: Score,
    pub spawn_parameters: SpawnParameters,
    pub next_id: EntityId,
}

/// Index of the enemy with identifier `id`, if there is one.
pub open spec fn skull_index(skulls: Seq<FireSkull>, id: EntityId) -> Option<int>
    decreases skulls.len(),
{
    if skulls.len() == 0 {
        None
    } else if skulls.last().id == id {
        Some(skulls.len() - 1)
    } else {
        skull_index(skulls.drop_last(), id)
    }
}

pub proof fn lemma_skull_index(skulls: Seq<FireSkull>, id: EntityId)
    ensures
        skull_index(skulls, id) matches Some(i) ==> 0 <= i < skulls.len() && skulls[i].id == id,
        skull_index(skulls, id) is None ==> forall|j: int|
            0 <= j < skulls.len() ==> #[trigger] skulls[j].id != id,
    decreases skulls.len(),
{
    if skulls.len() > 0 {
        lemma_skull_index(skulls.drop_last(), id);
        if skull_index(skulls, id) is None {
            assert forall|j: int| 0 <= j < skulls.len() implies #[trigger] skulls[j].id != id by {
                if j < skulls.len() - 1 {
                    assert(skulls.drop_last()[j] == skulls[j]);
                }
            }
        }
    }
}

/// The spawners that remain after a frame of `dt` milliseconds, each ticked;
/// those that emitted their last enemy are gone.
pub open spec fn kept_sites(sites: Seq<SpawnerSite>, dt: u64) -> Seq<SpawnerSite>
    decreases sites.len(),
{
    if sites.len() == 0 {
        Seq::empty()
    } else {
        let prev = kept_sites(sites.drop_last(), dt);
        let next = sites.last().spawner.ticked(dt).0;
        if next.skulls_left > 0 {
            prev.push(SpawnerSite { spawner: next, ..sites.last() })
        } else {
            prev
        }
    }
}

/// Where enemies appear during a frame of `dt` milliseconds, in spawner order.
pub open spec fn emitted_at(sites: Seq<SpawnerSite>, dt: u64) -> Seq<Vec2>
    decreases sites.len(),
{
    if sites.len() == 0 {
        Seq::empty()
    } else {
        let prev = emitted_at(sites.drop_last(), dt);
        if sites.last().spawner.ticked(dt).1 {
            prev.push(sites.last().pos)
        } else {
            prev
        }
    }
}

/// Fresh enemies at `positions`, numbered from `first_id` on.
pub open spec fn spawned_skulls(first_id: int, positions: Seq<Vec2>) -> Seq<FireSkull> {
    Seq::new(positions.len(), |k: int| FireSkull::spawned((first_id + k) as u64, positions[k]))
}

pub proof fn lemma_emitted_at_len(sites: Seq<SpawnerSite>, dt: u64)
    ensures
        emitted_at(sites, dt).len() <= sites.len(),
        forall|k: int|
            0 <= k < emitted_at(sites, dt).len() ==> exists|j: int|
                0 <= j < sites.len() && sites[j].pos == #[trigger] emitted_at(sites, dt)[k],
    decreases sites.len(),
{
    if sites.len() > 0 {
        lemma_emitted_at_len(sites.drop_last(), dt);
        let prev = emitted_at(sites.drop_last(), dt);
        assert forall|k: int| 0 <= k < emitted_at(sites, dt).len() implies exists|j: int|
            0 <= j < sites.len() && sites[j].pos == #[trigger] emitted_at(sites, dt)[k] by {
            if k < prev.len() {
                let j = choose|j: int| 0 <= j < sites.len() - 1 && sites.drop_last()[j].pos == prev[k];
                assert(sites[j] == sites.drop_last()[j]);
            } else {
                assert(sites[sites.len() - 1].pos == emitted_at(sites, dt)[k]);
            }
        }
    }
}

pub proof fn lemma_kept_sites_wf(sites: Seq<SpawnerSite>, dt: u64)
    requires
        sites_ok(sites),
        dt <= u64::MAX / 2,
    ensures
        sites_ok(kept_sites(sites, dt)),
    decreases sites.len(),
{
    if sites.len() > 0 {
        let last = sites[sites.len() - 1];
        assert(site_ok(last));
        assert forall|i: int| 0 <= i < sites.drop_last().len() implies site_ok(#[trigger] sites.drop_last()[i]) by {
            assert(site_ok(sites[i]));
        }
        lemma_kept_sites_wf(sites.drop_last(), dt);
        let prev = kept_sites(sites.drop_last(), dt);
        let k = kept_sites(sites, dt);
        assert forall|i: int| 0 <= i < k.len() implies site_ok(#[trigger] k[i]) by {
            if i < prev.len() {
                assert(k[i] == prev[i]);
            }
        }
    }
}

pub open spec fn skull_ok(s: FireSkull, next_id: EntityId, player_id: EntityId) -> bool {
    &&& s.id < next_id
    &&& s.id != player_id
    &&& in_bounds(s.pos)
    &&& s.controller.max_speed <= MAX_SPEED_LIMIT
}

/// Every enemy is well placed, and no two share an identifier.
pub open spec fn skulls_ok(skulls: Seq<FireSkull>, next_id: EntityId, player_id: EntityId) -> bool {
    &&& forall|i: int| 0 <= i < skulls.len() ==> skull_ok(#[trigger] skulls[i], next_id, player_id)
    &&& forall|i: int, j: int|
        0 <= i < j < skulls.len() ==> #[trigger] skulls[i].id != #[trigger] skulls[j].id
}

pub open spec fn site_ok(s: SpawnerSite) -> bool {
    s.spawner.wf() && in_bounds(s.pos)
}

pub open spec fn sites_ok(sites: Seq<SpawnerSite>) -> bool {
    forall|i: int| 0 <= i < sites.len() ==> site_ok(#[trigger] sites[i])
}

impl World {
    pub open spec fn wf(self) -> bool {
        &&& self.player.player.wf()
        &&& self.player.shotgun.wf()
        &&& in_bounds(self.player.pos)
        &&& speed_ok(self.player.velocity)
        &&& self.player.controller.max_speed <= MAX_SPEED_LIMIT
        &&& self.player.id < self.next_id
        &&& self.spawn_parameters.wf()
        &&& skulls_ok(self.skulls@, self.next_id, self.player.id)
        &&& sites_ok(self.spawners@)
    }

    /// A new session: the player at the centre of the arena with full health
    /// and a loaded shotgun, counters at zero, and the first spawner placed
    /// 20 m ahead with a wave of five.
    pub fn new() -> (r: World)
        ensures
            r.wf(),
            r.player.id == 0,
            r.player.pos == (Vec2 { x: 0, z: 0 }),
            r.player.health == (Health { current: PLAYER_HEALTH, dead: false }),
            r.skulls@.len() == 0,
            r.spawners@.len() == 1,
            r.spawners@[0].pos.x == 0 && r.spawners@[0].pos.z == -20_000,
            r.spawners@[0].spawner.skulls_left == 5,
            r.spawners@[0].spawner.timer == crate::timer::Timer::fresh(
                crate::spawner::SPAWN_INTERVAL,
                crate::timer::TimerMode::Repeating,
            ),
            r.next_id == 2,
            r.kills.count == 0,
            r.score.score == 0,
            r.spawn_parameters == SpawnParameters::new_spec(),
    {
        let player = PlayerBody {
            id: 0,
            pos: Vec2 { x: 0, z: 0 },
            velocity: Vec2 { x: 0, z: 0 },
            health: Health::new(PLAYER_HEALTH),
            player: Player::new(),
            shotgun: Shotgun::new(),
            controller: CharacterController { acceleration: 10_000, max_speed: 15_000 },
            motion: CharacterControllerState::new(),
            heading: ReadHeading { heading: 0 },
        };
        let params = SpawnParameters::new();
        let mut world = World {
            player,
            skulls: Vec::new(),
            spawners: Vec::new(),
            kills: SkullsKilled { count: 0 },
            score: Score::new(),
            spawn_parameters: params,
            next_id: 1,
        };
        let first = params.first_spawner();
        world.spawn_spawner(&first);
        world
    }

    /// Places a spawner as requested, under a fresh identifier.
    pub fn spawn_spawner(&mut self, ev: &CreateSpawnerEvent)
        requires
            old(self).wf(),
            old(self).next_id < u64::MAX,
            in_bounds(ev.pos),
            ev.skulls_left > 0,
        ensures
            final(self).wf(),
            final(self).spawners@ == old(self).spawners@.push(
                SpawnerSite {
                    id: old(self).next_id,
                    pos: ev.pos,
                    spawner: Spawner {
                        skulls_left: ev.skulls_left,
                        timer: crate::timer::Timer::fresh(
                            crate::spawner::SPAWN_INTERVAL,
                            crate::timer::TimerMode::Repeating,
                        ),
                    },
                },
            ),
            final(self).next_id == old(self).next_id + 1,
            final(self).player == old(self).player,
            final(self).skulls@ == old(self).skulls@,
            final(self).kills == old(self).kills,
            final(self).score == old(self).score,
            final(self).spawn_parameters == old(self).spawn_parameters,
    {
        let id = self.next_id;
        let site = SpawnerSite { id, pos: ev.pos, spawner: Spawner::new(ev.skulls_left) };
        self.spawners.push(site);
        self.next_id = id + 1;
        assert forall|i: int| 0 <= i < self.spawners@.len() implies site_ok(#[trigger] self.spawners@[i]) by {
            if i < old(self).spawners@.len() {
                assert(self.spawners@[i] == old(self).spawners@[i]);
            } else {
                assert(self.spawners@[i] == site);
            }
        }
        assert forall|i: int| 0 <= i < self.skulls@.len() implies skull_ok(#[trigger] self.skulls@[i], self.next_id, self.player.id) by {
            assert(skull_ok(old(self).skulls@[i], old(self).next_id, old(self).player.id));
        }
    }
}


impl World {
    /// Runs every spawner for a frame of `dt` milliseconds: each one that is
    /// due emits an enemy at its own position, and a spawner that has emitted
    /// its last enemy is removed.
    pub fn run_spawners(&mut self, dt: u64)
        requires
            old(self).wf(),
            dt <= u64::MAX / 2,
            old(self).next_id + old(self).spawners@.len() < u64::MAX,
        ensures
            final(self).wf(),
            final(self).spawners@ == kept_sites(old(self).spawners@, dt),
            final(self).skulls@ == old(self).skulls@ + spawned_skulls(
                old(self).next_id as int,
                emitted_at(old(self).spawners@, dt),
            ),
            final(self).next_id == old(self).next_id + emitted_at(old(self).spawners@, dt).len(),
            final(self).player == old(self).player,
            final(self).kills == old(self).kills,
            final(self).score == old(self).score,
            final(self).spawn_parameters == old(self).spawn_parameters,
    {
        let ghost old_sites = self.spawners@;
        let ghost old_skulls = self.skulls@;
        let ghost first_id = self.next_id as int;
        let mut kept: Vec<SpawnerSite> = Vec::new();
        let mut i: usize = 0;

        while i < self.spawners.len()
            invariant
                self.spawners@ == old_sites,
                0 <= i <= old_sites.len(),
                first_id + old_sites.len() < u64::MAX,
                dt <= u64::MAX / 2,
                sites_ok(old_sites),
                kept@ == kept_sites(old_sites.take(i as int), dt),
                self.skulls@ == old_skulls + spawned_skulls(
                    first_id,
                    emitted_at(old_sites.take(i as int), dt),
                ),
                self.next_id == first_id + emitted_at(old_sites.take(i as int), dt).len(),
                emitted_at(old_sites.take(i as int), dt).len() <= i,
                self.player == old(self).player,
                self.kills == old(self).kills,
                self.score == old(self).score,
                self.spawn_parameters == old(self).spawn_parameters,
            decreases old_sites.len() - i,
        {
            proof {
                assert(old_sites.take(i + 1).drop_last() == old_sites.take(i as int));
                assert(old_sites.take(i + 1).last() == old_sites[i as int]);
            }
            let mut site = self.spawners[i];
            assert(site_ok(old_sites[i as int]));
            let emit = site.spawner.tick(dt);
            if emit {
                let id = self.next_id;
                let skull = FireSkull::new(id, site.pos);
                self.skulls.push(skull);
                self.next_id = id + 1;
                proof {
                    let pos_before = emitted_at(old_sites.take(i as int), dt);
                    let pos_after = emitted_at(old_sites.take(i + 1), dt);
                    assert(pos_after == pos_before.push(site.pos));
                    assert(spawned_skulls(first_id, pos_after) == spawned_skulls(
                        first_id,
                        pos_before,
                    ).push(skull));
                }
            }
            if !site.spawner.is_exhausted() {
                kept.push(site);
            }
            i = i + 1;
        }
        proof {
            assert(old_sites.take(old_sites.len() as int) == old_sites);
            lemma_kept_sites_wf(old_sites, dt);
        }
        self.spawners = kept;
        proof {
            let added = spawned_skulls(first_id, emitted_at(old_sites, dt));
            assert forall|k: int| 0 <= k < self.skulls@.len() implies skull_ok(#[trigger] self.skulls@[k], self.next_id, self.player.id) by {
                if k < old_skulls.len() {
                    assert(self.skulls@[k] == old_skulls[k]);
                    assert(skull_ok(old_skulls[k], first_id as u64, self.player.id));
                } else {
                    lemma_emitted_at_len(old_sites, dt);
                    assert(self.skulls@[k] == added[k - old_skulls.len()]);
                    let e = emitted_at(old_sites, dt)[k - old_skulls.len()];
                    assert(exists|j: int| 0 <= j < old_sites.len() && old_sites[j].pos == e);
                }
            }
            assert forall|a: int, b: int| 0 <= a < b < self.skulls@.len() implies #[trigger] self.skulls@[a].id
                != #[trigger] self.skulls@[b].id by {
                if b < old_skulls.len() {
                    assert(self.skulls@[a] == old_skulls[a]);
                    assert(self.skulls@[b] == old_skulls[b]);
                } else if a < old_skulls.len() {
                    assert(self.skulls@[a] == old_skulls[a]);
                    assert(skull_ok(old_skulls[a], first_id as u64, self.player.id));
                } else {
                }
            }
        }
    }
}


/// Base damage of the blast an enemy leaves when it dies, in thousandths.
pub const SKULL_BLAST_DAMAGE: u64 = 25_000;

/// Scale of the blast an enemy leaves when it dies, in thousandths.
pub const SKULL_BLAST_SCALE: u64 = 1000;

/// What the damage pipeline reads and writes: the player's health and state,
/// the enemies, and the kill count.
pub type DamageModel = (Health, Player, Seq<FireSkull>, u64);

/// What one damage event raises: a blast and a score for a kill, or a hurt
/// event for the player.
pub type DamageEffects = (Option<ExplosionEvent>, Option<ScoreEvent>, Option<PlayerHurtEvent>);

/// The blast an enemy leaves where it died; its chain is one longer than the
/// chain that killed it.
pub open spec fn death_blast(pos: Vec2, chain: u64) -> ExplosionEvent {
    ExplosionEvent {
        pos,
        scale: SKULL_BLAST_SCALE,
        damage: SKULL_BLAST_DAMAGE,
        chain: (chain + 1) as u64,
    }
}

/// One damage event applied to the model. Damage to the player goes through
/// the invulnerability window; damage to an enemy always lands, and the hit
/// that kills it removes it, counts the kill and raises its blast and score.
/// Damage to an entity that no longer exists is dropped.
pub open spec fn damage_step(m: DamageModel, player_id: EntityId, e: DamageEvent) -> (DamageModel, DamageEffects) {
    let (health, player, skulls, kills) = m;
    if e.entity == player_id {
        let (p2, h2, hurt) = player.hit(health, e.damage);
        ((h2, p2, skulls, kills), (None, None, hurt))
    } else {
        match skull_index(skulls, e.entity) {
            None => (m, (None, None, None)),
            Some(i) => {
                let (h, died) = skulls[i].health.damaged(e.damage);
                if died {
                    (
                        (health, player, skulls.remove(i), (kills + 1) as u64),
                        (
                            Some(death_blast(skulls[i].pos, e.chain)),
                            Some(ScoreEvent { chain: e.chain }),
                            None,
                        ),
                    )
                } else {
                    (
                        (health, player, skulls.update(i, FireSkull { health: h, ..skulls[i] }), kills),
                        (None, None, None),
                    )
                }
            },
        }
    }
}

pub open spec fn opt_seq<T>(o: Option<T>) -> Seq<T> {
    match o {
        Some(x) => seq![x],
        None => Seq::empty(),
    }
}

/// A batch of damage events applied in order, with everything they raised.
pub open spec fn damage_pass(m: DamageModel, player_id: EntityId, events: Seq<DamageEvent>) -> (
    DamageModel,
    Seq<ExplosionEvent>,
    Seq<ScoreEvent>,
    Seq<PlayerHurtEvent>,
)
    decreases events.len(),
{
    if events.len() == 0 {
        (m, Seq::empty(), Seq::empty(), Seq::empty())
    } else {
        let (m1, ex, sc, hu) = damage_pass(m, player_id, events.drop_last());
        let (m2, fx) = damage_step(m1, player_id, events.last());
        (m2, ex + opt_seq(fx.0), sc + opt_seq(fx.1), hu + opt_seq(fx.2))
    }
}

/// Everything a batch of damage events raised.
pub struct DamageOutcome {
    pub explosions: Vec<ExplosionEvent>,
    pub scores: Vec<ScoreEvent>,
    pub hurts: Vec<PlayerHurtEvent>,
}

proof fn lemma_skulls_ok_remove(skulls: Seq<FireSkull>, next_id: EntityId, player_id: EntityId, i: int)
    requires
        skulls_ok(skulls, next_id, player_id),
        0 <= i < skulls.len(),
    ensures
        skulls_ok(skulls.remove(i), next_id, player_id),
{
    let r = skulls.remove(i);
    assert forall|k: int| 0 <= k < r.len() implies skull_ok(#[trigger] r[k], next_id, player_id) by {
        if k < i {
            assert(r[k] == skulls[k]);
        } else {
            assert(r[k] == skulls[k + 1]);
        }
    }
    assert forall|a: int, b: int| 0 <= a < b < r.len() implies #[trigger] r[a].id != #[trigger] r[b].id by {
        let a2 = if a < i { a } else { a + 1 };
        let b2 = if b < i { b } else { b + 1 };
        assert(r[a] == skulls[a2]);
        assert(r[b] == skulls[b2]);
    }
}

proof fn lemma_skulls_ok_update(skulls: Seq<FireSkull>, next_id: EntityId, player_id: EntityId, i: int, h: Health)
    requires
        skulls_ok(skulls, next_id, player_id),
        0 <= i < skulls.len(),
    ensures
        skulls_ok(skulls.update(i, FireSkull { health: h, ..skulls[i] }), next_id, player_id),
{
    let r = skulls.update(i, FireSkull { health: h, ..skulls[i] });
    assert forall|k: int| 0 <= k < r.len() implies skull_ok(#[trigger] r[k], next_id, player_id) by {
        assert(skull_ok(skulls[k], next_id, player_id));
    }
    assert forall|a: int, b: int| 0 <= a < b < r.len() implies #[trigger] r[a].id != #[trigger] r[b].id by {
        assert(skulls[a].id != skulls[b].id);
    }
}

impl World {
    pub open spec fn damage_model(self) -> DamageModel {
        (self.player.health, self.player.player, self.skulls@, self.kills.count)
    }

    /// Position of the enemy with identifier `id`, if it exists.
    pub fn find_skull(&self, id: EntityId) -> (r: Option<usize>)
        ensures
            r matches Some(i) ==> skull_index(self.skulls@, id) == Some(i as int),
            r is None ==> skull_index(self.skulls@, id) is None,
    {
        let mut i: usize = self.skulls.len();
        assert(self.skulls@.take(i as int) == self.skulls@);
        while i > 0
            invariant
                i <= self.skulls@.len(),
                skull_index(self.skulls@, id) == skull_index(self.skulls@.take(i as int), id),
            decreases i,
        {
            proof {
                assert(self.skulls@.take(i as int).drop_last() == self.skulls@.take(i - 1));
            }
            if self.skulls[i - 1].id == id {
                return Some(i - 1);
            }
            i = i - 1;
        }
        None
    }

    /// Applies one damage event to the world, recording what it raised.
    fn apply_damage_event(&mut self, e: &DamageEvent, out: &mut DamageOutcome)
        requires
            old(self).wf(),
            old(self).kills.count < u64::MAX,
            e.chain < u64::MAX,
        ensures
            final(self).wf(),
            final(self).next_id == old(self).next_id,
            final(self).spawners@ == old(self).spawners@,
            final(self).score == old(self).score,
            final(self).spawn_parameters == old(self).spawn_parameters,
            final(self).player.id == old(self).player.id,
            final(self).player.pos == old(self).player.pos,
            final(self).player.velocity == old(self).player.velocity,
            final(self).player.shotgun == old(self).player.shotgun,
            final(self).player.controller == old(self).player.controller,
            final(self).player.motion == old(self).player.motion,
            final(self).player.heading == old(self).player.heading,
            final(self).kills.count <= old(self).kills.count + 1,
            ({
                let (m, fx) = damage_step(old(self).damage_model(), old(self).player.id, *e);
                &&& final(self).damage_model() == m
                &&& final(out).explosions@ == old(out).explosions@ + opt_seq(fx.0)
                &&& final(out).scores@ == old(out).scores@ + opt_seq(fx.1)
                &&& final(out).hurts@ == old(out).hurts@ + opt_seq(fx.2)
            }),
    {
        let ghost m0 = self.damage_model();
        if e.entity == self.player.id {
            let mut p = self.player.player;
            let mut h = self.player.health;
            let hurt = p.receive_damage(&mut h, e.damage);
            self.player.player = p;
            self.player.health = h;
            match hurt {
                Some(ev) => {
                    out.hurts.push(ev);
                },
                None => {
                    assert(out.hurts@ == old(out).hurts@ + Seq::<PlayerHurtEvent>::empty());
                },
            }
            assert(out.explosions@ == old(out).explosions@ + Seq::<ExplosionEvent>::empty());
            assert(out.scores@ == old(out).scores@ + Seq::<ScoreEvent>::empty());
            return;
        }
        assert(out.explosions@ == old(out).explosions@ + Seq::<ExplosionEvent>::empty());
        assert(out.scores@ == old(out).scores@ + Seq::<ScoreEvent>::empty());
        assert(out.hurts@ == old(out).hurts@ + Seq::<PlayerHurtEvent>::empty());
        match self.find_skull(e.entity) {
            None => {},
            Some(i) => {
                proof {
                    lemma_skull_index(self.skulls@, e.entity);
                }
                let mut skull = self.skulls[i];
                let died = skull.health.apply_damage(e.damage);
                if died {
                    proof {
                        lemma_skulls_ok_remove(self.skulls@, self.next_id, self.player.id, i as int);
                    }
                    let gone = self.skulls.remove(i);
                    self.kills.count = self.kills.count + 1;
                    out.explosions.push(
                        ExplosionEvent {
                            pos: gone.pos,
                            scale: SKULL_BLAST_SCALE,
                            damage: SKULL_BLAST_DAMAGE,
                            chain: e.chain + 1,
                        },
                    );
                    out.scores.push(ScoreEvent { chain: e.chain });
                } else {
                    proof {
                        lemma_skulls_ok_update(self.skulls@, self.next_id, self.player.id, i as int, skull.health);
                    }
                    self.skulls.set(i, skull);
                }
            },
        }
    }

    /// Resolves a whole batch of damage events in order: health drops, deaths
    /// latch once, dead enemies leave the arena with a blast one link further
    /// down the chain and a score for the chain that killed them.
    pub fn handle_damage(&mut self, events: &Vec<DamageEvent>) -> (r: DamageOutcome)
        requires
            old(self).wf(),
            old(self).kills.count + events.len() <= u64::MAX,
            forall|i: int| 0 <= i < events.len() ==> #[trigger] events@[i].chain < u64::MAX,
        ensures
            final(self).wf(),
            ({
                let (m, ex, sc, hu) = damage_pass(old(self).damage_model(), old(self).player.id, events@);
                &&& final(self).damage_model() == m
                &&& r.explosions@ == ex
                &&& r.scores@ == sc
                &&& r.hurts@ == hu
            }),
            final(self).next_id == old(self).next_id,
            final(self).spawners@ == old(self).spawners@,
            final(self).score == old(self).score,
            final(self).spawn_parameters == old(self).spawn_parameters,
            final(self).player.id == old(self).player.id,
            final(self).player.pos == old(self).player.pos,
            final(self).player.shotgun == old(self).player.shotgun,
    {
        let mut out = DamageOutcome { explosions: Vec::new(), scores: Vec::new(), hurts: Vec::new() };
        let ghost m0 = self.damage_model();
        let ghost pid = self.player.id;
        let mut i: usize = 0;
        while i < events.len()
            invariant
                self.wf(),
                0 <= i <= events.len(),
                self.player.id == pid,
                self.kills.count <= old(self).kills.count + i,
                old(self).kills.count + events.len() <= u64::MAX,
                forall|j: int| 0 <= j < events.len() ==> #[trigger] events@[j].chain < u64::MAX,
                ({
                    let (m, ex, sc, hu) = damage_pass(m0, pid, events@.take(i as int));
                    &&& self.damage_model() == m
                    &&& out.explosions@ == ex
                    &&& out.scores@ == sc
                    &&& out.hurts@ == hu
                }),
                self.next_id == old(self).next_id,
                self.spawners@ == old(self).spawners@,
                self.score == old(self).score,
                self.spawn_parameters == old(self).spawn_parameters,
                self.player.pos == old(self).player.pos,
                self.player.shotgun == old(self).player.shotgun,
            decreases events.len() - i,
        {
            proof {
                assert(events@.take(i + 1).drop_last() == events@.take(i as int));
                assert(events@.take(i + 1).last() == events@[i as int]);
            }
            self.apply_damage_event(&events[i], &mut out);
            i = i + 1;
        }
        assert(events@.take(i as int) == events@);
        out
    }
}

/// Death effects happen once: when a hit kills an enemy, a second hit on the
/// same enemy in the same batch raises neither a blast nor a score.
pub proof fn law_death_effects_once(m: DamageModel, player_id: EntityId, next_id: EntityId, e1: DamageEvent, e2: DamageEvent)
    requires
        skulls_ok(m.2, next_id, player_id),
        e1.entity != player_id,
        e2.entity == e1.entity,
        m.3 < u64::MAX,
        skull_index(m.2, e1.entity) is Some,
        m.2[skull_index(m.2, e1.entity)->0].health.damaged(e1.damage).1,
    ensures
        damage_pass(m, player_id, seq![e1, e2]).1 == seq![
            death_blast(m.2[skull_index(m.2, e1.entity)->0].pos, e1.chain),
        ],
        damage_pass(m, player_id, seq![e1, e2]).2 == seq![ScoreEvent { chain: e1.chain }],
        damage_pass(m, player_id, seq![e1, e2]).0.3 == m.3 + 1,
{
    let i = skull_index(m.2, e1.entity)->0;
    lemma_skull_index(m.2, e1.entity);
    let rest = m.2.remove(i);
    assert forall|j: int| 0 <= j < rest.len() implies #[trigger] rest[j].id != e1.entity by {
        if j < i {
            assert(rest[j] == m.2[j]);
        } else {
            assert(rest[j] == m.2[j + 1]);
        }
    }
    lemma_skull_index(rest, e1.entity);
    assert(seq![e1, e2].drop_last() == seq![e1]);
    assert(seq![e1].drop_last() == Seq::<DamageEvent>::empty());
    let p0 = damage_pass(m, player_id, Seq::<DamageEvent>::empty());
    assert(p0.1 == Seq::<ExplosionEvent>::empty());
    let p1 = damage_pass(m, player_id, seq![e1]);
    assert(p1.1 == Seq::<ExplosionEvent>::empty() + seq![death_blast(m.2[i].pos, e1.chain)]);
    assert(p1.2 == Seq::<ScoreEvent>::empty() + seq![ScoreEvent { chain: e1.chain }]);
    assert(p1.0.2 == rest);
    let p2 = damage_pass(m, player_id, seq![e1, e2]);
    assert(p2.1 == p1.1 + Seq::<ExplosionEvent>::empty());
    assert(p2.2 == p1.2 + Seq::<ScoreEvent>::empty());
}

/// From a fresh spawner to the first blast: no enemy appears before one full
/// period, exactly one appears at the spawner when the period has passed, and
/// an instant kill of that enemy leaves one blast at its position, one link
/// into the chain.
pub proof fn law_first_enemy_to_blast(site: SpawnerSite, m: DamageModel, player_id: EntityId, first_id: u64, early: u64)
    requires
        site.spawner.skulls_left > 0,
        site.spawner.timer == crate::timer::Timer::fresh(
            crate::spawner::SPAWN_INTERVAL,
            crate::timer::TimerMode::Repeating,
        ),
        early < crate::spawner::SPAWN_INTERVAL,
        m.2 == spawned_skulls(first_id as int, seq![site.pos]),
        first_id != player_id,
    ensures
        emitted_at(seq![site], early).len() == 0,
        emitted_at(seq![site], crate::spawner::SPAWN_INTERVAL) == seq![site.pos],
        damage_pass(
            m,
            player_id,
            seq![DamageEvent { entity: first_id, damage: crate::health::Damage::Infinite, chain: 0 }],
        ).1 == seq![
            ExplosionEvent { pos: site.pos, scale: SKULL_BLAST_SCALE, damage: SKULL_BLAST_DAMAGE, chain: 1 },
        ],
{
    assert(seq![site].drop_last() == Seq::<SpawnerSite>::empty());
    assert(seq![site].last() == site);
    assert((crate::spawner::SPAWN_INTERVAL as int) / (crate::spawner::SPAWN_INTERVAL as int) == 1);
    assert(emitted_at(Seq::<SpawnerSite>::empty(), early).len() == 0);
    assert(site.spawner.timer.ticked(crate::spawner::SPAWN_INTERVAL).times_finished_this_tick == 1);
    assert(site.spawner.ticked(crate::spawner::SPAWN_INTERVAL).1);
    assert(emitted_at(Seq::<SpawnerSite>::empty(), crate::spawner::SPAWN_INTERVAL) == Seq::<Vec2>::empty());
    assert(emitted_at(seq![site], crate::spawner::SPAWN_INTERVAL) == Seq::<Vec2>::empty().push(site.pos));
    let e = DamageEvent { entity: first_id, damage: crate::health::Damage::Infinite, chain: 0 };
    assert(seq![e].drop_last() == Seq::<DamageEvent>::empty());
    assert(m.2.len() == 1);
    assert(m.2[0].id == first_id);
    assert(m.2.drop_last() == Seq::<FireSkull>::empty());
    assert(skull_index(m.2, first_id) == Some(0int));
    assert(m.2[0].health == (Health { current: SKULL_HEALTH, dead: false }));
    assert(m.2[0].pos == site.pos);
    assert(m.2[0].health.damaged(crate::health::Damage::Infinite).1);
    let s1 = damage_step(m, player_id, e);
    assert(s1.1.0 == Some(death_blast(site.pos, 0)));
    let p0 = damage_pass(m, player_id, Seq::<DamageEvent>::empty());
    assert(p0.0 == m);
    assert(p0.1 == Seq::<ExplosionEvent>::empty());
    assert(opt_seq(s1.1.0) == seq![death_blast(site.pos, 0)]);
    let p1 = damage_pass(m, player_id, seq![e]);
    assert(p1.1 == Seq::<ExplosionEvent>::empty() + seq![death_blast(site.pos, 0)]);
}

impl World {
    /// Points every enemy straight at the player at its top speed.
    pub fn move_skulls(&mut self)
        requires
            old(self).wf(),
        ensures
            final(self).wf(),
            final(self).skulls@.len() == old(self).skulls@.len(),
            forall|i: int|
                0 <= i < old(self).skulls@.len() ==> {
                    let s = #[trigger] old(self).skulls@[i];
                    let v = final(self).skulls@[i].motion.desired_velocity;
                    &&& final(self).skulls@[i] == (FireSkull {
                        motion: CharacterControllerState { desired_velocity: v, ..s.motion },
                        ..s
                    })
                    &&& (v.x as int, v.z as int) == chase_velocity(
                        s.pos,
                        old(self).player.pos,
                        s.controller.max_speed,
                    )
                },
            final(self).player == old(self).player,
            final(self).spawners@ == old(self).spawners@,
            final(self).kills == old(self).kills,
            final(self).score == old(self).score,
            final(self).spawn_parameters == old(self).spawn_parameters,
            final(self).next_id == old(self).next_id,
    {
        let target = self.player.pos;
        let mut i: usize = 0;
        while i < self.skulls.len()
            invariant
                0 <= i <= self.skulls@.len(),
                self.skulls@.len() == old(self).skulls@.len(),
                self.player == old(self).player,
                self.spawners@ == old(self).spawners@,
                self.kills == old(self).kills,
                self.score == old(self).score,
                self.spawn_parameters == old(self).spawn_parameters,
                self.next_id == old(self).next_id,
                target == self.player.pos,
                in_bounds(target),
                skulls_ok(old(self).skulls@, self.next_id, self.player.id),
                forall|j: int| i <= j < self.skulls@.len() ==> #[trigger] self.skulls@[j] == old(self).skulls@[j],
                forall|j: int|
                    0 <= j < i ==> {
                        let s = #[trigger] old(self).skulls@[j];
                        let v = self.skulls@[j].motion.desired_velocity;
                        &&& self.skulls@[j] == (FireSkull {
                            motion: CharacterControllerState { desired_velocity: v, ..s.motion },
                            ..s
                        })
                        &&& (v.x as int, v.z as int) == chase_velocity(
                            s.pos,
                            target,
                            s.controller.max_speed,
                        )
                    },
            decreases self.skulls@.len() - i,
        {
            let mut skull = self.skulls[i];
            assert(skull_ok(old(self).skulls@[i as int], self.next_id, self.player.id));
            let v = chase(&skull.pos, &target, skull.controller.max_speed);
            skull.motion.desired_velocity = v;
            self.skulls.set(i, skull);
            i = i + 1;
        }
        proof {
            let s0 = old(self).skulls@;
            let s1 = self.skulls@;
            assert forall|k: int| 0 <= k < s1.len() implies skull_ok(#[trigger] s1[k], self.next_id, self.player.id) by {
                assert(skull_ok(s0[k], self.next_id, self.player.id));
            }
            assert forall|a: int, b: int| 0 <= a < b < s1.len() implies #[trigger] s1[a].id != #[trigger] s1[b].id by {
                assert(s0[a].id != s0[b].id);
            }
        }
    }

    /// Contact damage: each collision that starts between the player and an
    /// enemy, in either order, kills the enemy outright with a chain of zero.
    pub fn skull_collisions(&self, started: &Vec<(EntityId, EntityId)>) -> (r: Vec<DamageEvent>)
        ensures
            r@ == contact_kills(self.player.id, self.skulls@, started@),
    {
        let mut out: Vec<DamageEvent> = Vec::new();
        let mut i: usize = 0;
        while i < started.len()
            invariant
                0 <= i <= started.len(),
                out@ == contact_kills(self.player.id, self.skulls@, started@.take(i as int)),
            decreases started.len() - i,
        {
            proof {
                assert(started@.take(i + 1).drop_last() == started@.take(i as int));
            }
            let (e1, e2) = started[i];
            let mut found = false;
            if e1 == self.player.id {
                if let Some(_) = self.find_skull(e2) {
                    out.push(DamageEvent { entity: e2, damage: crate::health::Damage::Infinite, chain: 0 });
                    found = true;
                }
            }
            if !found && e2 == self.player.id {
                if let Some(_) = self.find_skull(e1) {
                    out.push(DamageEvent { entity: e1, damage: crate::health::Damage::Infinite, chain: 0 });
                }
            }
            i = i + 1;
        }
        assert(started@.take(i as int) == started@);
        out
    }
}

/// The instant kills raised by collisions that started between the player and
/// an enemy, in the order the collisions are reported.
pub open spec fn contact_kills(player_id: EntityId, skulls: Seq<FireSkull>, started: Seq<(EntityId, EntityId)>) -> Seq<DamageEvent>
    decreases started.len(),
{
    if started.len() == 0 {
        Seq::empty()
    } else {
        let prev = contact_kills(player_id, skulls, started.drop_last());
        let (e1, e2) = started.last();
        let kill = |e: EntityId| DamageEvent { entity: e, damage: crate::health::Damage::Infinite, chain: 0 };
        if e1 == player_id && skull_index(skulls, e2) is Some {
            prev.push(kill(e2))
        } else if e2 == player_id && skull_index(skulls, e1) is Some {
            prev.push(kill(e1))
        } else {
            prev
        }
    }
}

} // verus!
