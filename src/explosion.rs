use vstd::prelude::*;
use crate::geometry::{Vec2, dist_spec, in_bounds};
use crate::health::{Damage, DamageEvent, EntityId};

verus! {

/// A blast at `pos`. `scale` is in thousandths (1000 is a standard blast of
/// 2.5 m radius) and `damage` in thousandths of a hit point at the centre.
#[derive(Clone, Copy, Debug, PartialEq, Eq, Structural)]
pub struct ExplosionEvent {
    pub pos: Vec2,
    pub scale: u64,
    pub damage: u64,
    pub chain: u64,
}

/// A damageable entity whose shape overlaps the blast sphere, and its centre.
#[derive(Clone, Copy, Debug, PartialEq, Eq, Structural)]
pub struct ExplosionHit {
    pub entity: EntityId,
    pub center: Vec2,
}

/// Blast radius in millimetres: 2.5 m for each unit of scale.
pub open spec fn blast_radius(scale: u64) -> int {
    scale * 5 / 2
}

/// Damage at distance `dist` from the centre of a blast of radius `radius`:
/// falls linearly from full at the centre to nothing at the edge.
pub open spec fn blast_damage(damage: u64, radius: u64, dist: u64) -> int {
    if dist >= radius {
        0
    } else {
        damage * (radius - dist) / (radius as int)
    }
}

/// The damage event that a blast deals to one overlapping entity.
pub open spec fn blast_event(ev: ExplosionEvent, hit: ExplosionHit) -> DamageEvent {
    DamageEvent {
        entity: hit.entity,
        damage: Damage::Amount(
            blast_damage(ev.damage, blast_radius(ev.scale) as u64, dist_spec(hit.center, ev.pos) as u64)
                as u64,
        ),
        chain: ev.chain,
    }
}

/// Blast radius for a scale, in millimetres.
pub fn radius_for_scale(scale: u64) -> (r: u64)
    requires
        blast_radius(scale) <= u64::MAX,
    ensures
        r == blast_radius(scale),
{
    ((scale as u128) * 5 / 2) as u64
}

/// Damage dealt at `dist` millimetres from the centre of a blast.
pub fn falloff(damage: u64, radius: u64, dist: u64) -> (r: u64)
    ensures
        r == blast_damage(damage, radius, dist),
        r <= damage,
{
    if dist >= radius {
        0
    } else {
        let left: u128 = (radius - dist) as u128;
        assert(damage * left <= damage * radius) by (nonlinear_arith)
            requires left <= radius;
        assert(damage * left <= u64::MAX * u64::MAX) by (nonlinear_arith)
            requires left <= u64::MAX, damage <= u64::MAX;
        let scaled: u128 = damage as u128 * left;
        proof {
            vstd::arithmetic::div_mod::lemma_div_is_ordered(
                damage * left,
                damage * radius,
                radius as int,
            );
            vstd::arithmetic::div_mod::lemma_div_by_multiple(damage as int, radius as int);
        }
        (scaled / radius as u128) as u64
    }
}

/// One damage event for each entity the blast overlaps, in the order given,
/// carrying the blast's chain depth unchanged.
pub fn explosion_collision(ev: &ExplosionEvent, hits: &Vec<ExplosionHit>) -> (r: Vec<DamageEvent>)
    requires
        in_bounds(ev.pos),
        blast_radius(ev.scale) <= u64::MAX,
        forall|i: int| 0 <= i < hits.len() ==> in_bounds(#[trigger] hits@[i].center),
    ensures
        r.len() == hits.len(),
        forall|i: int| 0 <= i < hits.len() ==> r@[i] == blast_event(*ev, #[trigger] hits@[i]),
{
    let radius = radius_for_scale(ev.scale);
    let mut out: Vec<DamageEvent> = Vec::new();
    let mut i: usize = 0;
    while i < hits.len()
        invariant
            i <= hits.len(),
            out.len() == i,
            radius == blast_radius(ev.scale),
            in_bounds(ev.pos),
            forall|j: int| 0 <= j < hits.len() ==> in_bounds(#[trigger] hits@[j].center),
            forall|j: int| 0 <= j < i ==> out@[j] == blast_event(*ev, #[trigger] hits@[j]),
        decreases hits.len() - i,
    {
        let hit = hits[i];
        let dist = hit.center.distance(&ev.pos);
        let amount = falloff(ev.damage, radius, dist);
        out.push(DamageEvent { entity: hit.entity, damage: Damage::Amount(amount), chain: ev.chain });
        i = i + 1;
    }
    out
}

/// Linear falloff: full damage at the centre, nothing at or beyond the edge,
/// and half at half the radius.
pub proof fn law_blast_falloff(damage: u64, radius: u64, dist: u64)
    requires
        radius > 0,
    ensures
        blast_damage(damage, radius, 0) == damage,
        dist >= radius ==> blast_damage(damage, radius, dist) == 0,
        radius % 2 == 0 ==> blast_damage(damage, radius, (radius / 2) as u64) == damage / 2,
{
    vstd::arithmetic::div_mod::lemma_div_by_multiple(damage as int, radius as int);
    if radius % 2 == 0 {
        let k: int = radius as int / 2;
        assert(radius - radius / 2 == k);
        vstd::arithmetic::div_mod::lemma_div_denominator((damage * k) as int, k, 2);
        vstd::arithmetic::div_mod::lemma_div_by_multiple(damage as int, k);
        assert(k * 2 == radius);
        assert(damage * k >= 0) by (nonlinear_arith)
            requires k >= 0;
    }
}

} // verus!
