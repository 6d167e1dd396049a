//! Targets that walk the waypoint path, their health, and the death scan.
use vstd::prelude::*;

use crate::geometry::{
    dist_sq_xz, distance_squared_xz, div_trunc, in_box, in_box2, isqrt, isqrt_spec,
    lemma_component_le_root, lemma_square_bound, scaled_component, speed_step, step_of, Vec2,
    Vec3, COORD_MAX, SPEED_MAX, STEP_MAX,
};
use crate::timer::DELTA_MAX;

verus! {

/// The walking state of one target: its speed in milli-units per second and
/// the index of the waypoint it is walking toward.
#[derive(Clone, Copy, Debug, PartialEq, Eq, Structural)]
pub struct Target {
    pub speed: u32,
    pub path_index: usize,
}

/// The shared, read-only waypoint polyline every target follows.
pub struct TargetPath {
    pub waypoints: Vec<Vec2>,
}

/// Hit points; transiently negative under simultaneous hits.
#[derive(Clone, Copy, Debug, PartialEq, Eq, Structural)]
pub struct Health {
    pub value: i32,
}

/// One notification per target removed by the death scan.
#[derive(Clone, Copy, Debug, PartialEq, Eq, Structural)]
pub struct TargetDeathEvent;

/// A live target: walking state, health, and world position.
#[derive(Clone, Copy, Debug, PartialEq, Eq, Structural)]
pub struct TargetEntity {
    pub target: Target,
    pub health: Health,
    pub position: Vec3,
}

impl TargetPath {
    /// Every waypoint sits inside the coordinate box.
    pub open spec fn wf(&self) -> bool {
        forall|i: int| 0 <= i < self.waypoints@.len() ==> in_box2(#[trigger] self.waypoints@[i])
    }
}

impl TargetEntity {
    /// In-box position and bounded speed.
    pub open spec fn wf(self) -> bool {
        &&& in_box(self.position)
        &&& self.target.speed <= SPEED_MAX
    }
}

/// Every entry of a target list is well formed.
pub open spec fn targets_wf(s: Seq<TargetEntity>) -> bool {
    forall|i: int| 0 <= i < s.len() ==> (#[trigger] s[i]).wf()
}

/// One target advanced by one tick. With the current waypoint still farther
/// than this tick's displacement, the target moves straight toward it by
/// exactly that displacement (componentwise truncating division); on arrival
/// within the tick, the waypoint index is stepped instead and the leftover
/// displacement is dropped. An index at or past the end of the path leaves
/// the target untouched: it counts as arrived.
pub open spec fn moved_target(t: TargetEntity, waypoints: Seq<Vec2>, delta_ms: u64) -> TargetEntity {
    if t.target.path_index >= waypoints.len() {
        t
    } else {
        let wp = waypoints[t.target.path_index as int];
        let step = speed_step(t.target.speed, delta_ms);
        let d2 = dist_sq_xz(t.position, wp);
        if d2 > step * step {
            let len = isqrt_spec(d2);
            TargetEntity {
                target: t.target,
                health: t.health,
                position: Vec3 {
                    x: (t.position.x + div_trunc((wp.x - t.position.x) * step, len)) as i64,
                    y: t.position.y,
                    z: (t.position.z + div_trunc((wp.z - t.position.z) * step, len)) as i64,
                },
            }
        } else {
            TargetEntity {
                target: Target {
                    speed: t.target.speed,
                    path_index: (t.target.path_index + 1) as usize,
                },
                health: t.health,
                position: t.position,
            }
        }
    }
}

/// Advance one target by one tick; see [`moved_target`] for the rule.
/// The waypoint index never decreases and grows by at most one; while the
/// index stands still the squared distance to its waypoint never grows; and
/// on arrival the position is left as it was, so the tick's movement never
/// mixes two path segments.
pub fn move_one_target(t: TargetEntity, path: &TargetPath, delta_ms: u64) -> (r: TargetEntity)
    requires
        t.wf(),
        path.wf(),
        delta_ms <= DELTA_MAX,
    ensures
        r == moved_target(t, path.waypoints@, delta_ms),
        r.wf(),
        r.target.speed == t.target.speed,
        r.health == t.health,
        t.target.path_index <= r.target.path_index <= t.target.path_index + 1,
        t.target.path_index < path.waypoints@.len() || r == t,
        r.target.path_index <= path.waypoints@.len() || r.target.path_index
            == t.target.path_index,
        r.target.path_index == t.target.path_index + 1 ==> r.position == t.position,
        r.target.path_index == t.target.path_index && (t.target.path_index as int)
            < path.waypoints@.len() ==> dist_sq_xz(
            r.position,
            path.waypoints@[t.target.path_index as int],
        ) <= dist_sq_xz(t.position, path.waypoints@[t.target.path_index as int]),
{
    let idx = t.target.path_index;
    if idx >= path.waypoints.len() {
        return t;
    }
    let wp = path.waypoints[idx];
    let step = step_of(t.target.speed, delta_ms);
    let d2 = distance_squared_xz(&t.position, &wp);
    proof {
        lemma_square_bound(step as int, STEP_MAX as int);
    }
    if d2 > step * step {
        let len = isqrt(d2);
        let dx = wp.x - t.position.x;
        let dz = wp.z - t.position.z;
        proof {
            assert(len >= 1) by (nonlinear_arith)
                requires
                    0 <= len,
                    (d2 as int) < ((len as int) + 1) * ((len as int) + 1),
                    1 <= d2,
            ;
            lemma_component_le_root(d2 as int, len as int, step as int);
            lemma_square_bound(dz as int, 2 * COORD_MAX as int);
            lemma_square_bound(dx as int, 2 * COORD_MAX as int);
            if dx >= 0 {
                lemma_component_le_root(d2 as int, len as int, dx as int);
            } else {
                assert((-dx) * (-dx) == dx * dx) by (nonlinear_arith);
                lemma_component_le_root(d2 as int, len as int, -dx as int);
            }
            if dz >= 0 {
                lemma_component_le_root(d2 as int, len as int, dz as int);
            } else {
                assert((-dz) * (-dz) == dz * dz) by (nonlinear_arith);
                lemma_component_le_root(d2 as int, len as int, -dz as int);
            }
        }
        let mx = scaled_component(dx, step, len);
        let mz = scaled_component(dz, step, len);
        let r = TargetEntity {
            target: t.target,
            health: t.health,
            position: Vec3 { x: t.position.x + mx, y: t.position.y, z: t.position.z + mz },
        };
        proof {
            lemma_abs_square_le(dx as int, dx - mx);
            lemma_abs_square_le(dz as int, dz - mz);
        }
        r
    } else {
        TargetEntity {
            target: Target { speed: t.target.speed, path_index: idx + 1 },
            health: t.health,
            position: t.position,
        }
    }
}

/// A number between zero and `a` (on either side) has a square within
/// `a`'s.
proof fn lemma_abs_square_le(a: int, b: int)
    requires
        (0 <= b <= a) || (a <= b <= 0),
    ensures
        b * b <= a * a,
{
    assert(b * b <= a * a) by (nonlinear_arith)
        requires
            (0 <= b <= a) || (a <= b <= 0),
    ;
}

/// Advance every target by one tick; each entry follows [`moved_target`],
/// and the per-target guarantees of [`move_one_target`] hold of each.
pub fn move_targets(targets: &mut Vec<TargetEntity>, path: &TargetPath, delta_ms: u64)
    requires
        targets_wf(old(targets)@),
        path.wf(),
        delta_ms <= DELTA_MAX,
    ensures
        final(targets)@.len() == old(targets)@.len(),
        forall|i: int|
            0 <= i < old(targets)@.len() ==> final(targets)@[i] == moved_target(
                #[trigger] old(targets)@[i],
                path.waypoints@,
                delta_ms,
            ),
        targets_wf(final(targets)@),
        forall|i: int|
            0 <= i < old(targets)@.len() ==> old(targets)@[i].target.path_index <= (
            #[trigger] final(targets)@[i]).target.path_index <= old(
                targets,
            )@[i].target.path_index + 1,
        forall|i: int|
            0 <= i < old(targets)@.len() ==> ((#[trigger] final(targets)@[i]).target.path_index
                == old(targets)@[i].target.path_index && (old(
                targets,
            )@[i].target.path_index as int) < path.waypoints@.len() ==> dist_sq_xz(
                final(targets)@[i].position,
                path.waypoints@[old(targets)@[i].target.path_index as int],
            ) <= dist_sq_xz(
                old(targets)@[i].position,
                path.waypoints@[old(targets)@[i].target.path_index as int],
            )),
{
    let n = targets.len();
    let mut i: usize = 0;
    while i < n
        invariant
            n == old(targets)@.len(),
            targets@.len() == n,
            0 <= i <= n,
            targets_wf(old(targets)@),
            path.wf(),
            delta_ms <= DELTA_MAX,
            forall|j: int| i <= j < n ==> #[trigger] targets@[j] == old(targets)@[j],
            forall|j: int|
                0 <= j < i ==> targets@[j] == moved_target(
                    #[trigger] old(targets)@[j],
                    path.waypoints@,
                    delta_ms,
                ),
            forall|j: int| 0 <= j < i ==> (#[trigger] targets@[j]).wf(),
            forall|j: int|
                0 <= j < i ==> old(targets)@[j].target.path_index <= (
                #[trigger] targets@[j]).target.path_index <= old(targets)@[j].target.path_index
                    + 1,
            forall|j: int|
                0 <= j < i ==> ((#[trigger] targets@[j]).target.path_index == old(
                    targets,
                )@[j].target.path_index && (old(targets)@[j].target.path_index as int)
                    < path.waypoints@.len() ==> dist_sq_xz(
                    targets@[j].position,
                    path.waypoints@[old(targets)@[j].target.path_index as int],
                ) <= dist_sq_xz(
                    old(targets)@[j].position,
                    path.waypoints@[old(targets)@[j].target.path_index as int],
                )),
        decreases n - i,
    {
        let t = targets[i];
        assert(t == old(targets)@[i as int]);
        let r = move_one_target(t, path, delta_ms);
        targets[i] = r;
        i = i + 1;
    }
}

/// The live entries of a target list, in order.
pub open spec fn live_targets(s: Seq<TargetEntity>) -> Seq<TargetEntity>
    decreases s.len(),
{
    if s.len() == 0 {
        Seq::empty()
    } else if s.first().health.value > 0 {
        seq![s.first()] + live_targets(s.drop_first())
    } else {
        live_targets(s.drop_first())
    }
}

/// How many entries of a target list are dead: health at or below zero.
pub open spec fn count_dead(s: Seq<TargetEntity>) -> nat
    decreases s.len(),
{
    if s.len() == 0 {
        0
    } else if s.first().health.value <= 0 {
        1 + count_dead(s.drop_first())
    } else {
        count_dead(s.drop_first())
    }
}

/// However many simultaneous hits brought a target's health to zero or
/// below in the tick, the death scan settles it exactly once: the survivors
/// are exactly the live entries, in their order, and the dead entries are
/// counted one each — so the scan emits exactly one death event per death.
pub proof fn lemma_single_death_event(s: Seq<TargetEntity>)
    ensures
        live_targets(s).len() + count_dead(s) == s.len(),
        forall|j: int|
            0 <= j < live_targets(s).len() ==> (#[trigger] live_targets(s)[j]).health.value > 0,
    decreases s.len(),
{
    if s.len() > 0 {
        lemma_single_death_event(s.drop_first());
    }
}

/// Every survivor of the death scan is an entry of the scanned list, so a
/// well-formed list keeps a well-formed remainder.
pub proof fn lemma_live_targets_wf(s: Seq<TargetEntity>)
    requires
        targets_wf(s),
    ensures
        targets_wf(live_targets(s)),
    decreases s.len(),
{
    if s.len() > 0 {
        assert(targets_wf(s.drop_first()));
        lemma_live_targets_wf(s.drop_first());
    }
}

/// The target systems, run as one block each tick: path walking, then the
/// death scan.
pub struct TargetPlugin;

impl TargetPlugin {
    /// Install the fixed waypoint path the targets walk: the polyline
    /// (6, 2), (6, 6), (9, 9) in world units, held in milli-units.
    pub fn build(game: &mut crate::game::Game)
        ensures
            final(game).path.waypoints@ == seq![
                Vec2 { x: 6000, z: 2000 },
                Vec2 { x: 6000, z: 6000 },
                Vec2 { x: 9000, z: 9000 },
            ],
            final(game).path.wf(),
            final(game).state == old(game).state,
            final(game).player == old(game).player,
            final(game).targets@ == old(game).targets@,
            final(game).towers@ == old(game).towers@,
            final(game).bullets@ == old(game).bullets@,
            final(game).death_events@ == old(game).death_events@,
            final(game).build_sites@ == old(game).build_sites@,
            final(game).tower_ui == old(game).tower_ui,
            final(game).gameplay_ui == old(game).gameplay_ui,
            old(game).wf() ==> final(game).wf(),
    {
        let mut waypoints: Vec<Vec2> = Vec::new();
        waypoints.push(Vec2 { x: 6000, z: 2000 });
        waypoints.push(Vec2 { x: 6000, z: 6000 });
        waypoints.push(Vec2 { x: 9000, z: 9000 });
        proof {
            assert(waypoints@ =~= seq![
                Vec2 { x: 6000, z: 2000 },
                Vec2 { x: 6000, z: 6000 },
                Vec2 { x: 9000, z: 9000 },
            ]);
        }
        game.path = TargetPath { waypoints };
    }

    /// One target pass: every target walks one tick along the path, then
    /// the death scan removes the dead and queues one death event each.
    /// Nothing else of the game moves.
    pub fn update(game: &mut crate::game::Game, delta_ms: u64)
        requires
            old(game).wf(),
            delta_ms <= DELTA_MAX,
        ensures
            ({
                let moved = crate::game::moved_targets_seq(
                    old(game).targets@,
                    old(game).path.waypoints@,
                    delta_ms,
                );
                &&& final(game).targets@ == live_targets(moved)
                &&& final(game).death_events@.len() == old(game).death_events@.len()
                    + count_dead(moved)
            }),
            forall|i: int|
                0 <= i < old(game).death_events@.len() ==> (#[trigger] final(game).death_events@[i])
                    == old(game).death_events@[i],
            final(game).wf(),
            final(game).state == old(game).state,
            final(game).player == old(game).player,
            final(game).path.waypoints@ == old(game).path.waypoints@,
            final(game).towers@ == old(game).towers@,
            final(game).bullets@ == old(game).bullets@,
            final(game).build_sites@ == old(game).build_sites@,
            final(game).tower_ui == old(game).tower_ui,
            final(game).gameplay_ui == old(game).gameplay_ui,
    {
        let ghost t0 = game.targets@;
        let ghost wps = game.path.waypoints@;
        move_targets(&mut game.targets, &game.path, delta_ms);
        proof {
            assert(game.targets@ =~= crate::game::moved_targets_seq(t0, wps, delta_ms));
        }
        target_death(&mut game.targets, &mut game.death_events);
        proof {
            lemma_live_targets_wf(crate::game::moved_targets_seq(t0, wps, delta_ms));
        }
    }
}

/// Scan targets for deaths: every entry whose health is at or below zero is
/// removed, exactly one death event is appended per removal, and the
/// survivors keep their order. Events already queued are left in place.
pub fn target_death(targets: &mut Vec<TargetEntity>, death_events: &mut Vec<TargetDeathEvent>)
    ensures
        final(targets)@ == live_targets(old(targets)@),
        final(death_events)@.len() == old(death_events)@.len() + count_dead(old(targets)@),
        forall|i: int|
            0 <= i < old(death_events)@.len() ==> #[trigger] final(death_events)@[i] == old(
                death_events,
            )@[i],
{
    let ghost s = targets@;
    let n = targets.len();
    let mut kept: Vec<TargetEntity> = Vec::new();
    let mut i: usize = 0;
    proof {
        assert(s.skip(0) =~= s);
        assert(kept@ + live_targets(s) =~= live_targets(s));
    }
    while i < n
        invariant
            n == s.len(),
            targets@ == s,
            0 <= i <= n,
            kept@ + live_targets(s.skip(i as int)) == live_targets(s),
            death_events@.len() + count_dead(s.skip(i as int)) == old(death_events)@.len()
                + count_dead(s),
            forall|k: int|
                0 <= k < old(death_events)@.len() ==> #[trigger] death_events@[k] == old(
                    death_events,
                )@[k],
        decreases n - i,
    {
        proof {
            assert(s.skip(i as int).drop_first() =~= s.skip(i as int + 1));
            assert(s.skip(i as int).first() == s[i as int]);
        }
        let t = targets[i];
        if t.health.value <= 0 {
            death_events.push(TargetDeathEvent);
        } else {
            let ghost k0 = kept@;
            kept.push(t);
            proof {
                assert(live_targets(s.skip(i as int)) == seq![s[i as int]] + live_targets(
                    s.skip(i as int + 1),
                ));
                assert(kept@ + live_targets(s.skip(i as int + 1)) =~= k0 + live_targets(
                    s.skip(i as int),
                ));
            }
        }
        i = i + 1;
    }
    proof {
        assert(s.skip(n as int) =~= Seq::empty());
        assert(kept@ + live_targets(s.skip(n as int)) =~= kept@);
    }
    *targets = kept;
}

} // verus!
