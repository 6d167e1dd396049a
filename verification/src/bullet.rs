//! Bullets: motion along a stored direction, contact damage, and lifetime
//! expiry.
use vstd::prelude::*;

use crate::geometry::{
    clamp_coord, clamp_spec, dist_sq, distance_squared, div_trunc, in_box, is_isqrt, isqrt,
    isqrt_spec, lemma_component_le_root, lemma_square_bound, scaled_component, speed_step,
    step_of, Vec3, DIR_MAX, SPEED_MAX,
};
use crate::target::{targets_wf, TargetEntity};
use crate::timer::{Timer, DELTA_MAX};

verus! {

/// How close a bullet must come to a target to count as contact, in
/// milli-units.
pub const CONTACT_RADIUS: i64 = 300;

/// A countdown after which an airborne bullet is discarded.
#[derive(Clone, Copy, Debug, PartialEq, Eq, Structural)]
pub struct Lifetime {
    pub timer: Timer,
}

/// The flight state of one bullet: its direction as stored at spawn (not
/// necessarily unit length) and its speed in milli-units per second.
#[derive(Clone, Copy, Debug, PartialEq, Eq, Structural)]
pub struct Bullet {
    pub direction: Vec3,
    pub speed: u32,
}

/// One airborne bullet: flight state, lifetime, and world position.
#[derive(Clone, Copy, Debug, PartialEq, Eq, Structural)]
pub struct BulletEntity {
    pub bullet: Bullet,
    pub lifetime: Lifetime,
    pub position: Vec3,
}

impl BulletEntity {
    /// In-box position, bounded direction and speed, well-formed timer.
    pub open spec fn wf(self) -> bool {
        &&& in_box(self.position)
        &&& -DIR_MAX <= self.bullet.direction.x <= DIR_MAX
        &&& -DIR_MAX <= self.bullet.direction.y <= DIR_MAX
        &&& -DIR_MAX <= self.bullet.direction.z <= DIR_MAX
        &&& self.bullet.speed <= SPEED_MAX
        &&& self.lifetime.timer.wf()
    }
}

/// Every entry of a bullet list is well formed.
pub open spec fn bullets_wf(s: Seq<BulletEntity>) -> bool {
    forall|i: int| 0 <= i < s.len() ==> (#[trigger] s[i]).wf()
}

/// One bullet advanced by one tick: it moves by `speed * delta / 1000`
/// milli-units along its direction, each coordinate scaled by truncating
/// division against the direction's rounded-down length and clamped into
/// the coordinate box. A zero direction moves nothing.
pub open spec fn moved_bullet(b: BulletEntity, delta_ms: u64) -> BulletEntity {
    let d = b.bullet.direction;
    if d.x == 0 && d.y == 0 && d.z == 0 {
        b
    } else {
        let step = speed_step(b.bullet.speed, delta_ms);
        let len = isqrt_spec(d.x * d.x + d.y * d.y + d.z * d.z);
        BulletEntity {
            position: Vec3 {
                x: clamp_spec(b.position.x + div_trunc(d.x * step, len)) as i64,
                y: clamp_spec(b.position.y + div_trunc(d.y * step, len)) as i64,
                z: clamp_spec(b.position.z + div_trunc(d.z * step, len)) as i64,
            },
            ..b
        }
    }
}

/// Advance one bullet by one tick; see [`moved_bullet`].
pub fn move_one_bullet(b: BulletEntity, delta_ms: u64) -> (r: BulletEntity)
    requires
        b.wf(),
        delta_ms <= DELTA_MAX,
    ensures
        r == moved_bullet(b, delta_ms),
        r.wf(),
        r.bullet == b.bullet,
        r.lifetime == b.lifetime,
{
    let d = b.bullet.direction;
    if d.x == 0 && d.y == 0 && d.z == 0 {
        return b;
    }
    let step = step_of(b.bullet.speed, delta_ms);
    proof {
        lemma_square_bound(d.x as int, DIR_MAX as int);
        lemma_square_bound(d.y as int, DIR_MAX as int);
        lemma_square_bound(d.z as int, DIR_MAX as int);
    }
    let d2: i64 = d.x * d.x + d.y * d.y + d.z * d.z;
    let len = isqrt(d2);
    proof {
        assert(d2 >= 1) by {
            if d.x != 0 {
                assert(d.x * d.x >= 1) by (nonlinear_arith)
                    requires
                        d.x != 0,
                ;
            } else if d.y != 0 {
                assert(d.y * d.y >= 1) by (nonlinear_arith)
                    requires
                        d.y != 0,
                ;
            } else {
                assert(d.z * d.z >= 1) by (nonlinear_arith)
                    requires
                        d.z != 0,
                ;
            }
        }
        assert(len >= 1) by (nonlinear_arith)
            requires
                0 <= len,
                (d2 as int) < ((len as int) + 1) * ((len as int) + 1),
                1 <= d2,
        ;
        lemma_dir_component_le_root(d2 as int, len as int, d.x as int);
        lemma_dir_component_le_root(d2 as int, len as int, d.y as int);
        lemma_dir_component_le_root(d2 as int, len as int, d.z as int);
    }
    let mx = scaled_component(d.x, step, len);
    let my = scaled_component(d.y, step, len);
    let mz = scaled_component(d.z, step, len);
    BulletEntity {
        bullet: b.bullet,
        lifetime: b.lifetime,
        position: Vec3 {
            x: clamp_coord(b.position.x + mx),
            y: clamp_coord(b.position.y + my),
            z: clamp_coord(b.position.z + mz),
        },
    }
}

/// A component of a vector never exceeds the rounded-down length of the
/// vector, given its square is within the squared length.
proof fn lemma_dir_component_le_root(n: int, r: int, v: int)
    requires
        is_isqrt(n, r),
        v * v <= n,
    ensures
        -r <= v <= r,
{
    if v >= 0 {
        lemma_component_le_root(n, r, v);
    } else {
        assert((-v) * (-v) == v * v) by (nonlinear_arith);
        lemma_component_le_root(n, r, -v);
    }
}

/// Advance every bullet by one tick; each entry follows [`moved_bullet`].
pub fn move_bullets(bullets: &mut Vec<BulletEntity>, delta_ms: u64)
    requires
        bullets_wf(old(bullets)@),
        delta_ms <= DELTA_MAX,
    ensures
        final(bullets)@.len() == old(bullets)@.len(),
        forall|i: int|
            0 <= i < old(bullets)@.len() ==> final(bullets)@[i] == moved_bullet(
                #[trigger] old(bullets)@[i],
                delta_ms,
            ),
        bullets_wf(final(bullets)@),
{
    let n = bullets.len();
    let mut i: usize = 0;
    while i < n
        invariant
            n == old(bullets)@.len(),
            bullets@.len() == n,
            0 <= i <= n,
            bullets_wf(old(bullets)@),
            delta_ms <= DELTA_MAX,
            forall|j: int| i <= j < n ==> #[trigger] bullets@[j] == old(bullets)@[j],
            forall|j: int|
                0 <= j < i ==> bullets@[j] == moved_bullet(#[trigger] old(bullets)@[j], delta_ms),
            forall|j: int| 0 <= j < i ==> (#[trigger] bullets@[j]).wf(),
        decreases n - i,
    {
        let b = bullets[i];
        let r = move_one_bullet(b, delta_ms);
        bullets[i] = r;
        i = i + 1;
    }
}

/// Whether a bullet stands in contact with a target: straight-line distance
/// strictly below [`CONTACT_RADIUS`].
pub open spec fn hits(b: BulletEntity, t: TargetEntity) -> bool {
    dist_sq(b.position, t.position) < CONTACT_RADIUS * CONTACT_RADIUS
}

/// The first target (in list order) a bullet stands in contact with, from
/// index `i` on.
pub open spec fn first_hit_from(b: BulletEntity, targets: Seq<TargetEntity>, i: int) -> Option<
    int,
>
    decreases targets.len() - i,
{
    if i < 0 || i >= targets.len() {
        None
    } else if hits(b, targets[i]) {
        Some(i)
    } else {
        first_hit_from(b, targets, i + 1)
    }
}

/// The first target (in list order) a bullet stands in contact with.
pub open spec fn first_hit(b: BulletEntity, targets: Seq<TargetEntity>) -> Option<int> {
    first_hit_from(b, targets, 0)
}

/// How many of the bullets hit target `i` first: each bullet damages at
/// most one target, the first one it stands in contact with.
pub open spec fn hits_on(bullets: Seq<BulletEntity>, targets: Seq<TargetEntity>, i: int) -> nat
    decreases bullets.len(),
{
    if bullets.len() == 0 {
        0
    } else {
        hits_on(bullets.drop_last(), targets, i) + if first_hit(bullets.last(), targets) == Some(
            i,
        ) {
            1nat
        } else {
            0nat
        }
    }
}

/// The bullets that contact no target, in order: the ones that survive the
/// collision pass.
pub open spec fn surviving_bullets(
    bullets: Seq<BulletEntity>,
    targets: Seq<TargetEntity>,
) -> Seq<BulletEntity>
    decreases bullets.len(),
{
    if bullets.len() == 0 {
        Seq::empty()
    } else {
        let rest = surviving_bullets(bullets.drop_last(), targets);
        if first_hit(bullets.last(), targets) is None {
            rest.push(bullets.last())
        } else {
            rest
        }
    }
}

/// No target takes more hits than there are bullets.
pub proof fn lemma_hits_on_le_len(bullets: Seq<BulletEntity>, targets: Seq<TargetEntity>, i: int)
    ensures
        hits_on(bullets, targets, i) <= bullets.len(),
    decreases bullets.len(),
{
    if bullets.len() > 0 {
        lemma_hits_on_le_len(bullets.drop_last(), targets, i);
    }
}

/// Find the first target this bullet stands in contact with.
fn find_hit(b: &BulletEntity, targets: &Vec<TargetEntity>) -> (r: Option<usize>)
    requires
        in_box(b.position),
        targets_wf(targets@),
    ensures
        match r {
            Some(j) => j < targets@.len() && first_hit(*b, targets@) == Some(j as int),
            None => first_hit(*b, targets@) is None,
        },
{
    let n = targets.len();
    let mut j: usize = 0;
    while j < n
        invariant
            n == targets@.len(),
            0 <= j <= n,
            in_box(b.position),
            targets_wf(targets@),
            first_hit(*b, targets@) == first_hit_from(*b, targets@, j as int),
        decreases n - j,
    {
        let t = targets[j];
        let d2 = distance_squared(&b.position, &t.position);
        if d2 < CONTACT_RADIUS * CONTACT_RADIUS {
            return Some(j);
        }
        j = j + 1;
    }
    None
}

/// One collision pass: each bullet damages the first target it stands in
/// contact with by one point and is discarded; bullets in contact with no
/// target survive unchanged, in order. Targets never move here, and a
/// target hit by several bullets at once takes all their damage in this
/// one pass.
pub fn bullet_collision(bullets: &mut Vec<BulletEntity>, targets: &mut Vec<TargetEntity>)
    requires
        bullets_wf(old(bullets)@),
        targets_wf(old(targets)@),
        forall|k: int|
            0 <= k < old(targets)@.len() ==> (#[trigger] old(targets)@[k]).health.value - old(
                bullets,
            )@.len() >= i32::MIN,
    ensures
        final(bullets)@ == surviving_bullets(old(bullets)@, old(targets)@),
        bullets_wf(final(bullets)@),
        final(targets)@.len() == old(targets)@.len(),
        forall|k: int|
            0 <= k < old(targets)@.len() ==> {
                &&& (#[trigger] final(targets)@[k]).target == old(targets)@[k].target
                &&& final(targets)@[k].position == old(targets)@[k].position
                &&& final(targets)@[k].health.value == old(targets)@[k].health.value - hits_on(
                    old(bullets)@,
                    old(targets)@,
                    k,
                )
            },
        targets_wf(final(targets)@),
{
    let ghost sb = bullets@;
    let ghost st = targets@;
    let nb = bullets.len();
    let mut kept: Vec<BulletEntity> = Vec::new();
    let mut bi: usize = 0;
    proof {
        assert(sb.take(0) =~= Seq::<BulletEntity>::empty());
    }
    while bi < nb
        invariant
            nb == sb.len(),
            bullets@ == sb,
            0 <= bi <= nb,
            bullets_wf(sb),
            targets_wf(st),
            targets@.len() == st.len(),
            forall|k: int|
                0 <= k < st.len() ==> (#[trigger] st[k]).health.value - sb.len() >= i32::MIN,
            kept@ == surviving_bullets(sb.take(bi as int), st),
            bullets_wf(kept@),
            forall|k: int|
                0 <= k < st.len() ==> {
                    &&& (#[trigger] targets@[k]).target == st[k].target
                    &&& targets@[k].position == st[k].position
                    &&& targets@[k].health.value == st[k].health.value - hits_on(
                        sb.take(bi as int),
                        st,
                        k,
                    )
                },
        decreases nb - bi,
    {
        proof {
            assert(sb.take(bi as int + 1).drop_last() =~= sb.take(bi as int));
            assert(sb.take(bi as int + 1).last() == sb[bi as int]);
            lemma_hits_on_le_len(sb.take(bi as int), st, 0);
        }
        let b = bullets[bi];
        let hit = find_hit(&b, targets);
        proof {
            lemma_first_hit_positions(b, targets@, st, 0);
        }
        match hit {
            Some(j) => {
                proof {
                    lemma_hits_on_le_len(sb.take(bi as int), st, j as int);
                }
                let t = targets[j];
                targets[j] = TargetEntity {
                    target: t.target,
                    health: crate::target::Health { value: t.health.value - 1 },
                    position: t.position,
                };
            },
            None => {
                kept.push(b);
            },
        }
        bi = bi + 1;
    }
    proof {
        assert(sb.take(nb as int) =~= sb);
    }
    *bullets = kept;
}

/// Contact is a matter of positions alone: two target lists that agree on
/// positions agree on where a bullet first hits.
proof fn lemma_first_hit_positions(
    b: BulletEntity,
    s1: Seq<TargetEntity>,
    s2: Seq<TargetEntity>,
    i: int,
)
    requires
        s1.len() == s2.len(),
        forall|k: int| 0 <= k < s1.len() ==> (#[trigger] s1[k]).position == s2[k].position,
    ensures
        first_hit_from(b, s1, i) == first_hit_from(b, s2, i),
    decreases s1.len() - i,
{
    if 0 <= i < s1.len() {
        lemma_first_hit_positions(b, s1, s2, i + 1);
    }
}

/// One bullet after its lifetime timer ticked.
pub open spec fn ticked_bullet(b: BulletEntity, delta_ms: u64) -> BulletEntity {
    BulletEntity { lifetime: Lifetime { timer: b.lifetime.timer.spec_tick(delta_ms) }, ..b }
}

/// The bullets whose freshly ticked lifetime has not just run out, ticked,
/// in order.
pub open spec fn remaining_bullets(s: Seq<BulletEntity>, delta_ms: u64) -> Seq<BulletEntity>
    decreases s.len(),
{
    if s.len() == 0 {
        Seq::empty()
    } else {
        let rest = remaining_bullets(s.drop_last(), delta_ms);
        let tb = ticked_bullet(s.last(), delta_ms);
        if tb.lifetime.timer.just_finished {
            rest
        } else {
            rest.push(tb)
        }
    }
}

/// The bullet systems, run as one block each tick: motion, then collision,
/// then lifetime despawn.
pub struct BulletPlugin;

impl BulletPlugin {
    /// One bullet pass: every bullet moves, each bullet in contact with a
    /// target damages the first such target and is discarded, and the
    /// survivors' lifetimes tick, discarding the ones that just ran out.
    /// Nothing else of the game moves.
    pub fn update(game: &mut crate::game::Game, delta_ms: u64)
        requires
            old(game).wf(),
            delta_ms <= DELTA_MAX,
            forall|k: int|
                0 <= k < old(game).targets@.len() ==> (
                #[trigger] old(game).targets@[k]).health.value - old(game).bullets@.len()
                    >= i32::MIN,
        ensures
            ({
                let b1 = crate::game::moved_bullets_seq(old(game).bullets@, delta_ms);
                let t0 = old(game).targets@;
                &&& final(game).bullets@ == remaining_bullets(
                    surviving_bullets(b1, t0),
                    delta_ms,
                )
                &&& final(game).targets@ == crate::game::damaged_targets_seq(t0, b1)
            }),
            final(game).wf(),
            final(game).state == old(game).state,
            final(game).player == old(game).player,
            final(game).path.waypoints@ == old(game).path.waypoints@,
            final(game).towers@ == old(game).towers@,
            final(game).death_events@ == old(game).death_events@,
            final(game).build_sites@ == old(game).build_sites@,
            final(game).tower_ui == old(game).tower_ui,
            final(game).gameplay_ui == old(game).gameplay_ui,
    {
        let ghost b0 = game.bullets@;
        let ghost t0 = game.targets@;
        move_bullets(&mut game.bullets, delta_ms);
        proof {
            assert(game.bullets@ =~= crate::game::moved_bullets_seq(b0, delta_ms));
        }
        bullet_collision(&mut game.bullets, &mut game.targets);
        proof {
            let b1 = crate::game::moved_bullets_seq(b0, delta_ms);
            assert forall|k: int| 0 <= k < t0.len() implies (#[trigger] game.targets@[k])
                == crate::game::damaged_targets_seq(t0, b1)[k] by {
                lemma_hits_on_le_len(b1, t0, k);
            }
            assert(game.targets@ =~= crate::game::damaged_targets_seq(t0, b1));
        }
        bullet_despawn(&mut game.bullets, delta_ms);
    }
}

/// A bullet that contacts no target and whose lifetime runs out is
/// discarded without dealing damage: it adds nothing to any target's hit
/// count, and the despawn pass drops it.
pub proof fn lemma_timeout_without_damage(
    bullets: Seq<BulletEntity>,
    targets: Seq<TargetEntity>,
    b: BulletEntity,
    delta_ms: u64,
    i: int,
)
    requires
        first_hit(b, targets) is None,
        ticked_bullet(b, delta_ms).lifetime.timer.just_finished,
    ensures
        hits_on(bullets.push(b), targets, i) == hits_on(bullets, targets, i),
        remaining_bullets(bullets.push(b), delta_ms) == remaining_bullets(bullets, delta_ms),
{
    assert(bullets.push(b).drop_last() =~= bullets);
    assert(bullets.push(b).last() == b);
}

/// Tick every bullet's lifetime by one tick and discard the ones whose
/// timer just ran out. Targets are not touched: a bullet that times out
/// deals no damage.
pub fn bullet_despawn(bullets: &mut Vec<BulletEntity>, delta_ms: u64)
    requires
        bullets_wf(old(bullets)@),
        delta_ms <= DELTA_MAX,
    ensures
        final(bullets)@ == remaining_bullets(old(bullets)@, delta_ms),
        bullets_wf(final(bullets)@),
{
    let ghost s = bullets@;
    let n = bullets.len();
    let mut kept: Vec<BulletEntity> = Vec::new();
    let mut i: usize = 0;
    proof {
        assert(s.take(0) =~= Seq::<BulletEntity>::empty());
    }
    while i < n
        invariant
            n == s.len(),
            bullets@ == s,
            0 <= i <= n,
            bullets_wf(s),
            delta_ms <= DELTA_MAX,
            kept@ == remaining_bullets(s.take(i as int), delta_ms),
            bullets_wf(kept@),
        decreases n - i,
    {
        proof {
            assert(s.take(i as int + 1).drop_last() =~= s.take(i as int));
            assert(s.take(i as int + 1).last() == s[i as int]);
        }
        let b = bullets[i];
        let mut timer = b.lifetime.timer;
        timer.tick(delta_ms);
        if !timer.just_finished {
            kept.push(BulletEntity {
                bullet: b.bullet,
                lifetime: Lifetime { timer },
                position: b.position,
            });
        }
        i = i + 1;
    }
    proof {
        assert(s.take(n as int) =~= s);
    }
    *bullets = kept;
}

} // verus!
