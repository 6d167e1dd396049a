//! Towers: cadence timers, target acquisition, bullet spawning, and the
//! purchase buttons' affordability flags.
use vstd::prelude::*;

use crate::bullet::{bullets_wf, Bullet, BulletEntity, Lifetime};
use crate::geometry::{dist_sq, distance_squared, in_box, Vec3, COORD_MAX, DIR_MAX};
use crate::player::Player;
use crate::target::{targets_wf, TargetEntity};
use crate::timer::{Timer, TimerMode, DELTA_MAX};
use crate::TowerType;

verus! {

/// Height of the muzzle above a tower's base position, in milli-units.
pub const BULLET_OFFSET_Y: i64 = 600;

/// Acquisition radius of every tower kind, in milli-units.
pub const TOWER_RANGE: i64 = 4500;

/// How long a bullet may fly before it is discarded, in milliseconds.
pub const BULLET_LIFETIME_MS: u64 = 2000;

/// The firing state of one tower: its cadence timer, the local offset of
/// its muzzle, and its acquisition radius in milli-units.
#[derive(Clone, Copy, Debug, PartialEq, Eq, Structural)]
pub struct Tower {
    pub shooting_timer: Timer,
    pub bullet_offset: Vec3,
    pub range: i64,
}

/// One standing tower: firing state, kind, and world position.
#[derive(Clone, Copy, Debug, PartialEq, Eq, Structural)]
pub struct TowerEntity {
    pub tower: Tower,
    pub kind: TowerType,
    pub position: Vec3,
}

impl TowerEntity {
    /// Where this tower's bullets appear: its position plus the muzzle
    /// offset.
    pub open spec fn muzzle(self) -> Vec3 {
        Vec3 {
            x: (self.position.x + self.tower.bullet_offset.x) as i64,
            y: (self.position.y + self.tower.bullet_offset.y) as i64,
            z: (self.position.z + self.tower.bullet_offset.z) as i64,
        }
    }

    /// In-box position and muzzle, bounded range, well-formed timer.
    pub open spec fn wf(self) -> bool {
        &&& in_box(self.position)
        &&& -COORD_MAX <= self.position.x + self.tower.bullet_offset.x <= COORD_MAX
        &&& -COORD_MAX <= self.position.y + self.tower.bullet_offset.y <= COORD_MAX
        &&& -COORD_MAX <= self.position.z + self.tower.bullet_offset.z <= COORD_MAX
        &&& 0 <= self.tower.range <= DIR_MAX
        &&& self.tower.shooting_timer.wf()
    }
}

/// Every entry of a tower list is well formed.
pub open spec fn towers_wf(s: Seq<TowerEntity>) -> bool {
    forall|i: int| 0 <= i < s.len() ==> (#[trigger] s[i]).wf()
}

/// Whether a target stands strictly within `range` of the muzzle point.
pub open spec fn in_range(muzzle: Vec3, range: i64, t: TargetEntity) -> bool {
    dist_sq(muzzle, t.position) < range * range
}

/// The target a tower acquires among indices `i` and up: the one nearest
/// the muzzle among those strictly within range, the earliest on a tie.
pub open spec fn nearest_from(
    muzzle: Vec3,
    range: i64,
    s: Seq<TargetEntity>,
    i: int,
) -> Option<int>
    decreases s.len() - i,
{
    if i < 0 || i >= s.len() {
        None
    } else {
        let rest = nearest_from(muzzle, range, s, i + 1);
        if !in_range(muzzle, range, s[i]) {
            rest
        } else {
            match rest {
                Option::None => Some(i),
                Option::Some(j) => if dist_sq(muzzle, s[j].position) < dist_sq(
                    muzzle,
                    s[i].position,
                ) {
                    Some(j)
                } else {
                    Some(i)
                },
            }
        }
    }
}

/// The target a tower acquires: the nearest one strictly within range,
/// the earliest on a tie, if any is in range at all.
pub open spec fn nearest_in_range(muzzle: Vec3, range: i64, s: Seq<TargetEntity>) -> Option<int> {
    nearest_from(muzzle, range, s, 0)
}

/// What acquisition returns: within the suffix from `i`, `None` means no
/// target is in range, and `Some(j)` names an in-range target no farther
/// than any other in-range one.
pub proof fn lemma_nearest_correct(muzzle: Vec3, range: i64, s: Seq<TargetEntity>, i: int)
    requires
        0 <= i,
    ensures
        match nearest_from(muzzle, range, s, i) {
            Option::None => forall|k: int| i <= k < s.len() ==> !in_range(muzzle, range, s[k]),
            Option::Some(j) => i <= j < s.len() && in_range(muzzle, range, s[j]) && forall|k: int|
                i <= k < s.len() && in_range(muzzle, range, #[trigger] s[k]) ==> dist_sq(
                    muzzle,
                    s[j].position,
                ) <= dist_sq(muzzle, s[k].position),
        },
    decreases s.len() - i,
{
    if 0 <= i < s.len() {
        lemma_nearest_correct(muzzle, range, s, i + 1);
    }
}

/// One tower after its cadence timer ticked.
pub open spec fn ticked_tower(te: TowerEntity, delta_ms: u64) -> TowerEntity {
    TowerEntity {
        tower: Tower {
            shooting_timer: te.tower.shooting_timer.spec_tick(delta_ms),
            ..te.tower
        },
        ..te
    }
}

/// Whether a tower fires this tick: its cadence timer just ran out and a
/// target stands within range of its muzzle.
pub open spec fn tower_fires(te: TowerEntity, targets: Seq<TargetEntity>, delta_ms: u64) -> bool {
    &&& te.tower.shooting_timer.spec_tick(delta_ms).just_finished
    &&& nearest_in_range(te.muzzle(), te.tower.range, targets) is Some
}

/// The bullet a firing tower spawns: aimed from the muzzle at the acquired
/// target (direction stored unnormalized), with the kind's speed and a
/// fresh lifetime, placed at the muzzle.
pub open spec fn spawned_bullet(te: TowerEntity, targets: Seq<TargetEntity>) -> BulletEntity {
    let m = te.muzzle();
    match nearest_in_range(m, te.tower.range, targets) {
        Option::Some(j) => BulletEntity {
            bullet: Bullet {
                direction: Vec3 {
                    x: (targets[j].position.x - m.x) as i64,
                    y: (targets[j].position.y - m.y) as i64,
                    z: (targets[j].position.z - m.z) as i64,
                },
                speed: te.kind.spec_bullet_speed(),
            },
            lifetime: Lifetime {
                timer: Timer {
                    elapsed_ms: 0,
                    duration_ms: BULLET_LIFETIME_MS,
                    mode: TimerMode::Once,
                    just_finished: false,
                },
            },
            position: m,
        },
        Option::None => BulletEntity {
            bullet: Bullet { direction: Vec3 { x: 0, y: 0, z: 0 }, speed: 0 },
            lifetime: Lifetime {
                timer: Timer {
                    elapsed_ms: 0,
                    duration_ms: BULLET_LIFETIME_MS,
                    mode: TimerMode::Once,
                    just_finished: false,
                },
            },
            position: m,
        },
    }
}

/// The bullets one firing pass spawns, one per firing tower, in tower
/// order.
pub open spec fn spawned_bullets(
    towers: Seq<TowerEntity>,
    targets: Seq<TargetEntity>,
    delta_ms: u64,
) -> Seq<BulletEntity>
    decreases towers.len(),
{
    if towers.len() == 0 {
        Seq::empty()
    } else {
        let rest = spawned_bullets(towers.drop_last(), targets, delta_ms);
        if tower_fires(towers.last(), targets, delta_ms) {
            rest.push(spawned_bullet(towers.last(), targets))
        } else {
            rest
        }
    }
}

/// A tower whose cadence timer has not just run out spawns nothing this
/// tick, whatever stands in range.
pub proof fn lemma_cadence_gates_fire(
    te: TowerEntity,
    targets: Seq<TargetEntity>,
    delta_ms: u64,
)
    requires
        !te.tower.shooting_timer.spec_tick(delta_ms).just_finished,
    ensures
        !tower_fires(te, targets, delta_ms),
        spawned_bullets(seq![te], targets, delta_ms) == Seq::<BulletEntity>::empty(),
{
    assert(spawned_bullets(Seq::<TowerEntity>::empty(), targets, delta_ms)
        =~= Seq::<BulletEntity>::empty());
    assert(seq![te].drop_last() =~= Seq::<TowerEntity>::empty());
    assert(seq![te].last() == te);
}

/// A tower with no target within range does not fire.
pub proof fn lemma_no_target_no_fire(te: TowerEntity, targets: Seq<TargetEntity>, delta_ms: u64)
    requires
        forall|k: int|
            0 <= k < targets.len() ==> !in_range(te.muzzle(), te.tower.range, #[trigger] targets[k]),
    ensures
        !tower_fires(te, targets, delta_ms),
{
    lemma_nearest_correct(te.muzzle(), te.tower.range, targets, 0);
}

/// A tower whose timer just ran out and with exactly one target within
/// range fires, and at that target.
pub proof fn lemma_single_target_fired_at(
    te: TowerEntity,
    targets: Seq<TargetEntity>,
    delta_ms: u64,
    j: int,
)
    requires
        te.tower.shooting_timer.spec_tick(delta_ms).just_finished,
        0 <= j < targets.len(),
        in_range(te.muzzle(), te.tower.range, targets[j]),
        forall|k: int|
            0 <= k < targets.len() && k != j ==> !in_range(
                te.muzzle(),
                te.tower.range,
                #[trigger] targets[k],
            ),
    ensures
        tower_fires(te, targets, delta_ms),
        nearest_in_range(te.muzzle(), te.tower.range, targets) == Some(j),
{
    lemma_nearest_correct(te.muzzle(), te.tower.range, targets, 0);
}

/// A firing tower fires at a nearest in-range target: the acquired target
/// stands within range and no in-range target stands nearer the muzzle.
pub proof fn lemma_fires_at_nearest(te: TowerEntity, targets: Seq<TargetEntity>, delta_ms: u64)
    requires
        tower_fires(te, targets, delta_ms),
    ensures
        match nearest_in_range(te.muzzle(), te.tower.range, targets) {
            Option::Some(j) => 0 <= j < targets.len() && in_range(
                te.muzzle(),
                te.tower.range,
                targets[j],
            ) && forall|k: int|
                0 <= k < targets.len() && in_range(te.muzzle(), te.tower.range, #[trigger] targets[k])
                    ==> dist_sq(te.muzzle(), targets[j].position) <= dist_sq(
                    te.muzzle(),
                    targets[k].position,
                ),
            Option::None => false,
        },
{
    lemma_nearest_correct(te.muzzle(), te.tower.range, targets, 0);
}

/// Find the target this tower acquires: the nearest one strictly within
/// range of the muzzle, the earliest on a tie.
fn nearest_target(muzzle: &Vec3, range: i64, targets: &Vec<TargetEntity>) -> (r: Option<usize>)
    requires
        in_box(*muzzle),
        0 <= range <= DIR_MAX,
        targets_wf(targets@),
    ensures
        match r {
            Option::Some(j) => j < targets@.len() && nearest_in_range(*muzzle, range, targets@)
                == Some(j as int),
            Option::None => nearest_in_range(*muzzle, range, targets@) is None,
        },
{
    let n = targets.len();
    let mut j: usize = n;
    let mut best: Option<usize> = None;
    proof {
        crate::geometry::lemma_square_bound(range as int, DIR_MAX as int);
    }
    while j > 0
        invariant
            n == targets@.len(),
            0 <= j <= n,
            in_box(*muzzle),
            0 <= range <= DIR_MAX,
            range * range <= DIR_MAX * DIR_MAX,
            targets_wf(targets@),
            match best {
                Option::Some(k) => k < n && nearest_from(*muzzle, range, targets@, j as int)
                    == Some(k as int),
                Option::None => nearest_from(*muzzle, range, targets@, j as int) is None,
            },
        decreases j,
    {
        j = j - 1;
        let t = targets[j];
        let d2 = distance_squared(muzzle, &t.position);
        if d2 < range * range {
            match best {
                Option::Some(k) => {
                    let bt = targets[k];
                    let bd2 = distance_squared(muzzle, &bt.position);
                    if !(bd2 < d2) {
                        best = Some(j);
                    }
                },
                Option::None => {
                    best = Some(j);
                },
            }
        }
    }
    best
}

/// One firing pass: every tower's cadence timer ticks; each tower whose
/// timer just ran out and that acquires a target spawns one bullet aimed at
/// it, appended in tower order. A tower whose timer has not run out, or
/// with no target within range, spawns nothing; its timer still follows its
/// repeating mode.
pub fn tower_shooting(
    towers: &mut Vec<TowerEntity>,
    targets: &Vec<TargetEntity>,
    bullets: &mut Vec<BulletEntity>,
    delta_ms: u64,
)
    requires
        towers_wf(old(towers)@),
        targets_wf(targets@),
        bullets_wf(old(bullets)@),
        delta_ms <= DELTA_MAX,
    ensures
        final(towers)@.len() == old(towers)@.len(),
        forall|i: int|
            0 <= i < old(towers)@.len() ==> final(towers)@[i] == ticked_tower(
                #[trigger] old(towers)@[i],
                delta_ms,
            ),
        towers_wf(final(towers)@),
        final(bullets)@ == old(bullets)@ + spawned_bullets(old(towers)@, targets@, delta_ms),
        bullets_wf(final(bullets)@),
{
    let ghost st = towers@;
    let ghost b0 = bullets@;
    let n = towers.len();
    let mut i: usize = 0;
    proof {
        assert(st.take(0) =~= Seq::<TowerEntity>::empty());
        assert(b0 + spawned_bullets(st.take(0), targets@, delta_ms) =~= b0);
    }
    while i < n
        invariant
            n == st.len(),
            towers@.len() == n,
            0 <= i <= n,
            towers_wf(st),
            targets_wf(targets@),
            delta_ms <= DELTA_MAX,
            forall|k: int| i <= k < n ==> #[trigger] towers@[k] == st[k],
            forall|k: int|
                0 <= k < i ==> #[trigger] towers@[k] == ticked_tower(st[k], delta_ms),
            forall|k: int| 0 <= k < i ==> (#[trigger] towers@[k]).wf(),
            bullets@ == b0 + spawned_bullets(st.take(i as int), targets@, delta_ms),
            bullets_wf(bullets@),
        decreases n - i,
    {
        proof {
            assert(st.take(i as int + 1).drop_last() =~= st.take(i as int));
            assert(st.take(i as int + 1).last() == st[i as int]);
        }
        let te = towers[i];
        let mut timer = te.tower.shooting_timer;
        timer.tick(delta_ms);
        let ticked = TowerEntity {
            tower: Tower {
                shooting_timer: timer,
                bullet_offset: te.tower.bullet_offset,
                range: te.tower.range,
            },
            kind: te.kind,
            position: te.position,
        };
        towers[i] = ticked;
        if timer.just_finished {
            let muzzle = Vec3 {
                x: te.position.x + te.tower.bullet_offset.x,
                y: te.position.y + te.tower.bullet_offset.y,
                z: te.position.z + te.tower.bullet_offset.z,
            };
            let hit = nearest_target(&muzzle, te.tower.range, targets);
            match hit {
                Option::Some(j) => {
                    let tp = targets[j];
                    let dir = Vec3 {
                        x: tp.position.x - muzzle.x,
                        y: tp.position.y - muzzle.y,
                        z: tp.position.z - muzzle.z,
                    };
                    let b = te.kind.get_bullet(dir);
                    bullets.push(BulletEntity {
                        bullet: b,
                        lifetime: Lifetime {
                            timer: Timer::from_millis(BULLET_LIFETIME_MS, TimerMode::Once),
                        },
                        position: muzzle,
                    });
                    proof {
                        assert(bullets@ =~= b0 + spawned_bullets(
                            st.take(i as int + 1),
                            targets@,
                            delta_ms,
                        ));
                    }
                },
                Option::None => {},
            }
        }
        i = i + 1;
    }
    proof {
        assert(st.take(n as int) =~= st);
    }
}

/// The tower systems, run as one block each tick: firing, then purchase
/// clicks, then the purchase bar's visibility, then its affordability
/// flags — so the flags always reflect the money after every purchase.
pub struct TowerPlugin;

impl TowerPlugin {
    /// One tower pass. Every cadence timer ticks and each firing tower
    /// appends one bullet; then the tick's clicks buy towers at selected
    /// build sites; then the purchase bar is shown or hidden by whether a
    /// site is selected; and last every button's affordability is
    /// recomputed against the money left. Targets, events, and the overlay
    /// do not move.
    pub fn update(
        game: &mut crate::game::Game,
        delta_ms: u64,
        interactions: &Vec<crate::ButtonInteraction>,
        any_selected: bool,
    )
        requires
            old(game).wf(),
            delta_ms <= DELTA_MAX,
        ensures
            ({
                let pr = crate::after_clicks(
                    interactions@,
                    old(game).build_sites@,
                    old(game).player.money as int,
                );
                &&& final(game).bullets@ == old(game).bullets@ + spawned_bullets(
                    old(game).towers@,
                    old(game).targets@,
                    delta_ms,
                )
                &&& final(game).towers@ == crate::game::ticked_towers_seq(
                    old(game).towers@,
                    delta_ms,
                ) + pr.2
                &&& final(game).build_sites@ == pr.0
                &&& final(game).player.money == pr.1
                &&& final(game).player.health == old(game).player.health
                &&& (!any_selected ==> final(game).tower_ui is None)
                &&& (any_selected && old(game).tower_ui is None ==> (final(game).tower_ui
                    matches Some(r) && r.buttons@ == crate::game::greyed_buttons(
                    crate::initial_tower_buttons(),
                    final(game).player.money,
                )))
                &&& (old(game).tower_ui matches Some(r0) ==> (any_selected ==> (final(game).tower_ui matches Some(r)
                    && r.buttons@ == crate::game::greyed_buttons(
                    r0.buttons@,
                    final(game).player.money,
                ))))
            }),
            final(game).wf(),
            final(game).state == old(game).state,
            final(game).path.waypoints@ == old(game).path.waypoints@,
            final(game).targets@ == old(game).targets@,
            final(game).death_events@ == old(game).death_events@,
            final(game).gameplay_ui == old(game).gameplay_ui,
    {
        tower_shooting(&mut game.towers, &game.targets, &mut game.bullets, delta_ms);
        proof {
            assert(game.towers@ =~= crate::game::ticked_towers_seq(old(game).towers@, delta_ms));
        }
        crate::tower_button_clicked(
            interactions,
            &mut game.build_sites,
            &mut game.player,
            &mut game.towers,
        );
        crate::create_ui_on_selection(&mut game.tower_ui, any_selected);
        match &mut game.tower_ui {
            Option::Some(root) => {
                let ghost before = root.buttons@;
                grey_tower_buttons(&mut root.buttons, &game.player);
                proof {
                    assert(root.buttons@ =~= crate::game::greyed_buttons(
                        before,
                        game.player.money,
                    ));
                }
            },
            Option::None => {},
        }
    }
}

/// A new tower of the given kind standing at `position`, with the kind's
/// cadence, the standard muzzle offset, and the standard range.
pub fn spawn_tower(position: Vec3, tower_type: TowerType) -> (te: TowerEntity)
    requires
        in_box(position),
        position.y + BULLET_OFFSET_Y <= COORD_MAX,
    ensures
        te == tower_at(position, tower_type),
        te.wf(),
{
    TowerEntity { tower: tower_type.get_tower(), kind: tower_type, position }
}

/// The tower a purchase of the given kind raises at `position`.
pub open spec fn tower_at(position: Vec3, kind: TowerType) -> TowerEntity {
    TowerEntity {
        tower: Tower {
            shooting_timer: Timer {
                elapsed_ms: 0,
                duration_ms: kind.spec_cadence_ms(),
                mode: TimerMode::Repeating,
                just_finished: false,
            },
            bullet_offset: Vec3 { x: 0, y: BULLET_OFFSET_Y, z: 0 },
            range: TOWER_RANGE,
        },
        kind,
        position,
    }
}

/// One purchase button's gameplay state: the kind's cost and whether the
/// player can afford it right now.
#[derive(Clone, Copy, Debug, PartialEq, Eq, Structural)]
pub struct TowerButtonState {
    pub cost: u32,
    pub affordable: bool,
}

/// Recompute every button's affordability from the player's current money:
/// a button is affordable exactly when its cost is within the money at
/// hand. Costs and kinds are left alone.
pub fn grey_tower_buttons(buttons: &mut Vec<crate::TowerButton>, player: &Player)
    ensures
        final(buttons)@.len() == old(buttons)@.len(),
        forall|i: int|
            0 <= i < old(buttons)@.len() ==> {
                &&& (#[trigger] final(buttons)@[i]).tower_type == old(buttons)@[i].tower_type
                &&& final(buttons)@[i].state.cost == old(buttons)@[i].state.cost
                &&& final(buttons)@[i].state.affordable == (player.money >= old(
                    buttons,
                )@[i].state.cost)
            },
{
    let n = buttons.len();
    let mut i: usize = 0;
    while i < n
        invariant
            n == old(buttons)@.len(),
            buttons@.len() == n,
            0 <= i <= n,
            forall|k: int| i <= k < n ==> #[trigger] buttons@[k] == old(buttons)@[k],
            forall|k: int|
                0 <= k < i ==> {
                    &&& (#[trigger] buttons@[k]).tower_type == old(buttons)@[k].tower_type
                    &&& buttons@[k].state.cost == old(buttons)@[k].state.cost
                    &&& buttons@[k].state.affordable == (player.money >= old(
                        buttons,
                    )@[k].state.cost)
                },
        decreases n - i,
    {
        let b = buttons[i];
        buttons[i] = crate::TowerButton {
            tower_type: b.tower_type,
            state: TowerButtonState {
                cost: b.state.cost,
                affordable: player.money >= b.state.cost,
            },
        };
        i = i + 1;
    }
}

} // verus!
