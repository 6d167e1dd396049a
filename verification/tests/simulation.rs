//! End-to-end simulation scenarios.
use tower_game::bullet::{
    bullet_collision, bullet_despawn, move_bullets, Bullet, BulletEntity, Lifetime,
};
use tower_game::game::Game;
use tower_game::geometry::{Vec2, Vec3};
use tower_game::player::{give_money_on_kill, hurt_player, Player};
use tower_game::target::{
    move_targets, target_death, Health, Target, TargetEntity, TargetPath, TargetPlugin,
};
use tower_game::timer::{Timer, TimerMode};
use tower_game::tower::{spawn_tower, tower_shooting, TowerButtonState, TowerEntity};
use tower_game::{
    tower_button_clicked, BuildSite, ButtonInteraction, GameState, Interaction, TowerType,
};

fn target_at(x: i64, y: i64, z: i64, speed: u32, health: i32, path_index: usize) -> TargetEntity {
    TargetEntity {
        target: Target { speed, path_index },
        health: Health { value: health },
        position: Vec3 { x, y, z },
    }
}

fn demo_path() -> TargetPath {
    TargetPath {
        waypoints: vec![
            Vec2 { x: 6000, z: 2000 },
            Vec2 { x: 6000, z: 6000 },
            Vec2 { x: 9000, z: 9000 },
        ],
    }
}

fn bullet_at(x: i64, y: i64, z: i64, dx: i64, dy: i64, dz: i64, speed: u32) -> BulletEntity {
    BulletEntity {
        bullet: Bullet { direction: Vec3 { x: dx, y: dy, z: dz }, speed },
        lifetime: Lifetime { timer: Timer::from_millis(2000, TimerMode::Once) },
        position: Vec3 { x, y, z },
    }
}

fn gameplay_game() -> Game {
    let mut game = Game::new();
    game.start_gameplay();
    TargetPlugin::build(&mut game);
    game
}

#[test]
fn overshoot_advances_index_and_drops_leftover() {
    // One tick would carry the target past waypoint 0: the index steps and
    // the position stays exactly where it was; no movement leaks into
    // segment 1.
    let path = demo_path();
    let mut targets = vec![target_at(6000, 200, 1900, 1000, 3, 0)];
    move_targets(&mut targets, &path, 1000);
    assert_eq!(targets[0].target.path_index, 1);
    assert_eq!(targets[0].position, Vec3 { x: 6000, y: 200, z: 1900 });
}

#[test]
fn movement_follows_current_segment_exactly() {
    // Far from waypoint 0, the tick's displacement runs straight at it:
    // 1000 milli-units per second over one second, along +z only.
    let path = demo_path();
    let mut targets = vec![target_at(6000, 200, 0, 1000, 3, 0)];
    move_targets(&mut targets, &path, 1000);
    assert_eq!(targets[0].target.path_index, 0);
    assert_eq!(targets[0].position, Vec3 { x: 6000, y: 200, z: 1000 });
}

#[test]
fn distance_to_waypoint_never_grows() {
    let path = demo_path();
    let mut targets = vec![target_at(4000, 200, 1000, 300, 3, 0)];
    let mut last_d2 = i64::MAX;
    let mut last_index = 0usize;
    for _ in 0..50 {
        move_targets(&mut targets, &path, 16);
        let t = &targets[0];
        assert!(t.target.path_index >= last_index);
        assert!(t.target.path_index <= path.waypoints.len());
        if t.target.path_index == last_index && t.target.path_index < path.waypoints.len() {
            let wp = path.waypoints[t.target.path_index];
            let dx = wp.x - t.position.x;
            let dz = wp.z - t.position.z;
            let d2 = dx * dx + dz * dz;
            assert!(d2 <= last_d2);
            last_d2 = d2;
        } else {
            last_d2 = i64::MAX;
            last_index = t.target.path_index;
        }
    }
}

#[test]
fn empty_path_means_arrived_not_a_fault() {
    // An out-of-range waypoint index is "arrived": the walker leaves the
    // target alone and the leak scan removes it.
    let path = TargetPath { waypoints: vec![] };
    let mut targets = vec![target_at(0, 0, 0, 300, 3, 0)];
    move_targets(&mut targets, &path, 1000);
    assert_eq!(targets[0].target.path_index, 0);
    let mut player = Player { money: 40, health: 2 };
    hurt_player(&mut targets, &path, &mut player);
    assert_eq!(targets.len(), 0);
    assert_eq!(player.health, 1);
    assert_eq!(player.money, 40);
}

#[test]
fn many_hits_one_death_one_event() {
    // Two bullets drive one target to zero and below in the same pass; the
    // death scan removes it once and queues exactly one event.
    let mut targets = vec![target_at(0, 0, 0, 300, 2, 0)];
    let mut bullets = vec![
        bullet_at(100, 0, 0, 1, 0, 0, 3500),
        bullet_at(0, 100, 0, 1, 0, 0, 3500),
    ];
    bullet_collision(&mut bullets, &mut targets);
    assert_eq!(targets[0].health.value, 0);
    assert_eq!(bullets.len(), 0);
    let mut events = Vec::new();
    target_death(&mut targets, &mut events);
    assert_eq!(targets.len(), 0);
    assert_eq!(events.len(), 1);
}

#[test]
fn cadence_not_elapsed_never_fires() {
    // A target sits right next to the tower, but 100 ms into a 500 ms
    // cadence nothing is spawned; at 500 ms the tower fires.
    let mut towers = vec![spawn_tower(Vec3 { x: 0, y: 0, z: 0 }, TowerType::Tomato)];
    let targets = vec![target_at(500, 600, 0, 0, 3, 0)];
    let mut bullets = Vec::new();
    tower_shooting(&mut towers, &targets, &mut bullets, 100);
    assert_eq!(bullets.len(), 0);
    tower_shooting(&mut towers, &targets, &mut bullets, 400);
    assert_eq!(bullets.len(), 1);
}

#[test]
fn no_target_in_range_no_shot() {
    let mut towers = vec![spawn_tower(Vec3 { x: 0, y: 0, z: 0 }, TowerType::Tomato)];
    // Exactly at the range boundary: 4500 from the muzzle is not strictly
    // within range, so nothing fires even on cadence.
    let targets = vec![target_at(4500, 600, 0, 0, 3, 0)];
    let mut bullets = Vec::new();
    tower_shooting(&mut towers, &targets, &mut bullets, 500);
    assert_eq!(bullets.len(), 0);
    // The cadence timer reset all the same: one more full period fires at
    // a target just inside the range.
    let targets = vec![target_at(4499, 600, 0, 0, 3, 0)];
    tower_shooting(&mut towers, &targets, &mut bullets, 500);
    assert_eq!(bullets.len(), 1);
}

#[test]
fn single_target_in_range_is_fired_at() {
    let mut towers = vec![spawn_tower(Vec3 { x: 0, y: 0, z: 0 }, TowerType::Tomato)];
    let targets = vec![target_at(1000, 600, 2000, 0, 3, 0)];
    let mut bullets = Vec::new();
    tower_shooting(&mut towers, &targets, &mut bullets, 500);
    assert_eq!(bullets.len(), 1);
    // Muzzle stands at (0, 600, 0); the stored direction points straight
    // at the target, unnormalized.
    assert_eq!(bullets[0].position, Vec3 { x: 0, y: 600, z: 0 });
    assert_eq!(bullets[0].bullet.direction, Vec3 { x: 1000, y: 0, z: 2000 });
    assert_eq!(bullets[0].bullet.speed, 3500);
}

#[test]
fn nearest_of_several_targets_is_chosen() {
    let mut towers = vec![spawn_tower(Vec3 { x: 0, y: 0, z: 0 }, TowerType::Tomato)];
    let targets = vec![
        target_at(3000, 600, 0, 0, 3, 0),
        target_at(800, 600, 0, 0, 3, 0),
        target_at(2000, 600, 0, 0, 3, 0),
    ];
    let mut bullets = Vec::new();
    tower_shooting(&mut towers, &targets, &mut bullets, 500);
    assert_eq!(bullets.len(), 1);
    assert_eq!(bullets[0].bullet.direction, Vec3 { x: 800, y: 0, z: 0 });
}

#[test]
fn bullet_timeout_destroys_without_damage() {
    // The bullet flies away from the lone target; after its 2000 ms
    // lifetime it is gone and the target never took a hit.
    let mut targets = vec![target_at(5000, 0, 0, 0, 3, 0)];
    let mut bullets = vec![bullet_at(0, 0, 0, -1000, 0, 0, 1000)];
    for _ in 0..4 {
        move_bullets(&mut bullets, 500);
        bullet_collision(&mut bullets, &mut targets);
        bullet_despawn(&mut bullets, 500);
    }
    assert_eq!(bullets.len(), 0);
    assert_eq!(targets[0].health.value, 3);
}

#[test]
fn purchase_boundary_is_inclusive() {
    // Exactly affordable: money 80 against cost 80 buys the tower and
    // empties the purse.
    let clicks = vec![ButtonInteraction {
        interaction: Interaction::Clicked,
        tower_type: TowerType::Potato,
        state: TowerButtonState { cost: 80, affordable: true },
    }];
    let mut sites = vec![BuildSite { selected: true, position: Vec3 { x: 2000, y: 800, z: 0 } }];
    let mut player = Player { money: 80, health: 10 };
    let mut towers: Vec<TowerEntity> = Vec::new();
    tower_button_clicked(&clicks, &mut sites, &mut player, &mut towers);
    assert_eq!(player.money, 0);
    assert_eq!(sites.len(), 0);
    assert_eq!(towers.len(), 1);

    // One unit short: money 79 against cost 80 changes nothing.
    let mut sites = vec![BuildSite { selected: true, position: Vec3 { x: 2000, y: 800, z: 0 } }];
    let mut player = Player { money: 79, health: 10 };
    let mut towers: Vec<TowerEntity> = Vec::new();
    tower_button_clicked(&clicks, &mut sites, &mut player, &mut towers);
    assert_eq!(player.money, 79);
    assert_eq!(sites.len(), 1);
    assert_eq!(towers.len(), 0);
}

#[test]
fn purchase_scenario_money_100_cost_80() {
    let clicks = vec![ButtonInteraction {
        interaction: Interaction::Clicked,
        tower_type: TowerType::Potato,
        state: TowerButtonState { cost: 80, affordable: true },
    }];
    let marker = Vec3 { x: 4000, y: 800, z: 0 };
    let mut sites = vec![BuildSite { selected: true, position: marker }];
    let mut player = Player { money: 100, health: 10 };
    let mut towers: Vec<TowerEntity> = Vec::new();
    tower_button_clicked(&clicks, &mut sites, &mut player, &mut towers);
    assert_eq!(player.money, 20);
    assert_eq!(sites.len(), 0);
    assert_eq!(towers.len(), 1);
    assert_eq!(towers[0].position, marker);
    assert!(matches!(towers[0].kind, TowerType::Potato));
    assert_eq!(towers[0].tower.shooting_timer.duration_ms, 100);
}

#[test]
fn unselected_marker_is_never_consumed() {
    let clicks = vec![ButtonInteraction {
        interaction: Interaction::Clicked,
        tower_type: TowerType::Tomato,
        state: TowerButtonState { cost: 50, affordable: true },
    }];
    let mut sites = vec![
        BuildSite { selected: false, position: Vec3 { x: 2000, y: 800, z: 0 } },
        BuildSite { selected: true, position: Vec3 { x: 4000, y: 800, z: 0 } },
    ];
    let mut player = Player { money: 100, health: 10 };
    let mut towers: Vec<TowerEntity> = Vec::new();
    tower_button_clicked(&clicks, &mut sites, &mut player, &mut towers);
    assert_eq!(sites.len(), 1);
    assert!(!sites[0].selected);
    assert_eq!(towers.len(), 1);
    assert_eq!(player.money, 50);
}

#[test]
fn multi_select_fans_out_while_money_lasts() {
    let clicks = vec![ButtonInteraction {
        interaction: Interaction::Clicked,
        tower_type: TowerType::Tomato,
        state: TowerButtonState { cost: 50, affordable: true },
    }];
    let mut sites = vec![
        BuildSite { selected: true, position: Vec3 { x: 2000, y: 800, z: 0 } },
        BuildSite { selected: true, position: Vec3 { x: 4000, y: 800, z: 0 } },
        BuildSite { selected: true, position: Vec3 { x: 6000, y: 800, z: 0 } },
    ];
    let mut player = Player { money: 120, health: 10 };
    let mut towers: Vec<TowerEntity> = Vec::new();
    tower_button_clicked(&clicks, &mut sites, &mut player, &mut towers);
    // 120 buys two at 50: the third selected site stays, untouched.
    assert_eq!(towers.len(), 2);
    assert_eq!(player.money, 20);
    assert_eq!(sites.len(), 1);
    assert_eq!(sites[0].position, Vec3 { x: 6000, y: 800, z: 0 });
}

#[test]
fn three_kills_in_one_tick_pay_exactly_thirty() {
    let mut game = gameplay_game();
    assert_eq!(game.player.money, 100);
    game.targets = vec![
        target_at(0, 0, 0, 0, 1, 0),
        target_at(20000, 0, 0, 0, 1, 0),
        target_at(-20000, 0, 0, 0, 1, 0),
    ];
    game.bullets = vec![
        bullet_at(100, 0, 0, 0, 0, 0, 0),
        bullet_at(20100, 0, 0, 0, 0, 0, 0),
        bullet_at(-20100, 0, 0, 0, 0, 0, 0),
    ];
    let clicks: Vec<ButtonInteraction> = Vec::new();
    game.tick(16, &clicks, false);
    assert_eq!(game.player.money, 130);
    assert_eq!(game.targets.len(), 0);
    assert_eq!(game.death_events.len(), 0);
    assert_eq!(game.gameplay_ui.money_ui.shown, Some(130));
    assert_eq!(game.gameplay_ui.health_ui.shown, Some(10));
}

#[test]
fn same_tick_kill_money_lands_before_purchase_and_affordability() {
    // Money 100, a kill worth 10 and a click costing 110 in one tick: the
    // reward must land before the purchase, the purchase before the
    // affordability recompute, and the readout last. Any other order gives
    // a different final state: the purchase would fail and money would end
    // at 110 with every button affordable at 50 and 80.
    let mut game = gameplay_game();
    game.targets = vec![target_at(0, 0, 0, 0, 1, 0)];
    game.bullets = vec![bullet_at(100, 0, 0, 0, 0, 0, 0)];
    game.build_sites = vec![BuildSite {
        selected: true,
        position: Vec3 { x: 2000, y: 800, z: 0 },
    }];
    let clicks = vec![ButtonInteraction {
        interaction: Interaction::Clicked,
        tower_type: TowerType::Cabbage,
        state: TowerButtonState { cost: 110, affordable: false },
    }];
    game.tick(16, &clicks, true);
    assert_eq!(game.player.money, 0);
    assert_eq!(game.towers.len(), 1);
    assert!(matches!(game.towers[0].kind, TowerType::Cabbage));
    assert_eq!(game.build_sites.len(), 0);
    assert_eq!(game.gameplay_ui.money_ui.shown, Some(0));
    let ui = game.tower_ui.as_ref().expect("purchase bar should be up");
    assert_eq!(ui.buttons.len(), 3);
    for b in ui.buttons.iter() {
        assert!(!b.state.affordable);
    }
}

#[test]
fn tick_on_the_menu_moves_nothing() {
    let mut game = Game::new();
    TargetPlugin::build(&mut game);
    game.targets = vec![target_at(0, 0, 0, 300, 3, 0)];
    let clicks: Vec<ButtonInteraction> = Vec::new();
    game.tick(1000, &clicks, false);
    assert!(matches!(game.state, GameState::MainMenu));
    assert_eq!(game.targets.len(), 1);
    assert_eq!(game.targets[0].position, Vec3 { x: 0, y: 0, z: 0 });
}

#[test]
fn leaked_target_charges_health_not_money() {
    let mut game = gameplay_game();
    // Already past the last waypoint: this tick removes it, charges one
    // health, pays nothing, and emits no death event.
    game.targets = vec![target_at(9000, 0, 9000, 300, 3, 3)];
    let clicks: Vec<ButtonInteraction> = Vec::new();
    game.tick(16, &clicks, false);
    assert_eq!(game.targets.len(), 0);
    assert_eq!(game.player.health, 9);
    assert_eq!(game.player.money, 100);
    assert_eq!(game.death_events.len(), 0);
    assert_eq!(game.gameplay_ui.health_ui.shown, Some(9));
}

#[test]
fn tower_fires_on_cadence_bullet_flies_and_kill_pays() {
    // A Cabbage tower (800 ms cadence, bullet speed 1500) and a standing
    // target 1000 milli-units away. Over 100 ms ticks: no bullet before
    // the 8th tick; the bullet then closes 150 per tick and reaches
    // contact range (300) of the target after five more; the kill pays 10
    // the same tick the health reaches zero.
    let mut game = gameplay_game();
    game.towers = vec![spawn_tower(Vec3 { x: 0, y: 0, z: 0 }, TowerType::Cabbage)];
    game.targets = vec![target_at(1000, 600, 0, 0, 1, 0)];
    let clicks: Vec<ButtonInteraction> = Vec::new();
    for _ in 0..7 {
        game.tick(100, &clicks, false);
        assert_eq!(game.bullets.len(), 0);
    }
    let mut killed_at = None;
    for frame in 7..40 {
        game.tick(100, &clicks, false);
        if game.targets.is_empty() {
            killed_at = Some(frame);
            break;
        }
    }
    // Fired on the 8th tick (zero-based frame 7), then five flight ticks
    // of 150 milli-units bring the bullet within the 300 contact radius on
    // zero-based frame 12, and the collision and death scan of that very
    // tick settle the kill.
    assert_eq!(killed_at, Some(12));
    assert_eq!(game.player.money, 110);
    assert_eq!(game.gameplay_ui.money_ui.shown, Some(110));
}

#[test]
fn give_money_pays_ten_per_event_and_drains() {
    let mut player = Player { money: 5, health: 10 };
    let mut events = Vec::new();
    let mut targets = vec![target_at(0, 0, 0, 0, 0, 0)];
    target_death(&mut targets, &mut events);
    target_death(&mut targets, &mut events);
    assert_eq!(events.len(), 1);
    let mut targets2 = vec![target_at(0, 0, 0, 0, -4, 0), target_at(0, 0, 0, 0, 0, 0)];
    target_death(&mut targets2, &mut events);
    assert_eq!(events.len(), 3);
    give_money_on_kill(&mut player, &mut events);
    assert_eq!(player.money, 35);
    assert_eq!(events.len(), 0);
}

#[test]
fn tick_on_an_empty_world_only_refreshes_the_readouts() {
    let mut game = gameplay_game();
    let clicks: Vec<ButtonInteraction> = Vec::new();
    game.tick(16, &clicks, false);
    assert_eq!(game.player.money, 100);
    assert_eq!(game.player.health, 10);
    assert_eq!(game.targets.len(), 0);
    assert_eq!(game.bullets.len(), 0);
    assert_eq!(game.towers.len(), 0);
    assert!(game.tower_ui.is_none());
    assert_eq!(game.gameplay_ui.money_ui.shown, Some(100));
    assert_eq!(game.gameplay_ui.health_ui.shown, Some(10));
}

#[test]
fn health_floor_is_zero() {
    let path = demo_path();
    let mut targets = vec![
        target_at(9000, 0, 9000, 0, 3, 3),
        target_at(9000, 0, 9000, 0, 3, 3),
        target_at(9000, 0, 9000, 0, 3, 4),
    ];
    let mut player = Player { money: 7, health: 2 };
    hurt_player(&mut targets, &path, &mut player);
    assert_eq!(player.health, 0);
    assert_eq!(player.money, 7);
    assert_eq!(targets.len(), 0);
}
