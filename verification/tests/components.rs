//! Unit checks: timers, fixed-point geometry, stat tables, and the UI
//! helpers.
use tower_game::bullet::{move_bullets, Bullet, BulletEntity, Lifetime};
use tower_game::game::Game;
use tower_game::geometry::{distance_squared, isqrt, scaled_component, step_of, Vec2, Vec3};
use tower_game::player::{
    spawn_gameplay_ui, spawn_player, update_player_ui, HealthUI, MoneyUI, Player, PlayerPlugin,
};
use tower_game::target::TargetPlugin;
use tower_game::timer::{Timer, TimerMode};
use tower_game::tower::grey_tower_buttons;
use tower_game::{create_ui, create_ui_on_selection, GameState, TowerType, TowerUIRoot};

#[test]
fn repeating_timer_finishes_on_the_period_and_keeps_the_rest() {
    let mut t = Timer::from_millis(500, TimerMode::Repeating);
    t.tick(300);
    assert!(!t.just_finished);
    assert_eq!(t.elapsed_ms, 300);
    t.tick(300);
    assert!(t.just_finished);
    assert_eq!(t.elapsed_ms, 100);
    t.tick(100);
    assert!(!t.just_finished);
    assert_eq!(t.elapsed_ms, 200);
}

#[test]
fn once_timer_finishes_a_single_time() {
    let mut t = Timer::from_millis(2000, TimerMode::Once);
    t.tick(1500);
    assert!(!t.just_finished);
    t.tick(600);
    assert!(t.just_finished);
    assert_eq!(t.elapsed_ms, 2000);
    t.tick(100);
    assert!(!t.just_finished);
    assert_eq!(t.elapsed_ms, 2000);
}

#[test]
fn isqrt_exact_values() {
    assert_eq!(isqrt(0), 0);
    assert_eq!(isqrt(1), 1);
    assert_eq!(isqrt(3), 1);
    assert_eq!(isqrt(4), 2);
    assert_eq!(isqrt(8), 2);
    assert_eq!(isqrt(9), 3);
    assert_eq!(isqrt(12_999_999), 3605);
    assert_eq!(isqrt(4_000_000), 2000);
}

#[test]
fn scaled_component_truncates_toward_zero() {
    assert_eq!(scaled_component(3, 1000, 5), 600);
    assert_eq!(scaled_component(-3, 1000, 5), -600);
    assert_eq!(scaled_component(1, 1, 3), 0);
    assert_eq!(scaled_component(-1, 1, 3), 0);
    assert_eq!(scaled_component(5, 5, 5), 5);
}

#[test]
fn step_is_speed_times_seconds() {
    assert_eq!(step_of(300, 1000), 300);
    assert_eq!(step_of(300, 16), 4);
    assert_eq!(step_of(0, 1000), 0);
    assert_eq!(step_of(100_000, 10_000), 1_000_000);
}

#[test]
fn distance_squared_is_euclidean() {
    let a = Vec3 { x: 0, y: 0, z: 0 };
    let b = Vec3 { x: 300, y: 400, z: 0 };
    assert_eq!(distance_squared(&a, &b), 250_000);
}

#[test]
fn bullet_moves_along_its_direction_componentwise() {
    let mut bullets = vec![BulletEntity {
        bullet: Bullet { direction: Vec3 { x: 3, y: 4, z: 0 }, speed: 1000 },
        lifetime: Lifetime { timer: Timer::from_millis(2000, TimerMode::Once) },
        position: Vec3 { x: 100, y: 200, z: 300 },
    }];
    move_bullets(&mut bullets, 1000);
    // Step 1000 along a direction of length 5: 600 in x, 800 in y.
    assert_eq!(bullets[0].position, Vec3 { x: 700, y: 1000, z: 300 });
}

#[test]
fn zero_direction_bullet_stays_put() {
    let mut bullets = vec![BulletEntity {
        bullet: Bullet { direction: Vec3 { x: 0, y: 0, z: 0 }, speed: 6500 },
        lifetime: Lifetime { timer: Timer::from_millis(2000, TimerMode::Once) },
        position: Vec3 { x: 100, y: 200, z: 300 },
    }];
    move_bullets(&mut bullets, 1000);
    assert_eq!(bullets[0].position, Vec3 { x: 100, y: 200, z: 300 });
}

#[test]
fn tower_stats_follow_the_kind_table() {
    let tomato = TowerType::Tomato.get_tower();
    assert_eq!(tomato.shooting_timer.duration_ms, 500);
    assert_eq!(tomato.range, 4500);
    assert_eq!(tomato.bullet_offset, Vec3 { x: 0, y: 600, z: 0 });
    assert_eq!(TowerType::Potato.get_tower().shooting_timer.duration_ms, 100);
    assert_eq!(TowerType::Cabbage.get_tower().shooting_timer.duration_ms, 800);
    assert_eq!(TowerType::Tomato.cost(), 50);
    assert_eq!(TowerType::Potato.cost(), 80);
    assert_eq!(TowerType::Cabbage.cost(), 110);
    let dir = Vec3 { x: 1, y: 2, z: 3 };
    assert_eq!(TowerType::Tomato.get_bullet(dir).speed, 3500);
    assert_eq!(TowerType::Potato.get_bullet(dir).speed, 6500);
    assert_eq!(TowerType::Cabbage.get_bullet(dir).speed, 1500);
    assert_eq!(TowerType::Cabbage.get_bullet(dir).direction, dir);
}

#[test]
fn player_spawns_with_starting_purse() {
    let p = spawn_player();
    assert_eq!(p.money, 100);
    assert_eq!(p.health, 10);
}

#[test]
fn readouts_show_the_players_numbers() {
    let ui = spawn_gameplay_ui();
    assert_eq!(ui.money_ui.shown, None);
    assert_eq!(ui.health_ui.shown, None);
    let mut money_ui = MoneyUI { shown: None };
    let mut health_ui = HealthUI { shown: None };
    let player = Player { money: 42, health: 7 };
    update_player_ui(&player, &mut money_ui, &mut health_ui);
    assert_eq!(money_ui.shown, Some(42));
    assert_eq!(health_ui.shown, Some(7));
}

#[test]
fn purchase_bar_lists_the_three_kinds() {
    let ui = create_ui();
    assert_eq!(ui.buttons.len(), 3);
    assert!(matches!(ui.buttons[0].tower_type, TowerType::Tomato));
    assert!(matches!(ui.buttons[1].tower_type, TowerType::Potato));
    assert!(matches!(ui.buttons[2].tower_type, TowerType::Cabbage));
    assert_eq!(ui.buttons[0].state.cost, 50);
    assert_eq!(ui.buttons[1].state.cost, 80);
    assert_eq!(ui.buttons[2].state.cost, 110);
    assert!(!ui.buttons[0].state.affordable);
    assert!(!ui.buttons[1].state.affordable);
    assert!(!ui.buttons[2].state.affordable);
}

#[test]
fn purchase_bar_follows_selection() {
    let mut ui: Option<TowerUIRoot> = None;
    create_ui_on_selection(&mut ui, false);
    assert!(ui.is_none());
    create_ui_on_selection(&mut ui, true);
    assert!(ui.is_some());
    create_ui_on_selection(&mut ui, true);
    assert!(ui.is_some());
    create_ui_on_selection(&mut ui, false);
    assert!(ui.is_none());
}

#[test]
fn affordability_is_money_at_least_cost() {
    let mut ui = create_ui();
    let player = Player { money: 80, health: 10 };
    grey_tower_buttons(&mut ui.buttons, &player);
    assert!(ui.buttons[0].state.affordable);
    assert!(ui.buttons[1].state.affordable);
    assert!(!ui.buttons[2].state.affordable);
}

#[test]
fn fresh_game_starts_on_the_menu() {
    let mut game = Game::new();
    assert!(matches!(game.state, GameState::MainMenu));
    assert_eq!(game.player.money, 0);
    TargetPlugin::build(&mut game);
    assert_eq!(game.path.waypoints.len(), 3);
    assert_eq!(game.path.waypoints[0], Vec2 { x: 6000, z: 2000 });
    assert_eq!(game.path.waypoints[1], Vec2 { x: 6000, z: 6000 });
    assert_eq!(game.path.waypoints[2], Vec2 { x: 9000, z: 9000 });
    game.start_gameplay();
    assert!(matches!(game.state, GameState::GamePlay));
    assert_eq!(game.player.money, 100);
    assert_eq!(game.player.health, 10);
}

#[test]
fn player_plugin_build_spawns_player_and_overlay() {
    let mut game = Game::new();
    game.player = Player { money: 3, health: 4 };
    PlayerPlugin::build(&mut game);
    assert_eq!(game.player.money, 100);
    assert_eq!(game.player.health, 10);
    assert_eq!(game.gameplay_ui.money_ui.shown, None);
}
