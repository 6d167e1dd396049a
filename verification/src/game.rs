//! The whole game state and the deterministic tick that drives it.
//!
//! One tick runs the simulation systems in a fixed order: bullets move,
//! collide, and expire; targets walk and the dead are settled; kills pay
//! out; leaked targets charge the player; towers tick and fire and clicks
//! buy; and last the readouts and affordability flags are recomputed, so
//! they always reflect every money change the tick made.
use vstd::prelude::*;

use crate::bullet::{
    bullets_wf, hits_on, moved_bullet, remaining_bullets, surviving_bullets, BulletEntity,
    BulletPlugin,
};
use crate::geometry::Vec2;
use crate::player::{
    count_leaked, give_money_on_kill, hurt_player, spawn_gameplay_ui, spawn_player,
    targets_on_path, update_player_ui, GamePlayUIRoot, Player, KILL_REWARD,
};
use crate::target::{
    count_dead, lemma_single_death_event, live_targets, moved_target, targets_wf, Health,
    TargetDeathEvent, TargetEntity, TargetPath, TargetPlugin,
};
use crate::timer::DELTA_MAX;
use crate::tower::{
    spawned_bullets, ticked_tower, towers_wf, TowerButtonState, TowerEntity, TowerPlugin,
};
use crate::{
    after_clicks, initial_tower_buttons, sites_wf, BuildSite, ButtonInteraction, GameState,
    TowerButton, TowerUIRoot,
};

verus! {

/// Every entity and resource of the running game.
pub struct Game {
    pub state: GameState,
    pub player: Player,
    pub path: TargetPath,
    pub targets: Vec<TargetEntity>,
    pub towers: Vec<TowerEntity>,
    pub bullets: Vec<BulletEntity>,
    pub death_events: Vec<TargetDeathEvent>,
    pub build_sites: Vec<BuildSite>,
    pub tower_ui: Option<TowerUIRoot>,
    pub gameplay_ui: GamePlayUIRoot,
}

impl Game {
    /// Every stored entity is well formed and every waypoint in the box.
    pub open spec fn wf(self) -> bool {
        &&& self.path.wf()
        &&& targets_wf(self.targets@)
        &&& towers_wf(self.towers@)
        &&& bullets_wf(self.bullets@)
        &&& sites_wf(self.build_sites@)
    }

    /// A fresh game on the menu screen, with nothing spawned yet.
    pub fn new() -> (g: Game)
        ensures
            g.state is MainMenu,
            g.player == (Player { money: 0, health: 0 }),
            g.path.waypoints@.len() == 0,
            g.targets@.len() == 0,
            g.towers@.len() == 0,
            g.bullets@.len() == 0,
            g.death_events@.len() == 0,
            g.build_sites@.len() == 0,
            g.tower_ui is None,
            g.gameplay_ui.money_ui.shown is None,
            g.gameplay_ui.health_ui.shown is None,
            g.wf(),
    {
        Game {
            state: GameState::MainMenu,
            player: Player { money: 0, health: 0 },
            path: TargetPath { waypoints: Vec::new() },
            targets: Vec::new(),
            towers: Vec::new(),
            bullets: Vec::new(),
            death_events: Vec::new(),
            build_sites: Vec::new(),
            tower_ui: None,
            gameplay_ui: spawn_gameplay_ui(),
        }
    }

    /// Leave the menu for gameplay: the player and the overlay are spawned
    /// and the state flips; everything else stays.
    pub fn start_gameplay(&mut self)
        ensures
            final(self).state is GamePlay,
            final(self).player == (Player {
                money: crate::player::STARTING_MONEY,
                health: crate::player::STARTING_HEALTH,
            }),
            final(self).gameplay_ui.money_ui.shown is None,
            final(self).gameplay_ui.health_ui.shown is None,
            final(self).path == old(self).path,
            final(self).targets == old(self).targets,
            final(self).towers == old(self).towers,
            final(self).bullets == old(self).bullets,
            final(self).death_events == old(self).death_events,
            final(self).build_sites == old(self).build_sites,
            final(self).tower_ui == old(self).tower_ui,
            old(self).wf() ==> final(self).wf(),
    {
        self.state = GameState::GamePlay;
        self.player = spawn_player();
        self.gameplay_ui = spawn_gameplay_ui();
    }
}

impl Game {
    /// One simulation tick over `delta_ms` milliseconds, on the gameplay
    /// screen; on the menu screen nothing moves. The systems run in a
    /// fixed order — bullets (move, collide, expire), targets (walk, death
    /// scan), kill rewards, path-end leaks, towers (tick and fire, clicks
    /// buy, purchase bar, affordability), readouts — so every money change
    /// of the tick lands before the affordability flags and the readouts
    /// are recomputed from the final money and health.
    pub fn tick(
        &mut self,
        delta_ms: u64,
        interactions: &Vec<ButtonInteraction>,
        any_selected: bool,
    )
        requires
            old(self).wf(),
            delta_ms <= DELTA_MAX,
            forall|k: int|
                0 <= k < old(self).targets@.len() ==> (
                #[trigger] old(self).targets@[k]).health.value - old(self).bullets@.len()
                    >= i32::MIN,
            old(self).player.money + KILL_REWARD * (old(self).death_events@.len() + old(
                self,
            ).targets@.len()) <= u32::MAX,
        ensures
            final(self).wf(),
            final(self).state == old(self).state,
            final(self).path.waypoints@ == old(self).path.waypoints@,
            old(self).state is GamePlay ==> ({
                let t0 = old(self).targets@;
                let b0 = old(self).bullets@;
                let wps = old(self).path.waypoints@;
                let b1 = moved_bullets_seq(b0, delta_ms);
                let t1 = damaged_targets_seq(t0, b1);
                let b2 = remaining_bullets(surviving_bullets(b1, t0), delta_ms);
                let t2 = moved_targets_seq(t1, wps, delta_ms);
                let t3 = live_targets(t2);
                let money1 = old(self).player.money + KILL_REWARD * (old(
                    self,
                ).death_events@.len() + count_dead(t2));
                let t4 = targets_on_path(t3, wps.len());
                let leaked = count_leaked(t3, wps.len());
                let health1: int = if leaked >= old(self).player.health {
                    0
                } else {
                    old(self).player.health - leaked
                };
                let pr = after_clicks(interactions@, old(self).build_sites@, money1 as int);
                &&& final(self).targets@ == t4
                &&& final(self).bullets@ == b2 + spawned_bullets(old(self).towers@, t4, delta_ms)
                &&& final(self).towers@ == ticked_towers_seq(old(self).towers@, delta_ms) + pr.2
                &&& final(self).build_sites@ == pr.0
                &&& final(self).player.money == pr.1
                &&& final(self).player.health == health1
                &&& final(self).death_events@.len() == 0
                &&& final(self).gameplay_ui.money_ui.shown == Some(final(self).player.money)
                &&& final(self).gameplay_ui.health_ui.shown == Some(final(self).player.health)
                &&& (!any_selected ==> final(self).tower_ui is None)
                &&& (any_selected && old(self).tower_ui is None ==> (final(self).tower_ui matches Some(r)
                    && r.buttons@ == greyed_buttons(
                    initial_tower_buttons(),
                    final(self).player.money,
                )))
                &&& (old(self).tower_ui matches Some(r0) ==> (any_selected ==> (final(self).tower_ui matches Some(r)
                    && r.buttons@ == greyed_buttons(r0.buttons@, final(self).player.money))))
            }),
            !(old(self).state is GamePlay) ==> ({
                &&& final(self).player == old(self).player
                &&& final(self).targets@ == old(self).targets@
                &&& final(self).towers@ == old(self).towers@
                &&& final(self).bullets@ == old(self).bullets@
                &&& final(self).death_events@ == old(self).death_events@
                &&& final(self).build_sites@ == old(self).build_sites@
                &&& final(self).tower_ui == old(self).tower_ui
                &&& final(self).gameplay_ui == old(self).gameplay_ui
            }),
    {
        let playing = match self.state {
            GameState::GamePlay => true,
            GameState::MainMenu => false,
        };
        if !playing {
            return ;
        }
        let ghost t0 = self.targets@;
        let ghost b0 = self.bullets@;
        let ghost wps = self.path.waypoints@;
        let ghost ev0 = self.death_events@.len();
        BulletPlugin::update(self, delta_ms);
        TargetPlugin::update(self, delta_ms);
        proof {
            let b1 = moved_bullets_seq(b0, delta_ms);
            let t1 = damaged_targets_seq(t0, b1);
            let t2 = moved_targets_seq(t1, wps, delta_ms);
            lemma_single_death_event(t2);
            assert(count_dead(t2) <= t2.len());
        }
        give_money_on_kill(&mut self.player, &mut self.death_events);
        hurt_player(&mut self.targets, &self.path, &mut self.player);
        proof {
            let b1 = moved_bullets_seq(b0, delta_ms);
            let t1 = damaged_targets_seq(t0, b1);
            let t2 = moved_targets_seq(t1, wps, delta_ms);
            crate::player::lemma_targets_on_path_wf(live_targets(t2), wps.len());
        }
        TowerPlugin::update(self, delta_ms, interactions, any_selected);
        update_player_ui(
            &self.player,
            &mut self.gameplay_ui.money_ui,
            &mut self.gameplay_ui.health_ui,
        );
    }
}

/// Every bullet advanced by one tick, pointwise.
pub open spec fn moved_bullets_seq(s: Seq<BulletEntity>, delta_ms: u64) -> Seq<BulletEntity> {
    Seq::new(s.len(), |i: int| moved_bullet(s[i], delta_ms))
}

/// Every target advanced by one tick, pointwise.
pub open spec fn moved_targets_seq(
    s: Seq<TargetEntity>,
    waypoints: Seq<Vec2>,
    delta_ms: u64,
) -> Seq<TargetEntity> {
    Seq::new(s.len(), |i: int| moved_target(s[i], waypoints, delta_ms))
}

/// Every target after one collision pass: its health less the hits the
/// bullets land on it, everything else as it was.
pub open spec fn damaged_targets_seq(
    ts: Seq<TargetEntity>,
    bs: Seq<BulletEntity>,
) -> Seq<TargetEntity> {
    Seq::new(
        ts.len(),
        |i: int|
            TargetEntity {
                target: ts[i].target,
                health: Health { value: (ts[i].health.value - hits_on(bs, ts, i)) as i32 },
                position: ts[i].position,
            },
    )
}

/// Every tower with its cadence timer advanced by one tick, pointwise.
pub open spec fn ticked_towers_seq(s: Seq<TowerEntity>, delta_ms: u64) -> Seq<TowerEntity> {
    Seq::new(s.len(), |i: int| ticked_tower(s[i], delta_ms))
}

/// Every button with its affordability recomputed against the given money.
pub open spec fn greyed_buttons(bs: Seq<TowerButton>, money: u32) -> Seq<TowerButton> {
    Seq::new(
        bs.len(),
        |i: int|
            TowerButton {
                tower_type: bs[i].tower_type,
                state: TowerButtonState {
                    cost: bs[i].state.cost,
                    affordable: money >= bs[i].state.cost,
                },
            },
    )
}

} // verus!
