//! The player's money and health, kill rewards, path-end leaks, and the
//! money/health readout.
use vstd::prelude::*;

use crate::target::{targets_wf, TargetDeathEvent, TargetEntity, TargetPath};

verus! {

/// Money granted for each kill.
pub const KILL_REWARD: u32 = 10;

/// Money the player starts with.
pub const STARTING_MONEY: u32 = 100;

/// Health the player starts with.
pub const STARTING_HEALTH: u32 = 10;

/// The one player: money to spend on towers and health lost to targets
/// that walk the whole path.
#[derive(Clone, Copy, Debug, PartialEq, Eq, Structural)]
pub struct Player {
    pub money: u32,
    pub health: u32,
}

/// The player as the game starts.
pub fn spawn_player() -> (p: Player)
    ensures
        p == (Player { money: STARTING_MONEY, health: STARTING_HEALTH }),
{
    Player { money: STARTING_MONEY, health: STARTING_HEALTH }
}

/// Drain the tick's death events, paying [`KILL_REWARD`] for each: three
/// kills in one tick pay exactly three rewards.
pub fn give_money_on_kill(player: &mut Player, death_events: &mut Vec<TargetDeathEvent>)
    requires
        old(player).money + KILL_REWARD * old(death_events)@.len() <= u32::MAX,
    ensures
        final(player).money == old(player).money + KILL_REWARD * old(death_events)@.len(),
        final(player).health == old(player).health,
        final(death_events)@.len() == 0,
{
    let n = death_events.len();
    let mut i: usize = 0;
    while i < n
        invariant
            0 <= i <= n,
            old(player).money + KILL_REWARD * n <= u32::MAX,
            player.money == old(player).money + KILL_REWARD * i,
            player.health == old(player).health,
        decreases n - i,
    {
        player.money = player.money + KILL_REWARD;
        i = i + 1;
    }
    *death_events = Vec::new();
}

/// Whether a target is still short of the path's end.
pub open spec fn on_path(t: TargetEntity, path_len: nat) -> bool {
    (t.target.path_index as nat) < path_len
}

/// The targets still short of the path's end, in order.
pub open spec fn targets_on_path(s: Seq<TargetEntity>, path_len: nat) -> Seq<TargetEntity>
    decreases s.len(),
{
    if s.len() == 0 {
        Seq::empty()
    } else {
        let rest = targets_on_path(s.drop_last(), path_len);
        if on_path(s.last(), path_len) {
            rest.push(s.last())
        } else {
            rest
        }
    }
}

/// How many targets have reached the path's end.
pub open spec fn count_leaked(s: Seq<TargetEntity>, path_len: nat) -> nat
    decreases s.len(),
{
    if s.len() == 0 {
        0
    } else {
        count_leaked(s.drop_last(), path_len) + if on_path(s.last(), path_len) {
            0nat
        } else {
            1nat
        }
    }
}

/// Every target short of the path's end is an entry of the scanned list,
/// so a well-formed list keeps a well-formed remainder.
pub proof fn lemma_targets_on_path_wf(s: Seq<TargetEntity>, path_len: nat)
    requires
        targets_wf(s),
    ensures
        targets_wf(targets_on_path(s, path_len)),
    decreases s.len(),
{
    if s.len() > 0 {
        assert(targets_wf(s.drop_last()));
        lemma_targets_on_path_wf(s.drop_last(), path_len);
    }
}

/// The player systems' spawn block, run on entering gameplay: the player
/// and the overlay come up.
pub struct PlayerPlugin;

impl PlayerPlugin {
    /// Spawn the player with the starting money and health, and the
    /// overlay with nothing shown yet. Nothing else of the game moves.
    pub fn build(game: &mut crate::game::Game)
        ensures
            final(game).player == (Player { money: STARTING_MONEY, health: STARTING_HEALTH }),
            final(game).gameplay_ui.money_ui.shown is None,
            final(game).gameplay_ui.health_ui.shown is None,
            final(game).state == old(game).state,
            final(game).path.waypoints@ == old(game).path.waypoints@,
            final(game).targets@ == old(game).targets@,
            final(game).towers@ == old(game).towers@,
            final(game).bullets@ == old(game).bullets@,
            final(game).death_events@ == old(game).death_events@,
            final(game).build_sites@ == old(game).build_sites@,
            final(game).tower_ui == old(game).tower_ui,
            old(game).wf() ==> final(game).wf(),
    {
        game.player = spawn_player();
        game.gameplay_ui = spawn_gameplay_ui();
    }
}

/// Remove every target whose waypoint index has reached the path's end and
/// charge the player one health point per removal, floored at zero. No
/// death event is emitted for these removals: a leak is not a kill, so the
/// player's money never moves here.
pub fn hurt_player(targets: &mut Vec<TargetEntity>, path: &TargetPath, player: &mut Player)
    ensures
        final(targets)@ == targets_on_path(old(targets)@, path.waypoints@.len()),
        final(player).health == if count_leaked(old(targets)@, path.waypoints@.len()) >= old(
            player,
        ).health {
            0u32
        } else {
            (old(player).health - count_leaked(old(targets)@, path.waypoints@.len())) as u32
        },
        final(player).money == old(player).money,
{
    let ghost s = targets@;
    let ghost plen = path.waypoints@.len();
    let path_len = path.waypoints.len();
    let n = targets.len();
    let mut kept: Vec<TargetEntity> = Vec::new();
    let mut i: usize = 0;
    proof {
        assert(s.take(0) =~= Seq::<TargetEntity>::empty());
    }
    while i < n
        invariant
            n == s.len(),
            targets@ == s,
            path_len == plen,
            0 <= i <= n,
            kept@ == targets_on_path(s.take(i as int), plen),
            player.health == if count_leaked(s.take(i as int), plen) >= old(player).health {
                0u32
            } else {
                (old(player).health - count_leaked(s.take(i as int), plen)) as u32
            },
            player.money == old(player).money,
        decreases n - i,
    {
        proof {
            assert(s.take(i as int + 1).drop_last() =~= s.take(i as int));
            assert(s.take(i as int + 1).last() == s[i as int]);
        }
        let t = targets[i];
        if t.target.path_index >= path_len {
            if player.health > 0 {
                player.health = player.health - 1;
            }
        } else {
            kept.push(t);
        }
        i = i + 1;
    }
    proof {
        assert(s.take(n as int) =~= s);
    }
    *targets = kept;
}

/// The money readout; `shown` is the value on screen, or nothing before the
/// first refresh.
#[derive(Clone, Copy, Debug, PartialEq, Eq)]
pub struct MoneyUI {
    pub shown: Option<u32>,
}

/// The health readout; `shown` is the value on screen, or nothing before
/// the first refresh.
#[derive(Clone, Copy, Debug, PartialEq, Eq)]
pub struct HealthUI {
    pub shown: Option<u32>,
}

/// The in-game overlay: the money and health readouts.
#[derive(Clone, Copy, Debug, PartialEq, Eq)]
pub struct GamePlayUIRoot {
    pub money_ui: MoneyUI,
    pub health_ui: HealthUI,
}

/// The overlay as the game starts: nothing shown yet.
pub fn spawn_gameplay_ui() -> (ui: GamePlayUIRoot)
    ensures
        ui.money_ui.shown is None,
        ui.health_ui.shown is None,
{
    GamePlayUIRoot { money_ui: MoneyUI { shown: None }, health_ui: HealthUI { shown: None } }
}

/// Refresh the readouts from the player's current money and health.
pub fn update_player_ui(player: &Player, money_ui: &mut MoneyUI, health_ui: &mut HealthUI)
    ensures
        final(money_ui).shown == Some(player.money),
        final(health_ui).shown == Some(player.health),
{
    money_ui.shown = Some(player.money);
    health_ui.shown = Some(player.health);
}

} // verus!
