//! A tower-defense simulation core.
//!
//! Targets walk a fixed waypoint path, towers acquire the nearest target in
//! range and fire on a cadence, bullets fly and damage targets on contact,
//! and a player earns money for kills and spends it on new towers.
//!
//! All positions and distances are held in milli-units: one thousand
//! coordinate steps stand for one world unit. Time is held in milliseconds.
use vstd::prelude::*;

pub mod bullet;
pub mod game;
pub mod geometry;
pub mod player;
pub mod target;
pub mod timer;
pub mod tower;

use crate::bullet::Bullet;
use crate::geometry::{in_box, Vec3, COORD_MAX};
use crate::player::Player;
use crate::timer::{Timer, TimerMode};
use crate::tower::{
    tower_at, towers_wf, Tower, TowerButtonState, TowerEntity, BULLET_OFFSET_Y, TOWER_RANGE,
};

verus! {

/// Which screen the game is on.
#[derive(Clone, Copy, Debug, PartialEq, Eq, Hash, Structural)]
pub enum GameState {
    MainMenu,
    GamePlay,
}

/// The three purchasable tower kinds. The kind fixes the tower's build
/// cost, firing cadence, and bullet speed; its range and muzzle offset are
/// shared by all kinds.
#[derive(Clone, Copy, Debug, PartialEq, Eq, Structural)]
pub enum TowerType {
    Tomato,
    Potato,
    Cabbage,
}

impl TowerType {
    /// Milliseconds between shots for this kind.
    pub open spec fn spec_cadence_ms(self) -> u64 {
        match self {
            TowerType::Tomato => 500,
            TowerType::Potato => 100,
            TowerType::Cabbage => 800,
        }
    }

    /// Bullet speed for this kind, in milli-units per second.
    pub open spec fn spec_bullet_speed(self) -> u32 {
        match self {
            TowerType::Tomato => 3500,
            TowerType::Potato => 6500,
            TowerType::Cabbage => 1500,
        }
    }

    /// Build cost for this kind.
    pub open spec fn spec_cost(self) -> u32 {
        match self {
            TowerType::Tomato => 50,
            TowerType::Potato => 80,
            TowerType::Cabbage => 110,
        }
    }

    /// The firing state a fresh tower of this kind starts with: the kind's
    /// cadence on a repeating timer, the standard muzzle offset, and the
    /// standard range.
    pub fn get_tower(&self) -> (t: Tower)
        ensures
            t == (Tower {
                shooting_timer: Timer {
                    elapsed_ms: 0,
                    duration_ms: self.spec_cadence_ms(),
                    mode: TimerMode::Repeating,
                    just_finished: false,
                },
                bullet_offset: Vec3 { x: 0, y: BULLET_OFFSET_Y, z: 0 },
                range: TOWER_RANGE,
            }),
    {
        let cadence_ms: u64 = match self {
            TowerType::Tomato => 500,
            TowerType::Potato => 100,
            TowerType::Cabbage => 800,
        };
        Tower {
            shooting_timer: Timer::from_millis(cadence_ms, TimerMode::Repeating),
            bullet_offset: Vec3 { x: 0, y: BULLET_OFFSET_Y, z: 0 },
            range: TOWER_RANGE,
        }
    }

    /// The flight state of a bullet of this kind: the handed direction as
    /// it is, and the kind's speed.
    pub fn get_bullet(&self, direction: Vec3) -> (b: Bullet)
        ensures
            b == (Bullet { direction, speed: self.spec_bullet_speed() }),
    {
        let speed: u32 = match self {
            TowerType::Tomato => 3500,
            TowerType::Potato => 6500,
            TowerType::Cabbage => 1500,
        };
        Bullet { direction, speed }
    }

    /// The build cost of this kind.
    pub fn cost(&self) -> (c: u32)
        ensures
            c == self.spec_cost(),
    {
        match self {
            TowerType::Tomato => 50,
            TowerType::Potato => 80,
            TowerType::Cabbage => 110,
        }
    }
}

/// One purchase button: its kind and its gameplay state.
#[derive(Clone, Copy, Debug, PartialEq, Eq, Structural)]
pub struct TowerButton {
    pub tower_type: TowerType,
    pub state: TowerButtonState,
}

/// The root of the tower-purchase bar, shown while a build site is
/// selected.
#[derive(Clone, Debug, PartialEq, Eq)]
pub struct TowerUIRoot {
    pub buttons: Vec<TowerButton>,
}

/// The purchase bar's buttons as freshly created: one per kind, in kind
/// order, each carrying its kind's cost and not yet marked affordable.
pub open spec fn initial_tower_buttons() -> Seq<TowerButton> {
    seq![
        TowerButton {
            tower_type: TowerType::Tomato,
            state: TowerButtonState { cost: 50, affordable: false },
        },
        TowerButton {
            tower_type: TowerType::Potato,
            state: TowerButtonState { cost: 80, affordable: false },
        },
        TowerButton {
            tower_type: TowerType::Cabbage,
            state: TowerButtonState { cost: 110, affordable: false },
        },
    ]
}

/// Create the purchase bar: one button per kind, in kind order, each with
/// its kind's cost and not yet marked affordable.
pub fn create_ui() -> (ui: TowerUIRoot)
    ensures
        ui.buttons@ == initial_tower_buttons(),
{
    let mut buttons: Vec<TowerButton> = Vec::new();
    buttons.push(TowerButton {
        tower_type: TowerType::Tomato,
        state: TowerButtonState { cost: 50, affordable: false },
    });
    buttons.push(TowerButton {
        tower_type: TowerType::Potato,
        state: TowerButtonState { cost: 80, affordable: false },
    });
    buttons.push(TowerButton {
        tower_type: TowerType::Cabbage,
        state: TowerButtonState { cost: 110, affordable: false },
    });
    proof {
        assert(buttons@ =~= initial_tower_buttons());
    }
    TowerUIRoot { buttons }
}

/// Show the purchase bar exactly while some build site is selected: with a
/// site selected and no bar up, a fresh bar is created; with no site
/// selected and a bar up, the bar is taken down; otherwise nothing changes.
pub fn create_ui_on_selection(ui: &mut Option<TowerUIRoot>, any_selected: bool)
    ensures
        (*old(ui)) is None && any_selected ==> ((*final(ui)) matches Some(r) && r.buttons@
            == initial_tower_buttons()),
        (*old(ui)) is None && !any_selected ==> (*final(ui)) is None,
        (*old(ui)) is Some && !any_selected ==> (*final(ui)) is None,
        (*old(ui)) is Some && any_selected ==> *final(ui) == *old(ui),
{
    let up = ui.is_some();
    if up {
        if !any_selected {
            *ui = None;
        }
    } else {
        if any_selected {
            *ui = Some(create_ui());
        }
    }
}

/// What the interaction layer reports of a button this tick.
#[derive(Clone, Copy, Debug, PartialEq, Eq, Structural)]
pub enum Interaction {
    Clicked,
    Hovered,
    Idle,
}

/// One button whose interaction state changed this tick, with the button's
/// kind and state as the click saw them.
#[derive(Clone, Copy, Debug, PartialEq, Eq, Structural)]
pub struct ButtonInteraction {
    pub interaction: Interaction,
    pub tower_type: TowerType,
    pub state: TowerButtonState,
}

/// A selectable build-site marker; a purchase consumes it and raises a
/// tower at its position.
#[derive(Clone, Copy, Debug, PartialEq, Eq, Structural)]
pub struct BuildSite {
    pub selected: bool,
    pub position: Vec3,
}

impl BuildSite {
    /// In-box position with room for the muzzle offset above it.
    pub open spec fn wf(self) -> bool {
        &&& in_box(self.position)
        &&& self.position.y + BULLET_OFFSET_Y <= COORD_MAX
    }
}

/// Every entry of a build-site list is well formed.
pub open spec fn sites_wf(s: Seq<BuildSite>) -> bool {
    forall|i: int| 0 <= i < s.len() ==> (#[trigger] s[i]).wf()
}

/// The build sites left after one click fans out over them in order:
/// each selected site is consumed while the money at hand covers the cost;
/// every other site stays.
pub open spec fn purchase_sites(sites: Seq<BuildSite>, money: int, cost: int) -> Seq<BuildSite>
    decreases sites.len(),
{
    if sites.len() == 0 {
        Seq::empty()
    } else if sites.first().selected && money >= cost {
        purchase_sites(sites.drop_first(), money - cost, cost)
    } else {
        seq![sites.first()] + purchase_sites(sites.drop_first(), money, cost)
    }
}

/// The money left after one click fans out over the sites in order.
pub open spec fn money_after_sites(sites: Seq<BuildSite>, money: int, cost: int) -> int
    decreases sites.len(),
{
    if sites.len() == 0 {
        money
    } else if sites.first().selected && money >= cost {
        money_after_sites(sites.drop_first(), money - cost, cost)
    } else {
        money_after_sites(sites.drop_first(), money, cost)
    }
}

/// The towers one click raises, in site order: one per consumed site, of
/// the clicked kind, at the site's position.
pub open spec fn towers_spawned_at(
    sites: Seq<BuildSite>,
    money: int,
    cost: int,
    kind: TowerType,
) -> Seq<TowerEntity>
    decreases sites.len(),
{
    if sites.len() == 0 {
        Seq::empty()
    } else if sites.first().selected && money >= cost {
        seq![tower_at(sites.first().position, kind)] + towers_spawned_at(
            sites.drop_first(),
            money - cost,
            cost,
            kind,
        )
    } else {
        towers_spawned_at(sites.drop_first(), money, cost, kind)
    }
}

/// The sites, money, and towers raised after the tick's button
/// interactions are handled in order; only clicks act, and each click fans
/// out over the then-current sites.
pub open spec fn after_clicks(
    inters: Seq<ButtonInteraction>,
    sites: Seq<BuildSite>,
    money: int,
) -> (Seq<BuildSite>, int, Seq<TowerEntity>)
    decreases inters.len(),
{
    if inters.len() == 0 {
        (sites, money, Seq::empty())
    } else {
        let i0 = inters.first();
        if i0.interaction is Clicked {
            let cost = i0.state.cost as int;
            let sites1 = purchase_sites(sites, money, cost);
            let money1 = money_after_sites(sites, money, cost);
            let towers1 = towers_spawned_at(sites, money, cost, i0.tower_type);
            let r = after_clicks(inters.drop_first(), sites1, money1);
            (r.0, r.1, towers1 + r.2)
        } else {
            after_clicks(inters.drop_first(), sites, money)
        }
    }
}

/// Handle the tick's button clicks: for each clicked button, every
/// currently selected build site whose cost the money at hand still covers
/// is consumed — the cost is deducted, the marker removed, and a tower of
/// the clicked kind raised at the marker's position. A site the money no
/// longer covers is left exactly as it was.
pub fn tower_button_clicked(
    interactions: &Vec<ButtonInteraction>,
    selection: &mut Vec<BuildSite>,
    player: &mut Player,
    towers: &mut Vec<TowerEntity>,
)
    requires
        sites_wf(old(selection)@),
        towers_wf(old(towers)@),
    ensures
        final(selection)@ == after_clicks(
            interactions@,
            old(selection)@,
            old(player).money as int,
        ).0,
        final(player).money == after_clicks(
            interactions@,
            old(selection)@,
            old(player).money as int,
        ).1,
        final(player).health == old(player).health,
        final(towers)@ == old(towers)@ + after_clicks(
            interactions@,
            old(selection)@,
            old(player).money as int,
        ).2,
        sites_wf(final(selection)@),
        towers_wf(final(towers)@),
{
    let ghost full = after_clicks(interactions@, old(selection)@, old(player).money as int);
    let ghost t0 = towers@;
    let ni = interactions.len();
    let mut ii: usize = 0;
    proof {
        assert(interactions@.skip(0) =~= interactions@);
        assert(t0 + full.2 =~= towers@ + full.2);
    }
    while ii < ni
        invariant
            ni == interactions@.len(),
            0 <= ii <= ni,
            sites_wf(selection@),
            towers_wf(towers@),
            player.health == old(player).health,
            full == after_clicks(interactions@, old(selection)@, old(player).money as int),
            t0 == old(towers)@,
            ({
                let r = after_clicks(
                    interactions@.skip(ii as int),
                    selection@,
                    player.money as int,
                );
                &&& full.0 == r.0
                &&& full.1 == r.1
                &&& t0 + full.2 == towers@ + r.2
            }),
        decreases ni - ii,
    {
        proof {
            assert(interactions@.skip(ii as int).drop_first() =~= interactions@.skip(
                ii as int + 1,
            ));
            assert(interactions@.skip(ii as int).first() == interactions@[ii as int]);
        }
        let inter = interactions[ii];
        match inter.interaction {
            Interaction::Clicked => {
                let ghost cs = selection@;
                let ghost cm = player.money as int;
                let ghost tb = towers@;
                let cost = inter.state.cost;
                let kind = inter.tower_type;
                let ns = selection.len();
                let mut kept: Vec<BuildSite> = Vec::new();
                let mut si: usize = 0;
                proof {
                    assert(cs.skip(0) =~= cs);
                    assert(kept@ + purchase_sites(cs, cm, cost as int) =~= purchase_sites(
                        cs,
                        cm,
                        cost as int,
                    ));
                    assert(tb + towers_spawned_at(cs, cm, cost as int, kind) =~= tb
                        + towers_spawned_at(cs, cm, cost as int, kind));
                }
                while si < ns
                    invariant
                        ns == cs.len(),
                        selection@ == cs,
                        0 <= si <= ns,
                        sites_wf(cs),
                        towers_wf(towers@),
                        player.health == old(player).health,
                        purchase_sites(cs, cm, cost as int) == kept@ + purchase_sites(
                            cs.skip(si as int),
                            player.money as int,
                            cost as int,
                        ),
                        money_after_sites(cs, cm, cost as int) == money_after_sites(
                            cs.skip(si as int),
                            player.money as int,
                            cost as int,
                        ),
                        tb + towers_spawned_at(cs, cm, cost as int, kind) == towers@
                            + towers_spawned_at(
                            cs.skip(si as int),
                            player.money as int,
                            cost as int,
                            kind,
                        ),
                        sites_wf(kept@),
                    decreases ns - si,
                {
                    proof {
                        assert(cs.skip(si as int).drop_first() =~= cs.skip(si as int + 1));
                        assert(cs.skip(si as int).first() == cs[si as int]);
                    }
                    let site = selection[si];
                    if site.selected && player.money >= cost {
                        player.money = player.money - cost;
                        let te = crate::tower::spawn_tower(site.position, kind);
                        let ghost tprev = towers@;
                        towers.push(te);
                        proof {
                            assert(tprev + (seq![te] + towers_spawned_at(
                                cs.skip(si as int + 1),
                                player.money as int,
                                cost as int,
                                kind,
                            )) =~= towers@ + towers_spawned_at(
                                cs.skip(si as int + 1),
                                player.money as int,
                                cost as int,
                                kind,
                            ));
                        }
                    } else {
                        let ghost kprev = kept@;
                        kept.push(site);
                        proof {
                            assert(kprev + (seq![cs[si as int]] + purchase_sites(
                                cs.skip(si as int + 1),
                                player.money as int,
                                cost as int,
                            )) =~= kept@ + purchase_sites(
                                cs.skip(si as int + 1),
                                player.money as int,
                                cost as int,
                            ));
                        }
                    }
                    si = si + 1;
                }
                proof {
                    assert(cs.skip(ns as int) =~= Seq::<BuildSite>::empty());
                    assert(kept@ + purchase_sites(
                        cs.skip(ns as int),
                        player.money as int,
                        cost as int,
                    ) =~= kept@);
                    assert(towers@ + towers_spawned_at(
                        cs.skip(ns as int),
                        player.money as int,
                        cost as int,
                        kind,
                    ) =~= towers@);
                }
                *selection = kept;
            },
            Interaction::Hovered => {},
            Interaction::Idle => {},
        }
        ii = ii + 1;
    }
    proof {
        assert(interactions@.skip(ni as int) =~= Seq::<ButtonInteraction>::empty());
    }
}

/// Purchase honors the boundary inclusively: with the cost within the money
/// at hand — equal included — a click on one selected site consumes it,
/// deducts exactly the cost, and raises exactly one tower of the kind at
/// the site's position; with the cost above the money — one unit over
/// included — nothing changes and the money stays.
pub proof fn lemma_purchase_boundary(site: BuildSite, money: u32, cost: u32, kind: TowerType)
    requires
        site.selected,
    ensures
        cost <= money ==> purchase_sites(seq![site], money as int, cost as int)
            == Seq::<BuildSite>::empty() && money_after_sites(seq![site], money as int, cost as int)
            == money - cost && towers_spawned_at(seq![site], money as int, cost as int, kind)
            == seq![tower_at(site.position, kind)],
        cost > money ==> purchase_sites(seq![site], money as int, cost as int) == seq![site]
            && money_after_sites(seq![site], money as int, cost as int) == money as int
            && towers_spawned_at(seq![site], money as int, cost as int, kind)
            == Seq::<TowerEntity>::empty(),
{
    let s = seq![site];
    let e = Seq::<BuildSite>::empty();
    assert(s.first() == site);
    assert(s.drop_first() =~= e);
    if cost <= money {
        assert(purchase_sites(e, money - cost, cost as int) =~= Seq::<BuildSite>::empty());
        assert(money_after_sites(e, money - cost, cost as int) == money - cost);
        assert(towers_spawned_at(e, money - cost, cost as int, kind)
            =~= Seq::<TowerEntity>::empty());
        assert(towers_spawned_at(s, money as int, cost as int, kind) =~= seq![
            tower_at(site.position, kind),
        ]);
    } else {
        assert(purchase_sites(e, money as int, cost as int) =~= Seq::<BuildSite>::empty());
        assert(money_after_sites(e, money as int, cost as int) == money as int);
        assert(towers_spawned_at(e, money as int, cost as int, kind)
            =~= Seq::<TowerEntity>::empty());
        assert(purchase_sites(s, money as int, cost as int) =~= seq![site]);
        assert(towers_spawned_at(s, money as int, cost as int, kind)
            =~= Seq::<TowerEntity>::empty());
    }
}

} // verus!
