//! The solver's side of the game: the platformer levels and their puzzles.
//!
//! Geometry (positions, colliders, collisions) is computed by the caller, who
//! hands the answers to these functions as plain values; a collider is an
//! opaque value of type `C` that the library carries along.
use vstd::prelude::*;

use crate::fixed::{in_range, sat, sat_add, sat_sub, LIMIT, SCALE};
use crate::collections::{remove_indices, removable, removed_all, sort_indices, sorted_spec};
use crate::model::{code_erased, code_typed};
use crate::player::{Player, PlayerAnimationState, PlayerControl, SolverRules, Vec2};

verus! {

/// The state of the solver's progress, shared with the dispatcher.
#[derive(Clone, Copy, Debug, PartialEq, Eq, Structural)]
pub struct SolverState {
    pub current_level: usize,
    pub levels_completed: usize,
    pub popped: bool,
    pub trashcan_evil: bool,
    pub solved_bubble_code: bool,
}

impl SolverState {
    /// The progress a game starts from: on the first level with nothing
    /// completed, nobody popped, the trashcan evil and the bubble code
    /// unsolved.
    pub open spec fn initial() -> SolverState {
        SolverState {
            current_level: 0,
            levels_completed: 0,
            popped: false,
            trashcan_evil: true,
            solved_bubble_code: false,
        }
    }

    pub fn new() -> (r: SolverState)
        ensures
            r == SolverState::initial(),
    {
        SolverState {
            current_level: 0,
            levels_completed: 0,
            popped: false,
            trashcan_evil: true,
            solved_bubble_code: false,
        }
    }

    /// The exit of the current level opens once that level is completed.
    pub open spec fn exit_open(self) -> bool {
        self.levels_completed > self.current_level
    }

    pub fn is_exit_open(&self) -> (r: bool)
        ensures
            r == self.exit_open(),
    {
        self.levels_completed > self.current_level
    }
}

/// The kinds of items lying around in the levels.
#[derive(Clone, Copy, Debug, PartialEq, Eq, Structural)]
pub enum SolverItemKind {
    Recycle,
    Grandson,
    Grandpa,
    Trashcan,
    BubbleCode,
    Fish,
    CinderBlock,
}

/// An item of a level.
#[derive(Clone, Debug)]
pub struct SolverItem<C> {
    pub kind: SolverItemKind,
    pub collider: C,
    pub can_pickup: bool,
    pub pushable: bool,
    pub has_gravity: bool,
}

/// Music to switch to.
#[derive(Clone, Copy, Debug, PartialEq, Eq, Structural)]
pub enum MusicCue {
    Boss,
    Dispatcher,
}

/// Seconds before a crashed game that reboots by itself starts over (5 s).
pub const REBOOT_TIME: i64 = 5_000_000;

/// Seconds between two shots of the fish (0.7 s).
pub const FISH_RELOAD: i64 = 700_000;

/// The level on which the bubble code puzzle stands.
pub const BUBBLE_LEVEL: usize = 3;

/// The code that opens the bubble door.
pub open spec fn bubble_answer() -> Seq<usize> {
    seq![4usize, 2, 1, 3]
}

/// Crash message: the player stood too close to an explosion.
pub const MSG_EXPLODED: &'static str = "ты взорвался";

/// Crash message: the dispatcher popped the player.
pub const MSG_POPPED: &'static str = "тебе конец, и игре тоже";

/// Crash message: a projectile of the fish hit the player.
pub const MSG_FISH: &'static str = "ты попался карасю";

/// Crash message: grandpa was thrown into the trashcan.
pub const MSG_GRANDPA_TRASHED: &'static str = "ДЕДЭНД: вспомни с кем честь имеешь, скорлупа";

/// The grandson spins at 360 degrees per second: millionths of a degree
/// per microsecond.
pub const SPIN_PER_SECOND: i64 = 360;

/// One full turn, in millionths of a degree.
pub const FULL_TURN: i64 = 360_000_000;

/// The spin of the grandson after `dt`: it turns at a full turn per second
/// and stops after a full turn.
pub open spec fn spin_after(spin: Option<i64>, dt: int) -> Option<i64> {
    match spin {
        Some(a) => {
            let n = sat(a + sat(SPIN_PER_SECOND * dt));
            if n > FULL_TURN {
                None
            } else {
                Some(n as i64)
            }
        },
        None => None,
    }
}

/// Whether grandpa's drill passes the one-second mark during `dt`.
pub open spec fn drill_breaks_through(drill: Option<i64>, dt: int) -> bool {
    match drill {
        Some(t) => t <= SCALE && sat(t + dt) > SCALE,
        None => false,
    }
}

/// The drill clock after `dt`.
pub open spec fn drill_after(drill: Option<i64>, dt: int) -> Option<i64> {
    match drill {
        Some(t) => Some(sat(t + dt) as i64),
        None => None,
    }
}

/// Half a second: the blast of an explosion.
pub const BLAST_TIME: i64 = 500_000;

/// A second: the explosion is over. (How far its blast reaches is measured
/// by the caller.)
pub const EXPLOSION_TIME: i64 = 1_000_000;

/// The progress made when an explosion ends: on level 1 it completes the level.
pub open spec fn progress_after_explosion(state: SolverState) -> SolverState {
    if state.current_level == 1 && !state.exit_open() {
        SolverState { levels_completed: (state.levels_completed + 1) as usize, ..state }
    } else {
        state
    }
}

/// The progress made when grandpa drills through: it completes level 2.
pub open spec fn progress_after_drill(state: SolverState) -> SolverState {
    if state.levels_completed == 2 {
        SolverState { levels_completed: 3, ..state }
    } else {
        state
    }
}

/// What a frame of `GameSolver::update` leaves to the caller.
pub struct SolverTick {
    /// A crashed game rebooted: the level was loaded again (the caller
    /// rebuilds its geometry).
    pub reload: bool,
    /// The music the reloaded level starts.
    pub music: Option<MusicCue>,
    /// The rest of the frame (projectiles, player, items, balls) is skipped.
    pub halted: bool,
    /// An explosion starts at the player's position.
    pub explosion_started: bool,
    /// Grandpa drilled through: the platforms and the first static collider go.
    pub drill_finished: bool,
    /// States to announce to the dispatcher, in order.
    pub syncs: Vec<SolverState>,
}

/// What the caller found out about a projectile after moving it.
#[derive(Clone, Copy, Debug)]
pub struct ProjectileHit {
    pub hits_wall: bool,
    pub hits_player: bool,
}

/// A projectile that reaches the player without hitting a wall first.
pub open spec fn is_fatal(h: ProjectileHit) -> bool {
    !h.hits_wall && h.hits_player
}

/// The indices below `n` of the projectiles that hit a wall, in order.
pub open spec fn wall_hits(hits: Seq<ProjectileHit>, n: int) -> Seq<usize>
    decreases n,
{
    if n <= 0 {
        seq![]
    } else if hits[n - 1].hits_wall {
        wall_hits(hits, n - 1).push((n - 1) as usize)
    } else {
        wall_hits(hits, n - 1)
    }
}

/// What `update_projectiles` decided.
pub struct ProjectileUpdate {
    /// A projectile hit the player: the game crashed.
    pub crashed: bool,
    /// Projectiles to remove with `remove_indices`, in increasing order.
    pub removed: Vec<usize>,
}

/// Whether `a` and `b` are a fish and a cinder block, in either order.
pub open spec fn explosive_pair(a: SolverItemKind, b: SolverItemKind) -> bool {
    a == SolverItemKind::Fish && b == SolverItemKind::CinderBlock || a
        == SolverItemKind::CinderBlock && b == SolverItemKind::Fish
}

pub open spec fn kinds_of<C>(items: Seq<SolverItem<C>>) -> Seq<SolverItemKind> {
    items.map_values(|it: SolverItem<C>| it.kind)
}

/// Items `i < j` form an explosive pair that touches.
pub open spec fn pair_explodes(
    kinds: Seq<SolverItemKind>,
    touching: Seq<Vec<bool>>,
    i: int,
    j: int,
) -> bool {
    explosive_pair(kinds[i], kinds[j]) && touching[i]@[j]
}

/// The indices `i, j` of the exploding pairs `(i, j)` with `i < j < n`, in order of `j`.
pub open spec fn row_removals(
    kinds: Seq<SolverItemKind>,
    touching: Seq<Vec<bool>>,
    i: int,
    n: int,
) -> Seq<usize>
    decreases n - i,
{
    if n <= i + 1 {
        seq![]
    } else if pair_explodes(kinds, touching, i, n - 1) {
        row_removals(kinds, touching, i, n - 1) + seq![i as usize, (n - 1) as usize]
    } else {
        row_removals(kinds, touching, i, n - 1)
    }
}

/// The indices of all exploding pairs with first item below `rows`, pair by
/// pair in order.
pub open spec fn pair_removals(
    kinds: Seq<SolverItemKind>,
    touching: Seq<Vec<bool>>,
    rows: int,
) -> Seq<usize>
    decreases rows,
{
    if rows <= 0 {
        seq![]
    } else {
        pair_removals(kinds, touching, rows - 1) + row_removals(
            kinds,
            touching,
            rows - 1,
            kinds.len() as int,
        )
    }
}

/// The first item of the last exploding pair among rows below `rows`.
pub open spec fn last_exploding_row(
    kinds: Seq<SolverItemKind>,
    touching: Seq<Vec<bool>>,
    rows: int,
) -> Option<usize>
    decreases rows,
{
    if rows <= 0 {
        None
    } else if row_removals(kinds, touching, rows - 1, kinds.len() as int).len() > 0 {
        Some((rows - 1) as usize)
    } else {
        last_exploding_row(kinds, touching, rows - 1)
    }
}

/// The fish shoot on level 4 until the level is completed.
pub open spec fn fish_active(state: SolverState) -> bool {
    state.current_level == 4 && state.levels_completed <= 4
}

/// The shared cooldown of the fish after the first `n` items took their turn:
/// every fish runs the cooldown down by `dt`, and a fish that brings it to
/// zero shoots and reloads it.
pub open spec fn fish_cooldown_after(
    kinds: Seq<SolverItemKind>,
    n: int,
    cooldown: int,
    dt: int,
    active: bool,
) -> int
    decreases n,
{
    if n <= 0 {
        cooldown
    } else {
        let c = fish_cooldown_after(kinds, n - 1, cooldown, dt, active);
        if active && kinds[n - 1] == SolverItemKind::Fish {
            let d = sat(c - dt);
            if d <= 0 {
                sat(d + FISH_RELOAD)
            } else {
                d
            }
        } else {
            c
        }
    }
}

/// The fish among the first `n` items that shoot, in order.
pub open spec fn fish_shots(
    kinds: Seq<SolverItemKind>,
    n: int,
    cooldown: int,
    dt: int,
    active: bool,
) -> Seq<usize>
    decreases n,
{
    if n <= 0 {
        seq![]
    } else {
        let c = fish_cooldown_after(kinds, n - 1, cooldown, dt, active);
        let prev = fish_shots(kinds, n - 1, cooldown, dt, active);
        if active && kinds[n - 1] == SolverItemKind::Fish && sat(c - dt) <= 0 {
            prev.push((n - 1) as usize)
        } else {
            prev
        }
    }
}

/// What `update_items` decided.
pub struct ItemsUpdate {
    /// Items (indices before removal) that shoot a projectile at the player.
    pub shots: Vec<usize>,
    /// The removed items (indices before removal), in the order given to `remove_indices`.
    pub removed: Vec<usize>,
    /// The item (index before removal) where an explosion starts.
    pub exploded_at: Option<usize>,
}

/// What dropping an item next to the others sets off.
#[derive(Clone, Copy, Debug, PartialEq, Eq, Structural)]
pub struct DropEffects {
    /// The recycling sign was dropped on the grandson: he spins.
    pub spin: bool,
    /// The recycling sign was dropped on grandpa: he drills through the floor.
    pub drill: bool,
    /// Grandpa was dropped into the trashcan: the game crashes.
    pub crash: bool,
    /// The grandson was dropped into the trashcan: he is gone.
    pub disappear: bool,
}

/// The effects of dropping an item of kind `kind` where it touches the
/// items `k < n` with `touching[k]`, the items taken in order; the scan
/// stops at a crash.
pub open spec fn drop_effects(
    kind: SolverItemKind,
    kinds: Seq<SolverItemKind>,
    touching: Seq<bool>,
    n: int,
) -> DropEffects
    decreases n,
{
    if n <= 0 {
        DropEffects { spin: false, drill: false, crash: false, disappear: false }
    } else {
        let e = drop_effects(kind, kinds, touching, n - 1);
        let o = kinds[n - 1];
        let t = touching[n - 1];
        if e.crash {
            e
        } else if kind == SolverItemKind::Recycle && o == SolverItemKind::Grandson && t {
            DropEffects { spin: true, ..e }
        } else if kind == SolverItemKind::Recycle && o == SolverItemKind::Grandpa && t {
            DropEffects { drill: true, ..e }
        } else if kind == SolverItemKind::Grandpa && o == SolverItemKind::Trashcan && t {
            DropEffects { crash: true, ..e }
        } else if kind == SolverItemKind::Grandson && o == SolverItemKind::Trashcan && t {
            DropEffects { disappear: true, ..e }
        } else {
            e
        }
    }
}

/// Once a drop crashed the game, the later items change nothing.
proof fn lemma_drop_crash_stays(
    kind: SolverItemKind,
    kinds: Seq<SolverItemKind>,
    touching: Seq<bool>,
    m: int,
    n: int,
)
    requires
        0 <= m <= n,
        drop_effects(kind, kinds, touching, m).crash,
    ensures
        drop_effects(kind, kinds, touching, n) == drop_effects(kind, kinds, touching, m),
    decreases n - m,
{
    if n > m {
        lemma_drop_crash_stays(kind, kinds, touching, m, n - 1);
    }
}

/// An item the player may interact with while touching it: one that can be
/// picked up, or the bubble code; never the recycling sign while the
/// trashcan is evil.
pub open spec fn interactable<C>(item: SolverItem<C>, touching: bool, trashcan_evil: bool) -> bool {
    (item.can_pickup || item.kind == SolverItemKind::BubbleCode) && touching && !(trashcan_evil
        && item.kind == SolverItemKind::Recycle)
}

/// A bubble hit faster than this bursts: 7 units per second.
pub const BURST_SPEED: i64 = 7_000_000;

/// Whether the player's velocity into a bubble (`v`, along the contact)
/// bursts it: its length exceeds `BURST_SPEED`.
pub fn bursts_ball(v: Vec2) -> (r: bool)
    requires
        v.wf(),
    ensures
        r == (v.x * v.x + v.y * v.y > BURST_SPEED * BURST_SPEED),
{
    assert(v.x * v.x <= LIMIT * LIMIT && v.y * v.y <= LIMIT * LIMIT) by (nonlinear_arith)
        requires
            -LIMIT <= v.x <= LIMIT,
            -LIMIT <= v.y <= LIMIT,
    ;
    assert(0 <= v.x * v.x && 0 <= v.y * v.y) by (nonlinear_arith);
    let x = v.x as i128;
    let y = v.y as i128;
    x * x + y * y > (BURST_SPEED as i128) * (BURST_SPEED as i128)
}

/// The solver's per-level state, rebuilt on every (re)load of a level.
pub struct SolverStateClient<C> {
    pub time: i64,
    pub dedend: Option<(Option<i64>, String)>,
    pub player: Player<C>,
    pub items: Vec<SolverItem<C>>,
    pub picked_up_item: Option<SolverItem<C>>,
    pub explosion: Option<i64>,
    pub grandson_spin: Option<i64>,
    pub grandpa_drill: Option<i64>,
    pub bubble_code: Vec<usize>,
    pub interact_item: Option<usize>,
    pub fish_cooldown: i64,
}

pub open spec fn opt_wf(t: Option<i64>) -> bool {
    match t {
        Some(x) => in_range(x as int),
        None => true,
    }
}

impl<C> SolverStateClient<C> {
    pub open spec fn wf(&self) -> bool {
        &&& in_range(self.time as int)
        &&& (self.dedend matches Some((t, _)) ==> opt_wf(t))
        &&& self.player.wf()
        &&& opt_wf(self.explosion)
        &&& opt_wf(self.grandson_spin)
        &&& opt_wf(self.grandpa_drill)
        &&& in_range(self.fish_cooldown as int)
    }

    /// A fresh level: the player at rest with `collider`, nothing carried,
    /// no item, no effect running, and the fish ready in a second.
    pub open spec fn is_fresh(&self, collider: C) -> bool {
        &&& self.wf()
        &&& self.time == 0
        &&& self.dedend is None
        &&& self.player.is_fresh(collider)
        &&& self.items@.len() == 0
        &&& self.picked_up_item is None
        &&& self.explosion is None
        &&& self.grandson_spin is None
        &&& self.grandpa_drill is None
        &&& self.bubble_code@.len() == 0
        &&& self.interact_item is None
        &&& self.fish_cooldown == SCALE
    }

    pub fn new(collider: C) -> (r: SolverStateClient<C>)
        ensures
            r.is_fresh(collider),
    {
        SolverStateClient {
            time: 0,
            dedend: None,
            player: Player::new(collider),
            items: Vec::new(),
            picked_up_item: None,
            explosion: None,
            grandson_spin: None,
            grandpa_drill: None,
            bubble_code: Vec::new(),
            interact_item: None,
            fish_cooldown: SCALE,
        }
    }
}

/// `x` pushed into the representable range.
pub fn clamp_to_range(x: i128) -> (r: i64)
    ensures
        r == sat(x as int),
{
    if x > LIMIT as i128 {
        LIMIT
    } else if x < -(LIMIT as i128) {
        -LIMIT
    } else {
        x as i64
    }
}

fn step_spin(spin: Option<i64>, dt: i64) -> (r: Option<i64>)
    requires
        opt_wf(spin),
        in_range(dt as int),
    ensures
        r == spin_after(spin, dt as int),
        opt_wf(r),
{
    match spin {
        Some(a) => {
            assert(-400 * LIMIT <= SPIN_PER_SECOND * dt <= 400 * LIMIT) by (nonlinear_arith)
                requires
                    -LIMIT <= dt <= LIMIT,
                    SPIN_PER_SECOND == 360,
            ;
            let turned = sat_add(a, clamp_to_range(SPIN_PER_SECOND as i128 * dt as i128));
            if turned > FULL_TURN {
                None
            } else {
                Some(turned)
            }
        },
        None => None,
    }
}

/// The exploding pairs among `items` (see `pair_removals`) and the first
/// item of the last one.
fn pair_scan<C>(items: &Vec<SolverItem<C>>, touching: &Vec<Vec<bool>>) -> (r: (Vec<usize>, Option<usize>))
    requires
        touching@.len() == items@.len(),
        forall|i: int| 0 <= i < touching@.len() ==> (#[trigger] touching@[i])@.len() == items@.len(),
    ensures
        r.0@ == pair_removals(kinds_of(items@), touching@, items@.len() as int),
        r.1 == last_exploding_row(kinds_of(items@), touching@, items@.len() as int),
{
    let ghost kinds = kinds_of(items@);
    let n = items.len();
    let mut removals: Vec<usize> = Vec::new();
    let mut exploded: Option<usize> = None;
    let mut i: usize = 0;
    while i < n
        invariant
            n == items@.len(),
            kinds == kinds_of(items@),
            touching@.len() == n,
            forall|a: int| 0 <= a < n ==> (#[trigger] touching@[a])@.len() == n,
            i <= n,
            removals@ == pair_removals(kinds, touching@, i as int),
            exploded == last_exploding_row(kinds, touching@, i as int),
        decreases n - i,
    {
        let mut j: usize = i + 1;
        let ghost before = removals@;
        let ghost exploded_before = exploded;
        while j < n
            invariant
                n == items@.len(),
                kinds == kinds_of(items@),
                touching@.len() == n,
                forall|a: int| 0 <= a < n ==> (#[trigger] touching@[a])@.len() == n,
                i < n,
                i + 1 <= j <= n,
                removals@ == before + row_removals(kinds, touching@, i as int, j as int),
                exploded == (if row_removals(kinds, touching@, i as int, j as int).len() > 0 {
                    Some(i)
                } else {
                    exploded_before
                }),
            decreases n - j,
        {
            let a = items[i].kind;
            let b = items[j].kind;
            let pair = a == SolverItemKind::Fish && b == SolverItemKind::CinderBlock
                || a == SolverItemKind::CinderBlock && b == SolverItemKind::Fish;
            if pair && touching[i][j] {
                removals.push(i);
                removals.push(j);
                exploded = Some(i);
            }
            proof {
                assert(kinds[i as int] == a);
                assert(kinds[j as int] == b);
            }
            assert(removals@ =~= before + row_removals(kinds, touching@, i as int, j + 1));
            j = j + 1;
        }
        i = i + 1;
    }
    (removals, exploded)
}

/// Whether the items can take `update_items` with `touching`: every removal
/// finds its item (an item in two exploding pairs would be removed twice).
pub fn can_update_items<C>(items: &Vec<SolverItem<C>>, touching: &Vec<Vec<bool>>) -> (r: bool)
    requires
        touching@.len() == items@.len(),
        forall|i: int| 0 <= i < touching@.len() ==> (#[trigger] touching@[i])@.len() == items@.len(),
    ensures
        r == removable(
            items@.len() as int,
            sorted_spec(pair_removals(kinds_of(items@), touching@, items@.len() as int)),
        ),
{
    let (removals, _) = pair_scan(items, touching);
    let sorted = sort_indices(&removals);
    crate::collections::is_removable(items.len(), &sorted)
}

/// The solver's game: its progress, its input and the state of the level.
pub struct GameSolver<C> {
    pub test: bool,
    pub state: SolverState,
    pub player_control: PlayerControl,
    pub client_state: SolverStateClient<C>,
}

/// One level back (not below the first), marked unfinished.
pub open spec fn level_back(s: SolverState) -> SolverState {
    let level = if s.current_level == 0 {
        0
    } else {
        (s.current_level - 1) as usize
    };
    SolverState { current_level: level, levels_completed: level, ..s }
}

/// One level on, marked unfinished.
pub open spec fn level_forward(s: SolverState) -> SolverState {
    let level = (s.current_level + 1) as usize;
    SolverState { current_level: level, levels_completed: level, ..s }
}

/// The horizontal direction after holding left and right: each adds a unit
/// step its way.
pub open spec fn held_dir(x: int, left: bool, right: bool) -> int {
    let x1 = if left {
        sat(x - SCALE)
    } else {
        x
    };
    if right {
        sat(x1 + SCALE)
    } else {
        x1
    }
}

/// The music that a level starts: the boss theme on level 4, the office
/// theme after it, and no change before.
pub open spec fn level_music(level: usize) -> Option<MusicCue> {
    if level == 4 {
        Some(MusicCue::Boss)
    } else if level > 4 {
        Some(MusicCue::Dispatcher)
    } else {
        None
    }
}

/// The music a level starts: see `level_music`.
fn music_for(level: usize) -> (r: Option<MusicCue>)
    ensures
        r == level_music(level),
{
    if level == 4 {
        Some(MusicCue::Boss)
    } else if level > 4 {
        Some(MusicCue::Dispatcher)
    } else {
        None
    }
}

impl<C> GameSolver<C> {
    pub open spec fn wf(&self) -> bool {
        &&& self.client_state.wf()
        &&& self.player_control.move_dir.wf()
    }

    /// The level's state as a (re)load leaves it: fresh, with the player at
    /// rest at `collider` (placed at the level's spawn point by the caller),
    /// holding the level's items when the level exists (`level_items`).
    pub open spec fn level_loaded(&self, collider: C, level_items: Option<Vec<SolverItem<C>>>) -> bool {
        let c = self.client_state;
        &&& self.wf()
        &&& c.time == 0
        &&& c.dedend is None
        &&& c.player.is_fresh(collider)
        &&& c.picked_up_item is None
        &&& c.explosion is None
        &&& c.grandson_spin is None
        &&& c.grandpa_drill is None
        &&& c.bubble_code@.len() == 0
        &&& c.interact_item is None
        &&& c.fish_cooldown == SCALE
        &&& match level_items {
            Some(items) => c.items@ == items@,
            None => c.items@.len() == 0,
        }
    }

    /// A crashed game that reboots by itself runs out of time within `delta_time`.
    pub open spec fn reboot_due(&self, delta_time: i64) -> bool {
        self.client_state.dedend matches Some((Some(t), _)) && sat(t - delta_time) <= 0
    }

    /// A new game from the starting progress (`SolverState::initial`); in
    /// test mode (`test` is `Some(level)`) the game starts on that level, and
    /// the state to announce is returned. The starting level is loaded (see
    /// `level_loaded`) with the player at `collider` and the level's items
    /// `level_items`; the music it starts is returned last.
    pub fn new(collider: C, level_items: Option<Vec<SolverItem<C>>>, test: Option<usize>) -> (r: (
        GameSolver<C>,
        Option<SolverState>,
        Option<MusicCue>,
    ))
        ensures
            r.0.test == (test is Some),
            r.0.player_control.is_default(),
            r.0.level_loaded(collider, level_items),
            r.2 == level_music(r.0.state.current_level),
            match test {
                Some(level) => {
                    &&& r.0.state == SolverState {
                        current_level: level,
                        levels_completed: level,
                        ..SolverState::initial()
                    }
                    &&& r.1 == Some(r.0.state)
                },
                None => r.0.state == SolverState::initial() && r.1 is None,
            },
    {
        let mut game = GameSolver {
            test: test.is_some(),
            state: SolverState::new(),
            player_control: PlayerControl::new(),
            client_state: SolverStateClient::new(collider),
        };
        let mut sync = None;
        if let Some(level) = test {
            game.state.current_level = level;
            game.state.levels_completed = level;
            sync = Some(game.state);
        }
        if let Some(items) = level_items {
            game.client_state.items = items;
        }
        let cue = music_for(game.state.current_level);
        (game, sync, cue)
    }

    /// Starts the current level over (see `level_loaded`). Returns the music
    /// the level starts.
    pub fn reload_level(&mut self, collider: C, level_items: Option<Vec<SolverItem<C>>>) -> (r:
        Option<MusicCue>)
        requires
            old(self).wf(),
        ensures
            final(self).level_loaded(collider, level_items),
            r == level_music(old(self).state.current_level),
            final(self).state == old(self).state,
            final(self).test == old(self).test,
            final(self).player_control == old(self).player_control,
    {
        let cue = music_for(self.state.current_level);
        self.client_state = SolverStateClient::new(collider);
        if let Some(items) = level_items {
            self.client_state.items = items;
        }
        cue
    }

    /// Ends the game with `message`; a game that reboots by itself starts
    /// over after `REBOOT_TIME`.
    pub fn game_crash(&mut self, auto_reboot: bool, message: String)
        requires
            old(self).wf(),
        ensures
            final(self).wf(),
            final(self).client_state.dedend == Some(
                (if auto_reboot {
                    Some(REBOOT_TIME)
                } else {
                    None
                }, message),
            ),
            final(self).state == old(self).state,
            final(self).test == old(self).test,
            final(self).player_control == old(self).player_control,
            final(self).client_state.time == old(self).client_state.time,
            final(self).client_state.player == old(self).client_state.player,
            final(self).client_state.items == old(self).client_state.items,
            final(self).client_state.picked_up_item == old(self).client_state.picked_up_item,
            final(self).client_state.explosion == old(self).client_state.explosion,
            final(self).client_state.grandson_spin == old(self).client_state.grandson_spin,
            final(self).client_state.grandpa_drill == old(self).client_state.grandpa_drill,
            final(self).client_state.bubble_code == old(self).client_state.bubble_code,
            final(self).client_state.interact_item == old(self).client_state.interact_item,
            final(self).client_state.fish_cooldown == old(self).client_state.fish_cooldown,
    {
        let timer = if auto_reboot {
            Some(REBOOT_TIME)
        } else {
            None
        };
        self.client_state.dedend = Some((timer, message));
    }

    /// Whether typing into the bubble code is possible: on the bubble level
    /// while the code is unsolved.
    pub open spec fn bubble_code_open(&self) -> bool {
        self.state.current_level == BUBBLE_LEVEL && !self.state.solved_bubble_code
    }

    /// Types `digit` into the bubble code, which holds at most four digits.
    pub fn press_digit(&mut self, digit: usize)
        ensures
            final(self).client_state.bubble_code@ == code_typed(
                old(self).client_state.bubble_code@,
                old(self).bubble_code_open(),
                4,
                digit,
            ),
            final(self).state == old(self).state,
            final(self).test == old(self).test,
            final(self).player_control == old(self).player_control,
            final(self).client_state.time == old(self).client_state.time,
            final(self).client_state.dedend == old(self).client_state.dedend,
            final(self).client_state.player == old(self).client_state.player,
            final(self).client_state.items == old(self).client_state.items,
            final(self).client_state.picked_up_item == old(self).client_state.picked_up_item,
            final(self).client_state.explosion == old(self).client_state.explosion,
            final(self).client_state.grandson_spin == old(self).client_state.grandson_spin,
            final(self).client_state.grandpa_drill == old(self).client_state.grandpa_drill,
            final(self).client_state.interact_item == old(self).client_state.interact_item,
            final(self).client_state.fish_cooldown == old(self).client_state.fish_cooldown,
    {
        if self.state.current_level == BUBBLE_LEVEL && !self.state.solved_bubble_code
            && self.client_state.bubble_code.len() < 4 {
            self.client_state.bubble_code.push(digit);
        }
    }

    /// Erases the last digit of the bubble code.
    pub fn press_backspace(&mut self)
        ensures
            final(self).client_state.bubble_code@ == code_erased(
                old(self).client_state.bubble_code@,
                old(self).bubble_code_open(),
            ),
            final(self).state == old(self).state,
            final(self).test == old(self).test,
            final(self).player_control == old(self).player_control,
            final(self).client_state.time == old(self).client_state.time,
            final(self).client_state.dedend == old(self).client_state.dedend,
            final(self).client_state.player == old(self).client_state.player,
            final(self).client_state.items == old(self).client_state.items,
            final(self).client_state.picked_up_item == old(self).client_state.picked_up_item,
            final(self).client_state.explosion == old(self).client_state.explosion,
            final(self).client_state.grandson_spin == old(self).client_state.grandson_spin,
            final(self).client_state.grandpa_drill == old(self).client_state.grandpa_drill,
            final(self).client_state.interact_item == old(self).client_state.interact_item,
            final(self).client_state.fish_cooldown == old(self).client_state.fish_cooldown,
    {
        if self.state.current_level == BUBBLE_LEVEL && !self.state.solved_bubble_code {
            self.client_state.bubble_code.pop();
        }
    }

    /// Whether the bubble code typed so far is the answer.
    fn bubble_code_matches(&self) -> (r: bool)
        ensures
            r == (self.client_state.bubble_code@ == bubble_answer()),
    {
        let code = &self.client_state.bubble_code;
        let r = code.len() == 4 && code[0] == 4 && code[1] == 2 && code[2] == 1 && code[3] == 3;
        proof {
            if r {
                assert(code@ =~= bubble_answer());
            }
        }
        r
    }

    /// Submits the bubble code: the right code solves the puzzle (the door of
    /// bubbles then goes away and the new state is announced). Returns whether
    /// this submission solved it.
    pub fn submit_bubble_code(&mut self) -> (solved: bool)
        ensures
            solved == (!old(self).state.solved_bubble_code && old(self).client_state.bubble_code@
                == bubble_answer()),
            final(self).state == (if solved {
                SolverState { solved_bubble_code: true, ..old(self).state }
            } else {
                old(self).state
            }),
            final(self).test == old(self).test,
            final(self).player_control == old(self).player_control,
            final(self).client_state == old(self).client_state,
    {
        if !self.state.solved_bubble_code && self.bubble_code_matches() {
            self.state.solved_bubble_code = true;
            true
        } else {
            false
        }
    }

    /// Enter submits the bubble code on the bubble level.
    pub fn press_enter(&mut self) -> (solved: bool)
        ensures
            solved == (old(self).state.current_level == BUBBLE_LEVEL
                && !old(self).state.solved_bubble_code && old(self).client_state.bubble_code@
                == bubble_answer()),
            final(self).state == (if solved {
                SolverState { solved_bubble_code: true, ..old(self).state }
            } else {
                old(self).state
            }),
            final(self).test == old(self).test,
            final(self).player_control == old(self).player_control,
            final(self).client_state == old(self).client_state,
    {
        if self.state.current_level == BUBBLE_LEVEL {
            self.submit_bubble_code()
        } else {
            false
        }
    }

    /// In test mode, goes back one level (not below the first) and marks it
    /// unfinished. Returns whether the level is to be reloaded.
    pub fn previous_level(&mut self) -> (reload: bool)
        ensures
            reload == old(self).test,
            final(self).state == (if reload {
                level_back(old(self).state)
            } else {
                old(self).state
            }),
            final(self).test == old(self).test,
            final(self).player_control == old(self).player_control,
            final(self).client_state == old(self).client_state,
    {
        if self.test {
            self.state.current_level = self.state.current_level.saturating_sub(1);
            self.state.levels_completed = self.state.current_level;
            true
        } else {
            false
        }
    }

    /// In test mode, skips to the next level and marks it unfinished.
    /// Returns whether the level is to be reloaded.
    pub fn next_level(&mut self) -> (reload: bool)
        requires
            old(self).test ==> old(self).state.current_level < usize::MAX,
        ensures
            reload == old(self).test,
            final(self).state == (if reload {
                level_forward(old(self).state)
            } else {
                old(self).state
            }),
            final(self).test == old(self).test,
            final(self).player_control == old(self).player_control,
            final(self).client_state == old(self).client_state,
    {
        if self.test {
            self.state.current_level = self.state.current_level + 1;
            self.state.levels_completed = self.state.current_level;
            true
        } else {
            false
        }
    }

    /// The timed part of a frame of `delta_time`. `near_explosion` tells
    /// whether the player stands within 2.5 units of the running explosion.
    /// A crashed game whose reboot time runs out loads the level again, with
    /// the player at `collider` and the level's items `level_items`.
    pub fn update(
        &mut self,
        delta_time: i64,
        near_explosion: bool,
        collider: C,
        level_items: Option<Vec<SolverItem<C>>>,
    ) -> (r: SolverTick)
        requires
            old(self).wf(),
            in_range(delta_time as int),
        ensures
            final(self).wf(),
            final(self).test == old(self).test,
            final(self).player_control == old(self).player_control,
            final(self).state.levels_completed >= old(self).state.levels_completed,
            r.reload == old(self).reboot_due(delta_time),
            r.reload ==> {
                &&& final(self).level_loaded(collider, level_items)
                &&& r.music == level_music(old(self).state.current_level)
                &&& r.halted
                &&& !r.explosion_started
                &&& !r.drill_finished
                &&& r.syncs@.len() == 0
                &&& final(self).state == old(self).state
            },
            !r.reload ==> {
                &&& r.music is None
                &&& final(self).client_state.time == sat(old(self).client_state.time + delta_time)
                &&& final(self).client_state.player == old(self).client_state.player
                &&& final(self).client_state.items == old(self).client_state.items
                &&& final(self).client_state.picked_up_item == old(self).client_state.picked_up_item
                &&& final(self).client_state.bubble_code == old(self).client_state.bubble_code
                &&& final(self).client_state.interact_item == old(self).client_state.interact_item
                &&& final(self).client_state.fish_cooldown == old(self).client_state.fish_cooldown
            },
            // A crashed game only counts down to its reboot.
            old(self).client_state.dedend matches Some((timer, msg)) ==> {
                &&& r.halted
                &&& !r.explosion_started
                &&& !r.drill_finished
                &&& r.syncs@.len() == 0
                &&& final(self).state == old(self).state
                &&& !r.reload ==> {
                    &&& final(self).client_state.explosion == old(self).client_state.explosion
                    &&& final(self).client_state.grandson_spin == old(
                        self,
                    ).client_state.grandson_spin
                    &&& final(self).client_state.grandpa_drill == old(
                        self,
                    ).client_state.grandpa_drill
                    &&& final(self).client_state.dedend == match timer {
                        Some(t) => Some((Some(sat(t - delta_time) as i64), msg)),
                        None => old(self).client_state.dedend,
                    }
                }
            },
            old(self).client_state.dedend is None ==> {
                let c = old(self).client_state;
                let started = old(self).state.popped && c.explosion is None;
                let drilled = drill_breaks_through(c.grandpa_drill, delta_time as int);
                let s1 = if drilled {
                    progress_after_drill(old(self).state)
                } else {
                    old(self).state
                };
                let drill_sync = drilled && old(self).state.levels_completed == 2;
                let timer = if started {
                    Some(delta_time as int)
                } else {
                    match c.explosion {
                        Some(t) => Some(sat(t + delta_time)),
                        None => None,
                    }
                };
                let near = started || near_explosion;
                &&& !r.reload
                &&& r.explosion_started == started
                &&& r.drill_finished == drilled
                &&& final(self).client_state.grandson_spin == spin_after(
                    c.grandson_spin,
                    delta_time as int,
                )
                &&& final(self).client_state.grandpa_drill == drill_after(
                    c.grandpa_drill,
                    delta_time as int,
                )
                &&& match timer {
                    Some(t) => if t > BLAST_TIME && old(self).state.popped {
                        &&& r.halted
                        &&& final(self).client_state.dedend matches Some((None, m))
                        &&& m@ == MSG_POPPED@
                        &&& final(self).client_state.explosion == Some(t as i64)
                        &&& final(self).state == s1
                        &&& r.syncs@ == (if drill_sync { seq![s1] } else { seq![] })
                    } else if t > BLAST_TIME && near {
                        &&& r.halted
                        &&& final(self).client_state.dedend matches Some((Some(reboot), m))
                        &&& reboot == REBOOT_TIME
                        &&& m@ == MSG_EXPLODED@
                        &&& final(self).client_state.explosion == Some(t as i64)
                        &&& final(self).state == s1
                        &&& r.syncs@ == (if drill_sync { seq![s1] } else { seq![] })
                    } else if t > EXPLOSION_TIME {
                        let s2 = progress_after_explosion(s1);
                        &&& !r.halted
                        &&& final(self).client_state.dedend is None
                        &&& final(self).client_state.explosion is None
                        &&& final(self).state == s2
                        &&& r.syncs@ == (if drill_sync { seq![s1] } else { seq![] }) + (if s2
                            != s1 {
                            seq![s2]
                        } else {
                            seq![]
                        })
                    } else {
                        &&& !r.halted
                        &&& final(self).client_state.dedend is None
                        &&& final(self).client_state.explosion == Some(t as i64)
                        &&& final(self).state == s1
                        &&& r.syncs@ == (if drill_sync { seq![s1] } else { seq![] })
                    },
                    None => {
                        &&& !r.halted
                        &&& final(self).client_state.dedend is None
                        &&& final(self).client_state.explosion is None
                        &&& final(self).state == s1
                        &&& r.syncs@ == (if drill_sync { seq![s1] } else { seq![] })
                    },
                }
            },
    {
        let mut tick = SolverTick {
            reload: false,
            music: None,
            halted: false,
            explosion_started: false,
            drill_finished: false,
            syncs: Vec::new(),
        };
        self.client_state.time = sat_add(self.client_state.time, delta_time);

        if self.client_state.dedend.is_some() {
            let (timer, msg) = self.client_state.dedend.take().unwrap();
            tick.halted = true;
            let timer = match timer {
                Some(t) => {
                    let left = sat_sub(t, delta_time);
                    if left <= 0 {
                        tick.reload = true;
                        tick.music = self.reload_level(collider, level_items);
                        return tick;
                    }
                    Some(left)
                },
                None => None,
            };
            self.client_state.dedend = Some((timer, msg));
            return tick;
        }

        if self.state.popped && self.client_state.explosion.is_none() {
            self.client_state.explosion = Some(0);
            tick.explosion_started = true;
        }

        self.client_state.grandson_spin = step_spin(self.client_state.grandson_spin, delta_time);

        if let Some(t) = self.client_state.grandpa_drill {
            let after = sat_add(t, delta_time);
            self.client_state.grandpa_drill = Some(after);
            if t <= SCALE && after > SCALE {
                tick.drill_finished = true;
                if self.state.levels_completed == 2 {
                    self.state.levels_completed = self.state.levels_completed + 1;
                    tick.syncs.push(self.state);
                }
            }
        }

        if let Some(t) = self.client_state.explosion {
            let after = sat_add(t, delta_time);
            self.client_state.explosion = Some(after);
            if after > BLAST_TIME {
                if self.state.popped {
                    self.game_crash(false, MSG_POPPED.to_owned());
                    tick.halted = true;
                    return tick;
                }
                if tick.explosion_started || near_explosion {
                    self.game_crash(true, MSG_EXPLODED.to_owned());
                    tick.halted = true;
                    return tick;
                }
            }
            if after > EXPLOSION_TIME {
                self.client_state.explosion = None;
                if self.state.current_level == 1 && !self.state.is_exit_open() {
                    self.state.levels_completed = self.state.levels_completed + 1;
                    tick.syncs.push(self.state);
                }
            }
        }
        tick
    }

    /// Projectiles after the caller moved them, in order: the first one that
    /// reaches the player crashes the game (and nothing is removed); otherwise
    /// those that hit a wall go.
    pub fn update_projectiles(&mut self, hits: &Vec<ProjectileHit>) -> (r: ProjectileUpdate)
        requires
            old(self).wf(),
        ensures
            final(self).wf(),
            r.crashed == (exists|k: int| 0 <= k < hits@.len() && is_fatal(#[trigger] hits@[k])),
            r.crashed ==> {
                &&& r.removed@.len() == 0
                &&& final(self).client_state.dedend matches Some((Some(reboot), m))
                &&& reboot == REBOOT_TIME
                &&& m@ == MSG_FISH@
            },
            !r.crashed ==> {
                &&& r.removed@ == wall_hits(hits@, hits@.len() as int)
                &&& final(self).client_state.dedend == old(self).client_state.dedend
            },
            final(self).state == old(self).state,
            final(self).test == old(self).test,
            final(self).player_control == old(self).player_control,
            final(self).client_state.time == old(self).client_state.time,
            final(self).client_state.player == old(self).client_state.player,
            final(self).client_state.items == old(self).client_state.items,
            final(self).client_state.picked_up_item == old(self).client_state.picked_up_item,
            final(self).client_state.explosion == old(self).client_state.explosion,
            final(self).client_state.grandson_spin == old(self).client_state.grandson_spin,
            final(self).client_state.grandpa_drill == old(self).client_state.grandpa_drill,
            final(self).client_state.bubble_code == old(self).client_state.bubble_code,
            final(self).client_state.interact_item == old(self).client_state.interact_item,
            final(self).client_state.fish_cooldown == old(self).client_state.fish_cooldown,
    {
        let mut removed: Vec<usize> = Vec::new();
        let mut k: usize = 0;
        while k < hits.len()
            invariant
                k <= hits@.len(),
                removed@ == wall_hits(hits@, k as int),
                forall|i: int| 0 <= i < k ==> !is_fatal(#[trigger] hits@[i]),
                *self == *old(self),
                self.wf(),
            decreases hits@.len() - k,
        {
            let h = hits[k];
            if h.hits_wall {
                removed.push(k);
            } else if h.hits_player {
                self.game_crash(true, MSG_FISH.to_owned());
                return ProjectileUpdate { crashed: true, removed: Vec::new() };
            }
            k = k + 1;
        }
        ProjectileUpdate { crashed: false, removed }
    }

    /// The fish take their shots (see `fish_shots`), and fish and cinder
    /// blocks that touch explode: both go, and an explosion starts at the
    /// first item of the last such pair. `touching@[i]@[j]` (for `i < j`)
    /// tells whether items `i` and `j` touch, after the caller moved the items.
    pub fn update_items(&mut self, delta_time: i64, touching: &Vec<Vec<bool>>) -> (r: ItemsUpdate)
        requires
            old(self).wf(),
            in_range(delta_time as int),
            touching@.len() == old(self).client_state.items@.len(),
            forall|i: int|
                0 <= i < touching@.len() ==> (#[trigger] touching@[i])@.len()
                    == old(self).client_state.items@.len(),
            removable(
                old(self).client_state.items@.len() as int,
                sorted_spec(
                    pair_removals(
                        kinds_of(old(self).client_state.items@),
                        touching@,
                        old(self).client_state.items@.len() as int,
                    ),
                ),
            ),
        ensures
            final(self).wf(),
            ({
                let kinds = kinds_of(old(self).client_state.items@);
                let n = kinds.len() as int;
                let active = fish_active(old(self).state);
                let cd = old(self).client_state.fish_cooldown as int;
                let dt = delta_time as int;
                &&& r.shots@ == fish_shots(kinds, n, cd, dt, active)
                &&& final(self).client_state.fish_cooldown == fish_cooldown_after(
                    kinds,
                    n,
                    cd,
                    dt,
                    active,
                )
                &&& r.removed@ == sorted_spec(pair_removals(kinds, touching@, n))
                &&& final(self).client_state.items@ == removed_all(
                    old(self).client_state.items@,
                    r.removed@,
                )
                &&& r.exploded_at == last_exploding_row(kinds, touching@, n)
                &&& final(self).client_state.explosion == (if r.exploded_at is Some {
                    Some(0i64)
                } else {
                    old(self).client_state.explosion
                })
            }),
            final(self).state == old(self).state,
            final(self).test == old(self).test,
            final(self).player_control == old(self).player_control,
            final(self).client_state.time == old(self).client_state.time,
            final(self).client_state.dedend == old(self).client_state.dedend,
            final(self).client_state.player == old(self).client_state.player,
            final(self).client_state.picked_up_item == old(self).client_state.picked_up_item,
            final(self).client_state.grandson_spin == old(self).client_state.grandson_spin,
            final(self).client_state.grandpa_drill == old(self).client_state.grandpa_drill,
            final(self).client_state.bubble_code == old(self).client_state.bubble_code,
            final(self).client_state.interact_item == old(self).client_state.interact_item,
    {
        let ghost kinds = kinds_of(self.client_state.items@);
        let ghost cd0 = self.client_state.fish_cooldown as int;
        let n = self.client_state.items.len();
        let active = self.state.current_level == 4 && self.state.levels_completed <= 4;
        let mut shots: Vec<usize> = Vec::new();
        let mut cooldown = self.client_state.fish_cooldown;
        let mut k: usize = 0;
        while k < n
            invariant
                n == self.client_state.items@.len(),
                kinds == kinds_of(self.client_state.items@),
                active == fish_active(self.state),
                k <= n,
                in_range(cooldown as int),
                in_range(delta_time as int),
                cooldown == fish_cooldown_after(kinds, k as int, cd0, delta_time as int, active),
                shots@ == fish_shots(kinds, k as int, cd0, delta_time as int, active),
            decreases n - k,
        {
            if active && self.client_state.items[k].kind == SolverItemKind::Fish {
                let d = sat_sub(cooldown, delta_time);
                if d <= 0 {
                    cooldown = sat_add(d, FISH_RELOAD);
                    shots.push(k);
                } else {
                    cooldown = d;
                }
            }
            k = k + 1;
        }
        self.client_state.fish_cooldown = cooldown;

        let (removals, exploded) = pair_scan(&self.client_state.items, touching);
        if exploded.is_some() {
            self.client_state.explosion = Some(0);
        }
        let sorted = sort_indices(&removals);
        remove_indices(&mut self.client_state.items, &sorted);
        ItemsUpdate { shots, removed: sorted, exploded_at: exploded }
    }

    /// The start of the player's frame (see `Player::begin_update`), driven by
    /// this frame's input. Returns the animation shown before the frame.
    ///
    /// The player's frame alternates decisions with motion through the level,
    /// which only the caller can compute: this start, `player_pickup`, the
    /// player's `variable_jump`, `horizontal_control` and `jump`, the motion,
    /// then `check_ground`, `restart_animation_if_changed`,
    /// `check_transition`, `player_respawn` on falling out,
    /// `update_interact_item` and `end_player_update`.
    pub fn start_player_frame(&mut self, rules: &SolverRules, delta_time: i64) -> (before:
        PlayerAnimationState)
        requires
            old(self).wf(),
            rules.wf(),
            in_range(delta_time as int),
        ensures
            final(self).wf(),
            before == crate::player::animation_of(
                old(self).client_state.player.state,
                old(self).client_state.player.velocity.x as int,
            ),
            final(self).client_state.player.begun_from(
                old(self).client_state.player,
                old(self).player_control,
                *rules,
                delta_time as int,
            ),
            final(self).state == old(self).state,
            final(self).test == old(self).test,
            final(self).player_control == old(self).player_control,
            final(self).client_state.time == old(self).client_state.time,
            final(self).client_state.dedend == old(self).client_state.dedend,
            final(self).client_state.items == old(self).client_state.items,
            final(self).client_state.picked_up_item == old(self).client_state.picked_up_item,
            final(self).client_state.explosion == old(self).client_state.explosion,
            final(self).client_state.grandson_spin == old(self).client_state.grandson_spin,
            final(self).client_state.grandpa_drill == old(self).client_state.grandpa_drill,
            final(self).client_state.bubble_code == old(self).client_state.bubble_code,
            final(self).client_state.interact_item == old(self).client_state.interact_item,
            final(self).client_state.fish_cooldown == old(self).client_state.fish_cooldown,
    {
        let before = self.client_state.player.animation_state();
        self.client_state.player.begin_update(&self.player_control, rules, delta_time);
        before
    }

    /// The pickup key: a carried item is dropped (the caller has placed it
    /// in front of the player and tells with `drop_touching@[k]` whether it
    /// touches item `k`), setting off `drop_effects`; otherwise the item the
    /// player may interact with is picked up, unless it is the bubble code.
    /// Returns whether the game crashed, which ends the player's frame.
    pub fn player_pickup(&mut self, drop_touching: &Vec<bool>) -> (crashed: bool)
        requires
            old(self).wf(),
            drop_touching@.len() == old(self).client_state.items@.len(),
        ensures
            final(self).wf(),
            final(self).state == old(self).state,
            final(self).test == old(self).test,
            final(self).player_control == old(self).player_control,
            final(self).client_state.time == old(self).client_state.time,
            final(self).client_state.player == old(self).client_state.player,
            final(self).client_state.explosion == old(self).client_state.explosion,
            final(self).client_state.bubble_code == old(self).client_state.bubble_code,
            final(self).client_state.interact_item == old(self).client_state.interact_item,
            final(self).client_state.fish_cooldown == old(self).client_state.fish_cooldown,
            ({
                let c = old(self).client_state;
                if !old(self).player_control.pickup {
                    &&& !crashed
                    &&& final(self).client_state == c
                } else if c.picked_up_item is Some {
                    let item = c.picked_up_item->0;
                    let e = drop_effects(
                        item.kind,
                        kinds_of(c.items@),
                        drop_touching@,
                        c.items@.len() as int,
                    );
                    &&& crashed == e.crash
                    &&& final(self).client_state.picked_up_item is None
                    &&& final(self).client_state.grandson_spin == (if e.spin {
                        Some(0i64)
                    } else {
                        c.grandson_spin
                    })
                    &&& final(self).client_state.grandpa_drill == (if e.drill {
                        Some(0i64)
                    } else {
                        c.grandpa_drill
                    })
                    &&& if e.crash {
                        &&& final(self).client_state.items@ == c.items@
                        &&& final(self).client_state.dedend matches Some((Some(reboot), m))
                        &&& reboot == REBOOT_TIME
                        &&& m@ == MSG_GRANDPA_TRASHED@
                    } else {
                        &&& final(self).client_state.dedend == c.dedend
                        &&& final(self).client_state.items@ == (if e.disappear {
                            c.items@
                        } else {
                            c.items@.push(item)
                        })
                    }
                } else {
                    &&& !crashed
                    &&& final(self).client_state.dedend == c.dedend
                    &&& final(self).client_state.grandson_spin == c.grandson_spin
                    &&& final(self).client_state.grandpa_drill == c.grandpa_drill
                    &&& if c.interact_item is Some && c.interact_item->0 < c.items@.len()
                        && c.items@[c.interact_item->0 as int].kind != SolverItemKind::BubbleCode {
                        let i = c.interact_item->0;
                        &&& final(self).client_state.picked_up_item == Some(c.items@[i as int])
                        &&& final(self).client_state.items@ == crate::collections::swap_removed(
                            c.items@,
                            i as int,
                        )
                    } else {
                        &&& final(self).client_state.picked_up_item == c.picked_up_item
                        &&& final(self).client_state.items@ == c.items@
                    }
                }
            }),
    {
        if !self.player_control.pickup {
            return false;
        }
        if self.client_state.picked_up_item.is_some() {
            let item = self.client_state.picked_up_item.take().unwrap();
            let ghost kinds = kinds_of(self.client_state.items@);
            let mut disappear = false;
            let mut k: usize = 0;
            while k < self.client_state.items.len()
                invariant
                    *self == (GameSolver {
                        client_state: SolverStateClient {
                            grandson_spin: self.client_state.grandson_spin,
                            grandpa_drill: self.client_state.grandpa_drill,
                            picked_up_item: None,
                            ..old(self).client_state
                        },
                        ..*old(self)
                    }),
                    kinds == kinds_of(self.client_state.items@),
                    self.wf(),
                    drop_touching@.len() == self.client_state.items@.len(),
                    k <= self.client_state.items@.len(),
                    old(self).client_state.picked_up_item == Some(item),
                    old(self).player_control.pickup,
                    ({
                        let e = drop_effects(item.kind, kinds, drop_touching@, k as int);
                        &&& !e.crash
                        &&& disappear == e.disappear
                        &&& self.client_state.grandson_spin == (if e.spin {
                            Some(0i64)
                        } else {
                            old(self).client_state.grandson_spin
                        })
                        &&& self.client_state.grandpa_drill == (if e.drill {
                            Some(0i64)
                        } else {
                            old(self).client_state.grandpa_drill
                        })
                    }),
                decreases self.client_state.items@.len() - k,
            {
                let o = self.client_state.items[k].kind;
                let t = drop_touching[k];
                proof {
                    assert(kinds[k as int] == o);
                }
                let a = item.kind;
                if a == SolverItemKind::Recycle && o == SolverItemKind::Grandson && t {
                    self.client_state.grandson_spin = Some(0);
                } else if a == SolverItemKind::Recycle && o == SolverItemKind::Grandpa && t {
                    self.client_state.grandpa_drill = Some(0);
                } else if a == SolverItemKind::Grandpa && o == SolverItemKind::Trashcan && t {
                    proof {
                        let e = drop_effects(item.kind, kinds, drop_touching@, k as int);
                        assert(drop_effects(item.kind, kinds, drop_touching@, k + 1) == DropEffects {
                            crash: true,
                            ..e
                        });
                        lemma_drop_crash_stays(
                            item.kind,
                            kinds,
                            drop_touching@,
                            k + 1,
                            self.client_state.items@.len() as int,
                        );
                    }
                    self.game_crash(true, MSG_GRANDPA_TRASHED.to_owned());
                    return true;
                } else if a == SolverItemKind::Grandson && o == SolverItemKind::Trashcan && t {
                    disappear = true;
                }
                k = k + 1;
            }
            if !disappear {
                self.client_state.items.push(item);
            }
        } else if let Some(i) = self.client_state.interact_item {
            if i < self.client_state.items.len() {
                if self.client_state.items[i].kind != SolverItemKind::BubbleCode {
                    let item = self.client_state.items.swap_remove(i);
                    self.client_state.picked_up_item = Some(item);
                }
            }
        }
        false
    }

    /// Recomputes the item the player may interact with: the first item that
    /// is `interactable`, where `touching@[k]` tells whether the player
    /// touches item `k`.
    pub fn update_interact_item(&mut self, touching: &Vec<bool>)
        requires
            touching@.len() == old(self).client_state.items@.len(),
        ensures
            match final(self).client_state.interact_item {
                Some(k) => {
                    &&& k < old(self).client_state.items@.len()
                    &&& interactable(
                        old(self).client_state.items@[k as int],
                        touching@[k as int],
                        old(self).state.trashcan_evil,
                    )
                    &&& forall|j: int|
                        0 <= j < k ==> !interactable(
                            #[trigger] old(self).client_state.items@[j],
                            touching@[j],
                            old(self).state.trashcan_evil,
                        )
                },
                None => forall|j: int|
                    0 <= j < old(self).client_state.items@.len() ==> !interactable(
                        #[trigger] old(self).client_state.items@[j],
                        touching@[j],
                        old(self).state.trashcan_evil,
                    ),
            },
            *final(self) == (GameSolver {
                client_state: SolverStateClient {
                    interact_item: final(self).client_state.interact_item,
                    ..old(self).client_state
                },
                ..*old(self)
            }),
    {
        let evil = self.state.trashcan_evil;
        let mut found: Option<usize> = None;
        let mut k: usize = 0;
        while k < self.client_state.items.len() && found.is_none()
            invariant
                *self == *old(self),
                evil == self.state.trashcan_evil,
                touching@.len() == self.client_state.items@.len(),
                k <= self.client_state.items@.len(),
                match found {
                    Some(f) => {
                        &&& f < k
                        &&& interactable(self.client_state.items@[f as int], touching@[f as int], evil)
                        &&& forall|j: int|
                            0 <= j < f ==> !interactable(
                                #[trigger] self.client_state.items@[j],
                                touching@[j],
                                evil,
                            )
                    },
                    None => forall|j: int|
                        0 <= j < k ==> !interactable(
                            #[trigger] self.client_state.items@[j],
                            touching@[j],
                            evil,
                        ),
                },
            decreases self.client_state.items@.len() - k,
        {
            let item = &self.client_state.items[k];
            if (item.can_pickup || item.kind == SolverItemKind::BubbleCode) && touching[k] && !(evil
                && item.kind == SolverItemKind::Recycle) {
                found = Some(k);
            }
            k = k + 1;
        }
        self.client_state.interact_item = found;
    }

    /// Moves on to the next level when the exit is open and the player
    /// touches the level's transition zone, and loads it (see
    /// `level_loaded`) with the player at `collider` and the items
    /// `level_items`, both those of the next level. Returns the state to
    /// announce and the music the level starts.
    pub fn check_transition(
        &mut self,
        touching_transition: bool,
        collider: C,
        level_items: Option<Vec<SolverItem<C>>>,
    ) -> (r: Option<(SolverState, Option<MusicCue>)>)
        requires
            old(self).wf(),
        ensures
            final(self).wf(),
            (old(self).state.exit_open() && touching_transition) ==> {
                &&& final(self).state == SolverState {
                    current_level: (old(self).state.current_level + 1) as usize,
                    ..old(self).state
                }
                &&& final(self).level_loaded(collider, level_items)
                &&& r == Some((final(self).state, level_music(final(self).state.current_level)))
            },
            !(old(self).state.exit_open() && touching_transition) ==> {
                &&& final(self).state == old(self).state
                &&& final(self).client_state == old(self).client_state
                &&& r is None
            },
            final(self).test == old(self).test,
            final(self).player_control == old(self).player_control,
    {
        if self.state.is_exit_open() && touching_transition {
            self.state.current_level = self.state.current_level + 1;
            let music = self.reload_level(collider, level_items);
            Some((self.state, music))
        } else {
            None
        }
    }

    /// Respawning puts the player back at rest at the spawn point of the
    /// level, `spawn` (the player's collider placed there), when the level
    /// exists, and leaves it alone otherwise.
    pub fn player_respawn(&mut self, spawn: Option<C>)
        requires
            old(self).wf(),
        ensures
            final(self).wf(),
            *final(self) == (match spawn {
                Some(c) => GameSolver {
                    client_state: SolverStateClient {
                        player: Player {
                            collider: c,
                            velocity: Vec2 { x: 0, y: 0 },
                            ..old(self).client_state.player
                        },
                        ..old(self).client_state
                    },
                    ..*old(self)
                },
                None => *old(self),
            }),
    {
        if let Some(c) = spawn {
            self.client_state.player.collider = c;
            self.client_state.player.velocity = Vec2::zero();
        }
    }

    /// The end of the player's frame: the input is used up. Returns whether
    /// the player is to be announced to the dispatcher (on the last level,
    /// where the dispatcher sees the player).
    pub fn end_player_update(&mut self) -> (sync_player: bool)
        ensures
            sync_player == (old(self).state.current_level == 5),
            final(self).player_control.is_default(),
            final(self).state == old(self).state,
            final(self).test == old(self).test,
            final(self).client_state == old(self).client_state,
    {
        self.player_control.take();
        self.state.current_level == 5
    }

    /// The keys held during a frame: left and right add a unit step to the
    /// movement direction each, and a held jump key keeps the jump held.
    pub fn hold_keys(&mut self, left: bool, right: bool, jump: bool)
        requires
            old(self).wf(),
        ensures
            final(self).wf(),
            final(self).player_control.move_dir.x == held_dir(
                old(self).player_control.move_dir.x as int,
                left,
                right,
            ),
            final(self).player_control.move_dir.y == old(self).player_control.move_dir.y,
            final(self).player_control.hold_jump == (old(self).player_control.hold_jump || jump),
            final(self).player_control.jump == old(self).player_control.jump,
            final(self).player_control.pickup == old(self).player_control.pickup,
            final(self).state == old(self).state,
            final(self).test == old(self).test,
            final(self).client_state == old(self).client_state,
    {
        if left {
            self.player_control.move_dir.x = sat_sub(self.player_control.move_dir.x, SCALE);
        }
        if right {
            self.player_control.move_dir.x = sat_add(self.player_control.move_dir.x, SCALE);
        }
        if jump {
            self.player_control.hold_jump = true;
        }
    }

}

} // verus!
