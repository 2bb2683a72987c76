//! The dispatcher's side of the game: an office seen from four sides, a
//! monitor with a login and files, a book, and a station full of buttons.
//!
//! What lies under the cursor is geometry that the caller works out; these
//! functions take the answers as plain values and decide what happens.
use vstd::prelude::*;
use vstd::string::StrSliceExecFns;

use crate::fixed::{in_range, sat, sat_add, sat_sub, SCALE};
use crate::model::{
    code_erased, code_typed, side_left_of, side_right_of, DispatcherItem, DispatcherViewSide,
};
use crate::solver::SolverState;

verus! {

/// What the dispatcher's camera looks at.
#[derive(Clone, Copy, Debug, PartialEq, Eq, Structural)]
pub enum Focus {
    Whole,
    Monitor,
    Book,
}

/// The state of the office, shared with the solver.
#[derive(Clone, Copy, Debug, PartialEq, Eq, Structural)]
pub struct DispatcherState {
    pub door_sign_open: bool,
    pub button_station_open: bool,
    pub monitor_unlocked: bool,
}

impl DispatcherState {
    /// The office as it begins: the sign turned to closed, the button
    /// station shut, the monitor locked.
    pub open spec fn initial() -> DispatcherState {
        DispatcherState { door_sign_open: false, button_station_open: false, monitor_unlocked: false }
    }

    pub fn new() -> (r: DispatcherState)
        ensures
            r == DispatcherState::initial(),
    {
        DispatcherState { door_sign_open: false, button_station_open: false, monitor_unlocked: false }
    }
}

/// The portrait shown next to the visual novel's text.
#[derive(Clone, Copy, Debug, PartialEq, Eq, Structural)]
pub enum NovellaSprite {
    Neutral,
    Surprised,
    Angry,
}

/// The visual novel being read: the line, how much of it is shown, and the
/// time until the next character appears.
#[derive(Clone, Copy, Debug, PartialEq, Eq, Structural)]
pub struct NovellaState {
    pub sprite: NovellaSprite,
    pub line: usize,
    pub character: usize,
    pub fast: bool,
    pub next_char_in: i64,
    pub is_line_done: bool,
}

/// Seconds before the first character of the novel appears (0.2 s).
pub const NOVELLA_START_DELAY: i64 = 200_000;

/// Seconds per character at normal speed (0.05 s).
pub const CHAR_TIME: i64 = 50_000;

/// Seconds per character once the reader clicked (0.02 s).
pub const FAST_CHAR_TIME: i64 = 20_000;

impl NovellaState {
    pub open spec fn wf(self) -> bool {
        in_range(self.next_char_in as int)
    }

    /// The novel from its first line, with the neutral portrait.
    pub fn new() -> (r: NovellaState)
        ensures
            r == (NovellaState {
                sprite: NovellaSprite::Neutral,
                line: 0,
                character: 0,
                fast: false,
                next_char_in: NOVELLA_START_DELAY,
                is_line_done: false,
            }),
    {
        NovellaState {
            sprite: NovellaSprite::Neutral,
            line: 0,
            character: 0,
            fast: false,
            next_char_in: NOVELLA_START_DELAY,
            is_line_done: false,
        }
    }
}

/// The sounds of the office.
#[derive(Clone, Copy, Debug, PartialEq, Eq, Structural)]
pub enum Sound {
    Click,
    Button,
    Kick,
    Psh,
    Spit,
    K,
    Liproll,
    Oo,
    Duck,
    Clop,
    Mouse,
    Cactus,
    Book,
}

/// Why the dispatcher crashes the solver's game.
#[derive(Clone, Copy, Debug, PartialEq, Eq, Structural)]
pub enum CrashMessage {
    /// The big red button was held down.
    BigRedButton,
    /// The salad-green button was pressed too early.
    SaladButton,
}

impl CrashMessage {
    /// The text the solver sees.
    pub fn text(&self) -> (r: &'static str)
        ensures
            r@ == (match self {
                CrashMessage::BigRedButton => "твой друг нажал на большую красную кнопку"@,
                CrashMessage::SaladButton => "твой друг нажал на салатовую кнопку"@,
            }),
    {
        match self {
            CrashMessage::BigRedButton => "твой друг нажал на большую красную кнопку",
            CrashMessage::SaladButton => "твой друг нажал на салатовую кнопку",
        }
    }
}

/// Something for the caller to do on the dispatcher's behalf.
#[derive(Clone, Copy, Debug, PartialEq, Eq, Structural)]
pub enum DispatcherEffect {
    Play(Sound),
    /// Announce the office state.
    SyncDispatcherState(DispatcherState),
    /// Announce the solver state.
    SyncSolverState(SolverState),
    /// Turn the music down for a while.
    FadeMusic,
    /// The focus changed: retarget the camera.
    Refocus(Focus),
    /// An explosion starts where the solver's player is drawn.
    ExplosionAtPlayer,
    /// Crash the other player's game with this message.
    CrashOther(CrashMessage),
}

/// What a click on an item of the office does.
#[derive(Clone, Copy, Debug, PartialEq, Eq, Structural)]
pub enum ClickAction {
    ToggleDoorSign,
    FocusMonitor,
    ToggleStation,
    BigRedButton,
    Button(Sound),
    Mouse,
    Cactus,
    FocusBook,
}

/// One item of the current side, in drawing order, as the cursor finds it.
#[derive(Clone, Copy, Debug)]
pub struct ItemHit {
    pub item: DispatcherItem,
    /// The item has a hitbox (it was drawn at least once).
    pub laid_out: bool,
    /// The cursor lies in its hitbox.
    pub hit: bool,
}

/// Where the cursor lies, at a click.
#[derive(Clone, Debug)]
pub struct CursorHits {
    pub turn_left: bool,
    pub turn_right: bool,
    pub items: Vec<ItemHit>,
    /// Inside the open button station.
    pub in_station_inside: bool,
    /// Inside the empty box at the origin, which stands for a monitor or a
    /// book that has no hitbox.
    pub in_zero_box: bool,
    /// The first file icon of the monitor under the cursor.
    pub file: Option<usize>,
    pub meme_prev: bool,
    pub meme_next: bool,
    /// The meme folder is shown and under the cursor.
    pub meme_folder: bool,
    pub user_icon: bool,
    /// The solver's player, where the office draws it, lies under the cursor.
    pub on_player: bool,
    /// How many memes there are.
    pub total_memes: usize,
}

/// The buttons of the button station and their sounds.
pub open spec fn button_sound(item: DispatcherItem) -> Option<Sound> {
    match item {
        DispatcherItem::ButtonYellow => Some(Sound::Kick),
        DispatcherItem::ButtonGreen => Some(Sound::Psh),
        DispatcherItem::ButtonSalad => Some(Sound::Spit),
        DispatcherItem::ButtonPink => Some(Sound::K),
        DispatcherItem::ButtonBlue => Some(Sound::Liproll),
        DispatcherItem::ButtonWhite => Some(Sound::Oo),
        DispatcherItem::ButtonPurple => Some(Sound::Duck),
        DispatcherItem::ButtonOrange => Some(Sound::Clop),
        DispatcherItem::ButtonCyan => Some(Sound::Button),
        _ => None,
    }
}

/// What clicking `item` does; `None` when the click passes through it. The
/// button station toggles unless one clicks inside it while open; its
/// buttons only work while it is open.
pub open spec fn click_action(
    item: DispatcherItem,
    station_open: bool,
    in_station_inside: bool,
) -> Option<ClickAction> {
    match item {
        DispatcherItem::DoorSign => Some(ClickAction::ToggleDoorSign),
        DispatcherItem::Monitor => Some(ClickAction::FocusMonitor),
        DispatcherItem::ButtonStation => if !station_open || !in_station_inside {
            Some(ClickAction::ToggleStation)
        } else {
            None
        },
        DispatcherItem::Bfb => Some(ClickAction::BigRedButton),
        DispatcherItem::RealMouse => Some(ClickAction::Mouse),
        DispatcherItem::Cactus => Some(ClickAction::Cactus),
        DispatcherItem::Book => Some(ClickAction::FocusBook),
        _ => match button_sound(item) {
            Some(sound) => if station_open {
                Some(ClickAction::Button(sound))
            } else {
                None
            },
            None => None,
        },
    }
}

/// The item takes the click.
pub open spec fn takes_click(h: ItemHit, station_open: bool, in_station_inside: bool) -> bool {
    h.laid_out && h.hit && click_action(h.item, station_open, in_station_inside) is Some
}

/// The first item at or after `k` that takes the click: one item per click.
#[verifier::opaque]
pub open spec fn clicked_from(
    items: Seq<ItemHit>,
    station_open: bool,
    in_station_inside: bool,
    k: int,
) -> Option<int>
    decreases items.len() - k,
{
    if k >= items.len() || k < 0 {
        None
    } else if takes_click(items[k], station_open, in_station_inside) {
        Some(k)
    } else {
        clicked_from(items, station_open, in_station_inside, k + 1)
    }
}

/// Whether the cursor lies in the hitbox of the last laid-out item of
/// `kind` among the first `upto` items, or in the empty box when there is none.
#[verifier::opaque]
pub open spec fn box_hit(items: Seq<ItemHit>, kind: DispatcherItem, upto: int, zero: bool) -> bool
    decreases upto,
{
    if upto <= 0 {
        zero
    } else if items[upto - 1].item == kind && items[upto - 1].laid_out {
        items[upto - 1].hit
    } else {
        box_hit(items, kind, upto - 1, zero)
    }
}

/// The office after a click's action.
#[verifier::opaque]
pub open spec fn state_after_action(action: ClickAction, state: DispatcherState) -> DispatcherState {
    match action {
        ClickAction::ToggleDoorSign => DispatcherState {
            door_sign_open: !state.door_sign_open,
            ..state
        },
        ClickAction::ToggleStation => DispatcherState {
            button_station_open: !state.button_station_open,
            ..state
        },
        _ => state,
    }
}

/// What the caller does for a click's action, given the office after it.
#[verifier::opaque]
pub open spec fn action_effects(action: ClickAction, state: DispatcherState) -> Seq<
    DispatcherEffect,
> {
    match action {
        ClickAction::ToggleDoorSign => seq![
            DispatcherEffect::Play(Sound::Click),
            DispatcherEffect::SyncDispatcherState(state),
        ],
        ClickAction::FocusMonitor => seq![DispatcherEffect::Play(Sound::Click)],
        ClickAction::ToggleStation => seq![
            DispatcherEffect::Play(Sound::Click),
            DispatcherEffect::SyncDispatcherState(state),
        ],
        ClickAction::BigRedButton => seq![DispatcherEffect::Play(Sound::Button)],
        ClickAction::Button(sound) => seq![DispatcherEffect::Play(sound)],
        ClickAction::Mouse => seq![DispatcherEffect::Play(Sound::Mouse)],
        ClickAction::Cactus => seq![
            DispatcherEffect::Play(Sound::Cactus),
            DispatcherEffect::FadeMusic,
        ],
        ClickAction::FocusBook => seq![DispatcherEffect::Play(Sound::Book)],
    }
}

/// The focus a click's action asks for.
#[verifier::opaque]
pub open spec fn focus_after_action(action: ClickAction, focus: Focus) -> Focus {
    match action {
        ClickAction::FocusMonitor => Focus::Monitor,
        ClickAction::FocusBook => Focus::Book,
        _ => focus,
    }
}

/// The buttons after `button` was pressed: a newly pressed button starts
/// its clock at zero, an already pressed one keeps it.
#[verifier::opaque]
pub open spec fn press_button(buttons: Seq<(DispatcherItem, i64)>, button: DispatcherItem) -> Seq<
    (DispatcherItem, i64),
> {
    if is_pressed(buttons, button) {
        buttons
    } else {
        buttons.push((button, 0i64))
    }
}

/// The meme before `m`, going round to the last of `total`.
pub open spec fn meme_prev(m: usize, total: usize) -> usize {
    if m == 0 {
        (total - 1) as usize
    } else {
        (m - 1) as usize
    }
}

/// The meme after `m`, going round to the first.
pub open spec fn meme_next(m: usize, total: usize) -> usize {
    if m + 1 >= total {
        0
    } else {
        (m + 1) as usize
    }
}

/// The novel after a click: a second click hurries the next character; the
/// text shows fast; a finished line gives way to the next one.
pub open spec fn novella_clicked(n: NovellaState) -> NovellaState {
    let n1 = if n.fast {
        NovellaState { next_char_in: sat(n.next_char_in - NOVELLA_START_DELAY) as i64, ..n }
    } else {
        n
    };
    let n2 = NovellaState { fast: true, ..n1 };
    if n2.is_line_done {
        NovellaState {
            line: (n2.line + 1) as usize,
            next_char_in: 0,
            character: 0,
            is_line_done: false,
            fast: false,
            ..n2
        }
    } else {
        n2
    }
}

/// The monitor's and the book's part of a click, with the focus `focus`
/// before the click and `request` the focus asked for so far. Gives the open
/// file, the open meme, whether the novel opens, the effects and the focus
/// asked for after it.
#[verifier::opaque]
pub open spec fn desk_click(
    focus: Focus,
    unlocked: bool,
    opened_file: Option<usize>,
    opened_meme: Option<usize>,
    hits: CursorHits,
    current_level: usize,
    monitor_box: bool,
    book_box: bool,
    request: Focus,
) -> (Option<usize>, Option<usize>, bool, Seq<DispatcherEffect>, Focus) {
    if focus == Focus::Monitor {
        if unlocked {
            if hits.file is Some && hits.file->0 <= current_level {
                (
                    hits.file,
                    None,
                    hits.file->0 == 4,
                    seq![DispatcherEffect::Play(Sound::Click)],
                    request,
                )
            } else if opened_meme is Some {
                let m = opened_meme->0;
                let m2 = if hits.meme_prev {
                    meme_prev(m, hits.total_memes)
                } else if hits.meme_next {
                    meme_next(m, hits.total_memes)
                } else {
                    m
                };
                (opened_file, Some(m2), false, seq![], request)
            } else if hits.meme_folder {
                (None, Some(0usize), false, seq![], request)
            } else {
                (opened_file, opened_meme, false, seq![], request)
            }
        } else if hits.user_icon {
            (opened_file, opened_meme, false, seq![DispatcherEffect::Play(Sound::Click)], request)
        } else if !monitor_box {
            (opened_file, opened_meme, false, seq![], Focus::Whole)
        } else {
            (opened_file, opened_meme, false, seq![], request)
        }
    } else if focus == Focus::Book && !book_box {
        (opened_file, opened_meme, false, seq![], Focus::Whole)
    } else {
        (opened_file, opened_meme, false, seq![], request)
    }
}

/// A click on the meme arrows stays within the numbers: going back needs a
/// meme to go round to, going forward a next number.
pub open spec fn meme_step_ok(
    focus: Focus,
    unlocked: bool,
    opened_meme: Option<usize>,
    hits: CursorHits,
    current_level: usize,
) -> bool {
    (focus == Focus::Monitor && unlocked && !(hits.file is Some && hits.file->0 <= current_level)
        && opened_meme is Some) ==> {
        &&& hits.meme_prev ==> hits.total_memes > 0
        &&& (!hits.meme_prev && hits.meme_next) ==> opened_meme->0 < usize::MAX
    }
}

/// The item found by `clicked_from` takes the click.
proof fn lemma_clicked_takes(items: Seq<ItemHit>, so: bool, ins: bool, k: int)
    requires
        clicked_from(items, so, ins, k) is Some,
    ensures
        ({
            let c = clicked_from(items, so, ins, k)->0;
            &&& k <= c < items.len()
            &&& 0 <= c
            &&& takes_click(items[c], so, ins)
        }),
    decreases items.len() - k,
{
    reveal(clicked_from);
    if k >= items.len() || k < 0 {
    } else if takes_click(items[k], so, ins) {
    } else {
        lemma_clicked_takes(items, so, ins, k + 1);
    }
}

/// A click pops the solver's player when it lands on them while the office
/// faces its front side, where the player is shown.
pub open spec fn pops_player(hits: CursorHits, side: DispatcherViewSide) -> bool {
    hits.on_player && side == DispatcherViewSide::Front
}

/// The effects after a click's action: the desk's, a refocus when the focus
/// changed from `old_focus`, and the popping of the player.
pub open spec fn rest_effects(
    desk_effects: Seq<DispatcherEffect>,
    focus: Focus,
    old_focus: Focus,
    on_player: bool,
    solver: SolverState,
) -> Seq<DispatcherEffect> {
    desk_effects + (if focus != old_focus {
        seq![DispatcherEffect::Refocus(focus)]
    } else {
        seq![]
    }) + (if on_player {
        seq![DispatcherEffect::SyncSolverState(solver), DispatcherEffect::ExplosionAtPlayer]
    } else {
        seq![]
    })
}

/// The progress, bubble count and effects after the first `n` pressed
/// buttons had their clocks advanced by `dt`: a button held past a second
/// takes effect. On level 3 (three levels done) every such button counts
/// towards the bubble puzzle, and the fifth completes the level. The yellow
/// button completes the first level and the salad one crashes the solver
/// (both once the monitor is unlocked, while nothing is completed); the
/// green one tames the trashcan on level 2; the cyan one completes level 4.
pub open spec fn buttons_fold(
    buttons: Seq<(DispatcherItem, i64)>,
    n: int,
    dt: int,
    unlocked: bool,
    solver: SolverState,
    bubble: int,
) -> (SolverState, int, Seq<DispatcherEffect>)
    decreases n,
{
    if n <= 0 {
        (solver, bubble, seq![])
    } else {
        let prev = buttons_fold(buttons, n - 1, dt, unlocked, solver, bubble);
        let s = prev.0;
        let b = prev.1;
        let e = prev.2;
        let item = buttons[n - 1].0;
        if sat(buttons[n - 1].1 + dt) > SCALE {
            let b1 = if s.levels_completed == 3 { b + 1 } else { b };
            let s1 = if s.levels_completed == 3 && b1 == 5 {
                SolverState { levels_completed: (s.levels_completed + 1) as usize, ..s }
            } else {
                s
            };
            let e1 = if s.levels_completed == 3 && b1 == 5 {
                e.push(DispatcherEffect::SyncSolverState(s1))
            } else {
                e
            };
            if item == DispatcherItem::ButtonSalad && unlocked && s1.levels_completed == 0 {
                (s1, b1, e1.push(DispatcherEffect::CrashOther(CrashMessage::SaladButton)))
            } else if item == DispatcherItem::ButtonYellow && unlocked && s1.levels_completed == 0 {
                let s2 = SolverState { levels_completed: 1, ..s1 };
                (s2, b1, e1.push(DispatcherEffect::SyncSolverState(s2)))
            } else if item == DispatcherItem::ButtonGreen && s1.trashcan_evil && s1.current_level
                == 2 && s1.levels_completed == 2 {
                let s2 = SolverState { trashcan_evil: false, ..s1 };
                (s2, b1, e1.push(DispatcherEffect::SyncSolverState(s2)))
            } else if item == DispatcherItem::ButtonCyan && s1.current_level == 4
                && s1.levels_completed == 4 {
                let s2 = SolverState { levels_completed: 5, ..s1 };
                (s2, b1, e1.push(DispatcherEffect::SyncSolverState(s2)))
            } else {
                (s1, b1, e1)
            }
        } else {
            (s, b, e)
        }
    }
}

/// The pressed buttons among the first `n` with their clocks advanced by
/// `dt`, keeping those still under a second.
pub open spec fn buttons_kept(buttons: Seq<(DispatcherItem, i64)>, n: int, dt: int) -> Seq<
    (DispatcherItem, i64),
>
    decreases n,
{
    if n <= 0 {
        seq![]
    } else {
        let t = sat(buttons[n - 1].1 + dt);
        if t < SCALE {
            buttons_kept(buttons, n - 1, dt).push((buttons[n - 1].0, t as i64))
        } else {
            buttons_kept(buttons, n - 1, dt)
        }
    }
}

/// The kept buttons come from the first `n`, in order, each once.
proof fn lemma_kept_unique(buttons: Seq<(DispatcherItem, i64)>, n: int, dt: int)
    requires
        0 <= n <= buttons.len(),
        unique_buttons(buttons),
    ensures
        unique_buttons(buttons_kept(buttons, n, dt)),
        forall|k: int|
            0 <= k < buttons_kept(buttons, n, dt).len() ==> exists|j: int|
                0 <= j < n && (#[trigger] buttons_kept(buttons, n, dt)[k]).0 == buttons[j].0,
        forall|k: int|
            0 <= k < buttons_kept(buttons, n, dt).len() ==> in_range(
                (#[trigger] buttons_kept(buttons, n, dt)[k]).1 as int,
            ),
    decreases n,
{
    if n > 0 {
        lemma_kept_unique(buttons, n - 1, dt);
        let prev = buttons_kept(buttons, n - 1, dt);
        let cur = buttons_kept(buttons, n, dt);
        if sat(buttons[n - 1].1 + dt) < SCALE {
            assert forall|a: int, b: int| 0 <= a < b < cur.len() implies (#[trigger] cur[a]).0
                != (#[trigger] cur[b]).0 by {
                if b == cur.len() - 1 {
                    assert(cur[a] == prev[a]);
                    let j = choose|j: int| 0 <= j < n - 1 && prev[a].0 == buttons[j].0;
                    assert(buttons[j].0 != buttons[n - 1].0);
                } else {
                    assert(cur[a] == prev[a]);
                    assert(cur[b] == prev[b]);
                }
            }
            assert forall|k: int| 0 <= k < cur.len() implies exists|j: int|
                0 <= j < n && (#[trigger] cur[k]).0 == buttons[j].0 by {
                if k == cur.len() - 1 {
                    assert(cur[k].0 == buttons[n - 1].0);
                } else {
                    assert(cur[k] == prev[k]);
                    let j = choose|j: int| 0 <= j < n - 1 && prev[k].0 == buttons[j].0;
                    assert(cur[k].0 == buttons[j].0);
                }
            }
        }
    }
}

/// The bubble count of `buttons_fold` never decreases along the buttons.
proof fn lemma_fold_bubble_grows(
    buttons: Seq<(DispatcherItem, i64)>,
    m: int,
    n: int,
    dt: int,
    unlocked: bool,
    solver: SolverState,
    bubble: int,
)
    requires
        0 <= m <= n,
    ensures
        buttons_fold(buttons, m, dt, unlocked, solver, bubble).1 <= buttons_fold(
            buttons,
            n,
            dt,
            unlocked,
            solver,
            bubble,
        ).1,
    decreases n - m,
{
    if m < n {
        lemma_fold_bubble_grows(buttons, m, n - 1, dt, unlocked, solver, bubble);
    }
}

/// The line of the novel that switches to the neutral portrait.
pub const CMD_NEUTRAL: &'static str = "/спрайт_нейтральный";

/// The line of the novel that switches to the surprised portrait.
pub const CMD_SURPRISED: &'static str = "/спрайт_удивленный";

/// The line of the novel that switches to the angry portrait.
pub const CMD_ANGRY: &'static str = "/спрайт_злой";

/// The portrait a line of the novel switches to, when it is a command.
pub open spec fn novella_command(line: Seq<char>) -> Option<NovellaSprite> {
    if line == CMD_NEUTRAL@ {
        Some(NovellaSprite::Neutral)
    } else if line == CMD_SURPRISED@ {
        Some(NovellaSprite::Surprised)
    } else if line == CMD_ANGRY@ {
        Some(NovellaSprite::Angry)
    } else {
        None
    }
}

/// How many characters appear when the countdown to the next one stands at
/// `x`: none while it is positive, else as many steps of `step` as bring it
/// above zero.
pub open spec fn char_steps(x: int, step: int) -> int {
    if x > 0 {
        0
    } else {
        (-x) / step + 1
    }
}

/// The time per character of the novel.
pub open spec fn char_time(fast: bool) -> int {
    if fast {
        FAST_CHAR_TIME as int
    } else {
        CHAR_TIME as int
    }
}

/// The novel after `dt` on `line`: a command line switches the portrait and
/// moves on; characters appear as the countdown runs out, and the line is
/// done once as many characters as it has have appeared.
pub open spec fn novella_after(n: NovellaState, line: Seq<char>, dt: int) -> NovellaState {
    let cmd = novella_command(line);
    let x = sat(n.next_char_in - dt);
    let step = char_time(n.fast);
    let k = char_steps(x, step);
    NovellaState {
        sprite: match cmd {
            Some(sp) => sp,
            None => n.sprite,
        },
        line: if cmd is Some {
            (n.line + 1) as usize
        } else {
            n.line
        },
        character: (n.character + k) as usize,
        fast: n.fast,
        next_char_in: (x + k * step) as i64,
        is_line_done: n.is_line_done || (k > 0 && n.character + k >= line.len()),
    }
}

/// The novel can take `dt` on `line` without its counters running over.
pub open spec fn novella_fits(n: NovellaState, line: Seq<char>, dt: int) -> bool {
    &&& n.character + char_steps(sat(n.next_char_in - dt), char_time(n.fast)) <= usize::MAX
    &&& novella_command(line) is Some ==> n.line < usize::MAX
}

/// The countdown stays at or below zero for exactly the first `char_steps` steps.
proof fn lemma_char_steps(x: int, step: int, i: int)
    requires
        x <= 0,
        step > 0,
        0 <= i <= char_steps(x, step),
    ensures
        (x + i * step <= 0) <==> (i < char_steps(x, step)),
        x + char_steps(x, step) * step <= step,
        x + char_steps(x, step) * step > 0,
{
    let q = (-x) / step;
    let r = (-x) % step;
    assert(-x == q * step + r && 0 <= r < step) by (nonlinear_arith)
        requires
            step > 0,
            q == (-x) / step,
            r == (-x) % step,
    ;
    assert(x + (q + 1) * step == step - r) by (nonlinear_arith)
        requires
            -x == q * step + r,
    ;
    if i <= q {
        assert(x + i * step <= -r) by (nonlinear_arith)
            requires
                -x == q * step + r,
                i <= q,
                step > 0,
        ;
    }
}

/// Whether two texts are the same.
fn same_text(a: &str, b: &str) -> (r: bool)
    ensures
        r == (a@ == b@),
{
    a.to_owned() == b.to_owned()
}

/// Whether the novel can take `delta_time` on `line` (see `novella_fits`).
pub fn novella_can_advance(n: &NovellaState, line: &str, delta_time: i64) -> (r: bool)
    requires
        n.wf(),
        in_range(delta_time as int),
    ensures
        r == novella_fits(*n, line@, delta_time as int),
{
    let x = sat_sub(n.next_char_in, delta_time);
    let step: i64 = if n.fast {
        FAST_CHAR_TIME
    } else {
        CHAR_TIME
    };
    let steps: u128 = if x > 0 {
        0
    } else {
        let down = (0 - x) as u64;
        (down / (step as u64)) as u128 + 1
    };
    let fits_chars = (n.character as u128) + steps <= usize::MAX as u128;
    let command = same_text(line, CMD_NEUTRAL) || same_text(line, CMD_SURPRISED) || same_text(
        line,
        CMD_ANGRY,
    );
    fits_chars && (!command || n.line < usize::MAX)
}

/// The novel after `delta_time` on `line`: see `novella_after`.
pub fn advance_novella(n: NovellaState, line: &str, delta_time: i64) -> (r: NovellaState)
    requires
        n.wf(),
        in_range(delta_time as int),
        novella_fits(n, line@, delta_time as int),
    ensures
        r == novella_after(n, line@, delta_time as int),
        r.wf(),
{
    let mut r = n;
    if same_text(line, CMD_NEUTRAL) {
        r.sprite = NovellaSprite::Neutral;
        r.line = r.line + 1;
    } else if same_text(line, CMD_SURPRISED) {
        r.sprite = NovellaSprite::Surprised;
        r.line = r.line + 1;
    } else if same_text(line, CMD_ANGRY) {
        r.sprite = NovellaSprite::Angry;
        r.line = r.line + 1;
    }
    let count = line.unicode_len();
    let x = sat_sub(n.next_char_in, delta_time);
    let step: i64 = if n.fast {
        FAST_CHAR_TIME
    } else {
        CHAR_TIME
    };
    let ghost k = char_steps(x as int, step as int);
    let mut next = x;
    let ghost mut i: int = 0;
    while next <= 0
        invariant
            in_range(x as int),
            step == char_time(n.fast),
            k == char_steps(x as int, step as int),
            x <= 0 ==> 0 <= i <= k,
            x > 0 ==> i == 0,
            next == x + i * step,
            r.character == n.character + i,
            n.character + k <= usize::MAX,
            count == line@.len(),
            r.is_line_done == (n.is_line_done || (i > 0 && n.character + i >= line@.len())),
            r.sprite == novella_after(n, line@, delta_time as int).sprite,
            r.line == novella_after(n, line@, delta_time as int).line,
            r.fast == n.fast,
        decreases k - i,
    {
        proof {
            lemma_char_steps(x as int, step as int, i);
        }
        r.character = r.character + 1;
        next = next + step;
        if r.character >= count {
            r.is_line_done = true;
        }
        proof {
            assert(x + (i + 1) * step == x + i * step + step) by (nonlinear_arith);
            i = i + 1;
        }
    }
    proof {
        if x <= 0 {
            lemma_char_steps(x as int, step as int, i);
            lemma_char_steps(x as int, step as int, k);
        }
    }
    r.next_char_in = next;
    r
}

/// The dispatcher's own view of the game.
pub struct DispatcherStateClient {
    pub hovering_smth: bool,
    pub active_side: DispatcherViewSide,
    pub focus: Focus,
    pub login_code: Vec<usize>,
    pub opened_file: Option<usize>,
    pub opened_meme: Option<usize>,
    pub bfb_pressed: Option<i64>,
    /// The buttons pressed and for how long, each button at most once.
    pub buttons_pressed: Vec<(DispatcherItem, i64)>,
    pub bubble_buttons: usize,
    pub explosion: Option<i64>,
    pub novella: Option<NovellaState>,
}

/// Whether `button` is among the pressed buttons.
pub open spec fn is_pressed(buttons: Seq<(DispatcherItem, i64)>, button: DispatcherItem) -> bool {
    exists|k: int| 0 <= k < buttons.len() && (#[trigger] buttons[k]).0 == button
}

/// Every button occurs at most once.
pub open spec fn unique_buttons(buttons: Seq<(DispatcherItem, i64)>) -> bool {
    forall|a: int, b: int|
        0 <= a < b < buttons.len() ==> (#[trigger] buttons[a]).0 != (#[trigger] buttons[b]).0
}

pub open spec fn timer_ok(t: Option<i64>) -> bool {
    match t {
        Some(x) => in_range(x as int),
        None => true,
    }
}

impl DispatcherStateClient {
    pub open spec fn wf(&self) -> bool {
        &&& timer_ok(self.bfb_pressed)
        &&& timer_ok(self.explosion)
        &&& unique_buttons(self.buttons_pressed@)
        &&& forall|k: int|
            0 <= k < self.buttons_pressed@.len() ==> in_range(
                (#[trigger] self.buttons_pressed@[k]).1 as int,
            )
        &&& (self.novella matches Some(n) ==> n.wf())
    }

    /// The office as the dispatcher first sees it, from `side`.
    pub fn new(side: DispatcherViewSide) -> (r: DispatcherStateClient)
        ensures
            r.wf(),
            !r.hovering_smth,
            r.active_side == side,
            r.focus == Focus::Whole,
            r.login_code@.len() == 0,
            (r.opened_file is None),
            (r.opened_meme is None),
            (r.bfb_pressed is None),
            r.buttons_pressed@.len() == 0,
            r.bubble_buttons == 0,
            (r.explosion is None),
            (r.novella is None),
    {
        DispatcherStateClient {
            hovering_smth: false,
            active_side: side,
            focus: Focus::Whole,
            login_code: Vec::new(),
            opened_file: None,
            opened_meme: None,
            bfb_pressed: None,
            buttons_pressed: Vec::new(),
            bubble_buttons: 0,
            explosion: None,
            novella: None,
        }
    }
}

/// The dispatcher's game: its view, the office and what it knows of the solver.
pub struct GameDispatcher {
    pub time: i64,
    pub client_state: DispatcherStateClient,
    pub state: DispatcherState,
    pub solver_state: SolverState,
}

/// The login code of the monitor.
pub open spec fn login_answer() -> Seq<usize> {
    seq![6usize, 6, 6]
}

impl GameDispatcher {
    pub open spec fn wf(&self) -> bool {
        self.client_state.wf() && in_range(self.time as int)
    }

    /// A new game, seen from the back of the office, with the office and the
    /// solver as they begin (`DispatcherState::initial`,
    /// `SolverState::initial`); in test mode (`test` is `Some(level)`) the
    /// solver starts on that level, and the solver state to announce is
    /// returned.
    pub fn new(test: Option<usize>) -> (r: (GameDispatcher, Option<SolverState>))
        ensures
            r.0.wf(),
            r.0.time == 0,
            r.0.state == DispatcherState::initial(),
            !r.0.client_state.hovering_smth,
            r.0.client_state.active_side == DispatcherViewSide::Back,
            r.0.client_state.focus == Focus::Whole,
            r.0.client_state.login_code@.len() == 0,
            (r.0.client_state.opened_file is None),
            (r.0.client_state.opened_meme is None),
            (r.0.client_state.bfb_pressed is None),
            r.0.client_state.buttons_pressed@.len() == 0,
            r.0.client_state.bubble_buttons == 0,
            (r.0.client_state.explosion is None),
            (r.0.client_state.novella is None),
            match test {
                Some(level) => {
                    &&& r.0.solver_state == SolverState {
                        current_level: level,
                        levels_completed: level,
                        ..SolverState::initial()
                    }
                    &&& r.1 == Some(r.0.solver_state)
                },
                None => r.0.solver_state == SolverState::initial() && r.1 is None,
            },
    {
        let mut game = GameDispatcher {
            time: 0,
            client_state: DispatcherStateClient::new(DispatcherViewSide::Back),
            state: DispatcherState::new(),
            solver_state: SolverState::new(),
        };
        let mut sync = None;
        if let Some(level) = test {
            game.solver_state.current_level = level;
            game.solver_state.levels_completed = level;
            sync = Some(game.solver_state);
        }
        (game, sync)
    }

    /// Points the camera at `focus`. Returns whether the focus changed (the
    /// caller then retargets the camera).
    pub fn change_focus(&mut self, focus: Focus) -> (changed: bool)
        ensures
            final(self).time == old(self).time,
            changed == (old(self).client_state.focus != focus),
            final(self).client_state.focus == focus,
            final(self).client_state.active_side == old(self).client_state.active_side,
            final(self).client_state.login_code == old(self).client_state.login_code,
            final(self).client_state.opened_file == old(self).client_state.opened_file,
            final(self).client_state.opened_meme == old(self).client_state.opened_meme,
            final(self).client_state.bfb_pressed == old(self).client_state.bfb_pressed,
            final(self).client_state.buttons_pressed == old(self).client_state.buttons_pressed,
            final(self).client_state.bubble_buttons == old(self).client_state.bubble_buttons,
            final(self).client_state.explosion == old(self).client_state.explosion,
            final(self).client_state.novella == old(self).client_state.novella,
            final(self).client_state.hovering_smth == old(self).client_state.hovering_smth,
            final(self).state == old(self).state,
            final(self).solver_state == old(self).solver_state,
    {
        if self.client_state.focus == focus {
            return false;
        }
        self.client_state.focus = focus;
        true
    }

    /// Turns to `side`; an open book closes. Returns whether the focus changed.
    pub fn change_side(&mut self, side: DispatcherViewSide) -> (changed: bool)
        ensures
            final(self).time == old(self).time,
            final(self).client_state.active_side == side,
            changed == (old(self).client_state.focus == Focus::Book),
            final(self).client_state.focus == (if changed {
                Focus::Whole
            } else {
                old(self).client_state.focus
            }),
            final(self).client_state.login_code == old(self).client_state.login_code,
            final(self).client_state.opened_file == old(self).client_state.opened_file,
            final(self).client_state.opened_meme == old(self).client_state.opened_meme,
            final(self).client_state.bfb_pressed == old(self).client_state.bfb_pressed,
            final(self).client_state.buttons_pressed == old(self).client_state.buttons_pressed,
            final(self).client_state.bubble_buttons == old(self).client_state.bubble_buttons,
            final(self).client_state.explosion == old(self).client_state.explosion,
            final(self).client_state.novella == old(self).client_state.novella,
            final(self).client_state.hovering_smth == old(self).client_state.hovering_smth,
            final(self).state == old(self).state,
            final(self).solver_state == old(self).solver_state,
    {
        self.client_state.active_side = side;
        if self.client_state.focus == Focus::Book {
            self.change_focus(Focus::Whole)
        } else {
            false
        }
    }

    /// Whether the login code can be typed: at the monitor while it is locked.
    pub open spec fn login_open(&self) -> bool {
        self.client_state.focus == Focus::Monitor && !self.state.monitor_unlocked
    }

    /// Types `digit` into the login code, which holds at most three digits.
    pub fn press_digit(&mut self, digit: usize)
        ensures
            final(self).time == old(self).time,
            final(self).client_state.login_code@ == code_typed(
                old(self).client_state.login_code@,
                old(self).login_open(),
                3,
                digit,
            ),
            final(self).client_state.focus == old(self).client_state.focus,
            final(self).client_state.active_side == old(self).client_state.active_side,
            final(self).client_state.opened_file == old(self).client_state.opened_file,
            final(self).client_state.opened_meme == old(self).client_state.opened_meme,
            final(self).client_state.bfb_pressed == old(self).client_state.bfb_pressed,
            final(self).client_state.buttons_pressed == old(self).client_state.buttons_pressed,
            final(self).client_state.bubble_buttons == old(self).client_state.bubble_buttons,
            final(self).client_state.explosion == old(self).client_state.explosion,
            final(self).client_state.novella == old(self).client_state.novella,
            final(self).client_state.hovering_smth == old(self).client_state.hovering_smth,
            final(self).state == old(self).state,
            final(self).solver_state == old(self).solver_state,
    {
        if self.client_state.focus == Focus::Monitor && !self.state.monitor_unlocked
            && self.client_state.login_code.len() < 3 {
            self.client_state.login_code.push(digit);
        }
    }

    /// Erases the last digit of the login code.
    pub fn press_backspace(&mut self)
        ensures
            final(self).time == old(self).time,
            final(self).client_state.login_code@ == code_erased(
                old(self).client_state.login_code@,
                old(self).login_open(),
            ),
            final(self).client_state.focus == old(self).client_state.focus,
            final(self).client_state.active_side == old(self).client_state.active_side,
            final(self).client_state.opened_file == old(self).client_state.opened_file,
            final(self).client_state.opened_meme == old(self).client_state.opened_meme,
            final(self).client_state.bfb_pressed == old(self).client_state.bfb_pressed,
            final(self).client_state.buttons_pressed == old(self).client_state.buttons_pressed,
            final(self).client_state.bubble_buttons == old(self).client_state.bubble_buttons,
            final(self).client_state.explosion == old(self).client_state.explosion,
            final(self).client_state.novella == old(self).client_state.novella,
            final(self).client_state.hovering_smth == old(self).client_state.hovering_smth,
            final(self).state == old(self).state,
            final(self).solver_state == old(self).solver_state,
    {
        if self.client_state.focus == Focus::Monitor && !self.state.monitor_unlocked {
            self.client_state.login_code.pop();
        }
    }

    fn login_code_matches(&self) -> (r: bool)
        ensures
            r == (self.client_state.login_code@ == login_answer()),
    {
        let code = &self.client_state.login_code;
        let r = code.len() == 3 && code[0] == 6 && code[1] == 6 && code[2] == 6;
        proof {
            if r {
                assert(code@ =~= login_answer());
            }
        }
        r
    }

    /// Unlocks the monitor. Returns the office state to announce.
    pub fn unlock_monitor(&mut self) -> (r: DispatcherState)
        ensures
            final(self).time == old(self).time,
            final(self).state == (DispatcherState { monitor_unlocked: true, ..old(self).state }),
            r == final(self).state,
            final(self).client_state == old(self).client_state,
            final(self).solver_state == old(self).solver_state,
    {
        self.state.monitor_unlocked = true;
        self.state
    }

    /// Enter submits the login code: the right code unlocks the monitor.
    /// Returns the office state to announce when it did.
    pub fn press_enter(&mut self) -> (r: Option<DispatcherState>)
        ensures
            final(self).time == old(self).time,
            (old(self).login_open() && old(self).client_state.login_code@ == login_answer()) ==> {
                &&& final(self).state == (DispatcherState {
                    monitor_unlocked: true,
                    ..old(self).state
                })
                &&& r == Some(final(self).state)
            },
            !(old(self).login_open() && old(self).client_state.login_code@ == login_answer())
                ==> {
                &&& final(self).state == old(self).state
                &&& r is None
            },
            final(self).client_state == old(self).client_state,
            final(self).solver_state == old(self).solver_state,
    {
        if self.client_state.focus == Focus::Monitor && !self.state.monitor_unlocked {
            if self.login_code_matches() {
                return Some(self.unlock_monitor());
            }
        }
        None
    }

    /// Escape steps back: it closes the book; at the monitor it closes the
    /// open file, else the open meme, else leaves the monitor. Returns
    /// whether the focus changed.
    pub fn press_escape(&mut self) -> (changed: bool)
        ensures
            final(self).time == old(self).time,
            match old(self).client_state.focus {
                Focus::Book => {
                    &&& changed
                    &&& final(self).client_state.focus == Focus::Whole
                    &&& final(self).client_state.opened_file == old(self).client_state.opened_file
                    &&& final(self).client_state.opened_meme == old(self).client_state.opened_meme
                },
                Focus::Monitor => if old(self).client_state.opened_file is Some {
                    &&& !changed
                    &&& final(self).client_state.focus == Focus::Monitor
                    &&& final(self).client_state.opened_file is None
                    &&& final(self).client_state.opened_meme == old(self).client_state.opened_meme
                } else if old(self).client_state.opened_meme is Some {
                    &&& !changed
                    &&& final(self).client_state.focus == Focus::Monitor
                    &&& final(self).client_state.opened_file is None
                    &&& final(self).client_state.opened_meme is None
                } else {
                    &&& changed
                    &&& final(self).client_state.focus == Focus::Whole
                    &&& final(self).client_state.opened_file is None
                    &&& final(self).client_state.opened_meme is None
                },
                Focus::Whole => {
                    &&& !changed
                    &&& final(self).client_state.focus == Focus::Whole
                    &&& final(self).client_state.opened_file == old(self).client_state.opened_file
                    &&& final(self).client_state.opened_meme == old(self).client_state.opened_meme
                },
            },
            final(self).client_state.active_side == old(self).client_state.active_side,
            final(self).client_state.login_code == old(self).client_state.login_code,
            final(self).client_state.bfb_pressed == old(self).client_state.bfb_pressed,
            final(self).client_state.buttons_pressed == old(self).client_state.buttons_pressed,
            final(self).client_state.bubble_buttons == old(self).client_state.bubble_buttons,
            final(self).client_state.explosion == old(self).client_state.explosion,
            final(self).client_state.novella == old(self).client_state.novella,
            final(self).client_state.hovering_smth == old(self).client_state.hovering_smth,
            final(self).state == old(self).state,
            final(self).solver_state == old(self).solver_state,
    {
        match self.client_state.focus {
            Focus::Book => self.change_focus(Focus::Whole),
            Focus::Monitor => {
                if self.client_state.opened_file.take().is_some() {
                    return false;
                }
                if self.client_state.opened_meme.take().is_some() {
                    return false;
                }
                self.change_focus(Focus::Whole)
            },
            Focus::Whole => false,
        }
    }

    fn action_of(item: DispatcherItem, station_open: bool, in_station_inside: bool) -> (r: Option<
        ClickAction,
    >)
        ensures
            r == click_action(item, station_open, in_station_inside),
    {
        match item {
            DispatcherItem::DoorSign => Some(ClickAction::ToggleDoorSign),
            DispatcherItem::Monitor => Some(ClickAction::FocusMonitor),
            DispatcherItem::ButtonStation => if !station_open || !in_station_inside {
                Some(ClickAction::ToggleStation)
            } else {
                None
            },
            DispatcherItem::Bfb => Some(ClickAction::BigRedButton),
            DispatcherItem::RealMouse => Some(ClickAction::Mouse),
            DispatcherItem::Cactus => Some(ClickAction::Cactus),
            DispatcherItem::Book => Some(ClickAction::FocusBook),
            _ => {
                let sound = match item {
                    DispatcherItem::ButtonYellow => Some(Sound::Kick),
                    DispatcherItem::ButtonGreen => Some(Sound::Psh),
                    DispatcherItem::ButtonSalad => Some(Sound::Spit),
                    DispatcherItem::ButtonPink => Some(Sound::K),
                    DispatcherItem::ButtonBlue => Some(Sound::Liproll),
                    DispatcherItem::ButtonWhite => Some(Sound::Oo),
                    DispatcherItem::ButtonPurple => Some(Sound::Duck),
                    DispatcherItem::ButtonOrange => Some(Sound::Clop),
                    DispatcherItem::ButtonCyan => Some(Sound::Button),
                    _ => None,
                };
                match sound {
                    Some(sound) => if station_open {
                        Some(ClickAction::Button(sound))
                    } else {
                        None
                    },
                    None => None,
                }
            },
        }
    }

    /// Marks `button` as pressed (see `press_button`).
    fn press(&mut self, button: DispatcherItem)
        requires
            old(self).wf(),
        ensures
            final(self).time == old(self).time,
            final(self).wf(),
            final(self).client_state.buttons_pressed@ == press_button(
                old(self).client_state.buttons_pressed@,
                button,
            ),
            final(self).client_state.hovering_smth == old(self).client_state.hovering_smth,
            final(self).client_state.active_side == old(self).client_state.active_side,
            final(self).client_state.focus == old(self).client_state.focus,
            final(self).client_state.login_code == old(self).client_state.login_code,
            final(self).client_state.opened_file == old(self).client_state.opened_file,
            final(self).client_state.opened_meme == old(self).client_state.opened_meme,
            final(self).client_state.bfb_pressed == old(self).client_state.bfb_pressed,
            final(self).client_state.bubble_buttons == old(self).client_state.bubble_buttons,
            final(self).client_state.explosion == old(self).client_state.explosion,
            final(self).client_state.novella == old(self).client_state.novella,
            final(self).state == old(self).state,
            final(self).solver_state == old(self).solver_state,
    {
        proof {
            reveal(press_button);
        }
        let mut k: usize = 0;
        let mut found = false;
        while k < self.client_state.buttons_pressed.len()
            invariant
                *self == *old(self),
                k <= self.client_state.buttons_pressed@.len(),
                found == (exists|j: int|
                    0 <= j < k && (#[trigger] self.client_state.buttons_pressed@[j]).0 == button),
            decreases self.client_state.buttons_pressed@.len() - k,
        {
            if self.client_state.buttons_pressed[k].0 == button {
                found = true;
            }
            k = k + 1;
        }
        if !found {
            self.client_state.buttons_pressed.push((button, 0));
            proof {
                let b = self.client_state.buttons_pressed@;
                assert forall|x: int, y: int| 0 <= x < y < b.len() implies (#[trigger] b[x]).0
                    != (#[trigger] b[y]).0 by {
                    if y == b.len() - 1 {
                        assert(b[x] == old(self).client_state.buttons_pressed@[x]);
                    } else {
                        assert(b[x] == old(self).client_state.buttons_pressed@[x]);
                        assert(b[y] == old(self).client_state.buttons_pressed@[y]);
                    }
                }
            }
        }
    }

    /// The index of the item that takes a click on the office.
    pub open spec fn office_target(old: &Self, hits: CursorHits) -> Option<int> {
        clicked_from(hits.items@, old.state.button_station_open, hits.in_station_inside, 0)
    }

    /// The action of a click on the office.
    pub open spec fn office_action(old: &Self, hits: CursorHits) -> Option<ClickAction> {
        match Self::office_target(old, hits) {
            Some(k) => click_action(
                hits.items@[k].item,
                old.state.button_station_open,
                hits.in_station_inside,
            ),
            None => None,
        }
    }

    /// How many items the scan for the clicked item looked at.
    pub open spec fn office_scanned(old: &Self, hits: CursorHits) -> int {
        match Self::office_target(old, hits) {
            Some(k) => k + 1,
            None => hits.items@.len() as int,
        }
    }

    /// The office state after the click's action.
    pub open spec fn office_state(old: &Self, hits: CursorHits) -> DispatcherState {
        match Self::office_action(old, hits) {
            Some(a) => state_after_action(a, old.state),
            None => old.state,
        }
    }

    /// The focus the click's action asks for.
    pub open spec fn office_request(old: &Self, hits: CursorHits) -> Focus {
        match Self::office_action(old, hits) {
            Some(a) => focus_after_action(a, old.client_state.focus),
            None => old.client_state.focus,
        }
    }

    /// The effects of the click's action.
    pub open spec fn office_action_effects(old: &Self, hits: CursorHits) -> Seq<DispatcherEffect> {
        match Self::office_action(old, hits) {
            Some(a) => action_effects(a, Self::office_state(old, hits)),
            None => seq![],
        }
    }

    /// The monitor's and the book's part of the click.
    pub open spec fn office_desk(old: &Self, hits: CursorHits) -> (
        Option<usize>,
        Option<usize>,
        bool,
        Seq<DispatcherEffect>,
        Focus,
    ) {
        let upto = Self::office_scanned(old, hits);
        desk_click(
            old.client_state.focus,
            old.state.monitor_unlocked,
            old.client_state.opened_file,
            old.client_state.opened_meme,
            hits,
            old.solver_state.current_level,
            box_hit(hits.items@, DispatcherItem::Monitor, upto, hits.in_zero_box),
            box_hit(hits.items@, DispatcherItem::Book, upto, hits.in_zero_box),
            Self::office_request(old, hits),
        )
    }

    /// The solver's state after the click: a click on the player pops it.
    pub open spec fn office_solver(old: &Self, hits: CursorHits) -> SolverState {
        if pops_player(hits, old.client_state.active_side) {
            SolverState { popped: true, ..old.solver_state }
        } else {
            old.solver_state
        }
    }

    /// `self` is `old` after a click on the office (no novel open, no turn
    /// arrow hit) with the cursor at `hits`, and `effects` are the effects.
    pub open spec fn office_clicked(&self, old: &Self, hits: CursorHits, effects: Seq<DispatcherEffect>) -> bool {
        let c = old.client_state;
        let action = Self::office_action(old, hits);
        let desk = Self::office_desk(old, hits);
        &&& self.state == Self::office_state(old, hits)
        &&& self.client_state.bfb_pressed == (if action == Some(ClickAction::BigRedButton)
            && c.bfb_pressed is None {
            Some(0i64)
        } else {
            c.bfb_pressed
        })
        &&& self.client_state.buttons_pressed@ == (if action is Some && action->0 is Button {
            press_button(c.buttons_pressed@, hits.items@[Self::office_target(old, hits)->0].item)
        } else {
            c.buttons_pressed@
        })
        &&& self.client_state.opened_file == desk.0
        &&& self.client_state.opened_meme == desk.1
        &&& self.client_state.novella == (if desk.2 {
            Some(
                NovellaState {
                    sprite: NovellaSprite::Neutral,
                    line: 0,
                    character: 0,
                    fast: false,
                    next_char_in: NOVELLA_START_DELAY,
                    is_line_done: false,
                },
            )
        } else {
            None
        })
        &&& self.client_state.focus == desk.4
        &&& self.solver_state == Self::office_solver(old, hits)
        &&& self.client_state.explosion == (if pops_player(hits, old.client_state.active_side) {
            Some(0i64)
        } else {
            c.explosion
        })
        &&& effects == Self::office_action_effects(old, hits) + rest_effects(
            desk.3,
            desk.4,
            c.focus,
            pops_player(hits, old.client_state.active_side),
            Self::office_solver(old, hits),
        )
    }

    /// Finds the item that takes a click, and whether the cursor lies in the
    /// monitor's and the book's boxes as known when the scan stops.
    fn scan_items(&self, hits: &CursorHits) -> (r: (Option<usize>, bool, bool))
        ensures
            ({
                let items = hits.items@;
                let so = self.state.button_station_open;
                let ins = hits.in_station_inside;
                let clicked = clicked_from(items, so, ins, 0);
                let upto = match clicked {
                    Some(k) => k + 1,
                    None => items.len() as int,
                };
                &&& match r.0 {
                    Some(c) => clicked == Some(c as int) && c < items.len() && takes_click(
                        items[c as int],
                        so,
                        ins,
                    ),
                    None => clicked is None,
                }
                &&& r.1 == box_hit(items, DispatcherItem::Monitor, upto, hits.in_zero_box)
                &&& r.2 == box_hit(items, DispatcherItem::Book, upto, hits.in_zero_box)
            }),
    {
        proof {
            reveal(clicked_from);
            reveal(box_hit);
        }
        let so = self.state.button_station_open;
        let ins = hits.in_station_inside;
        let n = hits.items.len();
        let mut monitor_box = hits.in_zero_box;
        let mut book_box = hits.in_zero_box;
        let mut clicked: Option<usize> = None;
        let mut k: usize = 0;
        while k < n && clicked.is_none()
            invariant
                n == hits.items@.len(),
                k <= n,
                so == self.state.button_station_open,
                ins == hits.in_station_inside,
                monitor_box == box_hit(hits.items@, DispatcherItem::Monitor, k as int, hits.in_zero_box),
                book_box == box_hit(hits.items@, DispatcherItem::Book, k as int, hits.in_zero_box),
                match clicked {
                    Some(c) => c + 1 == k && clicked_from(hits.items@, so, ins, 0) == Some(c as int),
                    None => clicked_from(hits.items@, so, ins, 0) == clicked_from(
                        hits.items@,
                        so,
                        ins,
                        k as int,
                    ),
                },
            decreases n - k,
        {
            proof {
                reveal(clicked_from);
                reveal(box_hit);
            }
            let h = hits.items[k];
            if h.laid_out {
                if h.item == DispatcherItem::Monitor {
                    monitor_box = h.hit;
                }
                if h.item == DispatcherItem::Book {
                    book_box = h.hit;
                }
                if h.hit && Self::action_of(h.item, so, ins).is_some() {
                    clicked = Some(k);
                }
            }
            k = k + 1;
        }
        proof {
            if clicked is None {
                assert(clicked_from(hits.items@, so, ins, k as int) is None);
            } else {
                lemma_clicked_takes(hits.items@, so, ins, 0);
            }
        }
        (clicked, monitor_box, book_box)
    }

    /// Carries out a click's action on `item`; returns the effects and the
    /// focus asked for.
    fn apply_action(&mut self, action: ClickAction, item: DispatcherItem) -> (r: (
        Vec<DispatcherEffect>,
        Focus,
    ))
        requires
            old(self).wf(),
            action is Button ==> button_sound(item) is Some,
        ensures
            final(self).time == old(self).time,
            final(self).wf(),
            final(self).state == state_after_action(action, old(self).state),
            final(self).state.monitor_unlocked == old(self).state.monitor_unlocked,
            r.0@ == action_effects(action, final(self).state),
            r.1 == focus_after_action(action, old(self).client_state.focus),
            final(self).client_state.bfb_pressed == (if action == ClickAction::BigRedButton
                && old(self).client_state.bfb_pressed is None {
                Some(0i64)
            } else {
                old(self).client_state.bfb_pressed
            }),
            final(self).client_state.buttons_pressed@ == (if action is Button {
                press_button(old(self).client_state.buttons_pressed@, item)
            } else {
                old(self).client_state.buttons_pressed@
            }),
            final(self).client_state.hovering_smth == old(self).client_state.hovering_smth,
            final(self).client_state.active_side == old(self).client_state.active_side,
            final(self).client_state.focus == old(self).client_state.focus,
            final(self).client_state.login_code == old(self).client_state.login_code,
            final(self).client_state.opened_file == old(self).client_state.opened_file,
            final(self).client_state.opened_meme == old(self).client_state.opened_meme,
            final(self).client_state.bubble_buttons == old(self).client_state.bubble_buttons,
            final(self).client_state.explosion == old(self).client_state.explosion,
            final(self).client_state.novella == old(self).client_state.novella,
            final(self).solver_state == old(self).solver_state,
    {
        proof {
            reveal(action_effects);
            reveal(state_after_action);
            reveal(focus_after_action);
            reveal(press_button);
        }
        let mut effects: Vec<DispatcherEffect> = Vec::new();
        let mut request = self.client_state.focus;
        match action {
            ClickAction::ToggleDoorSign => {
                effects.push(DispatcherEffect::Play(Sound::Click));
                self.state.door_sign_open = !self.state.door_sign_open;
                effects.push(DispatcherEffect::SyncDispatcherState(self.state));
            },
            ClickAction::FocusMonitor => {
                effects.push(DispatcherEffect::Play(Sound::Click));
                request = Focus::Monitor;
            },
            ClickAction::ToggleStation => {
                effects.push(DispatcherEffect::Play(Sound::Click));
                self.state.button_station_open = !self.state.button_station_open;
                effects.push(DispatcherEffect::SyncDispatcherState(self.state));
            },
            ClickAction::BigRedButton => {
                effects.push(DispatcherEffect::Play(Sound::Button));
                if self.client_state.bfb_pressed.is_none() {
                    self.client_state.bfb_pressed = Some(0);
                }
            },
            ClickAction::Button(sound) => {
                effects.push(DispatcherEffect::Play(sound));
                self.press(item);
            },
            ClickAction::Mouse => {
                effects.push(DispatcherEffect::Play(Sound::Mouse));
            },
            ClickAction::Cactus => {
                effects.push(DispatcherEffect::Play(Sound::Cactus));
                effects.push(DispatcherEffect::FadeMusic);
            },
            ClickAction::FocusBook => {
                effects.push(DispatcherEffect::Play(Sound::Book));
                request = Focus::Book;
            },
        }
        assert(effects@ =~= action_effects(action, self.state));
        (effects, request)
    }

    /// The monitor's and the book's part of a click (see `desk_click`).
    fn desk_react(&mut self, hits: &CursorHits, monitor_box: bool, book_box: bool, request: Focus) -> (r: (
        Vec<DispatcherEffect>,
        Focus,
    ))
        requires
            old(self).wf(),
            old(self).client_state.novella is None,
            meme_step_ok(
                old(self).client_state.focus,
                old(self).state.monitor_unlocked,
                old(self).client_state.opened_meme,
                *hits,
                old(self).solver_state.current_level,
            ),
        ensures
            final(self).time == old(self).time,
            final(self).wf(),
            ({
                let c = old(self).client_state;
                let desk = desk_click(
                    c.focus,
                    old(self).state.monitor_unlocked,
                    c.opened_file,
                    c.opened_meme,
                    *hits,
                    old(self).solver_state.current_level,
                    monitor_box,
                    book_box,
                    request,
                );
                &&& final(self).client_state.opened_file == desk.0
                &&& final(self).client_state.opened_meme == desk.1
                &&& final(self).client_state.novella == (if desk.2 {
                    Some(
                        NovellaState {
                            sprite: NovellaSprite::Neutral,
                            line: 0,
                            character: 0,
                            fast: false,
                            next_char_in: NOVELLA_START_DELAY,
                            is_line_done: false,
                        },
                    )
                } else {
                    None
                })
                &&& r.0@ == desk.3
                &&& r.1 == desk.4
            }),
            final(self).state == old(self).state,
            final(self).solver_state == old(self).solver_state,
            final(self).client_state.hovering_smth == old(self).client_state.hovering_smth,
            final(self).client_state.active_side == old(self).client_state.active_side,
            final(self).client_state.focus == old(self).client_state.focus,
            final(self).client_state.login_code == old(self).client_state.login_code,
            final(self).client_state.bfb_pressed == old(self).client_state.bfb_pressed,
            final(self).client_state.buttons_pressed == old(self).client_state.buttons_pressed,
            final(self).client_state.bubble_buttons == old(self).client_state.bubble_buttons,
            final(self).client_state.explosion == old(self).client_state.explosion,
    {
        proof {
            reveal(desk_click);
        }
        let mut effects: Vec<DispatcherEffect> = Vec::new();
        let ghost asked = request;
        let mut request = request;
        match self.client_state.focus {
            Focus::Monitor => {
                if self.state.monitor_unlocked {
                    let file_open = match hits.file {
                        Some(f) => f <= self.solver_state.current_level,
                        None => false,
                    };
                    if file_open {
                        let f = hits.file.unwrap();
                        effects.push(DispatcherEffect::Play(Sound::Click));
                        if f == 4 {
                            if self.client_state.novella.is_none() {
                                self.client_state.novella = Some(NovellaState::new());
                            }
                        }
                        self.client_state.opened_file = Some(f);
                        self.client_state.opened_meme = None;
                    } else if let Some(m) = self.client_state.opened_meme {
                        let total = hits.total_memes;
                        if hits.meme_prev {
                            let m2 = if m == 0 {
                                total - 1
                            } else {
                                m - 1
                            };
                            self.client_state.opened_meme = Some(m2);
                        } else if hits.meme_next {
                            let mut m2 = m + 1;
                            if m2 >= total {
                                m2 = 0;
                            }
                            self.client_state.opened_meme = Some(m2);
                        }
                    } else if hits.meme_folder {
                        self.client_state.opened_meme = Some(0);
                        self.client_state.opened_file = None;
                    }
                } else if hits.user_icon {
                    effects.push(DispatcherEffect::Play(Sound::Click));
                } else if !monitor_box {
                    request = Focus::Whole;
                }
            },
            Focus::Book => {
                if !book_box {
                    request = Focus::Whole;
                }
            },
            Focus::Whole => {},
        }
        assert(effects@ =~= desk_click(
            old(self).client_state.focus,
            old(self).state.monitor_unlocked,
            old(self).client_state.opened_file,
            old(self).client_state.opened_meme,
            *hits,
            old(self).solver_state.current_level,
            monitor_box,
            book_box,
            asked,
        ).3);
        (effects, request)
    }

    /// The rest of a click on the office after the action: the desk reacts,
    /// the camera refocuses, and a click on the player pops it.
    fn click_rest(&mut self, hits: &CursorHits, monitor_box: bool, book_box: bool, request: Focus) -> (effects: Vec<DispatcherEffect>)
        requires
            old(self).wf(),
            old(self).client_state.novella is None,
            meme_step_ok(
                old(self).client_state.focus,
                old(self).state.monitor_unlocked,
                old(self).client_state.opened_meme,
                *hits,
                old(self).solver_state.current_level,
            ),
        ensures
            final(self).time == old(self).time,
            final(self).wf(),
            ({
                let c = old(self).client_state;
                let desk = desk_click(
                    c.focus,
                    old(self).state.monitor_unlocked,
                    c.opened_file,
                    c.opened_meme,
                    *hits,
                    old(self).solver_state.current_level,
                    monitor_box,
                    book_box,
                    request,
                );
                let solver = if pops_player(*hits, old(self).client_state.active_side) {
                    SolverState { popped: true, ..old(self).solver_state }
                } else {
                    old(self).solver_state
                };
                &&& final(self).client_state.opened_file == desk.0
                &&& final(self).client_state.opened_meme == desk.1
                &&& final(self).client_state.novella == (if desk.2 {
                    Some(
                        NovellaState {
                            sprite: NovellaSprite::Neutral,
                            line: 0,
                            character: 0,
                            fast: false,
                            next_char_in: NOVELLA_START_DELAY,
                            is_line_done: false,
                        },
                    )
                } else {
                    None
                })
                &&& final(self).client_state.focus == desk.4
                &&& final(self).solver_state == solver
                &&& final(self).client_state.explosion == (if pops_player(*hits, old(self).client_state.active_side) {
                    Some(0i64)
                } else {
                    c.explosion
                })
                &&& effects@ == rest_effects(desk.3, desk.4, c.focus, pops_player(*hits, old(self).client_state.active_side), solver)
            }),
            final(self).state == old(self).state,
            final(self).client_state.hovering_smth == old(self).client_state.hovering_smth,
            final(self).client_state.active_side == old(self).client_state.active_side,
            final(self).client_state.login_code == old(self).client_state.login_code,
            final(self).client_state.bfb_pressed == old(self).client_state.bfb_pressed,
            final(self).client_state.buttons_pressed == old(self).client_state.buttons_pressed,
            final(self).client_state.bubble_buttons == old(self).client_state.bubble_buttons,
    {
        let pop = hits.on_player && self.client_state.active_side == DispatcherViewSide::Front;
        let (mut effects, r2) = self.desk_react(hits, monitor_box, book_box, request);
        let ghost e2v = effects@;
        let changed = self.change_focus(r2);
        if changed {
            effects.push(DispatcherEffect::Refocus(r2));
        }
        let ghost refocus = if changed {
            seq![DispatcherEffect::Refocus(r2)]
        } else {
            seq![]
        };
        assert(effects@ =~= e2v + refocus);
        if pop {
            self.solver_state.popped = true;
            effects.push(DispatcherEffect::SyncSolverState(self.solver_state));
            self.client_state.explosion = Some(0);
            effects.push(DispatcherEffect::ExplosionAtPlayer);
        }
        let ghost popped = if pop {
            seq![
                DispatcherEffect::SyncSolverState(self.solver_state),
                DispatcherEffect::ExplosionAtPlayer,
            ]
        } else {
            seq![]
        };
        assert(effects@ =~= e2v + refocus + popped);
        effects
    }

    /// A click on the office: see `office_clicked`.
    fn click_office(&mut self, hits: &CursorHits) -> (effects: Vec<DispatcherEffect>)
        requires
            old(self).wf(),
            old(self).client_state.novella is None,
            meme_step_ok(
                old(self).client_state.focus,
                old(self).state.monitor_unlocked,
                old(self).client_state.opened_meme,
                *hits,
                old(self).solver_state.current_level,
            ),
        ensures
            final(self).time == old(self).time,
            final(self).wf(),
            final(self).client_state.hovering_smth == old(self).client_state.hovering_smth,
            final(self).client_state.active_side == old(self).client_state.active_side,
            final(self).client_state.login_code == old(self).client_state.login_code,
            final(self).client_state.bubble_buttons == old(self).client_state.bubble_buttons,
            final(self).office_clicked(old(self), *hits, effects@),
    {
        let ghost pre = *self;
        let mut effects: Vec<DispatcherEffect> = Vec::new();
        let (clicked, monitor_box, book_box) = self.scan_items(hits);
        let mut request = self.client_state.focus;
        if let Some(c) = clicked {
            let item = hits.items[c].item;
            let action = Self::action_of(item, self.state.button_station_open, hits.in_station_inside).unwrap();
            assert(Some(action) == Self::office_action(&pre, *hits));
            let (e1, r1) = self.apply_action(action, item);
            effects = e1;
            request = r1;
        }
        assert(self.state == Self::office_state(&pre, *hits));
        assert(request == Self::office_request(&pre, *hits));
        assert(effects@ == Self::office_action_effects(&pre, *hits));
        let ghost mid = *self;
        assert(mid.client_state.focus == pre.client_state.focus);
        assert(mid.client_state.opened_file == pre.client_state.opened_file);
        assert(mid.client_state.opened_meme == pre.client_state.opened_meme);
        assert(mid.state.monitor_unlocked == pre.state.monitor_unlocked);
        assert(mid.solver_state == pre.solver_state);
        assert(mid.client_state.explosion == pre.client_state.explosion);
        let ghost e1 = effects@;
        let mut rest = self.click_rest(hits, monitor_box, book_box, request);
        let ghost rv = rest@;
        effects.append(&mut rest);
        assert(effects@ =~= e1 + rv);
        effects
    }

    /// Whether a click with the cursor at `hits` keeps the counters within
    /// their numbers: a finished line of the novel has a next one, and the
    /// meme arrows have a meme to go to (see `meme_step_ok`).
    pub open spec fn click_fits(&self, hits: CursorHits) -> bool {
        &&& self.client_state.novella matches Some(n) ==> (n.is_line_done ==> n.line < usize::MAX)
        &&& (self.client_state.novella is None && !hits.turn_left && !hits.turn_right)
            ==> meme_step_ok(
            self.client_state.focus,
            self.state.monitor_unlocked,
            self.client_state.opened_meme,
            hits,
            self.solver_state.current_level,
        )
    }

    /// Whether `cursor_press` can take a click with the cursor at `hits`
    /// (see `click_fits`).
    pub fn click_can_go(&self, hits: &CursorHits) -> (r: bool)
        ensures
            r == self.click_fits(*hits),
    {
        let novella_ok = match self.client_state.novella {
            Some(n) => !n.is_line_done || n.line < usize::MAX,
            None => true,
        };
        let office = self.client_state.novella.is_none() && !hits.turn_left && !hits.turn_right;
        let file_opens = match hits.file {
            Some(f) => f <= self.solver_state.current_level,
            None => false,
        };
        let meme_ok = match self.client_state.opened_meme {
            Some(m) => {
                if self.client_state.focus == Focus::Monitor && self.state.monitor_unlocked
                    && !file_opens {
                    (!hits.meme_prev || hits.total_memes > 0) && (hits.meme_prev || !hits.meme_next
                        || m < usize::MAX)
                } else {
                    true
                }
            },
            None => true,
        };
        novella_ok && (!office || meme_ok)
    }

    /// A click of the mouse. The visual novel, while open, takes every
    /// click. Else the turn arrows turn the office to the side on the left
    /// or on the right of the current one, which closes an open book; else the first item that takes the click acts
    /// (`click_action`), then the monitor or the book reacts (`desk_click`),
    /// the camera refocuses, and a click on the solver's player on the
    /// front side pops it (`pops_player`).
    /// Returns what the caller is to do, in order.
    pub fn cursor_press(&mut self, hits: &CursorHits) -> (effects: Vec<
        DispatcherEffect,
    >)
        requires
            old(self).wf(),
            old(self).client_state.novella matches Some(n) ==> (n.is_line_done ==> n.line
                < usize::MAX),
            (old(self).client_state.novella is None && !hits.turn_left && !hits.turn_right)
                ==> meme_step_ok(
                old(self).client_state.focus,
                old(self).state.monitor_unlocked,
                old(self).client_state.opened_meme,
                *hits,
                old(self).solver_state.current_level,
            ),
        ensures
            final(self).time == old(self).time,
            final(self).wf(),
            final(self).client_state.hovering_smth == old(self).client_state.hovering_smth,
            !(old(self).client_state.novella is None && (hits.turn_left || hits.turn_right))
                ==> final(self).client_state.active_side == old(self).client_state.active_side,
            final(self).client_state.login_code == old(self).client_state.login_code,
            final(self).client_state.bubble_buttons == old(self).client_state.bubble_buttons,
            old(self).client_state.novella is Some ==> {
                &&& final(self).client_state.novella == Some(
                    novella_clicked(old(self).client_state.novella->0),
                )
                &&& effects@.len() == 0
                &&& final(self).client_state.focus == old(self).client_state.focus
                &&& final(self).client_state.opened_file == old(self).client_state.opened_file
                &&& final(self).client_state.opened_meme == old(self).client_state.opened_meme
                &&& final(self).client_state.bfb_pressed == old(self).client_state.bfb_pressed
                &&& final(self).client_state.buttons_pressed == old(
                    self,
                ).client_state.buttons_pressed
                &&& final(self).client_state.explosion == old(self).client_state.explosion
                &&& final(self).state == old(self).state
                &&& final(self).solver_state == old(self).solver_state
            },
            (old(self).client_state.novella is None && (hits.turn_left || hits.turn_right)) ==> {
                &&& effects@ == seq![DispatcherEffect::Play(Sound::Click)] + (if old(
                    self,
                ).client_state.focus == Focus::Book {
                    seq![DispatcherEffect::Refocus(Focus::Whole)]
                } else {
                    seq![]
                })
                &&& final(self).client_state.active_side == (if hits.turn_left {
                    side_left_of(old(self).client_state.active_side)
                } else {
                    side_right_of(old(self).client_state.active_side)
                })
                &&& final(self).client_state.focus == (if old(self).client_state.focus
                    == Focus::Book {
                    Focus::Whole
                } else {
                    old(self).client_state.focus
                })
                &&& final(self).client_state.novella == old(self).client_state.novella
                &&& final(self).client_state.opened_file == old(self).client_state.opened_file
                &&& final(self).client_state.opened_meme == old(self).client_state.opened_meme
                &&& final(self).client_state.bfb_pressed == old(self).client_state.bfb_pressed
                &&& final(self).client_state.buttons_pressed == old(
                    self,
                ).client_state.buttons_pressed
                &&& final(self).client_state.explosion == old(self).client_state.explosion
                &&& final(self).state == old(self).state
                &&& final(self).solver_state == old(self).solver_state
            },
            (old(self).client_state.novella is None && !hits.turn_left && !hits.turn_right)
                ==> final(self).office_clicked(old(self), *hits, effects@),
    {
        let mut effects: Vec<DispatcherEffect> = Vec::new();
        if let Some(n) = self.client_state.novella {
            let mut n = n;
            if n.fast {
                n.next_char_in = crate::fixed::sat_sub(n.next_char_in, NOVELLA_START_DELAY);
            }
            n.fast = true;
            if n.is_line_done {
                n.line = n.line + 1;
                n.next_char_in = 0;
                n.character = 0;
                n.is_line_done = false;
                n.fast = false;
            }
            self.client_state.novella = Some(n);
            return effects;
        }
        if hits.turn_left || hits.turn_right {
            effects.push(DispatcherEffect::Play(Sound::Click));
            let side = if hits.turn_left {
                self.client_state.active_side.cycle_left()
            } else {
                self.client_state.active_side.cycle_right()
            };
            let changed = self.change_side(side);
            if changed {
                effects.push(DispatcherEffect::Refocus(Focus::Whole));
            }
            return effects;
        }

        self.click_office(hits)
    }

    /// `self` is `old` after the button clocks ran for `dt`, as far as the
    /// buttons, the solver's progress and the bubble count go, with `effects`.
    pub open spec fn buttons_advanced(&self, old: &Self, dt: i64, effects: Seq<DispatcherEffect>) -> bool {
        let c = old.client_state;
        let bp = c.buttons_pressed@;
        let f = buttons_fold(
            bp,
            bp.len() as int,
            dt as int,
            old.state.monitor_unlocked,
            old.solver_state,
            c.bubble_buttons as int,
        );
        let bfb_done = c.bfb_pressed is Some && sat(c.bfb_pressed->0 + dt) > SCALE;
        &&& self.client_state.bfb_pressed == (if c.bfb_pressed is None || bfb_done {
            None
        } else {
            Some(sat(c.bfb_pressed->0 + dt) as i64)
        })
        &&& self.solver_state == f.0
        &&& self.client_state.bubble_buttons == f.1
        &&& effects == (if bfb_done {
            seq![DispatcherEffect::CrashOther(CrashMessage::BigRedButton)]
        } else {
            seq![]
        }) + f.2
        &&& self.client_state.buttons_pressed@ == buttons_kept(
            bp,
            bp.len() as int,
            dt as int,
        )
    }

    /// The button clocks can run for `dt` without the bubble count running over.
    pub open spec fn buttons_fit(&self, dt: i64) -> bool {
        buttons_fold(
            self.client_state.buttons_pressed@,
            self.client_state.buttons_pressed@.len() as int,
            dt as int,
            self.state.monitor_unlocked,
            self.solver_state,
            self.client_state.bubble_buttons as int,
        ).1 <= usize::MAX
    }

    /// Advances the clocks of the pressed buttons by `delta_time`. The big
    /// red button held past a second crashes the solver's game; the other
    /// buttons take effect as `buttons_fold` says, and those held a second or
    /// more are released. Returns what the caller is to do, in order.
    pub fn update_buttons(&mut self, delta_time: i64) -> (effects: Vec<DispatcherEffect>)
        requires
            old(self).wf(),
            in_range(delta_time as int),
            old(self).buttons_fit(delta_time),
        ensures
            final(self).time == old(self).time,
            final(self).wf(),
            final(self).buttons_advanced(old(self), delta_time, effects@),
            final(self).state == old(self).state,
            final(self).client_state.hovering_smth == old(self).client_state.hovering_smth,
            final(self).client_state.active_side == old(self).client_state.active_side,
            final(self).client_state.focus == old(self).client_state.focus,
            final(self).client_state.login_code == old(self).client_state.login_code,
            final(self).client_state.opened_file == old(self).client_state.opened_file,
            final(self).client_state.opened_meme == old(self).client_state.opened_meme,
            final(self).client_state.explosion == old(self).client_state.explosion,
            final(self).client_state.novella == old(self).client_state.novella,
    {
        let mut effects: Vec<DispatcherEffect> = Vec::new();
        if let Some(t) = self.client_state.bfb_pressed {
            let after = sat_add(t, delta_time);
            if after > SCALE {
                effects.push(DispatcherEffect::CrashOther(CrashMessage::BigRedButton));
                self.client_state.bfb_pressed = None;
            } else {
                self.client_state.bfb_pressed = Some(after);
            }
        }
        let ghost e0 = effects@;
        let ghost mid = *self;
        let ghost bp = self.client_state.buttons_pressed@;
        let ghost solver0 = self.solver_state;
        let ghost bubble0 = self.client_state.bubble_buttons as int;
        let unlocked = self.state.monitor_unlocked;
        let mut kept: Vec<(DispatcherItem, i64)> = Vec::new();
        let n = self.client_state.buttons_pressed.len();
        let mut k: usize = 0;
        while k < n
            invariant
                n == bp.len(),
                bp == self.client_state.buttons_pressed@,
                k <= n,
                unlocked == self.state.monitor_unlocked,
                in_range(delta_time as int),
                forall|i: int| 0 <= i < bp.len() ==> in_range((#[trigger] bp[i]).1 as int),
                buttons_fold(bp, n as int, delta_time as int, unlocked, solver0, bubble0).1
                    <= usize::MAX,
                ({
                    let f = buttons_fold(bp, k as int, delta_time as int, unlocked, solver0, bubble0);
                    &&& self.solver_state == f.0
                    &&& self.client_state.bubble_buttons == f.1
                    &&& effects@ == e0 + f.2
                }),
                kept@ == buttons_kept(bp, k as int, delta_time as int),
                *self == (GameDispatcher {
                    solver_state: self.solver_state,
                    client_state: DispatcherStateClient {
                        bubble_buttons: self.client_state.bubble_buttons,
                        ..mid.client_state
                    },
                    ..mid
                }),
            decreases n - k,
        {
            proof {
                lemma_fold_bubble_grows(bp, k as int + 1, n as int, delta_time as int, unlocked, solver0, bubble0);
            }
            let (item, t) = self.client_state.buttons_pressed[k];
            let after = sat_add(t, delta_time);
            let ghost e_before = effects@;
            if after > SCALE {
                if self.solver_state.levels_completed == 3 {
                    self.client_state.bubble_buttons = self.client_state.bubble_buttons + 1;
                    if self.client_state.bubble_buttons == 5 {
                        self.solver_state.levels_completed = self.solver_state.levels_completed + 1;
                        effects.push(DispatcherEffect::SyncSolverState(self.solver_state));
                    }
                }
                if item == DispatcherItem::ButtonSalad {
                    if unlocked && self.solver_state.levels_completed == 0 {
                        effects.push(DispatcherEffect::CrashOther(CrashMessage::SaladButton));
                    }
                } else if item == DispatcherItem::ButtonYellow {
                    if unlocked && self.solver_state.levels_completed == 0 {
                        self.solver_state.levels_completed = self.solver_state.levels_completed + 1;
                        effects.push(DispatcherEffect::SyncSolverState(self.solver_state));
                    }
                } else if item == DispatcherItem::ButtonGreen {
                    if self.solver_state.trashcan_evil && self.solver_state.current_level == 2
                        && self.solver_state.levels_completed == 2 {
                        self.solver_state.trashcan_evil = false;
                        effects.push(DispatcherEffect::SyncSolverState(self.solver_state));
                    }
                } else if item == DispatcherItem::ButtonCyan {
                    if self.solver_state.current_level == 4
                        && self.solver_state.levels_completed == 4 {
                        self.solver_state.levels_completed = self.solver_state.levels_completed + 1;
                        effects.push(DispatcherEffect::SyncSolverState(self.solver_state));
                    }
                }
            }
            if after < SCALE {
                kept.push((item, after));
            }
            proof {
                let f = buttons_fold(bp, k + 1, delta_time as int, unlocked, solver0, bubble0);
                assert(effects@ =~= e0 + f.2);
            }
            k = k + 1;
        }
        proof {
            lemma_kept_unique(bp, n as int, delta_time as int);
        }
        self.client_state.buttons_pressed = kept;
        effects
    }

    /// Whether the popped player's explosion is over after `delta_time`: the
    /// game cannot go on.
    pub open spec fn game_over_after(&self, delta_time: i64) -> bool {
        &&& self.client_state.explosion is Some
        &&& sat(self.client_state.explosion->0 + delta_time) > SCALE
        &&& self.solver_state.popped
    }

    /// Whether the popped player's explosion is over after `delta_time`
    /// (see `game_over_after`).
    pub fn ends_game(&self, delta_time: i64) -> (r: bool)
        requires
            self.wf(),
            in_range(delta_time as int),
        ensures
            r == self.game_over_after(delta_time),
    {
        match self.client_state.explosion {
            Some(t) => sat_add(t, delta_time) > SCALE && self.solver_state.popped,
            None => false,
        }
    }

    /// Whether the button clocks can run for `delta_time` (see `buttons_fit`).
    pub fn buttons_can_advance(&self, delta_time: i64) -> (r: bool)
        requires
            self.wf(),
            in_range(delta_time as int),
        ensures
            r == self.buttons_fit(delta_time),
    {
        let ghost bp = self.client_state.buttons_pressed@;
        let ghost solver0 = self.solver_state;
        let ghost bubble0 = self.client_state.bubble_buttons as int;
        let unlocked = self.state.monitor_unlocked;
        let mut s = self.solver_state;
        let mut b: u128 = self.client_state.bubble_buttons as u128;
        let n = self.client_state.buttons_pressed.len();
        let mut k: usize = 0;
        while k < n
            invariant
                n == bp.len(),
                bp == self.client_state.buttons_pressed@,
                k <= n,
                unlocked == self.state.monitor_unlocked,
                in_range(delta_time as int),
                forall|i: int| 0 <= i < bp.len() ==> in_range((#[trigger] bp[i]).1 as int),
                bubble0 == self.client_state.bubble_buttons,
                solver0 == self.solver_state,
                b <= bubble0 + k,
                ({
                    let f = buttons_fold(bp, k as int, delta_time as int, unlocked, solver0, bubble0);
                    &&& s == f.0
                    &&& b == f.1
                }),
            decreases n - k,
        {
            let (item, t) = self.client_state.buttons_pressed[k];
            let after = sat_add(t, delta_time);
            if after > SCALE {
                if s.levels_completed == 3 {
                    b = b + 1;
                    if b == 5 {
                        s.levels_completed = 4;
                    }
                }
                if item == DispatcherItem::ButtonSalad {
                } else if item == DispatcherItem::ButtonYellow {
                    if unlocked && s.levels_completed == 0 {
                        s.levels_completed = 1;
                    }
                } else if item == DispatcherItem::ButtonGreen {
                    if s.trashcan_evil && s.current_level == 2 && s.levels_completed == 2 {
                        s.trashcan_evil = false;
                    }
                } else if item == DispatcherItem::ButtonCyan {
                    if s.current_level == 4 && s.levels_completed == 4 {
                        s.levels_completed = 5;
                    }
                }
            }
            k = k + 1;
        }
        b <= usize::MAX as u128
    }

    /// A frame of `delta_time`: the clock runs, the buttons take effect
    /// (`update_buttons`), the explosion's clock runs, and the novel advances
    /// on `novella_line`, the line it is at (`None` once the text is over,
    /// which closes it). A frame after which the popped player's explosion
    /// is over ends the game instead (`game_over_after`), and is not taken.
    /// Returns what the caller is to do, in order.
    pub fn update(&mut self, delta_time: i64, novella_line: Option<&str>) -> (effects: Vec<
        DispatcherEffect,
    >)
        requires
            old(self).wf(),
            in_range(delta_time as int),
            old(self).buttons_fit(delta_time),
            !old(self).game_over_after(delta_time),
            old(self).client_state.novella is Some && novella_line is Some ==> novella_fits(
                old(self).client_state.novella->0,
                novella_line->0@,
                delta_time as int,
            ),
        ensures
            final(self).wf(),
            final(self).time == sat(old(self).time + delta_time),
            final(self).buttons_advanced(old(self), delta_time, effects@),
            final(self).state == old(self).state,
            final(self).client_state.hovering_smth == old(self).client_state.hovering_smth,
            final(self).client_state.active_side == old(self).client_state.active_side,
            final(self).client_state.focus == old(self).client_state.focus,
            final(self).client_state.login_code == old(self).client_state.login_code,
            final(self).client_state.opened_file == old(self).client_state.opened_file,
            final(self).client_state.opened_meme == old(self).client_state.opened_meme,
            final(self).client_state.explosion == (match old(self).client_state.explosion {
                Some(t) => Some(sat(t + delta_time) as i64),
                None => None,
            }),
            final(self).client_state.novella == (match old(self).client_state.novella {
                Some(n) => match novella_line {
                    Some(l) => Some(novella_after(n, l@, delta_time as int)),
                    None => None,
                },
                None => None,
            }),
    {
        self.time = sat_add(self.time, delta_time);
        let effects = self.update_buttons(delta_time);
        if let Some(t) = self.client_state.explosion {
            self.client_state.explosion = Some(sat_add(t, delta_time));
        }
        if let Some(n) = self.client_state.novella {
            match novella_line {
                Some(line) => {
                    self.client_state.novella = Some(advance_novella(n, line, delta_time));
                },
                None => {
                    self.client_state.novella = None;
                },
            }
        }
        effects
    }

}

} // verus!
