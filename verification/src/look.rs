//! What to draw: the choices behind the pictures, apart from the geometry
//! and the drawing itself.
use vstd::prelude::*;

use crate::dispatcher::{DispatcherState, Focus};
use crate::fixed::SCALE;
use crate::model::{spec_is_interactable, DispatcherItem, DispatcherViewSide};
use crate::solver::{SolverItemKind, SolverState};

verus! {

/// The picture behind a level of the solver.
#[derive(Clone, Copy, Debug, PartialEq, Eq, Structural)]
pub enum SolverBackground {
    Level1,
    GreenHint,
    BubbleTea,
    Dispatcher,
}

pub open spec fn background_of(level: usize) -> Option<SolverBackground> {
    if level == 0 {
        Some(SolverBackground::Level1)
    } else if level == 2 {
        Some(SolverBackground::GreenHint)
    } else if level == 3 {
        Some(SolverBackground::BubbleTea)
    } else if level == 5 {
        Some(SolverBackground::Dispatcher)
    } else {
        None
    }
}

/// The background of `level`, if it has one.
pub fn solver_background(level: usize) -> (r: Option<SolverBackground>)
    ensures
        r == background_of(level),
{
    if level == 0 {
        Some(SolverBackground::Level1)
    } else if level == 2 {
        Some(SolverBackground::GreenHint)
    } else if level == 3 {
        Some(SolverBackground::BubbleTea)
    } else if level == 5 {
        Some(SolverBackground::Dispatcher)
    } else {
        None
    }
}

/// Every level but the last one, which is the dispatcher's office, shows
/// the walls of the level.
pub fn draws_bounds(level: usize) -> (r: bool)
    ensures
        r == (level != 5),
{
    level != 5
}

/// The door of bubbles stands on the bubble level until the code is solved,
/// as long as its collider (the last static one) is there.
pub fn draws_bubble_door(state: &SolverState, has_static_colliders: bool) -> (r: bool)
    ensures
        r == (state.current_level == 3 && !state.solved_bubble_code && has_static_colliders),
{
    state.current_level == 3 && !state.solved_bubble_code && has_static_colliders
}

/// How an item of the solver is drawn.
#[derive(Clone, Copy, Debug, PartialEq, Eq, Structural)]
pub enum ItemLook {
    /// Not drawn at all.
    Hidden,
    EvilTrashcan,
    /// The fish, at this frame of its animation.
    Fish(usize),
    /// The cinder block (a sword in a stone), at this frame of its animation.
    Excalibur(usize),
    /// Its usual picture.
    Plain,
}

/// Seconds per loop of the fish's animation (1.5 s).
pub const FISH_LOOP: i64 = 1_500_000;

/// Seconds per loop of the sword's animation (0.7 s).
pub const EXCALIBUR_LOOP: i64 = 700_000;

/// The frame of a looping animation of `frames` frames taking `period`, at
/// time `time`: the share of the period gone by, scaled to the frames; a
/// negative time shows the first frame.
pub open spec fn loop_frame(time: int, period: int, frames: int) -> int {
    if time < 0 {
        0
    } else {
        (time % period) * frames / period
    }
}

pub open spec fn item_look_of(
    kind: SolverItemKind,
    trashcan_evil: bool,
    time: int,
    fish_frames: int,
    excalibur_frames: int,
) -> ItemLook {
    if kind == SolverItemKind::Recycle && trashcan_evil {
        ItemLook::Hidden
    } else if kind == SolverItemKind::Trashcan && trashcan_evil {
        ItemLook::EvilTrashcan
    } else if kind == SolverItemKind::Fish {
        ItemLook::Fish(loop_frame(time, FISH_LOOP as int, fish_frames) as usize)
    } else if kind == SolverItemKind::CinderBlock {
        ItemLook::Excalibur(loop_frame(time, EXCALIBUR_LOOP as int, excalibur_frames) as usize)
    } else {
        ItemLook::Plain
    }
}

fn loop_frame_exec(time: i64, period: i64, frames: usize) -> (r: usize)
    requires
        period > 0,
    ensures
        r == loop_frame(time as int, period as int, frames as int),
        time >= 0 ==> r < frames || frames == 0,
{
    if time < 0 {
        0
    } else {
        let within = time % period;
        assert(0 <= within < period);
        assert(0 <= within * frames <= period * frames) by (nonlinear_arith)
            requires
                0 <= within < period,
                0 <= frames,
        ;
        assert(period * frames <= 0x7fff_ffff_ffff_ffff * 0xffff_ffff_ffff_ffff) by (nonlinear_arith)
            requires
                0 < period <= 0x7fff_ffff_ffff_ffff,
                0 <= frames <= 0xffff_ffff_ffff_ffff,
        ;
        let scaled: i128 = (within as i128) * (frames as i128);
        let f = scaled / (period as i128);
        assert(f <= frames) by (nonlinear_arith)
            requires
                f == (scaled as int) / (period as int),
                scaled <= period * frames,
                0 <= scaled,
                period > 0,
        ;
        if frames > 0 {
            assert(f < frames) by (nonlinear_arith)
                requires
                    f == (scaled as int) / (period as int),
                    scaled == within * frames,
                    0 <= within < period,
                    period > 0,
                    frames > 0,
            ;
        }
        f as usize
    }
}

/// How an item of kind `kind` is drawn at time `time`: the recycling sign
/// hides while the trashcan is evil, which then looks evil; the fish and the
/// sword are animated.
pub fn item_look(
    kind: SolverItemKind,
    trashcan_evil: bool,
    time: i64,
    fish_frames: usize,
    excalibur_frames: usize,
) -> (r: ItemLook)
    ensures
        r == item_look_of(kind, trashcan_evil, time as int, fish_frames as int, excalibur_frames as int),
{
    if kind == SolverItemKind::Recycle && trashcan_evil {
        ItemLook::Hidden
    } else if kind == SolverItemKind::Trashcan && trashcan_evil {
        ItemLook::EvilTrashcan
    } else if kind == SolverItemKind::Fish {
        ItemLook::Fish(loop_frame_exec(time, FISH_LOOP, fish_frames))
    } else if kind == SolverItemKind::CinderBlock {
        ItemLook::Excalibur(loop_frame_exec(time, EXCALIBUR_LOOP, excalibur_frames))
    } else {
        ItemLook::Plain
    }
}

/// The frame of a running or idle animation of `frames` frames, `frame_time`
/// each, after `animation_time`: whole frames gone by, going round.
pub fn player_frame(animation_time: i64, frame_time: i64, frames: usize) -> (r: usize)
    requires
        frame_time > 0,
        frames > 0,
    ensures
        r == (if animation_time <= 0 {
            0
        } else {
            ((animation_time / frame_time) as int) % (frames as int)
        }),
        r < frames,
{
    if animation_time <= 0 {
        0
    } else {
        let whole = (animation_time / frame_time) as u64;
        (whole % (frames as u64)) as usize
    }
}

/// The jumping picture: rising or falling.
pub fn jump_frame(vy: i64) -> (r: usize)
    ensures
        r == (if vy > 0 {
            0usize
        } else {
            1usize
        }),
{
    if vy > 0 {
        0
    } else {
        1
    }
}

/// The frame of an explosion of `frames` frames that lasts a second, `time`
/// into it; `None` once it is over.
pub fn explosion_frame(time: i64, frames: usize) -> (r: Option<usize>)
    requires
        time <= crate::fixed::LIMIT,
    ensures
        ({
            let f = if time < 0 {
                0
            } else {
                time * frames / (SCALE as int)
            };
            &&& f < frames ==> r == Some(f as usize)
            &&& f >= frames ==> r is None
        }),
{
    let f: i128 = if time < 0 {
        0
    } else {
        assert(0 <= time * frames <= crate::fixed::LIMIT * 0xffff_ffff_ffff_ffff) by (nonlinear_arith)
            requires
                0 <= time <= crate::fixed::LIMIT,
                0 <= frames <= 0xffff_ffff_ffff_ffff,
        ;
        (time as i128) * (frames as i128) / (SCALE as i128)
    };
    if f < frames as i128 {
        Some(f as usize)
    } else {
        None
    }
}

/// The pictures of the office.
#[derive(Clone, Copy, Debug, PartialEq, Eq, Structural)]
pub enum OfficeSprite {
    Door,
    SignOpen,
    SignClosed,
    Table,
    Monitor,
    RealMouse,
    Cactus,
    Book,
    TheSock,
    StationOpen,
    StationClosed,
    BigButton,
    BigButtonPressed,
    Button,
    ButtonPressed,
    Tea,
}

/// Whether `item` is one of the colored buttons of the button station.
pub open spec fn is_colored_button(item: DispatcherItem) -> bool {
    crate::dispatcher::button_sound(item) is Some
}

pub open spec fn office_sprite_of(
    item: DispatcherItem,
    state: DispatcherState,
    bfb_pressed: bool,
    pressed: bool,
) -> Option<OfficeSprite> {
    match item {
        DispatcherItem::Door => Some(OfficeSprite::Door),
        DispatcherItem::DoorSign => if state.door_sign_open {
            Some(OfficeSprite::SignOpen)
        } else {
            Some(OfficeSprite::SignClosed)
        },
        DispatcherItem::Table => Some(OfficeSprite::Table),
        DispatcherItem::Monitor => Some(OfficeSprite::Monitor),
        DispatcherItem::RealMouse => Some(OfficeSprite::RealMouse),
        DispatcherItem::Cactus => Some(OfficeSprite::Cactus),
        DispatcherItem::Book => Some(OfficeSprite::Book),
        DispatcherItem::TheSock => Some(OfficeSprite::TheSock),
        DispatcherItem::ButtonStation => if state.button_station_open {
            Some(OfficeSprite::StationOpen)
        } else {
            Some(OfficeSprite::StationClosed)
        },
        DispatcherItem::Bfb => if bfb_pressed {
            Some(OfficeSprite::BigButtonPressed)
        } else {
            Some(OfficeSprite::BigButton)
        },
        DispatcherItem::Tea => Some(OfficeSprite::Tea),
        _ => if !state.button_station_open {
            None
        } else if pressed {
            Some(OfficeSprite::ButtonPressed)
        } else {
            Some(OfficeSprite::Button)
        },
    }
}

/// The picture of `item`, or `None` for a button of the closed station,
/// which is not drawn. `pressed` tells whether the item is a pressed button.
pub fn office_sprite(item: DispatcherItem, state: &DispatcherState, bfb_pressed: bool, pressed: bool) -> (r:
    Option<OfficeSprite>)
    ensures
        r == office_sprite_of(item, *state, bfb_pressed, pressed),
{
    match item {
        DispatcherItem::Door => Some(OfficeSprite::Door),
        DispatcherItem::DoorSign => if state.door_sign_open {
            Some(OfficeSprite::SignOpen)
        } else {
            Some(OfficeSprite::SignClosed)
        },
        DispatcherItem::Table => Some(OfficeSprite::Table),
        DispatcherItem::Monitor => Some(OfficeSprite::Monitor),
        DispatcherItem::RealMouse => Some(OfficeSprite::RealMouse),
        DispatcherItem::Cactus => Some(OfficeSprite::Cactus),
        DispatcherItem::Book => Some(OfficeSprite::Book),
        DispatcherItem::TheSock => Some(OfficeSprite::TheSock),
        DispatcherItem::ButtonStation => if state.button_station_open {
            Some(OfficeSprite::StationOpen)
        } else {
            Some(OfficeSprite::StationClosed)
        },
        DispatcherItem::Bfb => if bfb_pressed {
            Some(OfficeSprite::BigButtonPressed)
        } else {
            Some(OfficeSprite::BigButton)
        },
        DispatcherItem::Tea => Some(OfficeSprite::Tea),
        _ => if !state.button_station_open {
            None
        } else if pressed {
            Some(OfficeSprite::ButtonPressed)
        } else {
            Some(OfficeSprite::Button)
        },
    }
}

/// The tint of each colored button, as red, green and blue.
pub open spec fn button_color_of(item: DispatcherItem) -> Option<(u8, u8, u8)> {
    match item {
        DispatcherItem::ButtonYellow => Some((0xFF, 0xFF, 0x00)),
        DispatcherItem::ButtonGreen => Some((0x00, 0xFF, 0x00)),
        DispatcherItem::ButtonSalad => Some((0xEC, 0xFF, 0x00)),
        DispatcherItem::ButtonPink => Some((0xFF, 0xC0, 0xCB)),
        DispatcherItem::ButtonBlue => Some((0x00, 0x22, 0xEE)),
        DispatcherItem::ButtonWhite => Some((0xFF, 0xFF, 0xFF)),
        DispatcherItem::ButtonPurple => Some((0x80, 0x00, 0x80)),
        DispatcherItem::ButtonOrange => Some((0xFF, 0xA5, 0x00)),
        DispatcherItem::ButtonCyan => Some((0x00, 0xEE, 0xEE)),
        _ => None,
    }
}

/// The tint of a colored button, as red, green and blue; `None` for every
/// other item.
pub fn button_color(item: DispatcherItem) -> (r: Option<(u8, u8, u8)>)
    ensures
        r == button_color_of(item),
        r is Some <==> is_colored_button(item),
{
    match item {
        DispatcherItem::ButtonYellow => Some((0xFF, 0xFF, 0x00)),
        DispatcherItem::ButtonGreen => Some((0x00, 0xFF, 0x00)),
        DispatcherItem::ButtonSalad => Some((0xEC, 0xFF, 0x00)),
        DispatcherItem::ButtonPink => Some((0xFF, 0xC0, 0xCB)),
        DispatcherItem::ButtonBlue => Some((0x00, 0x22, 0xEE)),
        DispatcherItem::ButtonWhite => Some((0xFF, 0xFF, 0xFF)),
        DispatcherItem::ButtonPurple => Some((0x80, 0x00, 0x80)),
        DispatcherItem::ButtonOrange => Some((0xFF, 0xA5, 0x00)),
        DispatcherItem::ButtonCyan => Some((0x00, 0xEE, 0xEE)),
        _ => None,
    }
}

pub open spec fn highlighted_spec(
    item: DispatcherItem,
    hit: bool,
    focus: Focus,
    station_open: bool,
    in_station_inside: bool,
    bfb_pressed: bool,
    pressed: bool,
) -> bool {
    &&& spec_is_interactable(item)
    &&& hit
    &&& !(item == DispatcherItem::Monitor && focus == Focus::Monitor)
    &&& !(item == DispatcherItem::ButtonStation && station_open && in_station_inside)
    &&& !(item == DispatcherItem::Bfb && bfb_pressed)
    &&& !pressed
}

/// Whether `item` under the cursor (`hit`) lights up: an interactable item,
/// but not the monitor one looks at, not the inside of the open button
/// station, not the big red button while held, and not a pressed button.
pub fn highlighted(
    item: DispatcherItem,
    hit: bool,
    focus: Focus,
    station_open: bool,
    in_station_inside: bool,
    bfb_pressed: bool,
    pressed: bool,
) -> (r: bool)
    ensures
        r == highlighted_spec(item, hit, focus, station_open, in_station_inside, bfb_pressed, pressed),
{
    item.is_interactable() && hit && !(item == DispatcherItem::Monitor && focus == Focus::Monitor)
        && !(item == DispatcherItem::ButtonStation && station_open && in_station_inside) && !(item
        == DispatcherItem::Bfb && bfb_pressed) && !pressed
}

/// How many of `files` file icons the monitor shows: one more than the
/// levels completed.
pub fn files_shown(levels_completed: usize, files: usize) -> (r: usize)
    requires
        levels_completed < usize::MAX,
    ensures
        r == (if levels_completed + 1 < files {
            levels_completed + 1
        } else {
            files as int
        }),
{
    if levels_completed + 1 < files {
        levels_completed + 1
    } else {
        files
    }
}

/// The meme folder appears once the solver reaches level 2.
pub fn meme_folder_shown(current_level: usize) -> (r: bool)
    ensures
        r == (current_level >= 2),
{
    current_level >= 2
}


/// The office shows the solver's player (and a hover over it counts) on
/// its front side, while the dispatcher knows where the player is and has
/// not popped them.
pub fn shows_solver_player(popped: bool, side: DispatcherViewSide, knows_player: bool) -> (r: bool)
    ensures
        r == (!popped && knows_player && side == DispatcherViewSide::Front),
{
    !popped && knows_player && side == DispatcherViewSide::Front
}

} // verus!
