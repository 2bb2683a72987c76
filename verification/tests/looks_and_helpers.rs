use dedend::collections::{remove_indices, sort_indices};
use dedend::dispatcher::{DispatcherState, Focus};
use dedend::fixed::{clamp_abs, fx_mul, sat_add, sat_sub, LIMIT, SCALE};
use dedend::look::{
    button_color, draws_bounds, draws_bubble_door, explosion_frame, files_shown, highlighted,
    item_look, jump_frame, meme_folder_shown, office_sprite, player_frame, shows_solver_player,
    solver_background,
    ItemLook, OfficeSprite, SolverBackground,
};
use dedend::model::{DispatcherItem, DispatcherViewSide};
use dedend::solver::{SolverItemKind, SolverState};

#[test]
fn fixed_point_arithmetic() {
    assert_eq!(fx_mul(1_500_000, 2_000_000), 3_000_000);
    assert_eq!(fx_mul(-1_500_000, 3), -4);
    assert_eq!(fx_mul(LIMIT, LIMIT), LIMIT);
    assert_eq!(sat_add(LIMIT, 1), LIMIT);
    assert_eq!(sat_sub(-LIMIT, 1), -LIMIT);
    assert_eq!(clamp_abs(5, 3), 3);
    assert_eq!(clamp_abs(-5, 3), -3);
    assert_eq!(clamp_abs(2, 3), 2);
    assert_eq!(clamp_abs(0, -3), -3);
    assert_eq!(SCALE, 1_000_000);
}

#[test]
fn sorting_indices() {
    assert_eq!(sort_indices(&vec![3, 1, 3, 0]), vec![0, 1, 3, 3]);
    assert_eq!(sort_indices(&vec![]), Vec::<usize>::new());
}

#[test]
fn removing_by_swap() {
    let mut v = vec![10, 11, 12, 13, 14];
    remove_indices(&mut v, &vec![0, 2]);
    assert_eq!(v, vec![13, 11, 14]);
    let mut w = vec![1, 2];
    remove_indices(&mut w, &vec![]);
    assert_eq!(w, vec![1, 2]);
}

#[test]
fn backgrounds_by_level() {
    assert_eq!(solver_background(0), Some(SolverBackground::Level1));
    assert_eq!(solver_background(1), None);
    assert_eq!(solver_background(2), Some(SolverBackground::GreenHint));
    assert_eq!(solver_background(3), Some(SolverBackground::BubbleTea));
    assert_eq!(solver_background(4), None);
    assert_eq!(solver_background(5), Some(SolverBackground::Dispatcher));
    assert!(draws_bounds(4));
    assert!(!draws_bounds(5));
}

#[test]
fn bubble_door_until_solved() {
    let mut s = SolverState {
        current_level: 3,
        levels_completed: 3,
        popped: false,
        trashcan_evil: false,
        solved_bubble_code: false,
    };
    assert!(draws_bubble_door(&s, true));
    assert!(!draws_bubble_door(&s, false));
    s.solved_bubble_code = true;
    assert!(!draws_bubble_door(&s, true));
}

#[test]
fn item_looks() {
    assert_eq!(item_look(SolverItemKind::Recycle, true, 0, 4, 4), ItemLook::Hidden);
    assert_eq!(item_look(SolverItemKind::Recycle, false, 0, 4, 4), ItemLook::Plain);
    assert_eq!(item_look(SolverItemKind::Trashcan, true, 0, 4, 4), ItemLook::EvilTrashcan);
    assert_eq!(item_look(SolverItemKind::Fish, false, 750_000, 4, 4), ItemLook::Fish(2));
    assert_eq!(item_look(SolverItemKind::Fish, false, 1_500_000, 4, 4), ItemLook::Fish(0));
    assert_eq!(item_look(SolverItemKind::Fish, false, -5, 4, 4), ItemLook::Fish(0));
    assert_eq!(item_look(SolverItemKind::CinderBlock, false, 699_999, 7, 7), ItemLook::Excalibur(6));
}

#[test]
fn player_frames() {
    assert_eq!(player_frame(0, 500_000, 4), 0);
    assert_eq!(player_frame(-3, 500_000, 4), 0);
    assert_eq!(player_frame(1_200_000, 500_000, 4), 2);
    assert_eq!(player_frame(2_100_000, 500_000, 4), 0);
    assert_eq!(jump_frame(1), 0);
    assert_eq!(jump_frame(0), 1);
}

#[test]
fn explosion_frames() {
    assert_eq!(explosion_frame(0, 8), Some(0));
    assert_eq!(explosion_frame(500_000, 8), Some(4));
    assert_eq!(explosion_frame(999_999, 8), Some(7));
    assert_eq!(explosion_frame(1_000_000, 8), None);
    assert_eq!(explosion_frame(-1, 8), Some(0));
}

#[test]
fn office_sprites() {
    let mut s = DispatcherState { door_sign_open: false, button_station_open: false, monitor_unlocked: false };
    assert_eq!(office_sprite(DispatcherItem::DoorSign, &s, false, false), Some(OfficeSprite::SignClosed));
    assert_eq!(office_sprite(DispatcherItem::ButtonPink, &s, false, false), None);
    assert_eq!(office_sprite(DispatcherItem::Bfb, &s, true, false), Some(OfficeSprite::BigButtonPressed));
    s.button_station_open = true;
    assert_eq!(office_sprite(DispatcherItem::ButtonPink, &s, false, true), Some(OfficeSprite::ButtonPressed));
    assert_eq!(office_sprite(DispatcherItem::ButtonStation, &s, false, false), Some(OfficeSprite::StationOpen));
    assert_eq!(button_color(DispatcherItem::ButtonSalad), Some((0xEC, 0xFF, 0x00)));
    assert_eq!(button_color(DispatcherItem::Tea), None);
}

#[test]
fn highlights() {
    assert!(highlighted(DispatcherItem::Cactus, true, Focus::Whole, false, false, false, false));
    assert!(!highlighted(DispatcherItem::Tea, true, Focus::Whole, false, false, false, false));
    assert!(!highlighted(DispatcherItem::Monitor, true, Focus::Monitor, false, false, false, false));
    assert!(!highlighted(DispatcherItem::ButtonStation, true, Focus::Whole, true, true, false, false));
    assert!(highlighted(DispatcherItem::ButtonStation, true, Focus::Whole, true, false, false, false));
    assert!(!highlighted(DispatcherItem::Bfb, true, Focus::Whole, false, false, true, false));
    assert!(!highlighted(DispatcherItem::ButtonCyan, true, Focus::Whole, true, false, false, true));
    assert!(!highlighted(DispatcherItem::Cactus, false, Focus::Whole, false, false, false, false));
}

#[test]
fn monitor_contents() {
    assert_eq!(files_shown(0, 5), 1);
    assert_eq!(files_shown(3, 5), 4);
    assert_eq!(files_shown(7, 5), 5);
    assert!(!meme_folder_shown(1));
    assert!(meme_folder_shown(2));
}

#[test]
fn interactable_items() {
    let all = [
        DispatcherItem::Door, DispatcherItem::DoorSign, DispatcherItem::Table, DispatcherItem::Monitor,
        DispatcherItem::RealMouse, DispatcherItem::Cactus, DispatcherItem::Book, DispatcherItem::TheSock,
        DispatcherItem::ButtonStation, DispatcherItem::Bfb, DispatcherItem::ButtonYellow,
        DispatcherItem::ButtonGreen, DispatcherItem::ButtonSalad, DispatcherItem::ButtonPink,
        DispatcherItem::ButtonBlue, DispatcherItem::ButtonWhite, DispatcherItem::ButtonPurple,
        DispatcherItem::ButtonOrange, DispatcherItem::ButtonCyan, DispatcherItem::Tea,
    ];
    let passive: Vec<DispatcherItem> = all.iter().copied().filter(|i| !i.is_interactable()).collect();
    assert_eq!(passive, vec![DispatcherItem::Door, DispatcherItem::Table, DispatcherItem::Tea]);
}

#[test]
fn the_solver_player_shows_only_on_the_front() {
    assert!(shows_solver_player(false, DispatcherViewSide::Front, true));
    assert!(!shows_solver_player(false, DispatcherViewSide::Back, true));
    assert!(!shows_solver_player(true, DispatcherViewSide::Front, true));
    assert!(!shows_solver_player(false, DispatcherViewSide::Front, false));
}

#[test]
fn every_button_has_its_tint() {
    assert_eq!(button_color(DispatcherItem::ButtonYellow), Some((0xFF, 0xFF, 0x00)));
    assert_eq!(button_color(DispatcherItem::ButtonGreen), Some((0x00, 0xFF, 0x00)));
    assert_eq!(button_color(DispatcherItem::ButtonSalad), Some((0xEC, 0xFF, 0x00)));
    assert_eq!(button_color(DispatcherItem::ButtonPink), Some((0xFF, 0xC0, 0xCB)));
    assert_eq!(button_color(DispatcherItem::ButtonBlue), Some((0x00, 0x22, 0xEE)));
    assert_eq!(button_color(DispatcherItem::ButtonWhite), Some((0xFF, 0xFF, 0xFF)));
    assert_eq!(button_color(DispatcherItem::ButtonPurple), Some((0x80, 0x00, 0x80)));
    assert_eq!(button_color(DispatcherItem::ButtonOrange), Some((0xFF, 0xA5, 0x00)));
    assert_eq!(button_color(DispatcherItem::ButtonCyan), Some((0x00, 0xEE, 0xEE)));
    assert_eq!(button_color(DispatcherItem::Bfb), None);
}
