use dedend::dispatcher::{
    advance_novella, CrashMessage, CursorHits, DispatcherEffect, DispatcherState, Focus,
    GameDispatcher, ItemHit, NovellaSprite, NovellaState, Sound, CMD_ANGRY,
};
use dedend::fixed::SCALE;
use dedend::model::{DispatcherItem, DispatcherViewSide};
use dedend::solver::SolverState;

fn solver(level: usize, completed: usize) -> SolverState {
    SolverState {
        current_level: level,
        levels_completed: completed,
        popped: false,
        trashcan_evil: true,
        solved_bubble_code: false,
    }
}

fn office() -> DispatcherState {
    DispatcherState { door_sign_open: false, button_station_open: false, monitor_unlocked: false }
}

fn game() -> GameDispatcher {
    GameDispatcher::new(None).0
}

fn hits(items: Vec<ItemHit>) -> CursorHits {
    CursorHits {
        turn_left: false,
        turn_right: false,
        items,
        in_station_inside: false,
        in_zero_box: false,
        file: None,
        meme_prev: false,
        meme_next: false,
        meme_folder: false,
        user_icon: false,
        on_player: false,
        total_memes: 3,
    }
}

fn hit(item: DispatcherItem) -> ItemHit {
    ItemHit { item, laid_out: true, hit: true }
}

fn miss(item: DispatcherItem) -> ItemHit {
    ItemHit { item, laid_out: true, hit: false }
}

#[test]
fn new_game_in_test_mode_sets_the_solver_level() {
    let (g, sync) = GameDispatcher::new(Some(4));
    assert_eq!(g.solver_state, solver(4, 4));
    assert_eq!(sync, Some(g.solver_state));
    assert_eq!(g.client_state.active_side, DispatcherViewSide::Back);
    assert_eq!(g.client_state.focus, Focus::Whole);
    assert_eq!(g.state, office());
    assert_eq!(g.time, 0);
}

#[test]
fn new_game_starts_at_the_back_from_the_beginning() {
    let (g, sync) = GameDispatcher::new(None);
    assert_eq!(sync, None);
    assert_eq!(g.solver_state, solver(0, 0));
    assert_eq!(g.state, office());
    assert_eq!(g.client_state.active_side, DispatcherViewSide::Back);
    assert!(!g.client_state.hovering_smth);
    assert!(g.client_state.buttons_pressed.is_empty());
}

#[test]
fn login_code_unlocks_the_monitor() {
    let mut g = game();
    g.press_digit(6);
    assert!(g.client_state.login_code.is_empty());
    assert!(g.change_focus(Focus::Monitor));
    for _ in 0..4 {
        g.press_digit(6);
    }
    assert_eq!(g.client_state.login_code, vec![6, 6, 6]);
    let s = g.press_enter();
    assert!(g.state.monitor_unlocked);
    assert_eq!(s, Some(g.state));
    g.press_backspace();
    assert_eq!(g.client_state.login_code, vec![6, 6, 6]);
    assert_eq!(g.press_enter(), None);
}

#[test]
fn wrong_login_code_keeps_the_monitor_locked() {
    let mut g = game();
    g.change_focus(Focus::Monitor);
    for d in [6, 6, 5] {
        g.press_digit(d);
    }
    assert_eq!(g.press_enter(), None);
    assert!(!g.state.monitor_unlocked);
    g.press_backspace();
    g.press_digit(6);
    assert!(g.press_enter().is_some());
}

#[test]
fn unlock_announces_the_office() {
    let mut g = game();
    let s = g.unlock_monitor();
    assert!(s.monitor_unlocked);
    assert_eq!(g.state, s);
}

#[test]
fn focus_changes_only_once() {
    let mut g = game();
    assert!(!g.change_focus(Focus::Whole));
    assert!(g.change_focus(Focus::Book));
    assert!(!g.change_focus(Focus::Book));
}

#[test]
fn turning_closes_the_book() {
    let mut g = game();
    g.change_focus(Focus::Book);
    assert!(g.change_side(DispatcherViewSide::Left));
    assert_eq!(g.client_state.focus, Focus::Whole);
    assert_eq!(g.client_state.active_side, DispatcherViewSide::Left);
    g.change_focus(Focus::Monitor);
    assert!(!g.change_side(DispatcherViewSide::Right));
    assert_eq!(g.client_state.focus, Focus::Monitor);
}

#[test]
fn escape_steps_back() {
    let mut g = game();
    g.change_focus(Focus::Monitor);
    g.client_state.opened_file = Some(1);
    g.client_state.opened_meme = Some(2);
    assert!(!g.press_escape());
    assert_eq!(g.client_state.opened_file, None);
    assert_eq!(g.client_state.opened_meme, Some(2));
    assert!(!g.press_escape());
    assert_eq!(g.client_state.opened_meme, None);
    assert!(g.press_escape());
    assert_eq!(g.client_state.focus, Focus::Whole);
    assert!(!g.press_escape());
    g.change_focus(Focus::Book);
    assert!(g.press_escape());
    assert_eq!(g.client_state.focus, Focus::Whole);
}

#[test]
fn turn_arrows_turn() {
    let mut g = game();
    let mut h = hits(vec![hit(DispatcherItem::DoorSign)]);
    h.turn_left = true;
    let e = g.cursor_press(&h);
    assert_eq!(e, vec![DispatcherEffect::Play(Sound::Click)]);
    assert_eq!(g.client_state.active_side, DispatcherViewSide::Right);
    assert!(!g.state.door_sign_open);
    h.turn_left = false;
    h.turn_right = true;
    let e = g.cursor_press(&h);
    assert_eq!(e, vec![DispatcherEffect::Play(Sound::Click)]);
    assert_eq!(g.client_state.active_side, DispatcherViewSide::Back);
}

#[test]
fn turning_with_the_book_open_closes_it() {
    let mut g = game();
    g.change_focus(Focus::Book);
    let mut h = hits(vec![]);
    h.turn_right = true;
    let e = g.cursor_press(&h);
    assert_eq!(e, vec![DispatcherEffect::Play(Sound::Click), DispatcherEffect::Refocus(Focus::Whole)]);
    assert_eq!(g.client_state.active_side, DispatcherViewSide::Left);
    assert_eq!(g.client_state.focus, Focus::Whole);
}

#[test]
fn turning_with_the_novel_open_only_clicks_the_novel() {
    let mut g = game();
    g.client_state.novella = Some(NovellaState::new());
    let mut h = hits(vec![]);
    h.turn_left = true;
    h.total_memes = 0;
    h.meme_prev = true;
    let e = g.cursor_press(&h);
    assert!(e.is_empty());
    assert_eq!(g.client_state.active_side, DispatcherViewSide::Back);
}

#[test]
fn door_sign_toggles_and_announces() {
    let mut g = game();
    let e = g.cursor_press(&hits(vec![hit(DispatcherItem::Door), hit(DispatcherItem::DoorSign)]));
    assert!(g.state.door_sign_open);
    assert_eq!(
        e,
        vec![DispatcherEffect::Play(Sound::Click), DispatcherEffect::SyncDispatcherState(g.state)]
    );
}

#[test]
fn only_the_first_item_takes_the_click() {
    let mut g = game();
    let e = g.cursor_press(&hits(vec![hit(DispatcherItem::RealMouse), hit(DispatcherItem::DoorSign)]));
    assert_eq!(e, vec![DispatcherEffect::Play(Sound::Mouse)]);
    assert!(!g.state.door_sign_open);
}

#[test]
fn station_buttons_need_an_open_station() {
    let mut g = game();
    let e = g.cursor_press(&hits(vec![hit(DispatcherItem::ButtonYellow)]));
    assert!(e.is_empty());
    assert!(g.client_state.buttons_pressed.is_empty());
    let e = g.cursor_press(&hits(vec![hit(DispatcherItem::ButtonStation)]));
    assert!(g.state.button_station_open);
    assert_eq!(e.len(), 2);
    let e = g.cursor_press(&hits(vec![hit(DispatcherItem::ButtonYellow)]));
    assert_eq!(e, vec![DispatcherEffect::Play(Sound::Kick)]);
    assert_eq!(g.client_state.buttons_pressed, vec![(DispatcherItem::ButtonYellow, 0)]);
    g.cursor_press(&hits(vec![hit(DispatcherItem::ButtonYellow)]));
    assert_eq!(g.client_state.buttons_pressed.len(), 1);
    let mut inside = hits(vec![hit(DispatcherItem::ButtonStation), hit(DispatcherItem::ButtonCyan)]);
    inside.in_station_inside = true;
    let e = g.cursor_press(&inside);
    assert_eq!(e, vec![DispatcherEffect::Play(Sound::Button)]);
    assert!(g.state.button_station_open);
}

#[test]
fn big_red_button_starts_its_clock_once() {
    let mut g = game();
    let e = g.cursor_press(&hits(vec![hit(DispatcherItem::Bfb)]));
    assert_eq!(e, vec![DispatcherEffect::Play(Sound::Button)]);
    assert_eq!(g.client_state.bfb_pressed, Some(0));
    g.client_state.bfb_pressed = Some(5);
    g.cursor_press(&hits(vec![hit(DispatcherItem::Bfb)]));
    assert_eq!(g.client_state.bfb_pressed, Some(5));
}

#[test]
fn cactus_fades_the_music() {
    let mut g = game();
    let e = g.cursor_press(&hits(vec![hit(DispatcherItem::Cactus)]));
    assert_eq!(e, vec![DispatcherEffect::Play(Sound::Cactus), DispatcherEffect::FadeMusic]);
}

#[test]
fn monitor_and_book_take_the_focus() {
    let mut g = game();
    let e = g.cursor_press(&hits(vec![hit(DispatcherItem::Monitor)]));
    assert_eq!(g.client_state.focus, Focus::Monitor);
    assert_eq!(
        e,
        vec![DispatcherEffect::Play(Sound::Click), DispatcherEffect::Refocus(Focus::Monitor)]
    );
    // A click beside the locked monitor leaves it.
    let e = g.cursor_press(&hits(vec![miss(DispatcherItem::Monitor)]));
    assert_eq!(g.client_state.focus, Focus::Whole);
    assert_eq!(e, vec![DispatcherEffect::Refocus(Focus::Whole)]);
    let e = g.cursor_press(&hits(vec![hit(DispatcherItem::Book)]));
    assert_eq!(g.client_state.focus, Focus::Book);
    assert_eq!(e, vec![DispatcherEffect::Play(Sound::Book), DispatcherEffect::Refocus(Focus::Book)]);
    g.cursor_press(&hits(vec![miss(DispatcherItem::Book)]));
    assert_eq!(g.client_state.focus, Focus::Whole);
}

#[test]
fn click_on_the_monitor_keeps_it() {
    let mut g = game();
    g.change_focus(Focus::Monitor);
    let mut h = hits(vec![miss(DispatcherItem::Table), miss(DispatcherItem::Monitor)]);
    h.user_icon = true;
    let e = g.cursor_press(&h);
    assert_eq!(e, vec![DispatcherEffect::Play(Sound::Click)]);
    assert_eq!(g.client_state.focus, Focus::Monitor);
    // Without a hitbox for the monitor, the empty box decides.
    let mut z = hits(vec![]);
    z.in_zero_box = true;
    g.cursor_press(&z);
    assert_eq!(g.client_state.focus, Focus::Monitor);
    g.cursor_press(&hits(vec![]));
    assert_eq!(g.client_state.focus, Focus::Whole);
}

#[test]
fn files_open_up_to_the_current_level() {
    let mut g = game();
    g.solver_state = solver(4, 4);
    g.state.monitor_unlocked = true;
    g.change_focus(Focus::Monitor);
    let mut h = hits(vec![]);
    h.file = Some(5);
    let e = g.cursor_press(&h);
    assert!(e.is_empty());
    assert_eq!(g.client_state.opened_file, None);
    h.file = Some(2);
    let e = g.cursor_press(&h);
    assert_eq!(e, vec![DispatcherEffect::Play(Sound::Click)]);
    assert_eq!(g.client_state.opened_file, Some(2));
    assert!(g.client_state.novella.is_none());
    h.file = Some(4);
    g.cursor_press(&h);
    assert_eq!(g.client_state.novella, Some(NovellaState::new()));
    assert_eq!(g.client_state.focus, Focus::Monitor);
}

#[test]
fn memes_go_round() {
    let mut g = game();
    g.state.monitor_unlocked = true;
    g.change_focus(Focus::Monitor);
    let mut h = hits(vec![]);
    h.meme_folder = true;
    g.cursor_press(&h);
    assert_eq!(g.client_state.opened_meme, Some(0));
    h.meme_folder = false;
    h.meme_prev = true;
    g.cursor_press(&h);
    assert_eq!(g.client_state.opened_meme, Some(2));
    h.meme_prev = false;
    h.meme_next = true;
    g.cursor_press(&h);
    assert_eq!(g.client_state.opened_meme, Some(0));
    g.cursor_press(&h);
    assert_eq!(g.client_state.opened_meme, Some(1));
}

#[test]
fn clicking_the_player_pops_it() {
    let mut g = game();
    let mut h = hits(vec![]);
    h.on_player = true;
    let e = g.cursor_press(&h);
    assert!(e.is_empty());
    assert!(!g.solver_state.popped);
    g.change_side(DispatcherViewSide::Front);
    let e = g.cursor_press(&h);
    assert!(g.solver_state.popped);
    assert_eq!(g.client_state.explosion, Some(0));
    assert_eq!(
        e,
        vec![DispatcherEffect::SyncSolverState(g.solver_state), DispatcherEffect::ExplosionAtPlayer]
    );
}

#[test]
fn clicks_hurry_the_novel() {
    let mut g = game();
    let mut n = NovellaState::new();
    g.client_state.novella = Some(n);
    let e = g.cursor_press(&hits(vec![hit(DispatcherItem::DoorSign)]));
    assert!(e.is_empty());
    assert!(!g.state.door_sign_open);
    n.fast = true;
    assert_eq!(g.client_state.novella, Some(n));
    g.cursor_press(&hits(vec![]));
    n.next_char_in = 0;
    assert_eq!(g.client_state.novella, Some(n));
    g.client_state.novella = Some(NovellaState { is_line_done: true, character: 7, ..n });
    g.cursor_press(&hits(vec![]));
    let next = g.client_state.novella.unwrap();
    assert_eq!(next.line, 1);
    assert_eq!(next.character, 0);
    assert!(!next.fast && !next.is_line_done);
}

#[test]
fn big_red_button_crashes_the_solver_after_a_second() {
    let mut g = game();
    g.client_state.bfb_pressed = Some(0);
    let e = g.update_buttons(SCALE);
    assert!(e.is_empty());
    assert_eq!(g.client_state.bfb_pressed, Some(SCALE));
    let e = g.update_buttons(1);
    assert_eq!(e, vec![DispatcherEffect::CrashOther(CrashMessage::BigRedButton)]);
    assert_eq!(g.client_state.bfb_pressed, None);
    assert_eq!(CrashMessage::BigRedButton.text(), "твой друг нажал на большую красную кнопку");
}

#[test]
fn yellow_button_completes_the_first_level() {
    let mut g = game();
    g.state.monitor_unlocked = true;
    g.client_state.buttons_pressed = vec![(DispatcherItem::ButtonYellow, 900_000)];
    let e = g.update_buttons(200_000);
    assert_eq!(g.solver_state.levels_completed, 1);
    assert_eq!(e, vec![DispatcherEffect::SyncSolverState(g.solver_state)]);
    assert!(g.client_state.buttons_pressed.is_empty());
}

#[test]
fn salad_button_crashes_too_early() {
    let mut g = game();
    g.state.monitor_unlocked = true;
    g.client_state.buttons_pressed =
        vec![(DispatcherItem::ButtonSalad, 999_999), (DispatcherItem::ButtonPink, 0)];
    let e = g.update_buttons(2);
    assert_eq!(e, vec![DispatcherEffect::CrashOther(CrashMessage::SaladButton)]);
    assert_eq!(g.client_state.buttons_pressed, vec![(DispatcherItem::ButtonPink, 2)]);
    assert_eq!(CrashMessage::SaladButton.text(), "твой друг нажал на салатовую кнопку");
}

#[test]
fn button_released_at_exactly_a_second_does_nothing() {
    let mut g = game();
    g.state.monitor_unlocked = true;
    g.client_state.buttons_pressed = vec![(DispatcherItem::ButtonYellow, 500_000)];
    let e = g.update_buttons(500_000);
    assert!(e.is_empty());
    assert!(g.client_state.buttons_pressed.is_empty());
    assert_eq!(g.solver_state.levels_completed, 0);
}

#[test]
fn green_button_tames_the_trashcan() {
    let mut g = game();
    g.solver_state = solver(2, 2);
    g.client_state.buttons_pressed = vec![(DispatcherItem::ButtonGreen, SCALE)];
    let e = g.update_buttons(1);
    assert!(!g.solver_state.trashcan_evil);
    assert_eq!(e, vec![DispatcherEffect::SyncSolverState(g.solver_state)]);
}

#[test]
fn cyan_button_completes_the_boss_level() {
    let mut g = game();
    g.solver_state = solver(4, 4);
    g.client_state.buttons_pressed = vec![(DispatcherItem::ButtonCyan, SCALE)];
    g.update_buttons(1);
    assert_eq!(g.solver_state.levels_completed, 5);
}

#[test]
fn five_buttons_pop_the_bubbles() {
    let mut g = game();
    g.solver_state = solver(3, 3);
    for k in 0..4 {
        g.client_state.buttons_pressed = vec![(DispatcherItem::ButtonPink, SCALE)];
        let e = g.update_buttons(1);
        assert!(e.is_empty());
        assert_eq!(g.client_state.bubble_buttons, k + 1);
    }
    g.client_state.buttons_pressed = vec![(DispatcherItem::ButtonBlue, SCALE)];
    let e = g.update_buttons(1);
    assert_eq!(g.client_state.bubble_buttons, 5);
    assert_eq!(g.solver_state.levels_completed, 4);
    assert_eq!(e, vec![DispatcherEffect::SyncSolverState(g.solver_state)]);
}

#[test]
fn popped_explosion_ends_the_game() {
    let mut g = game();
    g.client_state.explosion = Some(900_000);
    g.update(50_000, None);
    assert!(!g.ends_game(100_000));
    assert_eq!(g.time, 50_000);
    assert_eq!(g.client_state.explosion, Some(950_000));
    g.update(100_000, None);
    assert_eq!(g.client_state.explosion, Some(1_050_000));
    g.client_state.explosion = Some(950_000);
    g.solver_state.popped = true;
    assert!(g.ends_game(100_000));
    assert!(!g.ends_game(50_000));
}

#[test]
fn novel_shows_characters_in_time() {
    let n = NovellaState::new();
    let a = advance_novella(n, "abc", 200_000);
    assert_eq!(a.character, 1);
    assert_eq!(a.next_char_in, 50_000);
    assert!(!a.is_line_done);
    let b = advance_novella(a, "abc", 150_000);
    assert_eq!(b.character, 4);
    assert_eq!(b.next_char_in, 50_000);
    assert!(b.is_line_done);
    let fast = advance_novella(NovellaState { fast: true, ..n }, "abcdef", 240_000);
    assert_eq!(fast.character, 3);
    assert_eq!(fast.next_char_in, 20_000);
}

#[test]
fn novel_commands_switch_the_portrait() {
    let n = NovellaState::new();
    let a = advance_novella(n, CMD_ANGRY, 0);
    assert_eq!(a.sprite, NovellaSprite::Angry);
    assert_eq!(a.line, 1);
    let b = advance_novella(n, "/спрайт_удивленный", 0);
    assert_eq!(b.sprite, NovellaSprite::Surprised);
    let c = advance_novella(NovellaState { sprite: NovellaSprite::Angry, ..n }, "/спрайт_нейтральный", 0);
    assert_eq!(c.sprite, NovellaSprite::Neutral);
    let d = advance_novella(n, "обычная строка", 0);
    assert_eq!(d.line, 0);
    assert_eq!(d.sprite, NovellaSprite::Neutral);
}

#[test]
fn novel_closes_at_the_end_of_the_text() {
    let mut g = game();
    g.client_state.novella = Some(NovellaState::new());
    g.update(10, Some("привет"));
    assert!(g.client_state.novella.is_some());
    g.update(10, None);
    assert!(g.client_state.novella.is_none());
}

#[test]
fn frame_checks_match_the_counters() {
    let mut g = game();
    assert!(g.buttons_can_advance(SCALE));
    g.client_state.bubble_buttons = usize::MAX;
    g.solver_state.levels_completed = 3;
    g.client_state.buttons_pressed = vec![(DispatcherItem::ButtonBlue, SCALE)];
    assert!(!g.buttons_can_advance(1));
    assert!(g.buttons_can_advance(0));
    let mut n = NovellaState::new();
    assert!(dedend::dispatcher::novella_can_advance(&n, "привет", 10));
    n.character = usize::MAX;
    assert!(dedend::dispatcher::novella_can_advance(&n, "привет", 10));
    assert!(!dedend::dispatcher::novella_can_advance(&n, "привет", SCALE));
    n.character = 0;
    n.line = usize::MAX;
    assert!(!dedend::dispatcher::novella_can_advance(&n, CMD_ANGRY, 10));
    assert!(dedend::dispatcher::novella_can_advance(&n, "привет", 10));
}

#[test]
fn clicks_that_would_run_over_are_refused_ahead() {
    let mut g = game();
    let mut h = hits(vec![]);
    assert!(g.click_can_go(&h));
    g.state.monitor_unlocked = true;
    g.change_focus(Focus::Monitor);
    g.client_state.opened_meme = Some(0);
    h.meme_prev = true;
    h.total_memes = 0;
    assert!(!g.click_can_go(&h));
    h.turn_left = true;
    assert!(g.click_can_go(&h));
    h.turn_left = false;
    h.meme_prev = false;
    h.meme_next = true;
    g.client_state.opened_meme = Some(usize::MAX);
    assert!(!g.click_can_go(&h));
    h.file = Some(0);
    assert!(g.click_can_go(&h));
    let mut n = NovellaState::new();
    n.is_line_done = true;
    n.line = usize::MAX;
    g.client_state.novella = Some(n);
    assert!(!g.click_can_go(&hits(vec![])));
}
