use dedend::collections::remove_indices;
use dedend::fixed::SCALE;
use dedend::player::{PlayerAnimationState, PlayerControl, PlayerState, SolverRules, Vec2};
use dedend::solver::{
    bursts_ball, GameSolver, MusicCue, ProjectileHit, SolverItem, SolverItemKind, SolverState, MSG_EXPLODED,
    MSG_FISH, MSG_GRANDPA_TRASHED, MSG_POPPED, REBOOT_TIME,
};

fn state(level: usize, completed: usize) -> SolverState {
    SolverState {
        current_level: level,
        levels_completed: completed,
        popped: false,
        trashcan_evil: true,
        solved_bubble_code: false,
    }
}

fn game(level: usize, completed: usize) -> GameSolver<u32> {
    let mut g = GameSolver::new(0, None, None).0;
    g.state = state(level, completed);
    g
}

fn item(kind: SolverItemKind, id: u32) -> SolverItem<u32> {
    SolverItem { kind, collider: id, can_pickup: true, pushable: false, has_gravity: false }
}

fn rules() -> SolverRules {
    SolverRules {
        gravity: Vec2 { x: 0, y: -10_000_000 },
        buffer_time: 100_000,
        coyote_time: 100_000,
        move_speed: 5_000_000,
        acceleration_ground: 50_000_000,
        acceleration_air: 20_000_000,
        deceleration_ground: 40_000_000,
        deceleration_air: 10_000_000,
        jump_push: 1_000_000,
        jump_strength: 7_000_000,
        fall_multiplier: 2_000_000,
        low_multiplier: 2_000_000,
        free_fall_speed: 20_000_000,
    }
}

#[test]
fn exit_opens_once_the_level_is_completed() {
    assert!(!state(1, 1).is_exit_open());
    assert!(state(1, 2).is_exit_open());
}

#[test]
fn test_mode_starts_on_the_given_level() {
    let (g, sync, music) = GameSolver::new(5u32, None, Some(3));
    assert!(g.test);
    assert_eq!(g.state.current_level, 3);
    assert_eq!(g.state.levels_completed, 3);
    assert_eq!(sync, Some(g.state));
    assert_eq!(g.client_state.player.collider, 5);
    assert_eq!(g.client_state.fish_cooldown, SCALE);
    assert_eq!(music, None);
    let (g, sync, music) = GameSolver::new(5u32, None, None);
    assert!(!g.test);
    assert_eq!(sync, None);
    assert_eq!(music, None);
    assert_eq!(g.state, state(0, 0));
    assert_eq!(g.state, SolverState::new());
}

#[test]
fn new_game_loads_its_level() {
    let items = vec![item(SolverItemKind::Fish, 1), item(SolverItemKind::CinderBlock, 2)];
    let (g, sync, music) = GameSolver::new(7u32, Some(items), Some(4));
    assert_eq!(sync, Some(state(4, 4)));
    assert_eq!(music, Some(MusicCue::Boss));
    assert_eq!(g.client_state.items.len(), 2);
    assert_eq!(g.client_state.items[1].collider, 2);
    assert_eq!(g.client_state.player.collider, 7);
    assert_eq!(g.client_state.dedend, None);
}

#[test]
fn bubble_code_takes_four_digits_on_its_level() {
    let mut g = game(3, 3);
    for d in [4, 2, 1, 3, 9] {
        g.press_digit(d);
    }
    assert_eq!(g.client_state.bubble_code, vec![4, 2, 1, 3]);
    g.press_backspace();
    assert_eq!(g.client_state.bubble_code, vec![4, 2, 1]);
    let mut other = game(2, 2);
    other.press_digit(4);
    other.press_backspace();
    assert!(other.client_state.bubble_code.is_empty());
}

#[test]
fn right_bubble_code_solves_the_puzzle() {
    let mut g = game(3, 3);
    for d in [4, 2, 1, 3] {
        g.press_digit(d);
    }
    assert!(g.press_enter());
    assert!(g.state.solved_bubble_code);
    assert!(!g.submit_bubble_code());
    g.press_backspace();
    assert_eq!(g.client_state.bubble_code, vec![4, 2, 1, 3]);
}

#[test]
fn wrong_bubble_code_does_nothing() {
    let mut g = game(3, 3);
    for d in [1, 2, 3, 4] {
        g.press_digit(d);
    }
    assert!(!g.press_enter());
    assert!(!g.state.solved_bubble_code);
    let mut elsewhere = game(2, 2);
    elsewhere.client_state.bubble_code = vec![4, 2, 1, 3];
    assert!(!elsewhere.press_enter());
    assert!(elsewhere.submit_bubble_code());
}

#[test]
fn reload_resets_the_level_and_picks_music() {
    let mut g = game(4, 4);
    g.client_state.bubble_code = vec![1];
    g.client_state.explosion = Some(3);
    g.client_state.player.velocity = Vec2 { x: 5, y: 5 };
    let cue = g.reload_level(9, Some(vec![item(SolverItemKind::Fish, 1)]));
    assert_eq!(cue, Some(MusicCue::Boss));
    assert_eq!(g.client_state.items.len(), 1);
    assert!(g.client_state.bubble_code.is_empty());
    assert_eq!(g.client_state.explosion, None);
    assert_eq!(g.client_state.player.collider, 9);
    assert_eq!(g.client_state.player.velocity, Vec2 { x: 0, y: 0 });
    let mut later = game(5, 5);
    assert_eq!(later.reload_level(0, None), Some(MusicCue::Dispatcher));
    assert!(later.client_state.items.is_empty());
    let mut early = game(2, 2);
    assert_eq!(early.reload_level(0, None), None);
}

#[test]
fn crash_without_reboot_halts_for_good() {
    let mut g = game(1, 1);
    g.game_crash(false, "конец".to_string());
    let tick = g.update(10 * SCALE, false, 0, None);
    assert!(tick.halted);
    assert!(!tick.reload);
    assert_eq!(g.client_state.dedend, Some((None, "конец".to_string())));
}

#[test]
fn crash_with_reboot_reloads_after_five_seconds() {
    let mut g = game(1, 1);
    g.game_crash(true, "x".to_string());
    assert_eq!(REBOOT_TIME, 5 * SCALE);
    let tick = g.update(3 * SCALE, false, 0, None);
    assert!(tick.halted && !tick.reload);
    g.client_state.bubble_code = vec![1];
    let tick = g.update(2 * SCALE, false, 8, Some(vec![item(SolverItemKind::Recycle, 3)]));
    assert!(tick.halted && tick.reload);
    assert_eq!(tick.music, None);
    assert_eq!(g.client_state.dedend, None);
    assert_eq!(g.client_state.time, 0);
    assert_eq!(g.client_state.player.collider, 8);
    assert_eq!(g.client_state.items.len(), 1);
    assert!(g.client_state.bubble_code.is_empty());
    assert_eq!(g.state, state(1, 1));
}

#[test]
fn popped_player_explodes_and_crashes() {
    let mut g = game(5, 5);
    g.state.popped = true;
    let tick = g.update(100_000, false, 0, None);
    assert!(tick.explosion_started);
    assert!(!tick.halted);
    assert_eq!(g.client_state.explosion, Some(100_000));
    let tick = g.update(500_000, false, 0, None);
    assert!(tick.halted);
    match &g.client_state.dedend {
        Some((None, m)) => assert_eq!(m, MSG_POPPED),
        other => panic!("unexpected {:?}", other),
    }
}

#[test]
fn standing_near_an_explosion_kills() {
    let mut g = game(1, 1);
    g.client_state.explosion = Some(400_000);
    let tick = g.update(200_000, true, 0, None);
    assert!(tick.halted);
    match &g.client_state.dedend {
        Some((Some(t), m)) => {
            assert_eq!(*t, REBOOT_TIME);
            assert_eq!(m, MSG_EXPLODED);
        }
        other => panic!("unexpected {:?}", other),
    }
}

#[test]
fn explosion_far_away_completes_level_one() {
    let mut g = game(1, 1);
    g.client_state.explosion = Some(900_000);
    let tick = g.update(200_000, false, 0, None);
    assert!(!tick.halted);
    assert_eq!(g.client_state.explosion, None);
    assert_eq!(g.state.levels_completed, 2);
    assert_eq!(tick.syncs, vec![g.state]);
    let mut done = game(1, 2);
    done.client_state.explosion = Some(900_000);
    let tick = done.update(200_000, false, 0, None);
    assert_eq!(done.state.levels_completed, 2);
    assert!(tick.syncs.is_empty());
}

#[test]
fn grandpa_drills_through_after_a_second() {
    let mut g = game(2, 2);
    g.client_state.grandpa_drill = Some(900_000);
    let tick = g.update(50_000, false, 0, None);
    assert!(!tick.drill_finished);
    let tick = g.update(100_000, false, 0, None);
    assert!(tick.drill_finished);
    assert_eq!(g.state.levels_completed, 3);
    assert_eq!(tick.syncs.len(), 1);
    let tick = g.update(100_000, false, 0, None);
    assert!(!tick.drill_finished);
    assert_eq!(g.client_state.grandpa_drill, Some(1_150_000));
}

#[test]
fn grandson_spins_one_turn() {
    let mut g = game(2, 2);
    g.client_state.grandson_spin = Some(0);
    g.update(500_000, false, 0, None);
    assert_eq!(g.client_state.grandson_spin, Some(180_000_000));
    g.update(500_000, false, 0, None);
    assert_eq!(g.client_state.grandson_spin, Some(360_000_000));
    g.update(1, false, 0, None);
    assert_eq!(g.client_state.grandson_spin, None);
}

#[test]
fn projectile_reaching_the_player_crashes() {
    let mut g = game(4, 4);
    let hits = vec![
        ProjectileHit { hits_wall: true, hits_player: false },
        ProjectileHit { hits_wall: false, hits_player: true },
        ProjectileHit { hits_wall: true, hits_player: true },
    ];
    let r = g.update_projectiles(&hits);
    assert!(r.crashed);
    assert!(r.removed.is_empty());
    match &g.client_state.dedend {
        Some((Some(_), m)) => assert_eq!(m, MSG_FISH),
        other => panic!("unexpected {:?}", other),
    }
}

#[test]
fn projectiles_hitting_walls_go() {
    let mut g = game(4, 4);
    let hits = vec![
        ProjectileHit { hits_wall: true, hits_player: true },
        ProjectileHit { hits_wall: false, hits_player: false },
        ProjectileHit { hits_wall: true, hits_player: false },
    ];
    let r = g.update_projectiles(&hits);
    assert!(!r.crashed);
    assert_eq!(r.removed, vec![0, 2]);
    let mut projectiles = vec!['a', 'b', 'c'];
    remove_indices(&mut projectiles, &r.removed);
    assert_eq!(projectiles, vec!['b']);
}

#[test]
fn fish_shoot_on_the_boss_level() {
    let mut g = game(4, 4);
    g.client_state.items = vec![item(SolverItemKind::Fish, 0), item(SolverItemKind::Trashcan, 1)];
    g.client_state.fish_cooldown = 100_000;
    let touching = vec![vec![false; 2]; 2];
    let r = g.update_items(50_000, &touching);
    assert!(r.shots.is_empty());
    assert_eq!(g.client_state.fish_cooldown, 50_000);
    let r = g.update_items(60_000, &touching);
    assert_eq!(r.shots, vec![0]);
    assert_eq!(g.client_state.fish_cooldown, 690_000);
    let mut calm = game(4, 5);
    calm.client_state.items = vec![item(SolverItemKind::Fish, 0)];
    calm.client_state.fish_cooldown = 1;
    let r = calm.update_items(50_000, &vec![vec![false]]);
    assert!(r.shots.is_empty());
    assert_eq!(calm.client_state.fish_cooldown, 1);
}

#[test]
fn fish_and_cinder_block_explode() {
    let mut g = game(1, 1);
    g.client_state.items = vec![
        item(SolverItemKind::Grandpa, 10),
        item(SolverItemKind::CinderBlock, 11),
        item(SolverItemKind::Trashcan, 12),
        item(SolverItemKind::Fish, 13),
    ];
    let mut touching = vec![vec![false; 4]; 4];
    touching[1][3] = true;
    let r = g.update_items(0, &touching);
    assert_eq!(r.removed, vec![1, 3]);
    assert_eq!(r.exploded_at, Some(1));
    assert_eq!(g.client_state.explosion, Some(0));
    let left: Vec<u32> = g.client_state.items.iter().map(|i| i.collider).collect();
    assert_eq!(left, vec![10, 12]);
}

#[test]
fn pair_not_touching_does_not_explode() {
    let mut g = game(1, 1);
    g.client_state.items = vec![item(SolverItemKind::CinderBlock, 1), item(SolverItemKind::Fish, 2)];
    let r = g.update_items(0, &vec![vec![false; 2]; 2]);
    assert!(r.removed.is_empty());
    assert_eq!(r.exploded_at, None);
    assert_eq!(g.client_state.explosion, None);
    assert_eq!(g.client_state.items.len(), 2);
}

fn with_pickup(g: &mut GameSolver<u32>) {
    g.player_control = PlayerControl { pickup: true, ..PlayerControl::new() };
}

#[test]
fn dropping_the_sign_on_the_grandson_spins_him() {
    let mut g = game(2, 2);
    g.client_state.items = vec![item(SolverItemKind::Grandson, 1)];
    g.client_state.picked_up_item = Some(item(SolverItemKind::Recycle, 2));
    with_pickup(&mut g);
    assert!(!g.player_pickup(&vec![true]));
    assert_eq!(g.client_state.grandson_spin, Some(0));
    assert_eq!(g.client_state.items.len(), 2);
    assert!(g.client_state.picked_up_item.is_none());
}

#[test]
fn dropping_the_sign_on_grandpa_starts_the_drill() {
    let mut g = game(2, 2);
    g.client_state.items = vec![item(SolverItemKind::Grandpa, 1)];
    g.client_state.picked_up_item = Some(item(SolverItemKind::Recycle, 2));
    with_pickup(&mut g);
    assert!(!g.player_pickup(&vec![true]));
    assert_eq!(g.client_state.grandpa_drill, Some(0));
}

#[test]
fn grandpa_in_the_trashcan_crashes() {
    let mut g = game(2, 2);
    g.client_state.items = vec![item(SolverItemKind::Trashcan, 1), item(SolverItemKind::Trashcan, 3)];
    g.client_state.picked_up_item = Some(item(SolverItemKind::Grandpa, 2));
    with_pickup(&mut g);
    assert!(g.player_pickup(&vec![true, true]));
    assert_eq!(g.client_state.items.len(), 2);
    assert!(g.client_state.picked_up_item.is_none());
    match &g.client_state.dedend {
        Some((Some(_), m)) => assert_eq!(m, MSG_GRANDPA_TRASHED),
        other => panic!("unexpected {:?}", other),
    }
}

#[test]
fn grandson_in_the_trashcan_disappears() {
    let mut g = game(2, 2);
    g.client_state.items = vec![item(SolverItemKind::Trashcan, 1)];
    g.client_state.picked_up_item = Some(item(SolverItemKind::Grandson, 2));
    with_pickup(&mut g);
    assert!(!g.player_pickup(&vec![true]));
    assert_eq!(g.client_state.items.len(), 1);
    assert!(g.client_state.dedend.is_none());
}

#[test]
fn picking_up_takes_the_item_but_not_the_code() {
    let mut g = game(2, 2);
    g.client_state.items = vec![
        item(SolverItemKind::Fish, 1),
        item(SolverItemKind::Recycle, 2),
        item(SolverItemKind::Trashcan, 3),
    ];
    g.client_state.interact_item = Some(0);
    with_pickup(&mut g);
    assert!(!g.player_pickup(&vec![false; 3]));
    assert_eq!(g.client_state.picked_up_item.as_ref().map(|i| i.collider), Some(1));
    let left: Vec<u32> = g.client_state.items.iter().map(|i| i.collider).collect();
    assert_eq!(left, vec![3, 2]);
    let mut code = game(3, 3);
    code.client_state.items = vec![item(SolverItemKind::BubbleCode, 1)];
    code.client_state.interact_item = Some(0);
    with_pickup(&mut code);
    code.player_pickup(&vec![false]);
    assert!(code.client_state.picked_up_item.is_none());
    assert_eq!(code.client_state.items.len(), 1);
}

#[test]
fn no_pickup_key_no_change() {
    let mut g = game(2, 2);
    g.client_state.items = vec![item(SolverItemKind::Fish, 1)];
    g.client_state.interact_item = Some(0);
    assert!(!g.player_pickup(&vec![false]));
    assert_eq!(g.client_state.items.len(), 1);
}

#[test]
fn interact_item_is_the_first_reachable() {
    let mut g = game(2, 2);
    let mut heavy = item(SolverItemKind::Trashcan, 1);
    heavy.can_pickup = false;
    g.client_state.items = vec![heavy, item(SolverItemKind::Recycle, 2), item(SolverItemKind::Fish, 3)];
    g.update_interact_item(&vec![true, true, true]);
    assert_eq!(g.client_state.interact_item, Some(2));
    g.state.trashcan_evil = false;
    g.update_interact_item(&vec![true, true, true]);
    assert_eq!(g.client_state.interact_item, Some(1));
    g.update_interact_item(&vec![false, false, false]);
    assert_eq!(g.client_state.interact_item, None);
}

#[test]
fn transition_needs_an_open_exit() {
    let mut g = game(1, 1);
    g.client_state.bubble_code = vec![2];
    assert_eq!(g.check_transition(true, 4, None), None);
    g.state.levels_completed = 2;
    assert_eq!(g.check_transition(false, 4, None), None);
    assert_eq!(g.client_state.bubble_code, vec![2]);
    let s = g.check_transition(true, 4, Some(vec![item(SolverItemKind::Grandpa, 5)]));
    assert_eq!(g.state.current_level, 2);
    assert_eq!(s, Some((g.state, None)));
    assert!(g.client_state.bubble_code.is_empty());
    assert_eq!(g.client_state.player.collider, 4);
    assert_eq!(g.client_state.items.len(), 1);
    g.state.levels_completed = 4;
    g.state.current_level = 3;
    let s = g.check_transition(true, 4, None);
    assert_eq!(s, Some((g.state, Some(MusicCue::Boss))));
}

#[test]
fn level_keys_work_in_test_mode_only() {
    let mut g = game(2, 2);
    assert!(!g.next_level());
    assert_eq!(g.state.current_level, 2);
    let (mut t, _, _) = GameSolver::new(0u32, None, Some(0));
    assert!(t.previous_level());
    assert_eq!(t.state.current_level, 0);
    assert!(t.next_level());
    assert!(t.next_level());
    assert_eq!(t.state.current_level, 2);
    assert_eq!(t.state.levels_completed, 2);
    assert!(t.previous_level());
    assert_eq!(t.state.current_level, 1);
    assert_eq!(t.state.levels_completed, 1);
}

#[test]
fn player_frame_phases() {
    let r = rules();
    let mut g = game(5, 5);
    g.player_control.jump = true;
    let before = g.start_player_frame(&r, 10_000);
    assert_eq!(before, PlayerAnimationState::Jumping);
    assert_eq!(g.client_state.player.jump_buffer, Some(100_000));
    assert_eq!(g.client_state.player.velocity.y, -100_000);
    g.player_respawn(None);
    assert_eq!(g.client_state.player.velocity.y, -100_000);
    g.player_respawn(Some(6));
    assert_eq!(g.client_state.player.velocity, Vec2 { x: 0, y: 0 });
    assert_eq!(g.client_state.player.collider, 6);
    g.client_state.player.check_ground(&r, true);
    assert_eq!(g.client_state.player.state, PlayerState::Grounded);
    assert!(g.end_player_update());
    assert!(!g.player_control.jump);
    let mut early = game(2, 2);
    assert!(!early.end_player_update());
}

#[test]
fn bubbles_burst_only_when_hit_fast() {
    assert!(!bursts_ball(Vec2 { x: 7_000_000, y: 0 }));
    assert!(bursts_ball(Vec2 { x: 0, y: -7_000_001 }));
    assert!(bursts_ball(Vec2 { x: 5_000_000, y: 5_000_000 }));
    assert!(!bursts_ball(Vec2 { x: 4_000_000, y: -5_000_000 }));
}
