//! Properties that span several calls or hold of every state.
use vstd::prelude::*;

use crate::collections::{insert_sorted, removable, removed_all, sorted_spec};
use crate::dispatcher::{
    buttons_fold, buttons_kept, char_steps, char_time, clicked_from, meme_next, meme_prev, novella_after,
    novella_fits, press_button, takes_click, desk_click, CrashMessage, CursorHits, DispatcherEffect,
    Focus, ItemHit, NovellaState,
};
use crate::fixed::{abs_spec, clamp_abs_spec, in_range, mul_spec, sat, signum_spec, trunc_div, LIMIT, SCALE};
use crate::model::{code_erased, code_typed, side_left_of, side_right_of, DispatcherItem, DispatcherViewSide};
use crate::solver::{
    drop_effects, fish_active, fish_cooldown_after, fish_shots, held_dir, last_exploding_row,
    level_back, level_forward, pair_removals, SolverItemKind, SolverState,
};
use crate::player::{
    animation_of, countdown, horizontal_rate, accelerating, steered_vx, target_speed,
    variable_jump_vy, PlayerAnimationState, PlayerControl, PlayerState, SolverRules,
};

verus! {

/// Running the countdowns over two frames is the same as running them once
/// over the total time.
pub proof fn countdown_over_two_frames(t: Option<i64>, dt1: int, dt2: int)
    requires
        0 <= dt1,
        0 <= dt2,
        in_range(dt1 + dt2),
        t matches Some(x) ==> in_range(x as int),
    ensures
        countdown(countdown(t, dt1), dt2) == countdown(t, dt1 + dt2),
{
}

/// The animation clock over two frames equals the clock over their sum.
pub proof fn animation_clock_over_two_frames(a: int, dt1: int, dt2: int)
    requires
        in_range(a),
        0 <= dt1,
        0 <= dt2,
    ensures
        sat(sat(a + dt1) + dt2) == sat(a + dt1 + dt2),
{
}

/// A running countdown never grows while time moves forward.
pub proof fn countdown_never_grows(t: Option<i64>, dt: int)
    requires
        0 <= dt,
        t matches Some(x) ==> in_range(x as int),
    ensures
        countdown(t, dt) matches Some(y) ==> (t matches Some(x) && y <= x),
        t is None ==> countdown(t, dt) is None,
{
}

proof fn lemma_mul_nonneg(a: int, b: int)
    requires
        0 <= a,
        0 <= b,
    ensures
        mul_spec(a, b) >= 0,
{
    assert(a * b >= 0) by (nonlinear_arith)
        requires
            0 <= a,
            0 <= b,
    ;
    assert(trunc_div(a * b, SCALE as int) >= 0);
}

/// Steering never overshoots: with non-negative rates the new horizontal
/// speed lies between the old speed and the target speed.
pub proof fn steering_moves_towards_target(
    vx: int,
    grounded: bool,
    control: PlayerControl,
    rules: SolverRules,
    delta_time: int,
)
    requires
        in_range(vx),
        rules.wf(),
        control.move_dir.wf(),
        0 <= delta_time,
        in_range(delta_time),
        horizontal_rate(
            grounded,
            accelerating(target_speed(control, rules), vx),
            rules,
        ) >= 0,
    ensures
        ({
            let target = target_speed(control, rules);
            let v = steered_vx(vx, grounded, control, rules, delta_time);
            (vx <= target ==> vx <= v <= target) && (target <= vx ==> target <= v <= vx)
        }),
{
    let target = target_speed(control, rules);
    let rate = horizontal_rate(grounded, accelerating(target, vx), rules);
    lemma_mul_nonneg(rate, delta_time);
    assert(in_range(target));
}

/// A falling player never falls faster than the free-fall speed.
pub proof fn falling_speed_is_capped(vy: int, holding: bool, rules: SolverRules, delta_time: int)
    requires
        vy < 0,
        rules.free_fall_speed >= 0,
    ensures
        abs_spec(variable_jump_vy(vy, holding, rules, delta_time)) <= rules.free_fall_speed,
{
}

/// The jumping animation shows exactly when the player is airborne.
pub proof fn jumping_animation_iff_airborne(state: PlayerState, vx: int)
    ensures
        (animation_of(state, vx) == PlayerAnimationState::Jumping) <==> (state
            == PlayerState::Airborn),
{
}

/// Erasing right after typing a digit that was taken gives the code back.
pub proof fn erasing_undoes_typing(code: Seq<usize>, limit: int, digit: usize)
    requires
        code.len() < limit,
    ensures
        code_erased(code_typed(code, true, limit, digit), true) == code,
{
    assert(code.push(digit).drop_last() =~= code);
}

/// A code never grows past its limit.
pub proof fn code_stays_within_limit(code: Seq<usize>, open: bool, limit: int, digit: usize)
    requires
        code.len() <= limit,
    ensures
        code_typed(code, open, limit, digit).len() <= limit,
{
}

/// While typing is not possible (the puzzle is solved, the monitor
/// unlocked, or one is elsewhere), keys leave the code alone.
pub proof fn closed_code_is_frozen(code: Seq<usize>, limit: int, digit: usize)
    ensures
        code_typed(code, false, limit, digit) == code,
        code_erased(code, false) == code,
{
}

/// Going to the next meme and back, or back and forward, returns to the same meme.
pub proof fn meme_arrows_undo_each_other(m: usize, total: usize)
    requires
        m < total,
    ensures
        meme_next(meme_prev(m, total), total) == m,
        meme_prev(meme_next(m, total), total) == m,
{
}

/// Pressing a button that is already pressed changes nothing.
pub proof fn pressing_twice_is_pressing_once(buttons: Seq<(DispatcherItem, i64)>, b: DispatcherItem)
    ensures
        press_button(press_button(buttons, b), b) == press_button(buttons, b),
{
    reveal(press_button);
    let once = press_button(buttons, b);
    if !crate::dispatcher::is_pressed(buttons, b) {
        assert(once[once.len() - 1].0 == b);
        assert(crate::dispatcher::is_pressed(once, b));
    }
}

/// The buttons never take the solver's progress back.
pub proof fn buttons_never_undo_progress(
    buttons: Seq<(DispatcherItem, i64)>,
    n: int,
    dt: int,
    unlocked: bool,
    solver: SolverState,
    bubble: int,
)
    ensures
        buttons_fold(buttons, n, dt, unlocked, solver, bubble).0.levels_completed
            >= solver.levels_completed,
        buttons_fold(buttons, n, dt, unlocked, solver, bubble).0.current_level
            == solver.current_level,
    decreases n,
{
    if n > 0 {
        buttons_never_undo_progress(buttons, n - 1, dt, unlocked, solver, bubble);
    }
}

/// The novel never takes characters back while it runs.
pub proof fn novella_never_unwrites(n: NovellaState, line: Seq<char>, dt: int)
    requires
        novella_fits(n, line, dt),
    ensures
        novella_after(n, line, dt).character >= n.character,
        novella_after(n, line, dt).is_line_done || !n.is_line_done,
{
    let x = sat(n.next_char_in - dt);
    let step = char_time(n.fast);
    assert(char_steps(x, step) >= 0) by (nonlinear_arith)
        requires
            step > 0,
    {
        if x <= 0 {
            assert((-x) / step >= 0) by (nonlinear_arith)
                requires
                    -x >= 0,
                    step > 0,
            ;
        }
    }
}

/// Strictly increasing indices below the length can all be removed, and
/// removing them shortens the sequence by their number.
pub proof fn increasing_indices_are_removable<T>(s: Seq<T>, idx: Seq<usize>)
    requires
        forall|a: int, b: int| 0 <= a < b < idx.len() ==> idx[a] < idx[b],
        forall|a: int| 0 <= a < idx.len() ==> idx[a] < s.len(),
    ensures
        removable(s.len() as int, idx),
        removed_all(s, idx).len() == s.len() - idx.len(),
    decreases idx.len(),
{
    if idx.len() > 0 {
        let last = idx.last();
        let rest = idx.drop_last();
        let t = crate::collections::swap_removed(s, last as int);
        assert forall|a: int| 0 <= a < rest.len() implies rest[a] < t.len() by {
            assert(rest[a] == idx[a]);
            assert(idx[a] < idx[idx.len() - 1]);
        }
        assert forall|a: int, b: int| 0 <= a < b < rest.len() implies rest[a] < rest[b] by {
            assert(rest[a] == idx[a]);
            assert(rest[b] == idx[b]);
        }
        increasing_indices_are_removable(t, rest);
    }
}

proof fn lemma_insert_sorted_keeps_order(s: Seq<usize>, x: usize)
    requires
        forall|a: int, b: int| 0 <= a < b < s.len() ==> s[a] <= s[b],
    ensures
        forall|a: int, b: int|
            0 <= a < b < insert_sorted(s, x).len() ==> insert_sorted(s, x)[a] <= insert_sorted(
                s,
                x,
            )[b],
        insert_sorted(s, x).len() == s.len() + 1,
        insert_sorted(s, x).to_multiset() == s.to_multiset().insert(x),
    decreases s.len(),
{
    broadcast use vstd::seq_lib::group_to_multiset_ensures;

    if s.len() == 0 {
        assert(insert_sorted(s, x) =~= seq![x]);
        assert(seq![x] =~= Seq::<usize>::empty().push(x));
    } else if x <= s[0] {
        assert(insert_sorted(s, x) =~= seq![x] + s);
        vstd::seq_lib::lemma_multiset_commutative(seq![x], s);
        assert(seq![x] =~= Seq::<usize>::empty().push(x));
    } else {
        let t = s.drop_first();
        assert forall|a: int, b: int| 0 <= a < b < t.len() implies t[a] <= t[b] by {
            assert(t[a] == s[a + 1]);
            assert(t[b] == s[b + 1]);
        }
        lemma_insert_sorted_keeps_order(t, x);
        let r = insert_sorted(s, x);
        let rt = insert_sorted(t, x);
        assert(r =~= seq![s[0]] + rt);
        assert forall|a: int, b: int| 0 <= a < b < r.len() implies r[a] <= r[b] by {
            if a == 0 {
                if b == 1 {
                    if rt[0] == x {
                    } else {
                        assert(rt.to_multiset().count(rt[0]) > 0);
                        assert(t.to_multiset().insert(x).count(rt[0]) > 0);
                        assert(t.to_multiset().count(rt[0]) > 0);
                        assert(t.contains(rt[0]));
                        let i = choose|i: int| 0 <= i < t.len() && t[i] == rt[0];
                        assert(s[i + 1] == t[i]);
                    }
                } else {
                    assert(r[1] <= r[b]);
                    if rt[0] == x {
                    } else {
                        assert(rt.to_multiset().count(rt[0]) > 0);
                        assert(t.to_multiset().insert(x).count(rt[0]) > 0);
                        assert(t.to_multiset().count(rt[0]) > 0);
                        assert(t.contains(rt[0]));
                        let i = choose|i: int| 0 <= i < t.len() && t[i] == rt[0];
                        assert(s[i + 1] == t[i]);
                    }
                }
            } else {
                assert(r[a] == rt[a - 1]);
                assert(r[b] == rt[b - 1]);
            }
        }
        vstd::seq_lib::lemma_multiset_commutative(seq![s[0]], rt);
        vstd::seq_lib::lemma_multiset_commutative(seq![s[0]], t);
        assert(s =~= seq![s[0]] + t);
    }
}

/// Sorting puts the indices in non-decreasing order and keeps every one of them.
pub proof fn sorting_orders_and_keeps(s: Seq<usize>)
    ensures
        forall|a: int, b: int|
            0 <= a < b < sorted_spec(s).len() ==> sorted_spec(s)[a] <= sorted_spec(s)[b],
        sorted_spec(s).to_multiset() == s.to_multiset(),
    decreases s.len(),
{
    broadcast use vstd::seq_lib::group_to_multiset_ensures;

    if s.len() > 0 {
        sorting_orders_and_keeps(s.drop_last());
        lemma_insert_sorted_keeps_order(sorted_spec(s.drop_last()), s.last());
        assert(s =~= s.drop_last().push(s.last()));
    }
}

/// An explosion starts exactly when some fish and cinder block touch.
pub proof fn explosion_iff_exploding_pair(
    kinds: Seq<SolverItemKind>,
    touching: Seq<Vec<bool>>,
    rows: int,
)
    ensures
        (last_exploding_row(kinds, touching, rows) is Some) <==> (pair_removals(
            kinds,
            touching,
            rows,
        ).len() > 0),
    decreases rows,
{
    if rows > 0 {
        explosion_iff_exploding_pair(kinds, touching, rows - 1);
    }
}

/// A click goes to the first item that takes it, and to none when no item does.
pub proof fn click_goes_to_first_taker(items: Seq<ItemHit>, station_open: bool, inside: bool, k: int)
    requires
        0 <= k,
    ensures
        match clicked_from(items, station_open, inside, k) {
            Some(c) => {
                &&& k <= c < items.len()
                &&& takes_click(items[c], station_open, inside)
                &&& forall|j: int| k <= j < c ==> !takes_click(#[trigger] items[j], station_open, inside)
            },
            None => forall|j: int|
                k <= j < items.len() ==> !takes_click(#[trigger] items[j], station_open, inside),
        },
    decreases items.len() - k,
{
    reveal(clicked_from);
    if k < items.len() && !takes_click(items[k], station_open, inside) {
        click_goes_to_first_taker(items, station_open, inside, k + 1);
    }
}

/// In test mode, skipping to the next level and back returns to the level
/// one started on, marked unfinished.
pub proof fn skipping_forward_and_back(s: SolverState)
    requires
        s.current_level < usize::MAX,
    ensures
        level_back(level_forward(s)) == (SolverState { levels_completed: s.current_level, ..s }),
{
}

/// Holding left and right together leaves the direction as it was.
pub proof fn left_and_right_cancel(x: int)
    requires
        in_range(x),
        x - SCALE >= -LIMIT,
    ensures
        held_dir(x, true, true) == x,
{
}

proof fn lemma_kept_exact(buttons: Seq<(DispatcherItem, i64)>, n: int, dt: int)
    requires
        0 <= n <= buttons.len(),
    ensures
        forall|k: int|
            0 <= k < buttons_kept(buttons, n, dt).len() ==> {
                &&& (#[trigger] buttons_kept(buttons, n, dt)[k]).1 < SCALE
                &&& exists|j: int|
                    0 <= j < n && buttons_kept(buttons, n, dt)[k] == (
                        (#[trigger] buttons[j]).0,
                        sat(buttons[j].1 + dt) as i64,
                    )
            },
        forall|j: int|
            0 <= j < n && sat((#[trigger] buttons[j]).1 + dt) < SCALE ==> exists|k: int|
                0 <= k < buttons_kept(buttons, n, dt).len() && #[trigger] buttons_kept(
                    buttons,
                    n,
                    dt,
                )[k] == (buttons[j].0, sat(buttons[j].1 + dt) as i64),
    decreases n,
{
    if n > 0 {
        lemma_kept_exact(buttons, n - 1, dt);
        let prev = buttons_kept(buttons, n - 1, dt);
        let cur = buttons_kept(buttons, n, dt);
        let t = sat(buttons[n - 1].1 + dt);
        assert forall|k: int| 0 <= k < cur.len() implies {
            &&& (#[trigger] cur[k]).1 < SCALE
            &&& exists|j: int|
                0 <= j < n && cur[k] == ((#[trigger] buttons[j]).0, sat(buttons[j].1 + dt) as i64)
        } by {
            if t < SCALE && k == cur.len() - 1 {
                assert(cur[k] == (buttons[n - 1].0, t as i64));
            } else {
                assert(cur[k] == prev[k]);
                let j = choose|j: int|
                    0 <= j < n - 1 && prev[k] == ((#[trigger] buttons[j]).0, sat(buttons[j].1 + dt) as i64);
            }
        }
        assert forall|j: int| 0 <= j < n && sat((#[trigger] buttons[j]).1 + dt) < SCALE implies exists|
            k: int,
        | 0 <= k < cur.len() && #[trigger] cur[k] == (buttons[j].0, sat(buttons[j].1 + dt) as i64) by {
            if j == n - 1 {
                assert(cur[cur.len() - 1] == (buttons[j].0, t as i64));
            } else {
                let k = choose|k: int|
                    0 <= k < prev.len() && #[trigger] prev[k] == (buttons[j].0, sat(buttons[j].1 + dt) as i64);
                assert(cur[k] == prev[k]);
            }
        }
    }
}

/// When the clocks of the pressed buttons run for `dt`, the buttons still
/// pressed are exactly those whose advanced clock stays under a second, each
/// with that clock: no button is added, and one whose clock reaches a
/// second is released.
pub proof fn buttons_release_at_a_second(buttons: Seq<(DispatcherItem, i64)>, dt: int)
    ensures
        forall|k: int|
            0 <= k < buttons_kept(buttons, buttons.len() as int, dt).len() ==> {
                &&& (#[trigger] buttons_kept(buttons, buttons.len() as int, dt)[k]).1 < SCALE
                &&& exists|j: int|
                    0 <= j < buttons.len() && buttons_kept(buttons, buttons.len() as int, dt)[k] == (
                        (#[trigger] buttons[j]).0,
                        sat(buttons[j].1 + dt) as i64,
                    )
            },
        forall|j: int|
            0 <= j < buttons.len() && sat((#[trigger] buttons[j]).1 + dt) < SCALE ==> exists|k: int|
                0 <= k < buttons_kept(buttons, buttons.len() as int, dt).len() && #[trigger] buttons_kept(
                    buttons,
                    buttons.len() as int,
                    dt,
                )[k] == (buttons[j].0, sat(buttons[j].1 + dt) as i64),
{
    lemma_kept_exact(buttons, buttons.len() as int, dt);
}

/// Turning left and then right, or right and then left, faces the same
/// wall again, and four turns the same way come full circle.
pub proof fn turns_undo_each_other(side: DispatcherViewSide)
    ensures
        side_right_of(side_left_of(side)) == side,
        side_left_of(side_right_of(side)) == side,
        side_left_of(side_left_of(side_left_of(side_left_of(side)))) == side,
{
}

proof fn lemma_slowdown(vx: int, target: int, d: int)
    requires
        in_range(vx),
        in_range(target),
        0 <= d <= LIMIT,
    ensures
        ({
            let v = sat(vx + clamp_abs_spec(sat(target - vx), d));
            &&& abs_spec(v - vx) <= d
            &&& abs_spec(target - vx) > d ==> abs_spec(v - vx) == d
            &&& abs_spec(target - vx) <= d ==> v == target
        }),
{
}

/// Slowing down towards a slower target speed in the same direction (the
/// input asks for less speed than the player has): the horizontal speed
/// changes by at most the deceleration rate times the frame, the air rate
/// for an airborne player and the ground rate for a grounded one, by
/// exactly that much while the target is further away, and lands on the
/// target when it is closer.
pub proof fn slowing_down_uses_the_rate_for_air_or_ground(
    vx: int,
    control: PlayerControl,
    rules: SolverRules,
    delta_time: int,
)
    requires
        in_range(vx),
        rules.wf(),
        control.move_dir.wf(),
        0 <= delta_time,
        in_range(delta_time),
        rules.deceleration_air >= 0,
        rules.deceleration_ground >= 0,
        target_speed(control, rules) != 0,
        signum_spec(target_speed(control, rules)) == signum_spec(vx),
        abs_spec(target_speed(control, rules)) <= abs_spec(vx),
    ensures
        ({
            let target = target_speed(control, rules);
            let air = steered_vx(vx, false, control, rules, delta_time);
            let d_air = mul_spec(rules.deceleration_air as int, delta_time);
            &&& abs_spec(air - vx) <= d_air
            &&& abs_spec(target - vx) > d_air ==> abs_spec(air - vx) == d_air
            &&& abs_spec(target - vx) <= d_air ==> air == target
        }),
        ({
            let target = target_speed(control, rules);
            let ground = steered_vx(vx, true, control, rules, delta_time);
            let d_ground = mul_spec(rules.deceleration_ground as int, delta_time);
            &&& abs_spec(ground - vx) <= d_ground
            &&& abs_spec(target - vx) > d_ground ==> abs_spec(ground - vx) == d_ground
            &&& abs_spec(target - vx) <= d_ground ==> ground == target
        }),
{
    let target = target_speed(control, rules);
    lemma_mul_nonneg(rules.deceleration_air as int, delta_time);
    lemma_mul_nonneg(rules.deceleration_ground as int, delta_time);
    assert(in_range(target));
    assert(!accelerating(target, vx));
    lemma_slowdown(vx, target, mul_spec(rules.deceleration_air as int, delta_time));
    lemma_slowdown(vx, target, mul_spec(rules.deceleration_ground as int, delta_time));
}

/// Speeding up towards the target speed (the input asks for no speed, for
/// the other direction, or for more speed than the player has): the
/// horizontal speed changes by at most the acceleration rate times the
/// frame, the air rate for an airborne player and the ground rate for a
/// grounded one, by exactly that much while the target is further away,
/// and lands on the target when it is closer.
pub proof fn speeding_up_uses_the_rate_for_air_or_ground(
    vx: int,
    control: PlayerControl,
    rules: SolverRules,
    delta_time: int,
)
    requires
        in_range(vx),
        rules.wf(),
        control.move_dir.wf(),
        0 <= delta_time,
        in_range(delta_time),
        rules.acceleration_air >= 0,
        rules.acceleration_ground >= 0,
        target_speed(control, rules) == 0 || signum_spec(target_speed(control, rules))
            != signum_spec(vx) || abs_spec(target_speed(control, rules)) > abs_spec(vx),
    ensures
        ({
            let target = target_speed(control, rules);
            let air = steered_vx(vx, false, control, rules, delta_time);
            let d_air = mul_spec(rules.acceleration_air as int, delta_time);
            &&& abs_spec(air - vx) <= d_air
            &&& abs_spec(target - vx) > d_air ==> abs_spec(air - vx) == d_air
            &&& abs_spec(target - vx) <= d_air ==> air == target
        }),
        ({
            let target = target_speed(control, rules);
            let ground = steered_vx(vx, true, control, rules, delta_time);
            let d_ground = mul_spec(rules.acceleration_ground as int, delta_time);
            &&& abs_spec(ground - vx) <= d_ground
            &&& abs_spec(target - vx) > d_ground ==> abs_spec(ground - vx) == d_ground
            &&& abs_spec(target - vx) <= d_ground ==> ground == target
        }),
{
    let target = target_speed(control, rules);
    lemma_mul_nonneg(rules.acceleration_air as int, delta_time);
    lemma_mul_nonneg(rules.acceleration_ground as int, delta_time);
    assert(in_range(target));
    assert(accelerating(target, vx));
    lemma_slowdown(vx, target, mul_spec(rules.acceleration_air as int, delta_time));
    lemma_slowdown(vx, target, mul_spec(rules.acceleration_ground as int, delta_time));
}

/// A drop sets nothing off unless the dropped item touches an item of the
/// right kind: the grandson spins only when the recycling sign lands on a
/// grandson, grandpa drills only when the sign lands on grandpa, the game
/// crashes only when grandpa lands on the trashcan, and the grandson
/// disappears only when he lands on the trashcan. A drop that touches
/// nothing sets off nothing.
pub proof fn drops_act_only_on_touched_items(
    kind: SolverItemKind,
    kinds: Seq<SolverItemKind>,
    touching: Seq<bool>,
    n: int,
)
    requires
        0 <= n <= kinds.len(),
        n <= touching.len(),
    ensures
        drop_effects(kind, kinds, touching, n).spin ==> kind == SolverItemKind::Recycle && exists|k: int|
            0 <= k < n && kinds[k] == SolverItemKind::Grandson && #[trigger] touching[k],
        drop_effects(kind, kinds, touching, n).drill ==> kind == SolverItemKind::Recycle && exists|k: int|
            0 <= k < n && kinds[k] == SolverItemKind::Grandpa && #[trigger] touching[k],
        drop_effects(kind, kinds, touching, n).crash ==> kind == SolverItemKind::Grandpa && exists|k: int|
            0 <= k < n && kinds[k] == SolverItemKind::Trashcan && #[trigger] touching[k],
        drop_effects(kind, kinds, touching, n).disappear ==> kind == SolverItemKind::Grandson
            && exists|k: int| 0 <= k < n && kinds[k] == SolverItemKind::Trashcan && #[trigger] touching[k],
        (forall|k: int| 0 <= k < n ==> !#[trigger] touching[k]) ==> {
            let e = drop_effects(kind, kinds, touching, n);
            !e.spin && !e.drill && !e.crash && !e.disappear
        },
    decreases n,
{
    if n > 0 {
        drops_act_only_on_touched_items(kind, kinds, touching, n - 1);
        let k = n - 1;
        if touching[k] {
            assert(touching[k]);
        }
    }
}

/// With the monitor still locked, the buttons leave the first levels
/// unfinished: below three levels done (before the bubble puzzle), no
/// button held past a second changes the number of levels completed.
pub proof fn locked_monitor_completes_nothing(
    buttons: Seq<(DispatcherItem, i64)>,
    n: int,
    dt: int,
    solver: SolverState,
    bubble: int,
)
    requires
        solver.levels_completed < 3,
    ensures
        buttons_fold(buttons, n, dt, false, solver, bubble).0.levels_completed
            == solver.levels_completed,
        buttons_fold(buttons, n, dt, false, solver, bubble).1 == bubble,
    decreases n,
{
    if n > 0 {
        locked_monitor_completes_nothing(buttons, n - 1, dt, solver, bubble);
    }
}

/// A click on a file icon of the unlocked monitor in focus (a file that the
/// solver's progress has made available) opens that file and closes any
/// open meme.
pub proof fn opening_a_file_closes_the_meme(
    opened_file: Option<usize>,
    opened_meme: Option<usize>,
    hits: CursorHits,
    current_level: usize,
    monitor_box: bool,
    book_box: bool,
    request: Focus,
)
    requires
        hits.file matches Some(f) && f <= current_level,
    ensures
        ({
            let desk = desk_click(
                Focus::Monitor,
                true,
                opened_file,
                opened_meme,
                hits,
                current_level,
                monitor_box,
                book_box,
                request,
            );
            &&& desk.0 == hits.file
            &&& desk.1 is None
        }),
{
    reveal(desk_click);
}

/// The fish shoot only on the boss level until it is done: on any other
/// level, or once more than four levels are completed, no fish shoots and
/// their cooldown stands still.
pub proof fn fish_shoot_only_on_the_boss_level(
    state: SolverState,
    kinds: Seq<SolverItemKind>,
    n: int,
    cooldown: int,
    dt: int,
)
    requires
        state.current_level != 4 || state.levels_completed > 4,
    ensures
        fish_shots(kinds, n, cooldown, dt, fish_active(state)) == Seq::<usize>::empty(),
        fish_cooldown_after(kinds, n, cooldown, dt, fish_active(state)) == cooldown,
    decreases n,
{
    if n > 0 {
        fish_shoot_only_on_the_boss_level(state, kinds, n - 1, cooldown, dt);
    }
}

/// The green button tames the trashcan only on level 2: on any other level
/// the buttons leave the trashcan as it is and never move the solver to
/// another level.
pub proof fn trashcan_is_tamed_only_on_level_two(
    buttons: Seq<(DispatcherItem, i64)>,
    n: int,
    dt: int,
    unlocked: bool,
    solver: SolverState,
    bubble: int,
)
    requires
        solver.current_level != 2,
    ensures
        buttons_fold(buttons, n, dt, unlocked, solver, bubble).0.trashcan_evil
            == solver.trashcan_evil,
        buttons_fold(buttons, n, dt, unlocked, solver, bubble).0.current_level
            == solver.current_level,
        buttons_fold(buttons, n, dt, unlocked, solver, bubble).0.popped == solver.popped,
    decreases n,
{
    if n > 0 {
        trashcan_is_tamed_only_on_level_two(buttons, n - 1, dt, unlocked, solver, bubble);
    }
}

/// The salad button crashes the solver's game only once the monitor is
/// unlocked: with the monitor locked, no button asks for that crash.
pub proof fn locked_monitor_never_crashes_the_solver(
    buttons: Seq<(DispatcherItem, i64)>,
    n: int,
    dt: int,
    solver: SolverState,
    bubble: int,
)
    ensures
        forall|k: int|
            0 <= k < buttons_fold(buttons, n, dt, false, solver, bubble).2.len() ==> #[trigger] buttons_fold(
                buttons,
                n,
                dt,
                false,
                solver,
                bubble,
            ).2[k] != DispatcherEffect::CrashOther(CrashMessage::SaladButton),
    decreases n,
{
    if n > 0 {
        locked_monitor_never_crashes_the_solver(buttons, n - 1, dt, solver, bubble);
        let prev = buttons_fold(buttons, n - 1, dt, false, solver, bubble).2;
        let cur = buttons_fold(buttons, n, dt, false, solver, bubble).2;
        assert forall|k: int| 0 <= k < cur.len() implies #[trigger] cur[k]
            != DispatcherEffect::CrashOther(CrashMessage::SaladButton) by {
            if k < prev.len() {
                assert(cur[k] == prev[k]);
            }
        }
    }
}

} // verus!
