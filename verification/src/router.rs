//! Minimal-route computation between tabs.
//!
//! Tabs are numbered `1..=total`. The physical keystrokes available to move
//! between tabs are: jump straight to a low-numbered tab (`1..=direct_limit`),
//! jump to the last tab, and step one position forward or backward (with
//! wraparound). `route` returns the shortest sequence of such commands from
//! the current tab to a target tab.

use vstd::prelude::*;

verus! {

/// One primitive navigation action.
#[derive(Clone, Copy, Debug, PartialEq, Eq, Structural)]
pub enum Command {
    /// Jump straight to tab `n` (only available for `n <= direct_limit`).
    DirectJump(usize),
    /// Jump straight to the last tab.
    JumpLast,
    /// Step one tab forward, wrapping from the last tab to the first.
    StepNext,
    /// Step one tab backward, wrapping from the first tab to the last.
    StepPrevious,
}

/// Routing failure: the requested tab does not exist.
#[derive(Clone, Copy, Debug, PartialEq, Eq, Structural)]
pub enum RouteError {
    InvalidTarget,
}

/// The tab reached by stepping once forward from `pos`.
pub open spec fn wrap_next(pos: int, total: int) -> int {
    if pos == total {
        1
    } else {
        pos + 1
    }
}

/// The tab reached by stepping once backward from `pos`.
pub open spec fn wrap_prev(pos: int, total: int) -> int {
    if pos == 1 {
        total
    } else {
        pos - 1
    }
}

/// The tab reached by one command, starting at `pos`.
pub open spec fn apply_command(pos: int, c: Command, total: int) -> int {
    match c {
        Command::DirectJump(n) => n as int,
        Command::JumpLast => total,
        Command::StepNext => wrap_next(pos, total),
        Command::StepPrevious => wrap_prev(pos, total),
    }
}

/// The tab reached by a command sequence, starting at `pos`.
pub open spec fn apply_route(pos: int, cmds: Seq<Command>, total: int) -> int
    decreases cmds.len(),
{
    if cmds.len() == 0 {
        pos
    } else {
        apply_route(apply_command(pos, cmds[0], total), cmds.drop_first(), total)
    }
}

/// Number of forward steps from `from` to `to`, wrapping past `total`.
pub open spec fn fwd_dist(from: int, to: int, total: int) -> int {
    if to >= from {
        to - from
    } else {
        to + total - from
    }
}

/// Number of backward steps from `from` to `to`, wrapping past tab 1.
pub open spec fn bwd_dist(from: int, to: int, total: int) -> int {
    if from >= to {
        from - to
    } else {
        from + total - to
    }
}

/// Wraparound-aware step distance between two tabs.
pub open spec fn wrap_dist(a: int, b: int, total: int) -> int {
    vstd::math::min(fwd_dist(a, b, total), bwd_dist(a, b, total))
}

/// The all-steps route from `current` to `target`: whichever direction is
/// shorter, forward on a tie.
pub open spec fn step_route(current: int, target: int, total: int) -> Seq<Command> {
    if fwd_dist(current, target, total) <= bwd_dist(current, target, total) {
        Seq::new(fwd_dist(current, target, total) as nat, |i: int| Command::StepNext)
    } else {
        Seq::new(bwd_dist(current, target, total) as nat, |i: int| Command::StepPrevious)
    }
}

/// The route chosen for a valid target: empty for the current tab, a single
/// jump or step where one suffices, and otherwise the cheapest of stepping
/// from the current tab, jumping to the last direct tab and stepping forward,
/// or jumping to the last tab and stepping backward; ties prefer the options
/// in that order.
pub open spec fn spec_route(current: int, target: int, total: int, limit: int) -> Seq<Command> {
    if target == current {
        Seq::empty()
    } else if target <= limit {
        seq![Command::DirectJump(target as usize)]
    } else if target == total {
        seq![Command::JumpLast]
    } else if target == wrap_next(current, total) {
        seq![Command::StepNext]
    } else if target == wrap_prev(current, total) {
        seq![Command::StepPrevious]
    } else {
        let steps = step_route(current, target, total);
        let from_direct = seq![Command::DirectJump(limit as usize)] + Seq::new(
            (target - limit) as nat,
            |i: int| Command::StepNext,
        );
        let from_last = seq![Command::JumpLast] + Seq::new(
            (total - target) as nat,
            |i: int| Command::StepPrevious,
        );
        if steps.len() <= from_direct.len() && steps.len() <= from_last.len() {
            steps
        } else if from_direct.len() <= from_last.len() {
            from_direct
        } else {
            from_last
        }
    }
}

/// Compute the minimal command sequence from `current` to `target`.
///
/// Fails exactly when the target is outside `1..=total`; for a valid target
/// the result is `spec_route` of the inputs.
pub fn route(current: usize, target: usize, total: usize, direct_limit: usize) -> (r: Result<
    Vec<Command>,
    RouteError,
>)
    requires
        1 <= current <= total,
        1 <= direct_limit <= total,
        total <= usize::MAX / 2,
    ensures
        match r {
            Ok(cmds) => 1 <= target <= total && cmds@ == spec_route(
                current as int,
                target as int,
                total as int,
                direct_limit as int,
            ) && apply_route(current as int, cmds@, total as int) == target as int,
            Err(e) => (target < 1 || target > total) && e == RouteError::InvalidTarget,
        },
{
    if target < 1 || target > total {
        return Err(RouteError::InvalidTarget);
    }
    let next: usize = if current == total {
        1
    } else {
        current + 1
    };
    let prev: usize = if current == 1 {
        total
    } else {
        current - 1
    };
    let mut cmds: Vec<Command> = Vec::new();
    if target == current {
        // Nothing to do.
    } else if target <= direct_limit {
        cmds.push(Command::DirectJump(target));
    } else if target == total {
        cmds.push(Command::JumpLast);
    } else if target == next {
        cmds.push(Command::StepNext);
    } else if target == prev {
        cmds.push(Command::StepPrevious);
    } else {
        let fwd: usize = if target >= current {
            target - current
        } else {
            target + total - current
        };
        let bwd: usize = if current >= target {
            current - target
        } else {
            current + total - target
        };
        let steps: usize = if fwd <= bwd {
            fwd
        } else {
            bwd
        };
        let from_direct: usize = 1 + (target - direct_limit);
        let from_last: usize = 1 + (total - target);
        if steps <= from_direct && steps <= from_last {
            if fwd <= bwd {
                let mut i: usize = 0;
                while i < fwd
                    invariant
                        i <= fwd,
                        cmds@ =~= Seq::new(i as nat, |j: int| Command::StepNext),
                    decreases fwd - i,
                {
                    cmds.push(Command::StepNext);
                    i = i + 1;
                }
            } else {
                let mut i: usize = 0;
                while i < bwd
                    invariant
                        i <= bwd,
                        cmds@ =~= Seq::new(i as nat, |j: int| Command::StepPrevious),
                    decreases bwd - i,
                {
                    cmds.push(Command::StepPrevious);
                    i = i + 1;
                }
            }
        } else if from_direct <= from_last {
            cmds.push(Command::DirectJump(direct_limit));
            let mut i: usize = 0;
            while i < target - direct_limit
                invariant
                    direct_limit < target,
                    i <= target - direct_limit,
                    cmds@ =~= seq![Command::DirectJump(direct_limit)] + Seq::new(
                        i as nat,
                        |j: int| Command::StepNext,
                    ),
                decreases target - direct_limit - i,
            {
                cmds.push(Command::StepNext);
                i = i + 1;
            }
        } else {
            cmds.push(Command::JumpLast);
            let mut i: usize = 0;
            while i < total - target
                invariant
                    target < total,
                    i <= total - target,
                    cmds@ =~= seq![Command::JumpLast] + Seq::new(
                        i as nat,
                        |j: int| Command::StepPrevious,
                    ),
                decreases total - target - i,
            {
                cmds.push(Command::StepPrevious);
                i = i + 1;
            }
        }
    }
    proof {
        assert(cmds@ =~= spec_route(
            current as int,
            target as int,
            total as int,
            direct_limit as int,
        ));
        lemma_route_reaches(current as int, target as int, total as int, direct_limit as int);
    }
    Ok(cmds)
}

/// A command only a real keyboard offers: a direct jump goes to a tab within
/// the direct limit, and the other three commands are always available.
pub open spec fn valid_command(c: Command, limit: int) -> bool {
    match c {
        Command::DirectJump(n) => 1 <= n as int <= limit,
        _ => true,
    }
}

/// Every command of the sequence is available.
pub open spec fn valid_commands(s: Seq<Command>, limit: int) -> bool {
    forall|i: int| 0 <= i < s.len() ==> valid_command(#[trigger] s[i], limit)
}

/// The shortest step distance to `t` over the anchors `1..=a` (the tabs a
/// direct jump can land on).
pub open spec fn anchors_min(a: int, t: int, total: int) -> int
    decreases a,
{
    if a <= 1 {
        wrap_dist(1, t, total)
    } else {
        vstd::math::min(wrap_dist(a, t, total), anchors_min(a - 1, t, total))
    }
}

/// The shortest step distance to `t` from any tab a single jump can land on:
/// the direct tabs and the last tab.
pub open spec fn jump_min(t: int, total: int, limit: int) -> int {
    vstd::math::min(anchors_min(limit, t, total), wrap_dist(total, t, total))
}

/// The cost of the cheapest command sequence from `p` to `t`: all steps, or
/// one jump (the last one of the sequence matters) plus steps.
pub open spec fn min_cost(p: int, t: int, total: int, limit: int) -> int {
    vstd::math::min(wrap_dist(p, t, total), 1 + jump_min(t, total, limit))
}

/// Step distances are non-negative, and zero exactly between a tab and
/// itself.
pub proof fn lemma_wrap_dist_zero(a: int, b: int, total: int)
    requires
        1 <= a <= total,
        1 <= b <= total,
    ensures
        wrap_dist(a, b, total) >= 0,
        wrap_dist(a, b, total) == 0 <==> a == b,
{
}

/// The anchor minimum is a lower bound on the distance from each anchor.
pub proof fn lemma_anchors_min_le(a0: int, a: int, t: int, total: int)
    requires
        1 <= a0 <= a,
    ensures
        anchors_min(a, t, total) <= wrap_dist(a0, t, total),
    decreases a,
{
    if a > 1 && a0 < a {
        lemma_anchors_min_le(a0, a - 1, t, total);
    }
}

/// Any bound below every anchor's distance is below the anchor minimum.
pub proof fn lemma_anchors_min_ge(a: int, t: int, total: int, b: int)
    requires
        a >= 1,
        forall|a0: int| 1 <= a0 <= a ==> wrap_dist(a0, t, total) >= b,
    ensures
        anchors_min(a, t, total) >= b,
    decreases a,
{
    if a > 1 {
        lemma_anchors_min_ge(a - 1, t, total, b);
    }
}

/// One step changes the distance to any fixed tab by at most one.
pub proof fn lemma_wrap_dist_step(p: int, t: int, total: int, c: Command)
    requires
        1 <= p <= total,
        1 <= t <= total,
        c is StepNext || c is StepPrevious,
    ensures
        wrap_dist(p, t, total) <= 1 + wrap_dist(apply_command(p, c, total), t, total),
{
}

/// Stepping forward `k` times from `p` lands `k` tabs on, wrapping once at
/// most.
pub proof fn lemma_apply_next_seq(p: int, k: int, total: int)
    requires
        1 <= p <= total,
        0 <= k <= total,
    ensures
        apply_route(p, Seq::new(k as nat, |i: int| Command::StepNext), total) == (if p + k
            <= total {
            p + k
        } else {
            p + k - total
        }),
    decreases k,
{
    let s = Seq::new(k as nat, |i: int| Command::StepNext);
    if k > 0 {
        assert(s.drop_first() =~= Seq::new((k - 1) as nat, |i: int| Command::StepNext));
        lemma_apply_next_seq(wrap_next(p, total), k - 1, total);
    }
}

/// Stepping backward `k` times from `p` lands `k` tabs back, wrapping once
/// at most.
pub proof fn lemma_apply_prev_seq(p: int, k: int, total: int)
    requires
        1 <= p <= total,
        0 <= k <= total,
    ensures
        apply_route(p, Seq::new(k as nat, |i: int| Command::StepPrevious), total) == (if p - k
            >= 1 {
            p - k
        } else {
            p - k + total
        }),
    decreases k,
{
    let s = Seq::new(k as nat, |i: int| Command::StepPrevious);
    if k > 0 {
        assert(s.drop_first() =~= Seq::new((k - 1) as nat, |i: int| Command::StepPrevious));
        lemma_apply_prev_seq(wrap_prev(p, total), k - 1, total);
    }
}

/// Law: simulating the chosen route from the current tab ends exactly at the
/// target.
pub proof fn lemma_route_reaches(current: int, target: int, total: int, limit: int)
    requires
        1 <= current <= total,
        1 <= target <= total,
        1 <= limit <= total,
        total <= usize::MAX,
    ensures
        apply_route(current, spec_route(current, target, total, limit), total) == target,
{
    let r = spec_route(current, target, total, limit);
    if target == current {
    } else if target <= limit {
        lemma_apply_singleton(current, Command::DirectJump(target as usize), total);
        assert(r =~= seq![Command::DirectJump(target as usize)]);
    } else if target == total {
        lemma_apply_singleton(current, Command::JumpLast, total);
        assert(r =~= seq![Command::JumpLast]);
    } else if target == wrap_next(current, total) {
        lemma_apply_singleton(current, Command::StepNext, total);
        assert(r =~= seq![Command::StepNext]);
    } else if target == wrap_prev(current, total) {
        lemma_apply_singleton(current, Command::StepPrevious, total);
        assert(r =~= seq![Command::StepPrevious]);
    } else {
        let fwd = fwd_dist(current, target, total);
        let bwd = bwd_dist(current, target, total);
        let steps = step_route(current, target, total);
        let from_direct = seq![Command::DirectJump(limit as usize)] + Seq::new(
            (target - limit) as nat,
            |i: int| Command::StepNext,
        );
        let from_last = seq![Command::JumpLast] + Seq::new(
            (total - target) as nat,
            |i: int| Command::StepPrevious,
        );
        assert(apply_route(current, steps, total) == target) by {
            if fwd <= bwd {
                assert(steps =~= Seq::new(fwd as nat, |i: int| Command::StepNext));
                lemma_apply_next_seq(current, fwd, total);
            } else {
                assert(steps =~= Seq::new(bwd as nat, |i: int| Command::StepPrevious));
                lemma_apply_prev_seq(current, bwd, total);
            }
        }
        assert(apply_route(current, from_direct, total) == target) by {
            assert(from_direct.len() > 0);
            assert(from_direct[0] == Command::DirectJump(limit as usize));
            assert(apply_command(current, from_direct[0], total) == limit);
            assert(from_direct.drop_first() =~= Seq::new(
                (target - limit) as nat,
                |i: int| Command::StepNext,
            ));
            lemma_apply_next_seq(limit, target - limit, total);
        }
        assert(apply_route(current, from_last, total) == target) by {
            assert(from_last.len() > 0);
            assert(from_last[0] == Command::JumpLast);
            assert(from_last.drop_first() =~= Seq::new(
                (total - target) as nat,
                |i: int| Command::StepPrevious,
            ));
            lemma_apply_prev_seq(total, total - target, total);
        }
        assert(r == steps || r == from_direct || r == from_last) by {
            assert(steps =~= step_route(current, target, total));
            assert(from_direct =~= seq![Command::DirectJump(limit as usize)] + Seq::new(
                (target - limit) as nat,
                |i: int| Command::StepNext,
            ));
            assert(from_last =~= seq![Command::JumpLast] + Seq::new(
                (total - target) as nat,
                |i: int| Command::StepPrevious,
            ));
        }
    }
}

/// Applying one command is applying its singleton route.
pub proof fn lemma_apply_singleton(p: int, c: Command, total: int)
    ensures
        apply_route(p, seq![c], total) == apply_command(p, c, total),
{
    let s = seq![c];
    assert(s.drop_first() =~= Seq::<Command>::empty());
    assert(apply_route(apply_command(p, c, total), s.drop_first(), total) == apply_command(
        p,
        c,
        total,
    ));
}

/// Law: no sequence of available commands that reaches the target is shorter
/// than the cheapest cost.
pub proof fn lemma_cost_lower_bound(p: int, t: int, s: Seq<Command>, total: int, limit: int)
    requires
        1 <= p <= total,
        1 <= t <= total,
        1 <= limit <= total,
        valid_commands(s, limit),
        apply_route(p, s, total) == t,
    ensures
        s.len() >= min_cost(p, t, total, limit),
    decreases s.len(),
{
    assert forall|a0: int| 1 <= a0 <= limit implies wrap_dist(a0, t, total) >= 0 by {
        lemma_wrap_dist_zero(a0, t, total);
    }
    lemma_anchors_min_ge(limit, t, total, 0);
    lemma_wrap_dist_zero(total, t, total);
    if s.len() == 0 {
        lemma_wrap_dist_zero(p, t, total);
    } else {
        let c = s[0];
        let p2 = apply_command(p, c, total);
        let s2 = s.drop_first();
        assert(valid_command(c, limit));
        assert(valid_commands(s2, limit)) by {
            assert forall|i: int| 0 <= i < s2.len() implies valid_command(
                #[trigger] s2[i],
                limit,
            ) by {
                assert(s2[i] == s[i + 1]);
            }
        }
        assert(1 <= p2 <= total);
        lemma_cost_lower_bound(p2, t, s2, total, limit);
        match c {
            Command::DirectJump(n) => {
                lemma_anchors_min_le(n as int, limit, t, total);
            },
            Command::JumpLast => {},
            Command::StepNext => {
                lemma_wrap_dist_step(p, t, total, c);
            },
            Command::StepPrevious => {
                lemma_wrap_dist_step(p, t, total, c);
            },
        }
    }
}

/// Law: the chosen route's length is exactly the cheapest cost.
pub proof fn lemma_route_len_is_min_cost(current: int, target: int, total: int, limit: int)
    requires
        1 <= current <= total,
        1 <= target <= total,
        1 <= limit <= total,
    ensures
        spec_route(current, target, total, limit).len() == min_cost(current, target, total, limit),
{
    assert forall|a0: int| 1 <= a0 <= limit implies wrap_dist(a0, target, total) >= 0 by {
        lemma_wrap_dist_zero(a0, target, total);
    }
    lemma_anchors_min_ge(limit, target, total, 0);
    lemma_wrap_dist_zero(total, target, total);
    lemma_wrap_dist_zero(current, target, total);
    if target == current {
    } else if target <= limit {
        lemma_anchors_min_le(target, limit, target, total);
        lemma_wrap_dist_zero(target, target, total);
    } else if target == total {
    } else if target == wrap_next(current, total) {
        assert(fwd_dist(current, target, total) == 1);
    } else if target == wrap_prev(current, total) {
        assert(bwd_dist(current, target, total) == 1);
    } else {
        let b = vstd::math::min(target - limit, total - target);
        assert(jump_min(target, total, limit) == b) by {
            lemma_anchors_min_le(limit, limit, target, total);
            assert(wrap_dist(limit, target, total) <= target - limit);
            assert(wrap_dist(total, target, total) <= total - target);
            assert forall|a0: int| 1 <= a0 <= limit implies wrap_dist(a0, target, total) >= b by {
                assert(fwd_dist(a0, target, total) == target - a0);
                assert(bwd_dist(a0, target, total) == a0 + total - target);
            }
            lemma_anchors_min_ge(limit, target, total, b);
        }
    }
}

/// Law: among all sequences of available commands that reach the target, the
/// chosen route is as short as any.
pub proof fn lemma_route_minimal(
    current: int,
    target: int,
    total: int,
    limit: int,
    other: Seq<Command>,
)
    requires
        1 <= current <= total,
        1 <= target <= total,
        1 <= limit <= total,
        valid_commands(other, limit),
        apply_route(current, other, total) == target,
    ensures
        spec_route(current, target, total, limit).len() <= other.len(),
{
    lemma_route_len_is_min_cost(current, target, total, limit);
    lemma_cost_lower_bound(current, target, other, total, limit);
}

/// Law: the route from a tab to itself is empty.
pub proof fn lemma_route_self(t: int, total: int, limit: int)
    ensures
        spec_route(t, t, total, limit) == Seq::<Command>::empty(),
{
}

} // verus!

