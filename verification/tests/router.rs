use kiosk::router::{route, Command, RouteError};

#[test]
fn route_same_tab_is_empty() {
    let r = route(3, 3, 10, 8).unwrap();
    assert_eq!(r, Vec::<Command>::new());
    let r = route(10, 10, 10, 8).unwrap();
    assert!(r.is_empty());
    let r = route(1, 1, 1, 1).unwrap();
    assert!(r.is_empty());
}

#[test]
fn route_rejects_target_zero() {
    assert_eq!(route(5, 0, 10, 8), Err(RouteError::InvalidTarget));
}

#[test]
fn route_rejects_target_past_end() {
    assert_eq!(route(5, 11, 10, 8), Err(RouteError::InvalidTarget));
}

#[test]
fn route_direct_tab_is_one_jump() {
    assert_eq!(route(9, 2, 10, 8).unwrap(), vec![Command::DirectJump(2)]);
    assert_eq!(route(10, 8, 10, 8).unwrap(), vec![Command::DirectJump(8)]);
}

#[test]
fn route_last_tab_is_one_jump() {
    assert_eq!(route(2, 10, 10, 8).unwrap(), vec![Command::JumpLast]);
}

#[test]
fn route_adjacent_is_one_step() {
    assert_eq!(route(8, 9, 10, 8).unwrap(), vec![Command::StepNext]);
    assert_eq!(route(10, 9, 10, 8).unwrap(), vec![Command::StepPrevious]);
}

#[test]
fn route_indirect_via_last_direct_tab() {
    // From tab 12 to tab 9 of 12: stepping back needs 3, jumping to tab 8
    // and stepping on needs 2, jumping to the last tab needs 4.
    assert_eq!(
        route(12, 9, 12, 8).unwrap(),
        vec![Command::DirectJump(8), Command::StepNext]
    );
}

#[test]
fn route_indirect_prefers_stepping() {
    // From tab 8 to tab 10 of 12: two steps beat both jump options.
    assert_eq!(
        route(8, 10, 12, 8).unwrap(),
        vec![Command::StepNext, Command::StepNext]
    );
}

#[test]
fn route_indirect_via_last_tab() {
    // From tab 2 to tab 11 of 12: backward past tab 1 needs 3 steps, but
    // jumping to the last tab and stepping back needs only 2.
    assert_eq!(
        route(2, 11, 12, 8).unwrap(),
        vec![Command::JumpLast, Command::StepPrevious]
    );
}

#[test]
fn route_tie_prefers_stepping_over_jumping() {
    // From tab 7 to tab 9 of 12: stepping (2) ties the direct-jump option
    // (2); stepping wins.
    assert_eq!(
        route(7, 9, 12, 8).unwrap(),
        vec![Command::StepNext, Command::StepNext]
    );
}

#[test]
fn route_tie_prefers_direct_jump_over_last_jump() {
    // From tab 5 to tab 10 of 12: both jump options cost 3, stepping costs
    // 5; the direct-jump option wins the tie.
    assert_eq!(
        route(5, 10, 12, 8).unwrap(),
        vec![Command::DirectJump(8), Command::StepNext, Command::StepNext]
    );
}

#[test]
fn route_steps_wrap_around() {
    // From tab 2 to tab 11 of 12 by steps alone would wrap backward past
    // tab 1; the router counts that distance as 3, not 9.
    let r = route(3, 11, 12, 8).unwrap();
    // Backward wrapping distance is 4, via last tab is 2.
    assert_eq!(r, vec![Command::JumpLast, Command::StepPrevious]);
    // From tab 1 to tab 11 of 12: wrapping backward costs 2 and ties the
    // jump-to-last option; stepping wins the tie.
    assert_eq!(
        route(1, 11, 12, 8).unwrap(),
        vec![Command::StepPrevious, Command::StepPrevious]
    );
}

#[test]
fn route_simulation_ends_at_target() {
    // Walk every pair for a 12-tab set and simulate the returned commands.
    let total = 12;
    for current in 1..=total {
        for target in 1..=total {
            let cmds = route(current, target, total, 8).unwrap();
            let mut pos = current;
            for c in &cmds {
                pos = match c {
                    Command::DirectJump(n) => *n,
                    Command::JumpLast => total,
                    Command::StepNext => {
                        if pos == total {
                            1
                        } else {
                            pos + 1
                        }
                    }
                    Command::StepPrevious => {
                        if pos == 1 {
                            total
                        } else {
                            pos - 1
                        }
                    }
                };
            }
            assert_eq!(pos, target, "from {current} to {target}");
            assert!(cmds.len() <= 1 + (total / 2), "route too long");
        }
    }
}
