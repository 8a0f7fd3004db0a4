//! Scenario tests for the deterministic stepper.

use arena_core::input::{Input, InputResolution, INPUT_DOWN, INPUT_LEFT, INPUT_RIGHT, INPUT_UP};
use arena_core::round::{
    advance_tick, control_one, spawn_players, Actor, FrameCount, MAX_SPEED_SQ, NUM_PLAYERS,
    POS_BOUND_FP,
};

fn tick(actors: &mut Vec<Actor>, cmds: &[(u8, InputResolution)], frame: &mut FrameCount) {
    let inputs: Vec<(Input, InputResolution)> =
        cmds.iter().map(|&(inp, res)| (Input { inp }, res)).collect();
    advance_tick(actors, &inputs, frame);
}

#[test]
fn determinism_same_state_same_commands() {
    let mut a = spawn_players(NUM_PLAYERS);
    let mut b = spawn_players(NUM_PLAYERS);
    let mut fa = FrameCount { frame: 0 };
    let mut fb = FrameCount { frame: 0 };
    let cmds = [
        (INPUT_UP | INPUT_LEFT, InputResolution::Confirmed),
        (INPUT_DOWN, InputResolution::Predicted),
    ];
    for _ in 0..60 {
        tick(&mut a, &cmds, &mut fa);
        tick(&mut b, &cmds, &mut fb);
    }
    assert_eq!(a, b);
    assert_eq!(fa, fb);
}

#[test]
fn replay_equivalence_rewind_and_restep() {
    // A varied command history, one table per tick.
    let history: Vec<[(u8, InputResolution); 2]> = (0..20u8)
        .map(|t| {
            [
                (t % 16, InputResolution::Confirmed),
                ((t * 3) % 16, InputResolution::Predicted),
            ]
        })
        .collect();

    // Straight through.
    let mut straight = spawn_players(NUM_PLAYERS);
    let mut fs = FrameCount { frame: 0 };
    for table in &history {
        tick(&mut straight, table, &mut fs);
    }

    // Through tick 8, snapshot, then replay 8..20 from the snapshot.
    let mut replayed = spawn_players(NUM_PLAYERS);
    let mut fr = FrameCount { frame: 0 };
    for table in &history[..8] {
        tick(&mut replayed, table, &mut fr);
    }
    let snapshot = replayed.clone();
    let mut resumed = snapshot.clone();
    for table in &history[8..] {
        tick(&mut resumed, table, &mut fr);
    }
    assert_eq!(straight, resumed);
}

#[test]
fn opposite_inputs_are_neutral() {
    let spawn = spawn_players(1);
    let both_turns = control_one(
        spawn[0],
        Input {
            inp: INPUT_LEFT | INPUT_RIGHT,
        },
        InputResolution::Confirmed,
    );
    let both_drives = control_one(
        spawn[0],
        Input {
            inp: INPUT_UP | INPUT_DOWN,
        },
        InputResolution::Confirmed,
    );
    let neutral = control_one(spawn[0], Input { inp: 0 }, InputResolution::Confirmed);
    assert_eq!(both_turns.controls.steer, 0);
    assert_eq!(both_drives.controls.accel, 0);
    assert_eq!(both_turns.controls.steer, neutral.controls.steer);
    assert_eq!(both_drives.controls.accel, neutral.controls.accel);

    // A full tick under contradictory bits matches a full tick under none.
    let mut contradictory = spawn_players(NUM_PLAYERS);
    let mut plain = spawn_players(NUM_PLAYERS);
    let mut fc = FrameCount { frame: 0 };
    let mut fp = FrameCount { frame: 0 };
    let all_bits = INPUT_UP | INPUT_DOWN | INPUT_LEFT | INPUT_RIGHT;
    for _ in 0..30 {
        tick(
            &mut contradictory,
            &[
                (all_bits, InputResolution::Confirmed),
                (all_bits, InputResolution::Confirmed),
            ],
            &mut fc,
        );
        tick(
            &mut plain,
            &[(0, InputResolution::Confirmed), (0, InputResolution::Confirmed)],
            &mut fp,
        );
    }
    assert_eq!(contradictory, plain);
}

#[test]
fn arena_containment_under_sustained_drive() {
    let mut actors = spawn_players(1);
    let mut frame = FrameCount { frame: 0 };
    for _ in 0..3000 {
        tick(&mut actors, &[(INPUT_UP, InputResolution::Confirmed)], &mut frame);
        assert!(actors[0].pos_x.abs() <= POS_BOUND_FP);
        assert!(actors[0].pos_y.abs() <= POS_BOUND_FP);
    }
    // Spawned at angle zero the actor faces straight up and pins against the
    // far wall.
    assert_eq!(actors[0].pos_y, POS_BOUND_FP);
}

#[test]
fn speed_never_exceeds_cap() {
    let mut actors = spawn_players(1);
    let mut frame = FrameCount { frame: 0 };
    let mut near_cap = false;
    for t in 0..400u32 {
        let cmd: u8 = match t % 4 {
            0 => INPUT_UP,
            1 => INPUT_UP | INPUT_LEFT,
            2 => INPUT_UP | INPUT_RIGHT,
            _ => INPUT_DOWN,
        };
        tick(&mut actors, &[(cmd, InputResolution::Confirmed)], &mut frame);
        let v = &actors[0].vel;
        assert!(v.x * v.x + v.y * v.y <= MAX_SPEED_SQ);
        if v.x * v.x + v.y * v.y > (MAX_SPEED_SQ / 100) * 98 {
            near_cap = true;
        }
    }
    assert!(near_cap, "the drive never came near the cap");
}

#[test]
fn disconnected_ignores_stale_commands() {
    // Drive both actors for a while, then cut one off while its carried
    // command still says full throttle.
    let mut cut = spawn_players(NUM_PLAYERS);
    let mut fallback = spawn_players(NUM_PLAYERS);
    let mut f1 = FrameCount { frame: 0 };
    let mut f2 = FrameCount { frame: 0 };
    let warmup = [
        (INPUT_UP, InputResolution::Confirmed),
        (INPUT_UP | INPUT_LEFT, InputResolution::Confirmed),
    ];
    for _ in 0..40 {
        tick(&mut cut, &warmup, &mut f1);
        tick(&mut fallback, &warmup, &mut f2);
    }
    for _ in 0..25 {
        tick(
            &mut cut,
            &[
                (INPUT_UP, InputResolution::Confirmed),
                (INPUT_UP | INPUT_LEFT, InputResolution::Disconnected),
            ],
            &mut f1,
        );
        tick(
            &mut fallback,
            &[
                (INPUT_UP, InputResolution::Confirmed),
                (0, InputResolution::Confirmed),
            ],
            &mut f2,
        );
    }
    assert_eq!(cut, fallback);
}

#[test]
fn all_zero_commands_hold_spawn_exactly() {
    let spawn = spawn_players(NUM_PLAYERS);
    let mut actors = spawn.clone();
    let mut frame = FrameCount { frame: 0 };
    for _ in 0..100 {
        tick(
            &mut actors,
            &[(0, InputResolution::Confirmed), (0, InputResolution::Confirmed)],
            &mut frame,
        );
    }
    for (a, s) in actors.iter().zip(spawn.iter()) {
        assert_eq!(a.pos_x, s.pos_x);
        assert_eq!(a.pos_y, s.pos_y);
        assert_eq!(a.angle_mdeg, s.angle_mdeg);
        assert_eq!(a.vel.x, 0);
        assert_eq!(a.vel.y, 0);
    }
    assert_eq!(frame.frame, 100);
}

#[test]
fn forward_fifty_ticks_exact_speed() {
    // One actor from rest, forward held for fifty ticks: the impulse adds
    // exactly 6554 fixed-point units of speed per tick along the facing
    // axis, and neither drift nor friction nor the cap touches it.
    let mut actors = spawn_players(1);
    let mut frame = FrameCount { frame: 0 };
    for _ in 0..50 {
        tick(&mut actors, &[(INPUT_UP, InputResolution::Confirmed)], &mut frame);
    }
    let a = &actors[0];
    // Spawned at angle zero the actor faces a quarter turn on: +y.
    assert_eq!(a.vel.x, 0);
    assert_eq!(a.vel.y, 50 * 6554);
    assert_eq!(a.pos_x, 11796480);
    assert_eq!(a.pos_y, 6554 * 1275);
    assert_eq!(a.checksum.value, 43985);
}
