//! Per-player input commands.
//!
//! A command is one byte with four logical bits: forward, back, turn left,
//! turn right.  It is the only value that crosses the network, so it must
//! encode the same way on every peer, and decoding must resolve contradictory
//! bits (both turn bits, or both drive bits) to neutral rather than to an
//! arbitrary winner.

use vstd::prelude::*;

verus! {

/// Bit for driving forward.
pub const INPUT_UP: u8 = 1;

/// Bit for driving backward.
pub const INPUT_DOWN: u8 = 2;

/// Bit for turning left.
pub const INPUT_LEFT: u8 = 4;

/// Bit for turning right.
pub const INPUT_RIGHT: u8 = 8;

/// One player's intent for one tick, as a fixed-width bit pattern.
#[derive(Clone, Copy, Debug, PartialEq, Eq, Structural)]
pub struct Input {
    pub inp: u8,
}

/// How the rollback engine qualified a command for one tick: either value is
/// usable as carried (confirmed or predicted), or the player is gone and a
/// deterministic fallback replaces whatever was carried.
#[derive(Clone, Copy, Debug, PartialEq, Eq, Structural)]
pub enum InputResolution {
    Confirmed,
    Predicted,
    Disconnected,
}

/// The pressed state of one set of local device keys.
#[derive(Clone, Copy, Debug, PartialEq, Eq, Structural)]
pub struct KeySet {
    pub up: bool,
    pub down: bool,
    pub left: bool,
    pub right: bool,
}

/// The player slots of this process, stable for the round.
pub struct LocalHandles {
    pub handles: Vec<usize>,
}

/// The command byte produced from one key set.
pub open spec fn encode_spec(k: KeySet) -> u8 {
    (if k.up {
        INPUT_UP
    } else {
        0u8
    }) | (if k.down {
        INPUT_DOWN
    } else {
        0u8
    }) | (if k.left {
        INPUT_LEFT
    } else {
        0u8
    }) | (if k.right {
        INPUT_RIGHT
    } else {
        0u8
    })
}

/// The command a given local slot reads: with several local players on one
/// machine, slot 0 owns the first key set and every other slot the second;
/// a sole local player owns the first key set.
pub open spec fn local_input_spec(handles: Seq<usize>, i: int, first: KeySet, second: KeySet) -> u8 {
    if handles.len() <= 1 || handles[i] == 0 {
        encode_spec(first)
    } else {
        encode_spec(second)
    }
}

/// The command byte a tick actually uses: a disconnected player's carried
/// value is discarded for the all-neutral command, never reused stale.
pub open spec fn resolved_spec(cmd: u8, res: InputResolution) -> u8 {
    match res {
        InputResolution::Confirmed => cmd,
        InputResolution::Predicted => cmd,
        InputResolution::Disconnected => 0u8,
    }
}

/// Steer intent decoded from a command: left minus right, contradictions
/// cancelling to zero.
pub open spec fn steer_spec(cmd: u8) -> int {
    if cmd & INPUT_LEFT != 0 && cmd & INPUT_RIGHT == 0 {
        1
    } else if cmd & INPUT_LEFT == 0 && cmd & INPUT_RIGHT != 0 {
        -1
    } else {
        0
    }
}

/// Acceleration intent decoded from a command: forward minus back,
/// contradictions cancelling to zero.
pub open spec fn accel_spec(cmd: u8) -> int {
    if cmd & INPUT_DOWN != 0 && cmd & INPUT_UP == 0 {
        -1
    } else if cmd & INPUT_DOWN == 0 && cmd & INPUT_UP != 0 {
        1
    } else {
        0
    }
}

/// A command with both turn bits set steers exactly like the all-neutral
/// command, and one with both drive bits set accelerates exactly like it.
pub proof fn lemma_opposite_input_neutral(cmd: u8)
    ensures
        cmd & INPUT_LEFT != 0 && cmd & INPUT_RIGHT != 0 ==> steer_spec(cmd) == steer_spec(0),
        cmd & INPUT_UP != 0 && cmd & INPUT_DOWN != 0 ==> accel_spec(cmd) == accel_spec(0),
        steer_spec(0) == 0,
        accel_spec(0) == 0,
{
    assert(0u8 & INPUT_LEFT == 0) by (bit_vector);
    assert(0u8 & INPUT_RIGHT == 0) by (bit_vector);
    assert(0u8 & INPUT_UP == 0) by (bit_vector);
    assert(0u8 & INPUT_DOWN == 0) by (bit_vector);
}

/// Encoding one key set into a command byte.
pub fn encode_input(k: &KeySet) -> (r: Input)
    ensures
        r.inp == encode_spec(*k),
{
    let b0: u8 = if k.up {
        INPUT_UP
    } else {
        0
    };
    let b1: u8 = if k.down {
        INPUT_DOWN
    } else {
        0
    };
    let b2: u8 = if k.left {
        INPUT_LEFT
    } else {
        0
    };
    let b3: u8 = if k.right {
        INPUT_RIGHT
    } else {
        0
    };
    Input { inp: b0 | b1 | b2 | b3 }
}

/// Applying the resolution policy to one carried command.
pub fn resolve_input(cmd: Input, res: InputResolution) -> (r: u8)
    ensures
        r == resolved_spec(cmd.inp, res),
{
    match res {
        InputResolution::Confirmed => cmd.inp,
        InputResolution::Predicted => cmd.inp,
        InputResolution::Disconnected => 0,
    }
}

/// Sampling fresh local device state into one command per local slot.
///
/// Never blocks, never fails, never reads simulation state: a slot with
/// nothing pressed simply yields the all-zero command.
pub fn input(local_players: &LocalHandles, first: &KeySet, second: &KeySet) -> (out: Vec<Input>)
    ensures
        out@.len() == local_players.handles@.len(),
        forall|i: int|
            0 <= i < out@.len() ==> out@[i].inp == local_input_spec(
                local_players.handles@,
                i,
                *first,
                *second,
            ),
{
    let mut out: Vec<Input> = Vec::new();
    let n: usize = local_players.handles.len();
    let mut idx: usize = 0;
    while idx < n
        invariant
            n == local_players.handles@.len(),
            idx <= n,
            out@.len() == idx,
            forall|i: int|
                0 <= i < idx ==> out@[i].inp == local_input_spec(
                    local_players.handles@,
                    i,
                    *first,
                    *second,
                ),
        decreases n - idx,
    {
        let handle: usize = local_players.handles[idx];
        let cmd: Input = if n <= 1 || handle == 0 {
            encode_input(first)
        } else {
            encode_input(second)
        };
        out.push(cmd);
        idx = idx + 1;
    }
    out
}

} // verus!
