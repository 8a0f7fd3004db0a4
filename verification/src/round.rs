//! The deterministic stepper and the round's entities.
//!
//! Each tick every actor advances by exactly one fixed time step from its own
//! previous state and its own resolved command: controls are decoded, an
//! acceleration impulse is applied along the facing direction, lateral grip
//! and friction attenuate the velocity, speed is clamped, the actor turns at
//! a speed-dependent rate, and the position is integrated and clamped into
//! the arena.  All of it runs on the shared fixed-point arithmetic, so the
//! same state and the same commands give bit-identical results on every peer
//! and on every replay.

use vstd::prelude::*;
use vstd::arithmetic::div_mod::{lemma_multiply_divide_lt, lemma_div_pos_is_pos};
use crate::fixed::{
    FP_ONE,
    FP_ONE_SQ,
    FULL_TURN_MDEG,
    QUARTER_TURN_MDEG,
    tdiv,
    lemma_tdiv_zero,
    lemma_tdiv_bound,
    lemma_mul_abs_bound,
    tdiv64,
    sqrt_floor,
    lemma_sqrt_floor,
    isqrt64,
    sin_mdeg,
    cos_mdeg,
    wrap_mdeg,
    clamp_spec,
    sin_fp,
    cos_fp,
    wrap_angle,
    clamp64,
    lemma_sq_le,
    lemma_sq_lt,
    lemma_scale_down_sq,
};
use crate::input::{
    Input,
    InputResolution,
    resolved_spec,
    steer_spec,
    accel_spec,
    resolve_input,
    INPUT_UP,
    INPUT_DOWN,
    INPUT_LEFT,
    INPUT_RIGHT,
};
use crate::checksum::{Checksum, checksum_of, checksum_state, lemma_fletcher_sums_range, CHECKSUM_BIAS};

verus! {

/// Number of actors in a round.
pub const NUM_PLAYERS: usize = 2;

/// Largest supported player count (one spawn color per slot).
pub const MAX_PLAYERS: usize = 4;

/// Acceleration impulse per tick, in fixed-point units (one tenth of a unit).
pub const MOV_SPEED_FP: i64 = 6554;

/// Turn rate per tick at full speed, in thousandths of a degree.
pub const ROT_SPEED_MDEG: i64 = 2865;

/// Speed cap, in fixed-point units per tick (seven and a half units).
pub const MAX_SPEED_FP: i64 = 491520;

/// The speed cap, squared.
pub const MAX_SPEED_SQ: i64 = 491520 * 491520;

/// Numerator of the friction factor applied when coasting.
pub const FRICTION_NUM: i64 = 98;

/// Denominator of the friction factor.
pub const FRICTION_DEN: i64 = 100;

/// Numerator of the lateral grip (drift) factor.
pub const DRIFT_NUM: i64 = 95;

/// Denominator of the lateral grip factor.
pub const DRIFT_DEN: i64 = 100;

/// Side length of the square arena, in fixed-point units (720 units).
pub const ARENA_SIZE_FP: i64 = 47185920;

/// An actor's footprint, in fixed-point units (50 units).
pub const PLAYER_SIZE_FP: i64 = 3276800;

/// How far from the origin an actor's center may travel: half the arena,
/// inset by half the footprint.
pub const POS_BOUND_FP: i64 = 21954560;

/// Radius of the spawn circle: a quarter of the arena side.
pub const SPAWN_RADIUS_FP: i64 = 11796480;

/// The derived constants agree with the primary ones: the position bound is
/// half the arena inset by half the footprint, and the spawn circle is
/// inscribed a quarter side out.
pub proof fn lemma_arena_constants()
    ensures
        2 * POS_BOUND_FP + PLAYER_SIZE_FP == ARENA_SIZE_FP,
        4 * SPAWN_RADIUS_FP == ARENA_SIZE_FP,
        SPAWN_RADIUS_FP < POS_BOUND_FP,
{
}

/// Which player slot an actor belongs to.
#[derive(Clone, Copy, Debug, PartialEq, Eq, Structural, Default)]
pub struct Player {
    pub handle: usize,
}

/// An actor's velocity, in fixed-point units per tick.
#[derive(Clone, Copy, Debug, PartialEq, Eq, Structural, Default)]
pub struct Velocity {
    pub x: i64,
    pub y: i64,
}

/// Control intents decoded for the current tick, each in `{-1, 0, 1}`.
#[derive(Clone, Copy, Debug, PartialEq, Eq, Structural, Default)]
pub struct CarControls {
    pub accel: i8,
    pub steer: i8,
}

/// The round's monotonic tick counter.
#[derive(Clone, Copy, Debug, PartialEq, Eq, Structural, Hash, Default)]
pub struct FrameCount {
    pub frame: u32,
}

/// One player actor: its slot, pose, velocity, per-tick control intents and
/// latest state fingerprint.
#[derive(Clone, Copy, Debug, PartialEq, Eq, Structural)]
pub struct Actor {
    pub player: Player,
    pub pos_x: i64,
    pub pos_y: i64,
    pub angle_mdeg: i64,
    pub vel: Velocity,
    pub controls: CarControls,
    pub checksum: Checksum,
}

/// The mathematical image of one actor, over unbounded integers.
pub struct ActorModel {
    pub handle: int,
    pub pos_x: int,
    pub pos_y: int,
    pub angle: int,
    pub vel_x: int,
    pub vel_y: int,
    pub accel: int,
    pub steer: int,
    pub sum: int,
}

impl View for Actor {
    type V = ActorModel;

    open spec fn view(&self) -> ActorModel {
        ActorModel {
            handle: self.player.handle as int,
            pos_x: self.pos_x as int,
            pos_y: self.pos_y as int,
            angle: self.angle_mdeg as int,
            vel_x: self.vel.x as int,
            vel_y: self.vel.y as int,
            accel: self.controls.accel as int,
            steer: self.controls.steer as int,
            sum: self.checksum.value as int,
        }
    }
}

/// The models of a whole actor set.
pub open spec fn models(s: Seq<Actor>) -> Seq<ActorModel> {
    Seq::new(s.len(), |i: int| s[i]@)
}

/// The velocity is inside the speed cap, componentwise and in magnitude.
pub open spec fn vel_ok(m: ActorModel) -> bool {
    &&& -MAX_SPEED_FP <= m.vel_x <= MAX_SPEED_FP
    &&& -MAX_SPEED_FP <= m.vel_y <= MAX_SPEED_FP
    &&& m.vel_x * m.vel_x + m.vel_y * m.vel_y <= MAX_SPEED_SQ
}

/// The well-formedness every actor keeps from spawn to teardown.
pub open spec fn actor_ok(m: ActorModel) -> bool {
    &&& 0 <= m.angle < FULL_TURN_MDEG
    &&& -POS_BOUND_FP <= m.pos_x <= POS_BOUND_FP
    &&& -POS_BOUND_FP <= m.pos_y <= POS_BOUND_FP
    &&& vel_ok(m)
    &&& -1 <= m.accel <= 1
    &&& -1 <= m.steer <= 1
    &&& 0 <= m.sum < 65536
    &&& 0 <= m.handle
}

/// Decoding the resolved command of this tick into control intents.
pub open spec fn control_step(m: ActorModel, cmd: u8, res: InputResolution) -> ActorModel {
    let r: u8 = resolved_spec(cmd, res);
    ActorModel { accel: accel_spec(r), steer: steer_spec(r), ..m }
}

/// The velocity after one tick of driving physics: the acceleration impulse
/// along the facing direction, lateral grip, friction when coasting, and the
/// speed cap.
pub open spec fn velocity_step(m: ActorModel) -> ActorModel {
    let fx: int = cos_mdeg(m.angle);
    let fy: int = sin_mdeg(m.angle);
    let vx1: int = m.vel_x + tdiv(m.accel * MOV_SPEED_FP * fx, FP_ONE as int);
    let vy1: int = m.vel_y + tdiv(m.accel * MOV_SPEED_FP * fy, FP_ONE as int);
    let dot_f: int = vx1 * fx + vy1 * fy;
    let dot_r: int = vx1 * fy - vy1 * fx;
    let fwd_x: int = tdiv(fx * dot_f, FP_ONE_SQ as int);
    let fwd_y: int = tdiv(fy * dot_f, FP_ONE_SQ as int);
    let side_x: int = tdiv(fy * dot_r, FP_ONE_SQ as int);
    let side_y: int = tdiv(-fx * dot_r, FP_ONE_SQ as int);
    let vx2: int = fwd_x + tdiv(side_x * DRIFT_NUM, DRIFT_DEN as int);
    let vy2: int = fwd_y + tdiv(side_y * DRIFT_NUM, DRIFT_DEN as int);
    let vx3: int = if m.accel == 0 {
        tdiv(vx2 * FRICTION_NUM, FRICTION_DEN as int)
    } else {
        vx2
    };
    let vy3: int = if m.accel == 0 {
        tdiv(vy2 * FRICTION_NUM, FRICTION_DEN as int)
    } else {
        vy2
    };
    let nsq: int = vx3 * vx3 + vy3 * vy3;
    if nsq > MAX_SPEED_SQ {
        let mag1: int = sqrt_floor(nsq as nat) as int + 1;
        ActorModel {
            vel_x: tdiv(vx3 * MAX_SPEED_FP, mag1),
            vel_y: tdiv(vy3 * MAX_SPEED_FP, mag1),
            ..m
        }
    } else {
        ActorModel { vel_x: vx3, vel_y: vy3, ..m }
    }
}

/// How far the actor turns this tick: the fixed turn rate, scaled by steer
/// intent and by speed (an actor at rest cannot turn), inverted while the
/// actor drives backwards.
pub open spec fn rot_delta(m: ActorModel) -> int {
    let fx: int = cos_mdeg(m.angle);
    let fy: int = sin_mdeg(m.angle);
    let nsq: int = m.vel_x * m.vel_x + m.vel_y * m.vel_y;
    let mag: int = sqrt_floor(nsq as nat) as int;
    let raw: int = tdiv(mag * FP_ONE, MAX_SPEED_FP as int);
    let factor: int = if raw > FP_ONE {
        FP_ONE as int
    } else {
        raw
    };
    let base: int = tdiv(m.steer * ROT_SPEED_MDEG * factor, FP_ONE as int);
    let dot_f: int = m.vel_x * fx + m.vel_y * fy;
    if dot_f >= 0 {
        base
    } else {
        -base
    }
}

/// The pose after one tick: the turn above, then the velocity added to the
/// position, then the position clamped into the arena.
pub open spec fn move_step(m: ActorModel) -> ActorModel {
    ActorModel {
        pos_x: clamp_spec(m.pos_x + m.vel_x, POS_BOUND_FP as int),
        pos_y: clamp_spec(m.pos_y + m.vel_y, POS_BOUND_FP as int),
        angle: wrap_mdeg(m.angle + rot_delta(m)),
        ..m
    }
}

/// The fingerprint recomputed from the freshly moved state.
pub open spec fn checksum_step(m: ActorModel) -> ActorModel {
    ActorModel { sum: checksum_of(m.pos_x, m.pos_y, m.vel_x, m.vel_y), ..m }
}

/// One whole tick of one actor, the four phases in their fixed order.
pub open spec fn actor_tick(m: ActorModel, cmd: u8, res: InputResolution) -> ActorModel {
    checksum_step(move_step(velocity_step(control_step(m, cmd, res))))
}

/// The speed cap holds after every velocity phase, whatever state came in:
/// the velocity magnitude after any single tick never exceeds the fixed
/// maximum speed.
pub proof fn lemma_velocity_step_capped(m: ActorModel)
    ensures
        vel_ok(velocity_step(m)),
{
    let fx: int = cos_mdeg(m.angle);
    let fy: int = sin_mdeg(m.angle);
    let vx1: int = m.vel_x + tdiv(m.accel * MOV_SPEED_FP * fx, FP_ONE as int);
    let vy1: int = m.vel_y + tdiv(m.accel * MOV_SPEED_FP * fy, FP_ONE as int);
    let dot_f: int = vx1 * fx + vy1 * fy;
    let dot_r: int = vx1 * fy - vy1 * fx;
    let fwd_x: int = tdiv(fx * dot_f, FP_ONE_SQ as int);
    let fwd_y: int = tdiv(fy * dot_f, FP_ONE_SQ as int);
    let side_x: int = tdiv(fy * dot_r, FP_ONE_SQ as int);
    let side_y: int = tdiv(-fx * dot_r, FP_ONE_SQ as int);
    let vx2: int = fwd_x + tdiv(side_x * DRIFT_NUM, DRIFT_DEN as int);
    let vy2: int = fwd_y + tdiv(side_y * DRIFT_NUM, DRIFT_DEN as int);
    let vx3: int = if m.accel == 0 {
        tdiv(vx2 * FRICTION_NUM, FRICTION_DEN as int)
    } else {
        vx2
    };
    let vy3: int = if m.accel == 0 {
        tdiv(vy2 * FRICTION_NUM, FRICTION_DEN as int)
    } else {
        vy2
    };
    let nsq: int = vx3 * vx3 + vy3 * vy3;
    assert(vx3 * vx3 >= 0 && vy3 * vy3 >= 0) by (nonlinear_arith);
    if nsq > MAX_SPEED_SQ {
        lemma_sqrt_floor(nsq as nat);
        let mag: int = sqrt_floor(nsq as nat) as int;
        let d: int = mag + 1;
        assert(vx3 * vx3 + vy3 * vy3 < d * d);
        lemma_scale_down_sq(vx3, vy3, d, MAX_SPEED_FP as int);
        assert(velocity_step(m).vel_x == tdiv(vx3 * MAX_SPEED_FP, d));
        assert(velocity_step(m).vel_y == tdiv(vy3 * MAX_SPEED_FP, d));
    } else {
        lemma_sq_le(vx3, MAX_SPEED_FP as int);
        lemma_sq_le(vy3, MAX_SPEED_FP as int);
    }
}

/// Decoding the resolved command into the actor's control intents.
pub fn control_one(a: Actor, cmd: Input, res: InputResolution) -> (r: Actor)
    ensures
        r@ == control_step(a@, cmd.inp, res),
        r.player == a.player,
{
    let rc: u8 = resolve_input(cmd, res);
    let steer: i8 = if rc & INPUT_LEFT != 0 && rc & INPUT_RIGHT == 0 {
        1
    } else if rc & INPUT_LEFT == 0 && rc & INPUT_RIGHT != 0 {
        -1
    } else {
        0
    };
    let accel: i8 = if rc & INPUT_DOWN != 0 && rc & INPUT_UP == 0 {
        -1
    } else if rc & INPUT_DOWN == 0 && rc & INPUT_UP != 0 {
        1
    } else {
        0
    };
    Actor { controls: CarControls { accel, steer }, ..a }
}

/// One actor's velocity phase: impulse, grip, friction and speed cap.
pub fn velocity_one(a: Actor) -> (r: Actor)
    requires
        actor_ok(a@),
    ensures
        r@ == velocity_step(a@),
        actor_ok(r@),
{
    let fx: i64 = cos_fp(a.angle_mdeg);
    let fy: i64 = sin_fp(a.angle_mdeg);
    let accmov: i64 = (a.controls.accel as i64) * MOV_SPEED_FP;
    proof {
        lemma_mul_abs_bound(accmov as int, fx as int, 6554, 65536);
        lemma_mul_abs_bound(accmov as int, fy as int, 6554, 65536);
    }
    // The impulse is at most the impulse constant, so the grown velocity
    // stays within 491520 + 6554 = 498074 per component.
    let impx: i64 = tdiv64(accmov * fx, FP_ONE);
    let impy: i64 = tdiv64(accmov * fy, FP_ONE);
    proof {
        lemma_tdiv_bound((accmov * fx) as int, FP_ONE as int, 6554);
        lemma_tdiv_bound((accmov * fy) as int, FP_ONE as int, 6554);
    }
    let vx1: i64 = a.vel.x + impx;
    let vy1: i64 = a.vel.y + impy;
    proof {
        lemma_mul_abs_bound(vx1 as int, fx as int, 498074, 65536);
        lemma_mul_abs_bound(vy1 as int, fy as int, 498074, 65536);
        lemma_mul_abs_bound(vx1 as int, fy as int, 498074, 65536);
        lemma_mul_abs_bound(vy1 as int, fx as int, 498074, 65536);
    }
    // Each dot product stays within 2 * 498074 * 65536 = 65283555328, and
    // the projections after the square-scale division within
    // 65283555328 / 65536 = 996148.
    let dotf: i64 = vx1 * fx + vy1 * fy;
    let dotr: i64 = vx1 * fy - vy1 * fx;
    proof {
        lemma_mul_abs_bound(fx as int, dotf as int, 65536, 65283555328);
        lemma_mul_abs_bound(fy as int, dotf as int, 65536, 65283555328);
        lemma_mul_abs_bound(fy as int, dotr as int, 65536, 65283555328);
        lemma_mul_abs_bound(-(fx as int), dotr as int, 65536, 65283555328);
    }
    let fwdx: i64 = tdiv64(fx * dotf, FP_ONE_SQ);
    let fwdy: i64 = tdiv64(fy * dotf, FP_ONE_SQ);
    let sidex: i64 = tdiv64(fy * dotr, FP_ONE_SQ);
    let sidey: i64 = tdiv64((-fx) * dotr, FP_ONE_SQ);
    proof {
        lemma_tdiv_bound((fx * dotf) as int, FP_ONE_SQ as int, 996148);
        lemma_tdiv_bound((fy * dotf) as int, FP_ONE_SQ as int, 996148);
        lemma_tdiv_bound((fy * dotr) as int, FP_ONE_SQ as int, 996148);
        lemma_tdiv_bound((-(fx as int)) * dotr as int, FP_ONE_SQ as int, 996148);
    }
    // Grip scales the lateral part within 996148 * 95 / 100 < 946341, so a
    // recombined component stays within 996148 + 946341 = 1942489; friction
    // can only shrink it further (1942489 * 98 / 100 < 1903640).
    let driftx: i64 = tdiv64(sidex * DRIFT_NUM, DRIFT_DEN);
    let drifty: i64 = tdiv64(sidey * DRIFT_NUM, DRIFT_DEN);
    proof {
        lemma_tdiv_bound((sidex * DRIFT_NUM) as int, DRIFT_DEN as int, 946341);
        lemma_tdiv_bound((sidey * DRIFT_NUM) as int, DRIFT_DEN as int, 946341);
    }
    let vx2: i64 = fwdx + driftx;
    let vy2: i64 = fwdy + drifty;
    proof {
        lemma_tdiv_bound((vx2 * FRICTION_NUM) as int, FRICTION_DEN as int, 1903640);
        lemma_tdiv_bound((vy2 * FRICTION_NUM) as int, FRICTION_DEN as int, 1903640);
    }
    let vx3: i64 = if a.controls.accel == 0 {
        tdiv64(vx2 * FRICTION_NUM, FRICTION_DEN)
    } else {
        vx2
    };
    let vy3: i64 = if a.controls.accel == 0 {
        tdiv64(vy2 * FRICTION_NUM, FRICTION_DEN)
    } else {
        vy2
    };
    proof {
        assert(-1942489 <= vx3 <= 1942489);
        assert(-1942489 <= vy3 <= 1942489);
        lemma_mul_abs_bound(vx3 as int, vx3 as int, 1942489, 1942489);
        lemma_mul_abs_bound(vy3 as int, vy3 as int, 1942489, 1942489);
        assert((vx3 as int) * (vx3 as int) >= 0 && (vy3 as int) * (vy3 as int) >= 0)
            by (nonlinear_arith);
        lemma_velocity_step_capped(a@);
    }
    // The squared magnitude stays within 2 * 1942489^2 = 7546527030242.
    let nsq: i64 = vx3 * vx3 + vy3 * vy3;
    if nsq > MAX_SPEED_SQ {
        let mag: u64 = isqrt64(nsq as u64);
        proof {
            assert((nsq as u64) as nat == nsq as nat);
            lemma_sqrt_floor(nsq as nat);
            assert(mag <= 3000000) by (nonlinear_arith)
                requires
                    0 <= mag,
                    (mag as int) * (mag as int) <= 7546527030242,
            {
            }
        }
        let magp1: i64 = (mag as i64) + 1;
        proof {
            lemma_mul_abs_bound(vx3 as int, MAX_SPEED_FP as int, 1942489, 491520);
            lemma_mul_abs_bound(vy3 as int, MAX_SPEED_FP as int, 1942489, 491520);
            lemma_sq_lt(vx3 as int, magp1 as int);
            lemma_sq_lt(vy3 as int, magp1 as int);
            lemma_mul_abs_bound(vx3 as int, MAX_SPEED_FP as int, mag as int, 491520);
            lemma_mul_abs_bound(vy3 as int, MAX_SPEED_FP as int, mag as int, 491520);
        }
        let nvx: i64 = tdiv64(vx3 * MAX_SPEED_FP, magp1);
        let nvy: i64 = tdiv64(vy3 * MAX_SPEED_FP, magp1);
        let r: Actor = Actor { vel: Velocity { x: nvx, y: nvy }, ..a };
        proof {
            assert(r@ == velocity_step(a@));
        }
        r
    } else {
        let r: Actor = Actor { vel: Velocity { x: vx3, y: vy3 }, ..a };
        proof {
            assert(r@ == velocity_step(a@));
        }
        r
    }
}

/// One actor's move phase: turn, integrate, and stay inside the arena.
pub fn move_one(a: Actor) -> (r: Actor)
    requires
        actor_ok(a@),
    ensures
        r@ == move_step(a@),
        actor_ok(r@),
{
    let fx: i64 = cos_fp(a.angle_mdeg);
    let fy: i64 = sin_fp(a.angle_mdeg);
    proof {
        lemma_mul_abs_bound(a.vel.x as int, a.vel.x as int, 491520, 491520);
        lemma_mul_abs_bound(a.vel.y as int, a.vel.y as int, 491520, 491520);
        assert((a.vel.x as int) * (a.vel.x as int) >= 0 && (a.vel.y as int) * (a.vel.y as int)
            >= 0) by (nonlinear_arith);
    }
    let nsq: i64 = a.vel.x * a.vel.x + a.vel.y * a.vel.y;
    let mag: u64 = isqrt64(nsq as u64);
    proof {
        assert((nsq as u64) as nat == nsq as nat);
        lemma_sqrt_floor(nsq as nat);
        assert(mag <= 491520) by (nonlinear_arith)
            requires
                0 <= mag,
                (mag as int) * (mag as int) <= 241591910400,
        {
        }
    }
    let magi: i64 = mag as i64;
    let raw: i64 = tdiv64(magi * FP_ONE, MAX_SPEED_FP);
    proof {
        lemma_tdiv_bound((magi * FP_ONE) as int, MAX_SPEED_FP as int, 65536);
    }
    let factor: i64 = if raw > FP_ONE {
        FP_ONE
    } else {
        raw
    };
    let sr: i64 = (a.controls.steer as i64) * ROT_SPEED_MDEG;
    proof {
        lemma_mul_abs_bound(sr as int, factor as int, 2865, 65536);
    }
    let base: i64 = tdiv64(sr * factor, FP_ONE);
    proof {
        lemma_tdiv_bound((sr * factor) as int, FP_ONE as int, 2865);
        lemma_mul_abs_bound(a.vel.x as int, fx as int, 491520, 65536);
        lemma_mul_abs_bound(a.vel.y as int, fy as int, 491520, 65536);
    }
    let dotf: i64 = a.vel.x * fx + a.vel.y * fy;
    let delta: i64 = if dotf >= 0 {
        base
    } else {
        -base
    };
    let na: i64 = wrap_angle(a.angle_mdeg + delta);
    let npx: i64 = clamp64(a.pos_x + a.vel.x, POS_BOUND_FP);
    let npy: i64 = clamp64(a.pos_y + a.vel.y, POS_BOUND_FP);
    let r: Actor = Actor { pos_x: npx, pos_y: npy, angle_mdeg: na, ..a };
    proof {
        assert(r@ == move_step(a@));
    }
    r
}

/// One actor's fingerprint phase, recomputed in full from the fresh state.
pub fn checksum_one(a: Actor) -> (r: Actor)
    requires
        actor_ok(a@),
    ensures
        r@ == checksum_step(a@),
        actor_ok(r@),
{
    let v: u16 = checksum_state(a.pos_x, a.pos_y, a.vel.x, a.vel.y);
    Actor { checksum: Checksum { value: v }, ..a }
}

/// Every actor in the set is well formed.
pub open spec fn all_ok(ms: Seq<ActorModel>) -> bool {
    forall|i: int| 0 <= i < ms.len() ==> actor_ok(#[trigger] ms[i])
}

/// Every actor's slot indexes into a command table of the given width.
pub open spec fn handles_ok(ms: Seq<ActorModel>, n: int) -> bool {
    forall|i: int| 0 <= i < ms.len() ==> 0 <= (#[trigger] ms[i]).handle < n
}

/// The control phase over the whole set: each actor reads its own slot of
/// the command table.
pub open spec fn apply_all(ms: Seq<ActorModel>, inputs: Seq<(Input, InputResolution)>) -> Seq<
    ActorModel,
> {
    Seq::new(ms.len(), |i: int| control_step(ms[i], inputs[ms[i].handle].0.inp, inputs[ms[i].handle].1))
}

/// The velocity phase over the whole set.
pub open spec fn vel_all(ms: Seq<ActorModel>) -> Seq<ActorModel> {
    Seq::new(ms.len(), |i: int| velocity_step(ms[i]))
}

/// The move phase over the whole set.
pub open spec fn move_all(ms: Seq<ActorModel>) -> Seq<ActorModel> {
    Seq::new(ms.len(), |i: int| move_step(ms[i]))
}

/// The fingerprint phase over the whole set.
pub open spec fn sum_all(ms: Seq<ActorModel>) -> Seq<ActorModel> {
    Seq::new(ms.len(), |i: int| checksum_step(ms[i]))
}

/// One whole simulation tick over the whole set.
pub open spec fn tick_all(ms: Seq<ActorModel>, inputs: Seq<(Input, InputResolution)>) -> Seq<
    ActorModel,
> {
    Seq::new(ms.len(), |i: int| actor_tick(ms[i], inputs[ms[i].handle].0.inp, inputs[ms[i].handle].1))
}

/// A tick is exactly the four phases run over the set in their fixed order.
pub proof fn lemma_tick_composition(ms: Seq<ActorModel>, inputs: Seq<(Input, InputResolution)>)
    ensures
        tick_all(ms, inputs) == sum_all(move_all(vel_all(apply_all(ms, inputs)))),
{
    assert(tick_all(ms, inputs) =~= sum_all(move_all(vel_all(apply_all(ms, inputs)))));
}

/// The control phase: decode each actor's resolved command of this tick.
pub fn apply_inputs(actors: &mut Vec<Actor>, inputs: &Vec<(Input, InputResolution)>)
    requires
        all_ok(models(old(actors)@)),
        handles_ok(models(old(actors)@), inputs@.len() as int),
    ensures
        models(final(actors)@) == apply_all(models(old(actors)@), inputs@),
        all_ok(models(final(actors)@)),
{
    let ghost orig: Seq<Actor> = actors@;
    let n: usize = actors.len();
    let mut i: usize = 0;
    while i < n
        invariant
            n == actors@.len(),
            orig.len() == n,
            i <= n,
            all_ok(models(orig)),
            handles_ok(models(orig), inputs@.len() as int),
            forall|j: int| i <= j < n ==> actors@[j] == orig[j],
            forall|j: int|
                0 <= j < i ==> (#[trigger] actors@[j])@ == control_step(
                    orig[j]@,
                    inputs@[orig[j]@.handle].0.inp,
                    inputs@[orig[j]@.handle].1,
                ),
        decreases n - i,
    {
        let a: Actor = actors[i];
        let h: usize = a.player.handle;
        proof {
            assert(models(orig)[i as int] == orig[i as int]@);
        }
        let pair: (Input, InputResolution) = inputs[h];
        let upd: Actor = control_one(a, pair.0, pair.1);
        actors[i] = upd;
        i = i + 1;
    }
    proof {
        assert(models(actors@) =~= apply_all(models(orig), inputs@));
        assert forall|j: int| 0 <= j < actors@.len() implies actor_ok(
            #[trigger] models(actors@)[j],
        ) by {
            assert(models(orig)[j] == orig[j]@);
        }
    }
}

/// The velocity phase over every actor.
pub fn update_velocity(actors: &mut Vec<Actor>)
    requires
        all_ok(models(old(actors)@)),
    ensures
        models(final(actors)@) == vel_all(models(old(actors)@)),
        all_ok(models(final(actors)@)),
{
    let ghost orig: Seq<Actor> = actors@;
    let n: usize = actors.len();
    let mut i: usize = 0;
    while i < n
        invariant
            n == actors@.len(),
            orig.len() == n,
            i <= n,
            all_ok(models(orig)),
            forall|j: int| i <= j < n ==> actors@[j] == orig[j],
            forall|j: int|
                0 <= j < i ==> (#[trigger] actors@[j])@ == velocity_step(orig[j]@) && actor_ok(
                    actors@[j]@,
                ),
        decreases n - i,
    {
        let a: Actor = actors[i];
        proof {
            assert(models(orig)[i as int] == orig[i as int]@);
        }
        let upd: Actor = velocity_one(a);
        actors[i] = upd;
        i = i + 1;
    }
    proof {
        assert(models(actors@) =~= vel_all(models(orig)));
    }
}

/// The move phase over every actor.
pub fn move_players(actors: &mut Vec<Actor>)
    requires
        all_ok(models(old(actors)@)),
    ensures
        models(final(actors)@) == move_all(models(old(actors)@)),
        all_ok(models(final(actors)@)),
{
    let ghost orig: Seq<Actor> = actors@;
    let n: usize = actors.len();
    let mut i: usize = 0;
    while i < n
        invariant
            n == actors@.len(),
            orig.len() == n,
            i <= n,
            all_ok(models(orig)),
            forall|j: int| i <= j < n ==> actors@[j] == orig[j],
            forall|j: int|
                0 <= j < i ==> (#[trigger] actors@[j])@ == move_step(orig[j]@) && actor_ok(
                    actors@[j]@,
                ),
        decreases n - i,
    {
        let a: Actor = actors[i];
        proof {
            assert(models(orig)[i as int] == orig[i as int]@);
        }
        let upd: Actor = move_one(a);
        actors[i] = upd;
        i = i + 1;
    }
    proof {
        assert(models(actors@) =~= move_all(models(orig)));
    }
}

/// The fingerprint phase over every actor.
pub fn checksum_players(actors: &mut Vec<Actor>)
    requires
        all_ok(models(old(actors)@)),
    ensures
        models(final(actors)@) == sum_all(models(old(actors)@)),
        all_ok(models(final(actors)@)),
{
    let ghost orig: Seq<Actor> = actors@;
    let n: usize = actors.len();
    let mut i: usize = 0;
    while i < n
        invariant
            n == actors@.len(),
            orig.len() == n,
            i <= n,
            all_ok(models(orig)),
            forall|j: int| i <= j < n ==> actors@[j] == orig[j],
            forall|j: int|
                0 <= j < i ==> (#[trigger] actors@[j])@ == checksum_step(orig[j]@) && actor_ok(
                    actors@[j]@,
                ),
        decreases n - i,
    {
        let a: Actor = actors[i];
        proof {
            assert(models(orig)[i as int] == orig[i as int]@);
        }
        let upd: Actor = checksum_one(a);
        actors[i] = upd;
        i = i + 1;
    }
    proof {
        assert(models(actors@) =~= sum_all(models(orig)));
    }
}

/// The tick counter advances by exactly one per simulation tick and never
/// moves otherwise.
pub fn increase_frame_count(frame_count: &mut FrameCount)
    requires
        old(frame_count).frame < u32::MAX,
    ensures
        final(frame_count).frame == old(frame_count).frame + 1,
{
    frame_count.frame = frame_count.frame + 1;
}

/// One whole simulation tick: controls, velocity, movement, tick counter and
/// fingerprints, in the fixed order every peer shares.
pub fn advance_tick(
    actors: &mut Vec<Actor>,
    inputs: &Vec<(Input, InputResolution)>,
    frame_count: &mut FrameCount,
)
    requires
        all_ok(models(old(actors)@)),
        handles_ok(models(old(actors)@), inputs@.len() as int),
        old(frame_count).frame < u32::MAX,
    ensures
        models(final(actors)@) == tick_all(models(old(actors)@), inputs@),
        all_ok(models(final(actors)@)),
        final(frame_count).frame == old(frame_count).frame + 1,
{
    apply_inputs(actors, inputs);
    update_velocity(actors);
    move_players(actors);
    increase_frame_count(frame_count);
    checksum_players(actors);
    proof {
        lemma_tick_composition(models(old(actors)@), inputs@);
    }
}

/// Where actor `i` of `n` starts around the circle, in thousandths of a
/// degree.
pub open spec fn spawn_angle(i: int, n: int) -> int {
    i * FULL_TURN_MDEG / n
}

/// Actor `i` of `n` at round start: on the spawn circle, facing
/// tangentially, at rest, with a fresh fingerprint.
pub open spec fn spawn_model(i: int, n: int) -> ActorModel {
    let rot: int = spawn_angle(i, n);
    ActorModel {
        handle: i,
        pos_x: tdiv(SPAWN_RADIUS_FP * cos_mdeg(rot), FP_ONE as int),
        pos_y: tdiv(SPAWN_RADIUS_FP * sin_mdeg(rot), FP_ONE as int),
        angle: wrap_mdeg(rot + QUARTER_TURN_MDEG),
        vel_x: 0,
        vel_y: 0,
        accel: 0,
        steer: 0,
        sum: 0,
    }
}

/// Allocating exactly `num_players` actors, evenly distributed on the spawn
/// circle, each at rest and owning its slot.
pub fn spawn_players(num_players: usize) -> (out: Vec<Actor>)
    requires
        1 <= num_players <= MAX_PLAYERS,
    ensures
        out@.len() == num_players,
        forall|i: int|
            0 <= i < num_players ==> models(out@)[i] == spawn_model(i, num_players as int),
        all_ok(models(out@)),
        handles_ok(models(out@), num_players as int),
{
    let mut out: Vec<Actor> = Vec::new();
    let mut i: usize = 0;
    while i < num_players
        invariant
            i <= num_players,
            num_players <= MAX_PLAYERS,
            out@.len() == i,
            forall|j: int|
                0 <= j < i ==> (#[trigger] out@[j])@ == spawn_model(j, num_players as int),
            forall|j: int| 0 <= j < i ==> actor_ok(out@[j]@) && 0 <= out@[j]@.handle < num_players,
        decreases num_players - i,
    {
        let rot: i64 = tdiv64((i as i64) * FULL_TURN_MDEG, num_players as i64);
        proof {
            lemma_multiply_divide_lt(
                (i as int) * (FULL_TURN_MDEG as int),
                num_players as int,
                FULL_TURN_MDEG as int,
            );
            assert((num_players as int) * (FULL_TURN_MDEG as int) == (FULL_TURN_MDEG as int) * (
            num_players as int)) by (nonlinear_arith);
        }
        let c: i64 = cos_fp(rot);
        let s: i64 = sin_fp(rot);
        proof {
            lemma_mul_abs_bound(SPAWN_RADIUS_FP as int, c as int, 11796480, 65536);
            lemma_mul_abs_bound(SPAWN_RADIUS_FP as int, s as int, 11796480, 65536);
        }
        let px: i64 = tdiv64(SPAWN_RADIUS_FP * c, FP_ONE);
        let py: i64 = tdiv64(SPAWN_RADIUS_FP * s, FP_ONE);
        proof {
            lemma_tdiv_bound((SPAWN_RADIUS_FP * c) as int, FP_ONE as int, 11796480);
            lemma_tdiv_bound((SPAWN_RADIUS_FP * s) as int, FP_ONE as int, 11796480);
        }
        let ang: i64 = wrap_angle(rot + QUARTER_TURN_MDEG);
        let a: Actor = Actor {
            player: Player { handle: i },
            pos_x: px,
            pos_y: py,
            angle_mdeg: ang,
            vel: Velocity { x: 0, y: 0 },
            controls: CarControls { accel: 0, steer: 0 },
            checksum: Checksum { value: 0 },
        };
        proof {
            assert(a@ == spawn_model(i as int, num_players as int));
            assert(actor_ok(a@));
        }
        out.push(a);
        i = i + 1;
    }
    proof {
        assert forall|j: int| 0 <= j < num_players implies actor_ok(
            #[trigger] models(out@)[j],
        ) && 0 <= models(out@)[j].handle < num_players by {
            assert(models(out@)[j] == out@[j]@);
        }
    }
    out
}

/// Determinism: equal starting sets and equal command tables tick to equal
/// next sets — the stepper is a pure function of its two arguments.
pub proof fn lemma_tick_deterministic(
    ms1: Seq<ActorModel>,
    ms2: Seq<ActorModel>,
    t1: Seq<(Input, InputResolution)>,
    t2: Seq<(Input, InputResolution)>,
)
    requires
        ms1 == ms2,
        t1 == t2,
    ensures
        tick_all(ms1, t1) == tick_all(ms2, t2),
{
}

/// Many ticks in sequence, one command table per tick.
pub open spec fn run_ticks(
    ms: Seq<ActorModel>,
    tables: Seq<Seq<(Input, InputResolution)>>,
) -> Seq<ActorModel>
    decreases tables.len(),
{
    if tables.len() == 0 {
        ms
    } else {
        run_ticks(tick_all(ms, tables.first()), tables.drop_first())
    }
}

/// Replay equivalence: running every tick straight through equals running up
/// to any cut, rewinding to the state reached there, and re-running the rest
/// with the same command tables.
pub proof fn lemma_replay_equivalence(
    ms: Seq<ActorModel>,
    tables: Seq<Seq<(Input, InputResolution)>>,
    j: int,
)
    requires
        0 <= j <= tables.len(),
    ensures
        run_ticks(ms, tables) == run_ticks(run_ticks(ms, tables.take(j)), tables.skip(j)),
    decreases j,
{
    if j == 0 {
        assert(tables.take(0) =~= Seq::<Seq<(Input, InputResolution)>>::empty());
        assert(tables.skip(0) =~= tables);
    } else {
        let stepped: Seq<ActorModel> = tick_all(ms, tables.first());
        let rest: Seq<Seq<(Input, InputResolution)>> = tables.drop_first();
        lemma_replay_equivalence(stepped, rest, j - 1);
        assert(tables.take(j).first() == tables.first());
        assert(tables.take(j).drop_first() =~= rest.take(j - 1));
        assert(tables.skip(j) =~= rest.skip(j - 1));
    }
}

/// Arena containment after one tick, wherever the actor started and
/// whatever it was told: the move phase always clamps into the inset bound.
pub proof fn lemma_arena_containment(m: ActorModel, cmd: u8, res: InputResolution)
    ensures
        -POS_BOUND_FP <= actor_tick(m, cmd, res).pos_x <= POS_BOUND_FP,
        -POS_BOUND_FP <= actor_tick(m, cmd, res).pos_y <= POS_BOUND_FP,
{
}

/// One tick keeps an actor well formed.
pub proof fn lemma_tick_preserves_ok(m: ActorModel, cmd: u8, res: InputResolution)
    requires
        0 <= m.angle < FULL_TURN_MDEG,
        0 <= m.handle,
    ensures
        actor_ok(actor_tick(m, cmd, res)),
        actor_tick(m, cmd, res).handle == m.handle,
{
    let m1: ActorModel = control_step(m, cmd, res);
    let m2: ActorModel = velocity_step(m1);
    let m3: ActorModel = move_step(m2);
    lemma_velocity_step_capped(m1);
    // The turn this tick is at most the full-speed turn rate.
    let nsq: int = m2.vel_x * m2.vel_x + m2.vel_y * m2.vel_y;
    let mag: int = sqrt_floor(nsq as nat) as int;
    lemma_div_pos_is_pos(mag * (FP_ONE as int), MAX_SPEED_FP as int);
    let raw: int = tdiv(mag * (FP_ONE as int), MAX_SPEED_FP as int);
    let factor: int = if raw > FP_ONE {
        FP_ONE as int
    } else {
        raw
    };
    assert(0 <= factor <= FP_ONE);
    assert(-2865 <= m2.steer * ROT_SPEED_MDEG <= 2865);
    lemma_mul_abs_bound(m2.steer * (ROT_SPEED_MDEG as int), factor, 2865, 65536);
    lemma_tdiv_bound(m2.steer * (ROT_SPEED_MDEG as int) * factor, FP_ONE as int, 2865);
    assert(-2865 <= rot_delta(m2) <= 2865);
    // The fingerprint fits in sixteen bits.
    lemma_fletcher_sums_range(
        crate::checksum::state_bytes(m3.pos_x, m3.pos_y, m3.vel_x, m3.vel_y),
    );
}

/// One tick keeps the whole set well formed, and every slot with it.
pub proof fn lemma_tick_all_preserves_ok(
    ms: Seq<ActorModel>,
    inputs: Seq<(Input, InputResolution)>,
    n: int,
)
    requires
        all_ok(ms),
        handles_ok(ms, n),
    ensures
        all_ok(tick_all(ms, inputs)),
        handles_ok(tick_all(ms, inputs), n),
{
    assert forall|i: int| 0 <= i < ms.len() implies actor_ok(#[trigger] tick_all(ms, inputs)[i])
        && 0 <= tick_all(ms, inputs)[i].handle < n by {
        lemma_tick_preserves_ok(ms[i], inputs[ms[i].handle].0.inp, inputs[ms[i].handle].1);
    }
}

/// A whole run keeps the set well formed; with the per-tick containment
/// above, every actor's position stays inside the arena bound for all tick
/// counts.
pub proof fn lemma_run_preserves_ok(
    ms: Seq<ActorModel>,
    tables: Seq<Seq<(Input, InputResolution)>>,
    n: int,
)
    requires
        all_ok(ms),
        handles_ok(ms, n),
    ensures
        all_ok(run_ticks(ms, tables)),
        handles_ok(run_ticks(ms, tables), n),
    decreases tables.len(),
{
    if tables.len() > 0 {
        lemma_tick_all_preserves_ok(ms, tables.first(), n);
        lemma_run_preserves_ok(tick_all(ms, tables.first()), tables.drop_first(), n);
    }
}

/// The column of a tick-by-tick command history that the player in slot `h`
/// reads.
pub open spec fn actor_cmds(tables: Seq<Seq<(Input, InputResolution)>>, h: int) -> Seq<
    (Input, InputResolution),
> {
    Seq::new(tables.len(), |t: int| tables[t][h])
}

/// One actor stepped alone through its own command history.
pub open spec fn run_actor(m: ActorModel, cmds: Seq<(Input, InputResolution)>) -> ActorModel
    decreases cmds.len(),
{
    if cmds.len() == 0 {
        m
    } else {
        run_actor(actor_tick(m, cmds.first().0.inp, cmds.first().1), cmds.drop_first())
    }
}

/// Actors are independent: each reads only its own prior state and its own
/// command column, so the whole-set run moves every actor exactly as running
/// it alone would — the order across actors cannot matter.
pub proof fn lemma_actors_independent(
    ms: Seq<ActorModel>,
    tables: Seq<Seq<(Input, InputResolution)>>,
    i: int,
)
    requires
        0 <= i < ms.len(),
    ensures
        run_ticks(ms, tables)[i] == run_actor(ms[i], actor_cmds(tables, ms[i].handle)),
    decreases tables.len(),
{
    let h: int = ms[i].handle;
    if tables.len() == 0 {
        assert(actor_cmds(tables, h).len() == 0);
    } else {
        let stepped: Seq<ActorModel> = tick_all(ms, tables.first());
        assert(stepped[i] == actor_tick(ms[i], tables.first()[h].0.inp, tables.first()[h].1));
        assert(stepped[i].handle == h);
        lemma_actors_independent(stepped, tables.drop_first(), i);
        assert(actor_cmds(tables, h).first() == tables.first()[h]);
        assert(actor_cmds(tables, h).drop_first() =~= actor_cmds(tables.drop_first(), h));
    }
}

/// The disconnected fallback policy applied to one actor `k` ticks in a
/// row: each tick runs on the confirmed all-neutral command.
pub open spec fn run_actor_disconnected(m: ActorModel, k: nat) -> ActorModel
    decreases k,
{
    if k == 0 {
        m
    } else {
        run_actor_disconnected(
            actor_tick(m, 0, InputResolution::Confirmed),
            (k - 1) as nat,
        )
    }
}

/// Disconnected fallback: an actor whose command resolution is disconnected
/// for `k` consecutive ticks — whatever stale commands the entries still
/// carry, and whatever the other players do — follows exactly the
/// trajectory of the fallback policy applied `k` times from the same state.
pub proof fn lemma_disconnected_fallback(
    ms: Seq<ActorModel>,
    tables: Seq<Seq<(Input, InputResolution)>>,
    i: int,
)
    requires
        0 <= i < ms.len(),
        forall|t: int|
            0 <= t < tables.len() ==> (#[trigger] tables[t])[ms[i].handle].1 is Disconnected,
    ensures
        run_ticks(ms, tables)[i] == run_actor_disconnected(ms[i], tables.len()),
{
    lemma_actors_independent(ms, tables, i);
    lemma_run_actor_disconnected(ms[i], actor_cmds(tables, ms[i].handle));
}

/// The single-actor heart of the fallback law: every disconnected entry
/// resolves to the all-neutral command, so the carried values never enter.
pub proof fn lemma_run_actor_disconnected(m: ActorModel, cmds: Seq<(Input, InputResolution)>)
    requires
        forall|t: int| 0 <= t < cmds.len() ==> (#[trigger] cmds[t]).1 is Disconnected,
    ensures
        run_actor(m, cmds) == run_actor_disconnected(m, cmds.len()),
    decreases cmds.len(),
{
    if cmds.len() > 0 {
        assert(resolved_spec(cmds.first().0.inp, cmds.first().1) == 0);
        assert(resolved_spec(0, InputResolution::Confirmed) == 0);
        assert(actor_tick(m, cmds.first().0.inp, cmds.first().1) == actor_tick(
            m,
            0,
            InputResolution::Confirmed,
        ));
        lemma_run_actor_disconnected(
            actor_tick(m, 0, InputResolution::Confirmed),
            cmds.drop_first(),
        );
    }
}

/// A tick never reassigns an actor's slot.
pub proof fn lemma_tick_preserves_ok_handle(m: ActorModel)
    ensures
        forall|cmd: u8, res: InputResolution|
            (#[trigger] actor_tick(m, cmd, res)).handle == m.handle,
{
}

/// Rest is a fixed point: an actor at rest, told nothing, stays exactly
/// where it is — same position, same orientation, zero velocity — with no
/// residual drift for friction to hide.
pub proof fn lemma_neutral_rest(m: ActorModel, cmd: u8, res: InputResolution)
    requires
        0 <= m.angle < FULL_TURN_MDEG,
        -POS_BOUND_FP <= m.pos_x <= POS_BOUND_FP,
        -POS_BOUND_FP <= m.pos_y <= POS_BOUND_FP,
        m.vel_x == 0,
        m.vel_y == 0,
        resolved_spec(cmd, res) == 0,
    ensures
        actor_tick(m, cmd, res).pos_x == m.pos_x,
        actor_tick(m, cmd, res).pos_y == m.pos_y,
        actor_tick(m, cmd, res).angle == m.angle,
        actor_tick(m, cmd, res).vel_x == 0,
        actor_tick(m, cmd, res).vel_y == 0,
{
    assert(0u8 & INPUT_LEFT == 0 && 0u8 & INPUT_RIGHT == 0 && 0u8 & INPUT_UP == 0 && 0u8
        & INPUT_DOWN == 0) by (bit_vector);
    let m1: ActorModel = control_step(m, cmd, res);
    assert(m1.accel == 0 && m1.steer == 0);
    lemma_tdiv_zero(FP_ONE as int);
    lemma_tdiv_zero(FP_ONE_SQ as int);
    lemma_tdiv_zero(DRIFT_DEN as int);
    lemma_tdiv_zero(FRICTION_DEN as int);
    lemma_tdiv_zero(MAX_SPEED_FP as int);
    let fx: int = cos_mdeg(m1.angle);
    let fy: int = sin_mdeg(m1.angle);
    assert(m1.accel * MOV_SPEED_FP * fx == 0) by (nonlinear_arith)
        requires
            m1.accel == 0,
    {
    }
    assert(m1.accel * MOV_SPEED_FP * fy == 0) by (nonlinear_arith)
        requires
            m1.accel == 0,
    {
    }
    let m2: ActorModel = velocity_step(m1);
    assert(fx * 0 == 0 && fy * 0 == 0 && (-fx) * 0 == 0) by (nonlinear_arith);
    assert(m2.vel_x == 0 && m2.vel_y == 0);
    let m3: ActorModel = move_step(m2);
    assert(sqrt_floor(0nat) == 0);
    assert(m2.steer * (ROT_SPEED_MDEG as int) * 0 == 0) by (nonlinear_arith);
    assert(rot_delta(m2) == 0);
    assert(m3.angle == m.angle);
    assert(m3.pos_x == m.pos_x && m3.pos_y == m.pos_y);
}

} // verus!
