//! The delivery-phase state machine. Once per simulation tick the caller
//! collects the rig's sensor readings into a `TickInputs` value and calls
//! `advance`, which evaluates only the sensor of the current stage, fires
//! at most one transition, and moves the stage forward exactly one step
//! when it does.
//!
//! The stage never moves backward, and each transition event fires at most
//! once per pitch cycle; both are proved below over arbitrary sequences of
//! evaluations.

use vstd::prelude::*;

verus! {

use crate::math::{isqrt, spec_isqrt};
use crate::rig::{PitcherBodyPart, PitcherParams, PitcherRig, PitchStage};
use crate::vec::Vec3Fx;

/// One transition of the delivery, carrying the engine handle of the
/// pitcher it applies to.
#[derive(Debug, Clone, Copy, PartialEq, Eq, Structural)]
pub enum PitchStageTransitionEvents {
    KneeUp(u64),
    FootContact(u64),
    MaxER(u64),
    MaxIR(u64),
}

impl PitchStageTransitionEvents {
    /// The index of the stage this event fires from.
    pub open spec fn spec_kind_index(self) -> int {
        match self {
            PitchStageTransitionEvents::KneeUp(_) => 0,
            PitchStageTransitionEvents::FootContact(_) => 1,
            PitchStageTransitionEvents::MaxER(_) => 2,
            PitchStageTransitionEvents::MaxIR(_) => 3,
        }
    }
}

/// The sensor readings of one simulation tick, gathered by the caller
/// from the player input and the physics world. A reading that could not
/// be taken (a missing segment, no transform yet) is absent.
#[derive(Debug, Clone, Copy, PartialEq, Eq, Structural)]
pub struct TickInputs {
    /// The externally triggered knee-up signal (player input).
    pub knee_up_trigger: bool,
    /// The aim direction at this tick, a unit vector at length scale;
    /// sampled onto the rig when the knee-up fires.
    pub aim_direction: Vec3Fx,
    /// The core segment's vertical position, position units.
    pub core_y: Option<i64>,
    /// Whether the pelvis collider overlaps the pelvic-break sensor
    /// volume (one tick stale, from the last completed collision pass).
    pub pelvis_overlaps_break: bool,
    /// The wrist segment's position, position units.
    pub wrist_pos: Option<Vec3Fx>,
}

impl TickInputs {
    pub open spec fn wf(self) -> bool {
        &&& -10_000 <= self.aim_direction.x <= 10_000
        &&& -10_000 <= self.aim_direction.y <= 10_000
        &&& -10_000 <= self.aim_direction.z <= 10_000
        &&& (self.wrist_pos matches Some(w) ==> w.in_pos_range())
    }
}

/// The stage after a satisfied transition: one step forward.
pub open spec fn spec_next_stage(s: PitchStage) -> PitchStage {
    match s {
        PitchStage::WindUp => PitchStage::Stride,
        PitchStage::Stride => PitchStage::ArmCocking,
        PitchStage::ArmCocking => PitchStage::ArmAcceleration,
        PitchStage::ArmAcceleration => PitchStage::ArmDeceleration,
        PitchStage::ArmDeceleration => PitchStage::ArmDeceleration,
    }
}

/// The foot-contact sensor: the core has sunk below the leg length minus
/// the torso drop.
pub open spec fn spec_foot_contact_fires(p: PitcherParams, inp: TickInputs) -> bool {
    &&& p.body_parts.spec_get(PitcherBodyPart::Core) is Some
    &&& inp.core_y matches Some(y) && y < p.leg_length - p.torso_drop
}

/// The wrist has crossed the body's centerline toward the target: its
/// position relative to the rig's spawn point, re-expressed in a frame
/// rotated about the vertical axis by the angle between the aim direction
/// and the rig's forward axis, has a positive forward component.
pub open spec fn spec_wrist_crossed(p: PitcherParams, w: Vec3Fx) -> bool {
    let rx = w.x - p.starting_pos.x;
    let rz = w.z - p.starting_pos.z;
    let c = p.direction.z;
    let s = spec_isqrt(100_000_000 - c * c);
    rx * s + rz * c > 0
}

/// The maximum-external-rotation sensor: the pelvis overlaps the
/// pelvic-break sensor volume attached to the core.
pub open spec fn spec_max_er_fires(p: PitcherParams, inp: TickInputs) -> bool {
    &&& p.body_parts.spec_get(PitcherBodyPart::Pelvis) is Some
    &&& p.pelvic_break is Some
    &&& inp.pelvis_overlaps_break
}

/// The maximum-internal-rotation sensor.
pub open spec fn spec_max_ir_fires(p: PitcherParams, inp: TickInputs) -> bool {
    &&& p.body_parts.spec_get(PitcherBodyPart::Wrist) is Some
    &&& inp.wrist_pos matches Some(w) && spec_wrist_crossed(p, w)
}

/// Whether the sensor of the rig's current stage is satisfied this tick.
/// Only that one sensor is consulted; the terminal stage has none.
pub open spec fn spec_fires(rig: PitcherRig, inp: TickInputs) -> bool {
    match rig.stage {
        PitchStage::WindUp => inp.knee_up_trigger,
        PitchStage::Stride => spec_foot_contact_fires(rig.params, inp),
        PitchStage::ArmCocking => spec_max_er_fires(rig.params, inp),
        PitchStage::ArmAcceleration => spec_max_ir_fires(rig.params, inp),
        PitchStage::ArmDeceleration => false,
    }
}

/// The event emitted when the current stage's sensor fires.
pub open spec fn spec_event(rig: PitcherRig) -> PitchStageTransitionEvents {
    match rig.stage {
        PitchStage::WindUp => PitchStageTransitionEvents::KneeUp(rig.entity),
        PitchStage::Stride => PitchStageTransitionEvents::FootContact(rig.entity),
        PitchStage::ArmCocking => PitchStageTransitionEvents::MaxER(rig.entity),
        _ => PitchStageTransitionEvents::MaxIR(rig.entity),
    }
}

/// The rig after one evaluation: on a satisfied transition the stage
/// advances one step, and the knee-up transition additionally samples the
/// aim direction onto the rig; otherwise nothing changes.
pub open spec fn spec_step_rig(rig: PitcherRig, inp: TickInputs) -> PitcherRig {
    if spec_fires(rig, inp) {
        let params = if rig.stage == PitchStage::WindUp {
            PitcherParams { direction: inp.aim_direction, ..rig.params }
        } else {
            rig.params
        };
        PitcherRig { stage: spec_next_stage(rig.stage), params, ..rig }
    } else {
        rig
    }
}

/// What one evaluation emits.
pub open spec fn spec_emitted(rig: PitcherRig, inp: TickInputs) -> Option<
    PitchStageTransitionEvents,
> {
    if spec_fires(rig, inp) {
        Some(spec_event(rig))
    } else {
        None
    }
}

/// Whether the wrist position satisfies the centerline-crossing test.
pub fn wrist_crossed(p: &PitcherParams, w: Vec3Fx) -> (r: bool)
    requires
        p.wf(),
        w.in_pos_range(),
    ensures
        r == spec_wrist_crossed(*p, w),
{
    let rel: Vec3Fx = w.sub(p.starting_pos);
    let rx: i64 = rel.x;
    let rz: i64 = rel.z;
    let c: i64 = p.direction.z;
    proof {
        assert(0 <= c * c <= 100_000_000) by (nonlinear_arith)
            requires
                -10_000 <= c <= 10_000,
        ;
    }
    let c2: i64 = c * c;
    let s_raw: u64 = isqrt((100_000_000 - c2) as u64);
    proof {
        assert(s_raw <= 10_000) by (nonlinear_arith)
            requires
                s_raw * s_raw <= 100_000_000,
        ;
    }
    let s: i64 = s_raw as i64;
    proof {
        assert(-20_000_000_000_000 <= rx * s <= 20_000_000_000_000 && -20_000_000_000_000 <= rz
            * c <= 20_000_000_000_000) by (nonlinear_arith)
            requires
                -2_000_000_000 <= rx <= 2_000_000_000,
                -2_000_000_000 <= rz <= 2_000_000_000,
                0 <= s <= 10_000,
                -10_000 <= c <= 10_000,
        ;
    }
    rx * s + rz * c > 0
}

/// Evaluates the sensor of the rig's current stage and advances the stage
/// exactly one step if it is satisfied, returning the emitted transition
/// event. The knee-up transition samples the tick's aim direction onto
/// the rig. At most one transition fires per call.
pub fn advance(rig: &mut PitcherRig, inp: &TickInputs) -> (r: Option<PitchStageTransitionEvents>)
    requires
        old(rig).wf(),
        inp.wf(),
    ensures
        *final(rig) == spec_step_rig(*old(rig), *inp),
        r == spec_emitted(*old(rig), *inp),
        final(rig).wf(),
{
    match rig.stage {
        PitchStage::WindUp => {
            if inp.knee_up_trigger {
                rig.params.direction = inp.aim_direction;
                rig.stage = PitchStage::Stride;
                Some(PitchStageTransitionEvents::KneeUp(rig.entity))
            } else {
                None
            }
        },
        PitchStage::Stride => {
            let fires: bool = match (rig.params.body_parts.get(PitcherBodyPart::Core), inp.core_y) {
                (Some(_), Some(y)) => y < rig.params.leg_length - rig.params.torso_drop,
                _ => false,
            };
            if fires {
                rig.stage = PitchStage::ArmCocking;
                Some(PitchStageTransitionEvents::FootContact(rig.entity))
            } else {
                None
            }
        },
        PitchStage::ArmCocking => {
            let fires: bool = match (rig.params.body_parts.get(PitcherBodyPart::Pelvis), rig.params.pelvic_break) {
                (Some(_), Some(_)) => inp.pelvis_overlaps_break,
                _ => false,
            };
            if fires {
                rig.stage = PitchStage::ArmAcceleration;
                Some(PitchStageTransitionEvents::MaxER(rig.entity))
            } else {
                None
            }
        },
        PitchStage::ArmAcceleration => {
            let fires: bool = match (rig.params.body_parts.get(PitcherBodyPart::Wrist), inp.wrist_pos) {
                (Some(_), Some(w)) => wrist_crossed(&rig.params, w),
                _ => false,
            };
            if fires {
                rig.stage = PitchStage::ArmDeceleration;
                Some(PitchStageTransitionEvents::MaxIR(rig.entity))
            } else {
                None
            }
        },
        PitchStage::ArmDeceleration => None,
    }
}

/// The rig after a whole sequence of evaluations.
pub open spec fn spec_run(rig: PitcherRig, inps: Seq<TickInputs>) -> PitcherRig
    decreases inps.len(),
{
    if inps.len() == 0 {
        rig
    } else {
        spec_run(spec_step_rig(rig, inps[0]), inps.skip(1))
    }
}

/// Every event a sequence of evaluations emits, in order.
pub open spec fn spec_events_of(rig: PitcherRig, inps: Seq<TickInputs>) -> Seq<
    PitchStageTransitionEvents,
>
    decreases inps.len(),
{
    if inps.len() == 0 {
        Seq::empty()
    } else {
        let rest = spec_events_of(spec_step_rig(rig, inps[0]), inps.skip(1));
        match spec_emitted(rig, inps[0]) {
            Some(e) => seq![e] + rest,
            None => rest,
        }
    }
}

/// How often events of one kind occur in a sequence.
pub open spec fn spec_count_kind(evs: Seq<PitchStageTransitionEvents>, k: int) -> int
    decreases evs.len(),
{
    if evs.len() == 0 {
        0
    } else {
        (if evs[0].spec_kind_index() == k {
            1int
        } else {
            0int
        }) + spec_count_kind(evs.skip(1), k)
    }
}

/// Monotonicity of one evaluation: the stage never moves backward, moves
/// at most one step, and moves exactly one step when a transition fires.
pub proof fn lemma_stage_monotone(rig: PitcherRig, inp: TickInputs)
    ensures
        spec_step_rig(rig, inp).stage.spec_index() >= rig.stage.spec_index(),
        spec_step_rig(rig, inp).stage.spec_index() <= rig.stage.spec_index() + 1,
        spec_fires(rig, inp) ==> spec_step_rig(rig, inp).stage.spec_index() == rig.stage.spec_index() + 1,
{
}

/// Monotonicity over any sequence of evaluations: the stage only ever
/// moves forward in the delivery order.
pub proof fn lemma_stage_monotone_run(rig: PitcherRig, inps: Seq<TickInputs>)
    ensures
        spec_run(rig, inps).stage.spec_index() >= rig.stage.spec_index(),
    decreases inps.len(),
{
    if inps.len() > 0 {
        lemma_stage_monotone(rig, inps[0]);
        lemma_stage_monotone_run(spec_step_rig(rig, inps[0]), inps.skip(1));
    }
}

/// A run starting past a kind's firing stage never emits that kind.
proof fn lemma_no_events_below_stage(rig: PitcherRig, inps: Seq<TickInputs>, k: int)
    requires
        rig.stage.spec_index() > k,
    ensures
        spec_count_kind(spec_events_of(rig, inps), k) == 0,
    decreases inps.len(),
{
    if inps.len() > 0 {
        let stepped = spec_step_rig(rig, inps[0]);
        lemma_stage_monotone(rig, inps[0]);
        lemma_no_events_below_stage(stepped, inps.skip(1), k);
        let rest = spec_events_of(stepped, inps.skip(1));
        match spec_emitted(rig, inps[0]) {
            Some(e) => {
                assert(e.spec_kind_index() == rig.stage.spec_index());
                assert((seq![e] + rest).skip(1) =~= rest);
            },
            None => {},
        }
    }
}

/// Single-shot events: over any sequence of evaluations, each transition
/// kind fires at most once per pitch cycle.
pub proof fn lemma_single_shot(rig: PitcherRig, inps: Seq<TickInputs>, k: int)
    ensures
        spec_count_kind(spec_events_of(rig, inps), k) <= 1,
    decreases inps.len(),
{
    if inps.len() > 0 {
        let stepped = spec_step_rig(rig, inps[0]);
        let rest = spec_events_of(stepped, inps.skip(1));
        match spec_emitted(rig, inps[0]) {
            Some(e) => {
                lemma_stage_monotone(rig, inps[0]);
                assert((seq![e] + rest).skip(1) =~= rest);
                if e.spec_kind_index() == k {
                    lemma_no_events_below_stage(stepped, inps.skip(1), k);
                } else {
                    lemma_single_shot(stepped, inps.skip(1), k);
                }
            },
            None => {
                lemma_single_shot(stepped, inps.skip(1), k);
            },
        }
    }
}

} // verus!
