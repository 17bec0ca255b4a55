use vstd::prelude::*;

use crate::gesture::Gesture;

verus! {

/// Confidence at or above which a frame counts as confident, in ten-thousandths.
pub const CONF_HIGH: i64 = 6400;

/// Confidence below which a frame counts as unconfident, in ten-thousandths.
pub const CONF_LOW: i64 = 5000;

/// Dwell that a gesture needs by default before the primary track advances.
pub const DEFAULT_DWELL_MS: u64 = 100;

/// Time a coast state lasts by default before the machine falls back to `Idle`.
pub const DEFAULT_COAST_TIMEOUT_MS: u64 = 500;

/// The six states: a primary track `Idle -> Ready -> CommitPointer`, and a
/// coast variant of each primary state.
#[derive(Clone, Copy, Debug, PartialEq, Eq, Structural)]
pub enum FsmStateType {
    Idle,
    IdleCoast,
    Ready,
    ReadyCoast,
    CommitPointer,
    CommitCoast,
}

pub open spec fn is_coast(s: FsmStateType) -> bool {
    s == FsmStateType::IdleCoast || s == FsmStateType::ReadyCoast || s == FsmStateType::CommitCoast
}

pub open spec fn is_primary(s: FsmStateType) -> bool {
    s == FsmStateType::Idle || s == FsmStateType::Ready || s == FsmStateType::CommitPointer
}

/// The coast variant paired with a primary state; a coast state is left as it is.
pub open spec fn coast_of(s: FsmStateType) -> FsmStateType {
    match s {
        FsmStateType::Idle => FsmStateType::IdleCoast,
        FsmStateType::Ready => FsmStateType::ReadyCoast,
        FsmStateType::CommitPointer => FsmStateType::CommitCoast,
        _ => s,
    }
}

/// `a + b`, held at `u64::MAX`.
pub open spec fn sat_add(a: u64, b: u64) -> u64 {
    if a + b > u64::MAX {
        u64::MAX
    } else {
        (a + b) as u64
    }
}

/// Dwell after a frame that breaks the gesture: it loses twice the frame's time,
/// and stops at zero.
pub open spec fn decayed(dwell: u64, delta: u64) -> u64 {
    if dwell >= 2 * delta {
        (dwell - 2 * delta) as u64
    } else {
        0
    }
}

/// One classified input frame, as the machine reads it.
pub struct Frame {
    pub gesture: Gesture,
    /// In ten-thousandths: `6400` stands for `0.64`.
    pub confidence: i64,
    pub now_ms: u64,
}

/// What a machine holds.
pub struct FsmModel {
    pub state: FsmStateType,
    pub dwell_limit_ready_ms: u64,
    pub dwell_limit_commit_ms: u64,
    pub coast_timeout_ms: u64,
    pub current_confidence: i64,
    pub dwell_accumulator_ms: u64,
    pub coast_elapsed_ms: u64,
    pub last_frame_ms: Option<u64>,
}

impl FsmModel {
    /// A machine as it is made: `Idle`, default limits, nothing accumulated, no frame seen.
    pub open spec fn initial() -> FsmModel {
        FsmModel {
            state: FsmStateType::Idle,
            dwell_limit_ready_ms: DEFAULT_DWELL_MS,
            dwell_limit_commit_ms: DEFAULT_DWELL_MS,
            coast_timeout_ms: DEFAULT_COAST_TIMEOUT_MS,
            current_confidence: 0,
            dwell_accumulator_ms: 0,
            coast_elapsed_ms: 0,
            last_frame_ms: None,
        }
    }

    /// Coast time is only ever held while the machine is in a coast state.
    pub open spec fn wf(self) -> bool {
        self.coast_elapsed_ms != 0 ==> is_coast(self.state)
    }

    /// The limits after a partial reconfiguration: present values replace the old ones.
    pub open spec fn configured(
        self,
        dwell_ready_ms: Option<u64>,
        dwell_commit_ms: Option<u64>,
        coast_timeout_ms: Option<u64>,
    ) -> FsmModel {
        FsmModel {
            dwell_limit_ready_ms: match dwell_ready_ms {
                Some(v) => v,
                None => self.dwell_limit_ready_ms,
            },
            dwell_limit_commit_ms: match dwell_commit_ms {
                Some(v) => v,
                None => self.dwell_limit_commit_ms,
            },
            coast_timeout_ms: match coast_timeout_ms {
                Some(v) => v,
                None => self.coast_timeout_ms,
            },
            ..self
        }
    }

    /// A primary state moves to its coast variant; a coast state stays.
    pub open spec fn force_coasted(self) -> FsmModel {
        FsmModel { state: coast_of(self.state), ..self }
    }

    /// A transition to `to`. The direct move `Idle -> CommitPointer` is refused and
    /// leaves the machine as it is; leaving the coast states drops the coast time.
    pub open spec fn moved_to(self, to: FsmStateType) -> FsmModel {
        if self.state == FsmStateType::Idle && to == FsmStateType::CommitPointer {
            self
        } else {
            FsmModel {
                state: to,
                coast_elapsed_ms: if is_coast(to) {
                    self.coast_elapsed_ms
                } else {
                    0
                },
                ..self
            }
        }
    }

    pub open spec fn with_dwell(self, dwell: u64) -> FsmModel {
        FsmModel { dwell_accumulator_ms: dwell, ..self }
    }

    /// Time since the previous frame: zero on the first frame, and zero where the
    /// clock went backwards.
    pub open spec fn delta_to(self, now_ms: u64) -> u64 {
        match self.last_frame_ms {
            None => 0,
            Some(t) => if now_ms >= t {
                (now_ms - t) as u64
            } else {
                0
            },
        }
    }

    /// `Idle`: an open palm held confidently builds dwell towards `Ready`; anything
    /// else lets it decay, and an unconfident frame moves to `IdleCoast`.
    pub open spec fn idle_step(self, g: Gesture, delta: u64) -> FsmModel {
        let c = self.current_confidence;
        if g == Gesture::OpenPalm && c >= CONF_HIGH {
            let dwell = sat_add(self.dwell_accumulator_ms, delta);
            if dwell >= self.dwell_limit_ready_ms {
                self.moved_to(FsmStateType::Ready).with_dwell(0)
            } else {
                self.with_dwell(dwell)
            }
        } else {
            let m = self.with_dwell(decayed(self.dwell_accumulator_ms, delta));
            if c < CONF_LOW {
                m.moved_to(FsmStateType::IdleCoast)
            } else {
                m
            }
        }
    }

    /// `Ready`: a closed fist held confidently builds dwell towards `CommitPointer`;
    /// an unknown gesture drops back to `Idle`; an unconfident frame moves to
    /// `ReadyCoast`; otherwise dwell decays.
    pub open spec fn ready_step(self, g: Gesture, delta: u64) -> FsmModel {
        let c = self.current_confidence;
        if g == Gesture::ClosedFist && c >= CONF_HIGH {
            let dwell = sat_add(self.dwell_accumulator_ms, delta);
            if dwell >= self.dwell_limit_commit_ms {
                self.moved_to(FsmStateType::CommitPointer).with_dwell(0)
            } else {
                self.with_dwell(dwell)
            }
        } else if g == Gesture::Other {
            self.moved_to(FsmStateType::Idle).with_dwell(0)
        } else if c < CONF_LOW {
            self.moved_to(FsmStateType::ReadyCoast)
        } else {
            self.with_dwell(decayed(self.dwell_accumulator_ms, delta))
        }
    }

    /// `CommitPointer`: a confident open palm releases to `Ready`; an unconfident
    /// frame moves to `CommitCoast`.
    pub open spec fn commit_step(self, g: Gesture) -> FsmModel {
        let c = self.current_confidence;
        if g == Gesture::OpenPalm && c >= CONF_HIGH {
            self.moved_to(FsmStateType::Ready).with_dwell(0)
        } else if c < CONF_LOW {
            self.moved_to(FsmStateType::CommitCoast)
        } else {
            self
        }
    }

    /// A coast state returns to `to` on any frame that is not unconfident.
    pub open spec fn coast_step(self, to: FsmStateType) -> FsmModel {
        if self.current_confidence >= CONF_LOW {
            self.moved_to(to)
        } else {
            self
        }
    }

    /// The handler of the current state.
    pub open spec fn handled(self, g: Gesture, delta: u64) -> FsmModel {
        match self.state {
            FsmStateType::Idle => self.idle_step(g, delta),
            FsmStateType::IdleCoast => self.coast_step(FsmStateType::Idle),
            FsmStateType::Ready => self.ready_step(g, delta),
            FsmStateType::ReadyCoast => self.coast_step(FsmStateType::Ready),
            FsmStateType::CommitPointer => self.commit_step(g),
            FsmStateType::CommitCoast => self.coast_step(FsmStateType::CommitPointer),
        }
    }

    /// The machine after one frame. The frame's time and confidence are recorded
    /// first; in a coast state the frame's time is added to the coast time, and a
    /// coast that reaches its timeout falls back to `Idle` with no dwell, before
    /// any handler runs.
    pub open spec fn after_frame(self, f: Frame) -> FsmModel {
        let delta = self.delta_to(f.now_ms);
        let m = FsmModel {
            last_frame_ms: Some(f.now_ms),
            current_confidence: f.confidence,
            ..self
        };
        if is_coast(self.state) {
            let elapsed = sat_add(self.coast_elapsed_ms, delta);
            if elapsed >= self.coast_timeout_ms {
                FsmModel { coast_elapsed_ms: elapsed, ..m }.moved_to(
                    FsmStateType::Idle,
                ).with_dwell(0)
            } else {
                FsmModel { coast_elapsed_ms: elapsed, ..m }.handled(f.gesture, delta)
            }
        } else {
            FsmModel { coast_elapsed_ms: 0, ..m }.handled(f.gesture, delta)
        }
    }

    /// The machine after a run of frames, in order.
    pub open spec fn after_frames(self, frames: Seq<Frame>) -> FsmModel
        decreases frames.len(),
    {
        if frames.len() == 0 {
            self
        } else {
            self.after_frames(frames.drop_last()).after_frame(frames.last())
        }
    }
}

} // verus!
