use vstd::prelude::*;

use crate::gesture::{gesture_of, Gesture};
use crate::model::{
    coast_of, decayed, is_coast, sat_add, Frame, FsmModel, FsmStateType, CONF_HIGH, CONF_LOW,
    DEFAULT_COAST_TIMEOUT_MS, DEFAULT_DWELL_MS,
};

verus! {

/// The gesture hysteresis state machine: it turns a noisy per-frame gesture label
/// and confidence into a stable interaction state.
pub struct GestureFsmRs {
    state: FsmStateType,
    dwell_limit_ready_ms: u64,
    dwell_limit_commit_ms: u64,
    coast_timeout_ms: u64,
    current_confidence: i64,
    dwell_accumulator_ms: u64,
    coast_elapsed_ms: u64,
    last_frame_ms: Option<u64>,
}

impl View for GestureFsmRs {
    type V = FsmModel;

    closed spec fn view(&self) -> FsmModel {
        FsmModel {
            state: self.state,
            dwell_limit_ready_ms: self.dwell_limit_ready_ms,
            dwell_limit_commit_ms: self.dwell_limit_commit_ms,
            coast_timeout_ms: self.coast_timeout_ms,
            current_confidence: self.current_confidence,
            dwell_accumulator_ms: self.dwell_accumulator_ms,
            coast_elapsed_ms: self.coast_elapsed_ms,
            last_frame_ms: self.last_frame_ms,
        }
    }
}

fn saturating_add(a: u64, b: u64) -> (r: u64)
    ensures
        r == sat_add(a, b),
{
    if a > u64::MAX - b {
        u64::MAX
    } else {
        a + b
    }
}

fn decay(dwell: u64, delta: u64) -> (r: u64)
    ensures
        r == decayed(dwell, delta),
{
    if dwell >= delta && dwell - delta >= delta {
        dwell - delta - delta
    } else {
        0
    }
}

impl GestureFsmRs {
    /// A machine in `Idle`, with the default limits, nothing accumulated and no
    /// frame seen yet.
    pub fn new() -> (r: GestureFsmRs)
        ensures
            r@ == FsmModel::initial(),
    {
        GestureFsmRs {
            state: FsmStateType::Idle,
            dwell_limit_ready_ms: DEFAULT_DWELL_MS,
            dwell_limit_commit_ms: DEFAULT_DWELL_MS,
            coast_timeout_ms: DEFAULT_COAST_TIMEOUT_MS,
            current_confidence: 0,
            dwell_accumulator_ms: 0,
            coast_elapsed_ms: 0,
            last_frame_ms: None,
        }
    }

    pub fn get_state(&self) -> (r: FsmStateType)
        ensures
            r == self@.state,
    {
        self.state
    }

    /// Replaces each limit that is given; state and accumulated time are kept.
    pub fn configure(
        &mut self,
        dwell_ready_ms: Option<u64>,
        dwell_commit_ms: Option<u64>,
        coast_timeout_ms: Option<u64>,
    )
        ensures
            final(self)@ == old(self)@.configured(dwell_ready_ms, dwell_commit_ms, coast_timeout_ms),
    {
        if let Some(val) = dwell_ready_ms {
            self.dwell_limit_ready_ms = val;
        }
        if let Some(val) = dwell_commit_ms {
            self.dwell_limit_commit_ms = val;
        }
        if let Some(val) = coast_timeout_ms {
            self.coast_timeout_ms = val;
        }
    }

    /// Moves a primary state to its coast variant at once, whatever the
    /// confidence; does nothing in a coast state.
    pub fn force_coast(&mut self)
        ensures
            final(self)@ == old(self)@.force_coasted(),
            final(self)@.state == coast_of(old(self)@.state),
    {
        match self.state {
            FsmStateType::Idle => self.state = FsmStateType::IdleCoast,
            FsmStateType::Ready => self.state = FsmStateType::ReadyCoast,
            FsmStateType::CommitPointer => self.state = FsmStateType::CommitCoast,
            _ => {},
        }
    }

    /// Advances the machine by one frame. `confidence` is in ten-thousandths
    /// (`6400` stands for `0.64`) and is taken as given; `now_ms` is the frame's
    /// time. A frame whose time is before the previous one counts as taking no
    /// time. The coordinates play no part in any transition.
    pub fn process_frame(&mut self, gesture: &str, confidence: i64, _x: i64, _y: i64, now_ms: u64)
        ensures
            final(self)@ == old(self)@.after_frame(
                Frame { gesture: gesture_of(gesture@), confidence, now_ms },
            ),
    {
        let g = Gesture::from_label(gesture);
        let delta_ms: u64 = match self.last_frame_ms {
            None => 0,
            Some(t) => if now_ms >= t {
                now_ms - t
            } else {
                0
            },
        };
        self.last_frame_ms = Some(now_ms);
        self.current_confidence = confidence;

        if self.is_coast_state() {
            self.coast_elapsed_ms = saturating_add(self.coast_elapsed_ms, delta_ms);
            if self.coast_elapsed_ms >= self.coast_timeout_ms {
                self.transition_to(FsmStateType::Idle);
                self.dwell_accumulator_ms = 0;
                return;
            }
        } else {
            self.coast_elapsed_ms = 0;
        }

        match self.state {
            FsmStateType::Idle => self.handle_idle(g, delta_ms),
            FsmStateType::IdleCoast => self.handle_coast(FsmStateType::Idle),
            FsmStateType::Ready => self.handle_ready(g, delta_ms),
            FsmStateType::ReadyCoast => self.handle_coast(FsmStateType::Ready),
            FsmStateType::CommitPointer => self.handle_commit(g),
            FsmStateType::CommitCoast => self.handle_coast(FsmStateType::CommitPointer),
        }
    }

    fn is_coast_state(&self) -> (r: bool)
        ensures
            r == is_coast(self.state),
    {
        is_coast_state_of(self.state)
    }

    fn transition_to(&mut self, new_state: FsmStateType)
        ensures
            final(self)@ == old(self)@.moved_to(new_state),
    {
        if self.state == FsmStateType::Idle && new_state == FsmStateType::CommitPointer {
            return;
        }
        self.state = new_state;
        if !is_coast_state_of(new_state) {
            self.coast_elapsed_ms = 0;
        }
    }

    fn handle_idle(&mut self, g: Gesture, delta_ms: u64)
        requires
            old(self).state == FsmStateType::Idle,
        ensures
            final(self)@ == old(self)@.idle_step(g, delta_ms),
    {
        if g == Gesture::OpenPalm && self.current_confidence >= CONF_HIGH {
            self.dwell_accumulator_ms = saturating_add(self.dwell_accumulator_ms, delta_ms);
            if self.dwell_accumulator_ms >= self.dwell_limit_ready_ms {
                self.transition_to(FsmStateType::Ready);
                self.dwell_accumulator_ms = 0;
            }
        } else {
            self.dwell_accumulator_ms = decay(self.dwell_accumulator_ms, delta_ms);
            if self.current_confidence < CONF_LOW {
                self.transition_to(FsmStateType::IdleCoast);
            }
        }
    }

    fn handle_ready(&mut self, g: Gesture, delta_ms: u64)
        requires
            old(self).state == FsmStateType::Ready,
        ensures
            final(self)@ == old(self)@.ready_step(g, delta_ms),
    {
        if g == Gesture::ClosedFist && self.current_confidence >= CONF_HIGH {
            self.dwell_accumulator_ms = saturating_add(self.dwell_accumulator_ms, delta_ms);
            if self.dwell_accumulator_ms >= self.dwell_limit_commit_ms {
                self.transition_to(FsmStateType::CommitPointer);
                self.dwell_accumulator_ms = 0;
            }
        } else if g == Gesture::Other {
            self.transition_to(FsmStateType::Idle);
            self.dwell_accumulator_ms = 0;
        } else if self.current_confidence < CONF_LOW {
            self.transition_to(FsmStateType::ReadyCoast);
        } else {
            self.dwell_accumulator_ms = decay(self.dwell_accumulator_ms, delta_ms);
        }
    }

    fn handle_commit(&mut self, g: Gesture)
        requires
            old(self).state == FsmStateType::CommitPointer,
        ensures
            final(self)@ == old(self)@.commit_step(g),
    {
        if g == Gesture::OpenPalm && self.current_confidence >= CONF_HIGH {
            self.transition_to(FsmStateType::Ready);
            self.dwell_accumulator_ms = 0;
        } else if self.current_confidence < CONF_LOW {
            self.transition_to(FsmStateType::CommitCoast);
        }
    }

    /// The three coast states behave alike: back to `to` once the frame is not
    /// unconfident.
    fn handle_coast(&mut self, to: FsmStateType)
        ensures
            final(self)@ == old(self)@.coast_step(to),
    {
        if self.current_confidence >= CONF_LOW {
            self.transition_to(to);
        }
    }
}

fn is_coast_state_of(s: FsmStateType) -> (r: bool)
    ensures
        r == is_coast(s),
{
    matches!(s, FsmStateType::IdleCoast | FsmStateType::ReadyCoast | FsmStateType::CommitCoast)
}

} // verus!
