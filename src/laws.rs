use vstd::prelude::*;

use crate::gesture::Gesture;
use crate::model::{
    decayed, is_coast, is_primary, sat_add, Frame, FsmModel, FsmStateType, CONF_HIGH,
    CONF_LOW,
};

verus! {

/// Frame times that never go back, starting no earlier than `t0`.
pub open spec fn times_from(frames: Seq<Frame>, t0: u64) -> bool {
    forall|i: int|
        0 <= i < frames.len() ==> t0 <= #[trigger] frames[i].now_ms && (i > 0 ==> frames[i
            - 1].now_ms <= frames[i].now_ms)
}

/// Every frame shows an open palm at high confidence.
pub open spec fn all_confident_palm(frames: Seq<Frame>) -> bool {
    forall|i: int|
        0 <= i < frames.len() ==> #[trigger] frames[i].gesture == Gesture::OpenPalm
            && frames[i].confidence >= CONF_HIGH
}

proof fn lemma_prefix_of_times(frames: Seq<Frame>, t0: u64)
    requires
        frames.len() > 0,
        times_from(frames, t0),
    ensures
        times_from(frames.drop_last(), t0),
        frames.len() > 1 ==> frames.drop_last().last().now_ms <= frames.last().now_ms,
{
    assert forall|i: int| 0 <= i < frames.drop_last().len() implies t0
        <= #[trigger] frames.drop_last()[i].now_ms && (i > 0 ==> frames.drop_last()[i
        - 1].now_ms <= frames.drop_last()[i].now_ms) by {
        assert(frames.drop_last()[i] == frames[i]);
        if i > 0 {
            assert(frames.drop_last()[i - 1] == frames[i - 1]);
        }
    }
    if frames.len() > 1 {
        assert(frames.drop_last().last() == frames[frames.len() - 2]);
        assert(frames[frames.len() - 2].now_ms <= frames[frames.len() - 1].now_ms);
    }
}

/// One frame always leaves the machine well formed: coast time is held only in
/// a coast state, and the state is one of the six.
pub proof fn lemma_frame_keeps_machine_well_formed(m: FsmModel, f: Frame)
    ensures
        m.after_frame(f).wf(),
        is_primary(m.after_frame(f).state) || is_coast(m.after_frame(f).state),
{
}

/// Any run of frames from a well-formed machine leaves it well formed, in one of
/// the six states.
pub proof fn lemma_run_keeps_machine_well_formed(m: FsmModel, frames: Seq<Frame>)
    requires
        m.wf(),
    ensures
        m.after_frames(frames).wf(),
        is_primary(m.after_frames(frames).state) || is_coast(m.after_frames(frames).state),
    decreases frames.len(),
{
    if frames.len() > 0 {
        lemma_run_keeps_machine_well_formed(m, frames.drop_last());
        lemma_frame_keeps_machine_well_formed(m.after_frames(frames.drop_last()), frames.last());
    }
}

/// Forcing a coast and reconfiguring keep the machine well formed.
pub proof fn lemma_commands_keep_machine_well_formed(
    m: FsmModel,
    dwell_ready_ms: Option<u64>,
    dwell_commit_ms: Option<u64>,
    coast_timeout_ms: Option<u64>,
)
    requires
        m.wf(),
    ensures
        m.force_coasted().wf(),
        m.configured(dwell_ready_ms, dwell_commit_ms, coast_timeout_ms).wf(),
{
}

/// In `Idle`, confident open-palm frames that stay short of the ready limit
/// only add up their time into the dwell.
pub proof fn lemma_palm_dwell_accumulates(m: FsmModel, t0: u64, frames: Seq<Frame>)
    requires
        m.state == FsmStateType::Idle,
        m.last_frame_ms == Some(t0),
        frames.len() > 0,
        all_confident_palm(frames),
        times_from(frames, t0),
        m.dwell_accumulator_ms + (frames.last().now_ms - t0) < m.dwell_limit_ready_ms,
    ensures
        m.after_frames(frames).state == FsmStateType::Idle,
        m.after_frames(frames).dwell_accumulator_ms == m.dwell_accumulator_ms + (
        frames.last().now_ms - t0),
        m.after_frames(frames).last_frame_ms == Some(frames.last().now_ms),
        m.after_frames(frames).dwell_limit_ready_ms == m.dwell_limit_ready_ms,
    decreases frames.len(),
{
    let n = frames.len();
    assert(frames.last() == frames[n - 1]);
    if n > 1 {
        let p = frames.drop_last();
        lemma_prefix_of_times(frames, t0);
        assert forall|i: int| 0 <= i < p.len() implies #[trigger] p[i].gesture
            == Gesture::OpenPalm && p[i].confidence >= CONF_HIGH by {
            assert(p[i] == frames[i]);
        }
        lemma_palm_dwell_accumulates(m, t0, p);
    }
}

/// In `Idle`, confident open-palm frames move the machine to `Ready`, with no
/// dwell, on the frame at which their cumulative time reaches the ready limit.
pub proof fn lemma_palm_dwell_reaches_ready(m: FsmModel, t0: u64, frames: Seq<Frame>)
    requires
        m.state == FsmStateType::Idle,
        m.last_frame_ms == Some(t0),
        frames.len() > 0,
        all_confident_palm(frames),
        times_from(frames, t0),
        m.dwell_accumulator_ms + (frames.last().now_ms - t0) >= m.dwell_limit_ready_ms,
        frames.len() > 1 ==> m.dwell_accumulator_ms + (frames[frames.len() - 2].now_ms - t0)
            < m.dwell_limit_ready_ms,
    ensures
        m.after_frames(frames).state == FsmStateType::Ready,
        m.after_frames(frames).dwell_accumulator_ms == 0,
{
    let n = frames.len();
    assert(frames.last() == frames[n - 1]);
    if n > 1 {
        let p = frames.drop_last();
        lemma_prefix_of_times(frames, t0);
        assert(p.last() == frames[n - 2]);
        assert forall|i: int| 0 <= i < p.len() implies #[trigger] p[i].gesture
            == Gesture::OpenPalm && p[i].confidence >= CONF_HIGH by {
            assert(p[i] == frames[i]);
        }
        lemma_palm_dwell_accumulates(m, t0, p);
    } else {
        assert(frames.drop_last() =~= Seq::<Frame>::empty());
    }
    let prev = m.after_frames(frames.drop_last());
    let f = frames[n - 1];
    assert(f.gesture == Gesture::OpenPalm && f.confidence >= CONF_HIGH);
    assert(prev.state == FsmStateType::Idle);
    assert(prev.dwell_limit_ready_ms == m.dwell_limit_ready_ms);
    assert(sat_add(prev.dwell_accumulator_ms, prev.delta_to(f.now_ms)) >= m.dwell_limit_ready_ms);
    assert(m.after_frames(frames) == prev.after_frame(f));
}

/// In `Idle`, a frame in the inert band neither resets nor advances the dwell:
/// it only decays, by twice the frame's time.
pub proof fn lemma_inert_band_only_decays(m: FsmModel, f: Frame)
    requires
        m.state == FsmStateType::Idle,
        CONF_LOW <= f.confidence < CONF_HIGH,
    ensures
        m.after_frame(f).state == FsmStateType::Idle,
        m.after_frame(f).dwell_accumulator_ms == decayed(
            m.dwell_accumulator_ms,
            m.delta_to(f.now_ms),
        ),
        m.after_frame(f).dwell_accumulator_ms <= m.dwell_accumulator_ms,
{
}

/// In `Ready`, an unconfident open palm or closed fist moves to `ReadyCoast`
/// and keeps the dwell.
pub proof fn lemma_ready_dips_to_coast(m: FsmModel, f: Frame)
    requires
        m.state == FsmStateType::Ready,
        f.gesture != Gesture::Other,
        f.confidence < CONF_LOW,
    ensures
        m.after_frame(f).state == FsmStateType::ReadyCoast,
        m.after_frame(f).dwell_accumulator_ms == m.dwell_accumulator_ms,
        m.after_frame(f).coast_elapsed_ms == 0,
{
}

/// In `ReadyCoast` before the timeout, an unconfident frame stays there, adding
/// its time to the coast, and any other frame returns to `Ready`; the dwell is
/// kept either way.
pub proof fn lemma_ready_coast_keeps_dwell(m: FsmModel, f: Frame)
    requires
        m.state == FsmStateType::ReadyCoast,
        sat_add(m.coast_elapsed_ms, m.delta_to(f.now_ms)) < m.coast_timeout_ms,
    ensures
        m.after_frame(f).dwell_accumulator_ms == m.dwell_accumulator_ms,
        f.confidence >= CONF_LOW ==> m.after_frame(f).state == FsmStateType::Ready,
        f.confidence < CONF_LOW ==> m.after_frame(f).state == FsmStateType::ReadyCoast
            && m.after_frame(f).coast_elapsed_ms == m.coast_elapsed_ms + m.delta_to(f.now_ms),
{
}

proof fn lemma_ready_coast_prefix(m: FsmModel, t0: u64, frames: Seq<Frame>, k: int)
    requires
        m.state == FsmStateType::Ready,
        m.last_frame_ms == Some(t0),
        1 <= k < frames.len(),
        frames[0].gesture != Gesture::Other,
        forall|i: int| 0 <= i < k ==> #[trigger] frames[i].confidence < CONF_LOW,
        times_from(frames, t0),
        frames[k - 1].now_ms - frames[0].now_ms < m.coast_timeout_ms,
    ensures
        m.after_frames(frames.take(k)).state == FsmStateType::ReadyCoast,
        m.after_frames(frames.take(k)).dwell_accumulator_ms == m.dwell_accumulator_ms,
        m.after_frames(frames.take(k)).coast_elapsed_ms == frames[k - 1].now_ms
            - frames[0].now_ms,
        m.after_frames(frames.take(k)).last_frame_ms == Some(frames[k - 1].now_ms),
        m.after_frames(frames.take(k)).coast_timeout_ms == m.coast_timeout_ms,
    decreases k,
{
    let q = frames.take(k);
    assert(q.last() == frames[k - 1]);
    if k == 1 {
        assert(q.drop_last() =~= Seq::<Frame>::empty());
        assert(frames[0].confidence < CONF_LOW);
        lemma_ready_dips_to_coast(m, frames[0]);
    } else {
        assert(q.drop_last() =~= frames.take(k - 1));
        assert(frames[k - 2].now_ms <= frames[k - 1].now_ms);
        assert(frames[k - 1].confidence < CONF_LOW);
        lemma_ready_coast_prefix(m, t0, frames, k - 1);
        let prev = m.after_frames(frames.take(k - 1));
        assert(prev.delta_to(frames[k - 1].now_ms) == frames[k - 1].now_ms - frames[k
            - 2].now_ms);
        lemma_ready_coast_keeps_dwell(prev, frames[k - 1]);
    }
    assert(m.after_frames(q) == m.after_frames(q.drop_last()).after_frame(frames[k - 1]));
}

/// A coast excursion from `Ready` keeps the dwell: an unconfident open palm or
/// closed fist, then unconfident frames, then a frame that is not unconfident,
/// all within the coast timeout, lead back to `Ready` with the dwell unchanged.
pub proof fn lemma_ready_coast_excursion(m: FsmModel, t0: u64, frames: Seq<Frame>)
    requires
        m.state == FsmStateType::Ready,
        m.last_frame_ms == Some(t0),
        frames.len() >= 2,
        frames[0].gesture != Gesture::Other,
        forall|i: int| 0 <= i < frames.len() - 1 ==> #[trigger] frames[i].confidence < CONF_LOW,
        frames.last().confidence >= CONF_LOW,
        times_from(frames, t0),
        frames.last().now_ms - frames[0].now_ms < m.coast_timeout_ms,
    ensures
        m.after_frames(frames).state == FsmStateType::Ready,
        m.after_frames(frames).dwell_accumulator_ms == m.dwell_accumulator_ms,
{
    let n = frames.len();
    assert(frames.last() == frames[n - 1]);
    assert(frames[n - 2].now_ms <= frames[n - 1].now_ms);
    lemma_ready_coast_prefix(m, t0, frames, n - 1);
    assert(frames.drop_last() =~= frames.take(n - 1));
}

/// In any coast state, a frame that brings the coast time to the timeout puts
/// the machine in `Idle` with no dwell, whatever the frame holds.
pub proof fn lemma_coast_timeout_resets(m: FsmModel, f: Frame)
    requires
        is_coast(m.state),
        sat_add(m.coast_elapsed_ms, m.delta_to(f.now_ms)) >= m.coast_timeout_ms,
    ensures
        m.after_frame(f).state == FsmStateType::Idle,
        m.after_frame(f).dwell_accumulator_ms == 0,
        m.after_frame(f).coast_elapsed_ms == 0,
{
}

/// Forcing a coast moves a primary state to its paired coast state and changes
/// nothing else; in a coast state it changes nothing.
pub proof fn lemma_force_coast_pairs(m: FsmModel)
    ensures
        is_primary(m.state) ==> is_coast(m.force_coasted().state),
        m.state == FsmStateType::Idle ==> m.force_coasted().state == FsmStateType::IdleCoast,
        m.state == FsmStateType::Ready ==> m.force_coasted().state == FsmStateType::ReadyCoast,
        m.state == FsmStateType::CommitPointer ==> m.force_coasted().state
            == FsmStateType::CommitCoast,
        is_coast(m.state) ==> m.force_coasted() == m,
        m.force_coasted().dwell_accumulator_ms == m.dwell_accumulator_ms,
        m.force_coasted().coast_elapsed_ms == m.coast_elapsed_ms,
{
}

/// No frame ever takes the machine from `Idle` straight to `CommitPointer`.
pub proof fn lemma_idle_never_commits(m: FsmModel, f: Frame)
    requires
        m.state == FsmStateType::Idle,
    ensures
        m.after_frame(f).state != FsmStateType::CommitPointer,
{
}

/// With the ready dwell limit set to zero, the next confident open palm in
/// `Idle` moves to `Ready` at once.
pub proof fn lemma_zero_ready_limit_is_immediate(
    m: FsmModel,
    dwell_commit_ms: Option<u64>,
    coast_timeout_ms: Option<u64>,
    f: Frame,
)
    requires
        m.state == FsmStateType::Idle,
        f.gesture == Gesture::OpenPalm,
        f.confidence >= CONF_HIGH,
    ensures
        m.configured(Some(0), dwell_commit_ms, coast_timeout_ms).after_frame(f).state
            == FsmStateType::Ready,
{
}

} // verus!
