use omega_core_rs::{FsmStateType, Gesture, GestureFsmRs};

fn feed(m: &mut GestureFsmRs, gesture: &str, confidence: i64, now_ms: u64) -> FsmStateType {
    m.process_frame(gesture, confidence, 0, 0, now_ms);
    m.get_state()
}

/// A machine brought to `Ready` through four confident open-palm frames.
fn ready_machine() -> GestureFsmRs {
    let mut m = GestureFsmRs::new();
    for t in [0u64, 50, 100] {
        feed(&mut m, "open_palm", 9000, t);
    }
    assert_eq!(m.get_state(), FsmStateType::Ready);
    m
}

fn commit_machine() -> GestureFsmRs {
    let mut m = ready_machine();
    feed(&mut m, "closed_fist", 9000, 150);
    assert_eq!(feed(&mut m, "closed_fist", 9000, 250), FsmStateType::CommitPointer);
    m
}

#[test]
fn new_machine_is_idle() {
    let m = GestureFsmRs::new();
    assert_eq!(m.get_state(), FsmStateType::Idle);
}

#[test]
fn new_machine_has_no_dwell() {
    // With nothing accumulated, 99 ms of open palm is not enough for Ready.
    let mut m = GestureFsmRs::new();
    feed(&mut m, "open_palm", 9000, 1000);
    assert_eq!(feed(&mut m, "open_palm", 9000, 1099), FsmStateType::Idle);
    assert_eq!(feed(&mut m, "open_palm", 9000, 1100), FsmStateType::Ready);
}

#[test]
fn first_frame_counts_no_time() {
    let mut m = GestureFsmRs::new();
    assert_eq!(feed(&mut m, "open_palm", 9000, 5000), FsmStateType::Idle);
}

#[test]
fn open_palm_frames_reach_ready_at_hundred_ms() {
    let mut m = GestureFsmRs::new();
    assert_eq!(feed(&mut m, "open_palm", 9000, 0), FsmStateType::Idle);
    assert_eq!(feed(&mut m, "open_palm", 9000, 50), FsmStateType::Idle);
    assert_eq!(feed(&mut m, "open_palm", 9000, 100), FsmStateType::Ready);
    assert_eq!(feed(&mut m, "open_palm", 9000, 150), FsmStateType::Ready);
}

#[test]
fn confidence_at_high_threshold_counts() {
    let mut m = GestureFsmRs::new();
    feed(&mut m, "open_palm", 6400, 0);
    assert_eq!(feed(&mut m, "open_palm", 6400, 100), FsmStateType::Ready);
    let mut n = GestureFsmRs::new();
    feed(&mut n, "open_palm", 6399, 0);
    assert_eq!(feed(&mut n, "open_palm", 6399, 100), FsmStateType::Idle);
}

#[test]
fn inert_band_decays_dwell_without_reset() {
    let mut m = GestureFsmRs::new();
    feed(&mut m, "open_palm", 9000, 0);
    feed(&mut m, "open_palm", 9000, 80); // dwell 80
    assert_eq!(feed(&mut m, "open_palm", 5500, 90), FsmStateType::Idle); // dwell 60
    // 60 + 39 falls short, 60 + 40 reaches the limit: the dwell was kept.
    assert_eq!(feed(&mut m, "open_palm", 9000, 129), FsmStateType::Idle); // dwell 99
    assert_eq!(feed(&mut m, "open_palm", 9000, 130), FsmStateType::Ready);
}

#[test]
fn decay_is_twice_the_frame_time() {
    let mut m = GestureFsmRs::new();
    feed(&mut m, "open_palm", 9000, 0);
    feed(&mut m, "open_palm", 9000, 90); // dwell 90
    feed(&mut m, "none", 5500, 120); // dwell 90 - 60 = 30
    feed(&mut m, "open_palm", 9000, 120); // no time, dwell 30
    assert_eq!(feed(&mut m, "open_palm", 9000, 189), FsmStateType::Idle); // 99
    assert_eq!(feed(&mut m, "open_palm", 9000, 190), FsmStateType::Ready);
}

#[test]
fn decay_stops_at_zero() {
    let mut m = GestureFsmRs::new();
    feed(&mut m, "open_palm", 9000, 0);
    feed(&mut m, "open_palm", 9000, 50);
    feed(&mut m, "none", 6000, 1000);
    feed(&mut m, "open_palm", 9000, 1000);
    assert_eq!(feed(&mut m, "open_palm", 9000, 1099), FsmStateType::Idle);
    assert_eq!(feed(&mut m, "open_palm", 9000, 1100), FsmStateType::Ready);
}

#[test]
fn idle_unconfident_frame_coasts() {
    let mut m = GestureFsmRs::new();
    assert_eq!(feed(&mut m, "open_palm", 4999, 0), FsmStateType::IdleCoast);
    assert_eq!(feed(&mut m, "none", 5000, 10), FsmStateType::Idle);
}

#[test]
fn ready_dips_to_coast_and_back() {
    let mut m = ready_machine();
    assert_eq!(feed(&mut m, "closed_fist", 3000, 110), FsmStateType::ReadyCoast);
    assert_eq!(feed(&mut m, "closed_fist", 3000, 200), FsmStateType::ReadyCoast);
    assert_eq!(feed(&mut m, "closed_fist", 5000, 300), FsmStateType::Ready);
}

#[test]
fn ready_open_palm_dip_coasts() {
    let mut m = ready_machine();
    assert_eq!(feed(&mut m, "open_palm", 1000, 110), FsmStateType::ReadyCoast);
}

#[test]
fn ready_coast_keeps_dwell() {
    let mut m = ready_machine();
    feed(&mut m, "closed_fist", 9000, 160); // dwell 60
    assert_eq!(feed(&mut m, "closed_fist", 100, 180), FsmStateType::ReadyCoast);
    assert_eq!(feed(&mut m, "closed_fist", 5500, 200), FsmStateType::Ready);
    // 60 + 39 falls short, 60 + 40 commits.
    assert_eq!(feed(&mut m, "closed_fist", 9000, 239), FsmStateType::Ready);
    assert_eq!(feed(&mut m, "closed_fist", 9000, 240), FsmStateType::CommitPointer);
}

#[test]
fn ready_unknown_gesture_drops_to_idle() {
    let mut m = ready_machine();
    assert_eq!(feed(&mut m, "thumbs_up", 9000, 110), FsmStateType::Idle);
}

#[test]
fn ready_inert_band_stays() {
    let mut m = ready_machine();
    assert_eq!(feed(&mut m, "open_palm", 5500, 110), FsmStateType::Ready);
    assert_eq!(feed(&mut m, "open_palm", 9000, 120), FsmStateType::Ready);
}

#[test]
fn closed_fist_commits() {
    let m = commit_machine();
    assert_eq!(m.get_state(), FsmStateType::CommitPointer);
}

#[test]
fn commit_released_by_open_palm() {
    let mut m = commit_machine();
    assert_eq!(feed(&mut m, "closed_fist", 5500, 260), FsmStateType::CommitPointer);
    assert_eq!(feed(&mut m, "open_palm", 6000, 270), FsmStateType::CommitPointer);
    assert_eq!(feed(&mut m, "open_palm", 6400, 280), FsmStateType::Ready);
}

#[test]
fn commit_coasts_and_returns() {
    let mut m = commit_machine();
    assert_eq!(feed(&mut m, "closed_fist", 4000, 260), FsmStateType::CommitCoast);
    assert_eq!(feed(&mut m, "closed_fist", 6000, 300), FsmStateType::CommitPointer);
}

#[test]
fn commit_low_confidence_for_six_hundred_ms_goes_idle() {
    let mut m = commit_machine();
    assert_eq!(feed(&mut m, "closed_fist", 3000, 1000), FsmStateType::CommitCoast);
    assert_eq!(feed(&mut m, "closed_fist", 3000, 1300), FsmStateType::CommitCoast);
    assert_eq!(feed(&mut m, "closed_fist", 3000, 1600), FsmStateType::Idle);
}

#[test]
fn coast_timeout_wins_over_recovered_confidence() {
    let mut m = ready_machine();
    feed(&mut m, "open_palm", 9000, 150);
    assert_eq!(feed(&mut m, "open_palm", 1000, 200), FsmStateType::ReadyCoast);
    assert_eq!(feed(&mut m, "open_palm", 9000, 700), FsmStateType::Idle);
    // The dwell is gone: a fresh 100 ms is needed.
    assert_eq!(feed(&mut m, "open_palm", 9000, 799), FsmStateType::Idle);
    assert_eq!(feed(&mut m, "open_palm", 9000, 800), FsmStateType::Ready);
}

#[test]
fn coast_just_below_timeout_recovers() {
    let mut m = ready_machine();
    feed(&mut m, "open_palm", 1000, 200);
    assert_eq!(feed(&mut m, "open_palm", 9000, 699), FsmStateType::Ready);
}

#[test]
fn coast_time_restarts_after_recovery() {
    let mut m = ready_machine();
    feed(&mut m, "open_palm", 1000, 200);
    feed(&mut m, "open_palm", 1000, 600);
    assert_eq!(feed(&mut m, "open_palm", 6000, 650), FsmStateType::Ready);
    m.force_coast();
    assert_eq!(feed(&mut m, "open_palm", 1000, 1000), FsmStateType::ReadyCoast);
    assert_eq!(feed(&mut m, "open_palm", 1000, 1149), FsmStateType::ReadyCoast);
}

#[test]
fn force_coast_pairs_each_primary_state() {
    let mut m = GestureFsmRs::new();
    m.force_coast();
    assert_eq!(m.get_state(), FsmStateType::IdleCoast);
    let mut r = ready_machine();
    r.force_coast();
    assert_eq!(r.get_state(), FsmStateType::ReadyCoast);
    let mut c = commit_machine();
    c.force_coast();
    assert_eq!(c.get_state(), FsmStateType::CommitCoast);
}

#[test]
fn force_coast_ignores_confidence_and_is_idempotent() {
    let mut m = ready_machine();
    feed(&mut m, "open_palm", 10000, 110);
    m.force_coast();
    assert_eq!(m.get_state(), FsmStateType::ReadyCoast);
    m.force_coast();
    assert_eq!(m.get_state(), FsmStateType::ReadyCoast);
    assert_eq!(feed(&mut m, "open_palm", 9000, 120), FsmStateType::Ready);
}

#[test]
fn closed_fist_in_idle_never_commits() {
    let mut m = GestureFsmRs::new();
    assert_eq!(feed(&mut m, "closed_fist", 10000, 0), FsmStateType::Idle);
    for t in [100u64, 200, 1000, 5000] {
        assert_eq!(feed(&mut m, "closed_fist", 10000, t), FsmStateType::Idle);
    }
}

#[test]
fn zero_ready_limit_is_immediate() {
    let mut m = GestureFsmRs::new();
    feed(&mut m, "open_palm", 9000, 0);
    feed(&mut m, "open_palm", 9000, 30);
    m.configure(Some(0), None, None);
    assert_eq!(m.get_state(), FsmStateType::Idle);
    assert_eq!(feed(&mut m, "open_palm", 9000, 30), FsmStateType::Ready);
}

#[test]
fn configure_changes_only_given_limits() {
    let mut m = GestureFsmRs::new();
    m.configure(None, Some(20), None);
    feed(&mut m, "open_palm", 9000, 0);
    assert_eq!(feed(&mut m, "open_palm", 9000, 99), FsmStateType::Idle);
    assert_eq!(feed(&mut m, "open_palm", 9000, 100), FsmStateType::Ready);
    feed(&mut m, "closed_fist", 9000, 119);
    assert_eq!(feed(&mut m, "closed_fist", 9000, 120), FsmStateType::CommitPointer);
}

#[test]
fn configure_coast_timeout() {
    let mut m = GestureFsmRs::new();
    m.configure(None, None, Some(50));
    feed(&mut m, "open_palm", 0, 0);
    assert_eq!(m.get_state(), FsmStateType::IdleCoast);
    assert_eq!(feed(&mut m, "open_palm", 0, 49), FsmStateType::IdleCoast);
    assert_eq!(feed(&mut m, "open_palm", 0, 50), FsmStateType::Idle);
}

#[test]
fn zero_coast_timeout_resets_on_next_frame() {
    let mut m = ready_machine();
    m.configure(None, None, Some(0));
    m.force_coast();
    assert_eq!(feed(&mut m, "open_palm", 9000, 100), FsmStateType::Idle);
}

#[test]
fn clock_going_back_counts_no_time() {
    let mut m = GestureFsmRs::new();
    feed(&mut m, "open_palm", 9000, 1000);
    assert_eq!(feed(&mut m, "open_palm", 9000, 10), FsmStateType::Idle);
    assert_eq!(feed(&mut m, "open_palm", 9000, 109), FsmStateType::Idle);
    assert_eq!(feed(&mut m, "open_palm", 9000, 110), FsmStateType::Ready);
}

#[test]
fn huge_times_saturate() {
    let mut m = GestureFsmRs::new();
    m.configure(Some(u64::MAX), None, Some(u64::MAX));
    feed(&mut m, "open_palm", 9000, 0);
    assert_eq!(feed(&mut m, "open_palm", 9000, u64::MAX - 1), FsmStateType::Idle);
    assert_eq!(feed(&mut m, "open_palm", 9000, u64::MAX), FsmStateType::Ready);
}

#[test]
fn out_of_range_confidence_is_accepted() {
    let mut m = GestureFsmRs::new();
    assert_eq!(feed(&mut m, "open_palm", -20000, 0), FsmStateType::IdleCoast);
    assert_eq!(feed(&mut m, "open_palm", 25000, 10), FsmStateType::Idle);
    assert_eq!(feed(&mut m, "open_palm", 25000, 110), FsmStateType::Ready);
}

#[test]
fn labels_are_read_exactly() {
    assert_eq!(Gesture::from_label("open_palm"), Gesture::OpenPalm);
    assert_eq!(Gesture::from_label("closed_fist"), Gesture::ClosedFist);
    assert_eq!(Gesture::from_label("Open_Palm"), Gesture::Other);
    assert_eq!(Gesture::from_label("open_palm "), Gesture::Other);
    assert_eq!(Gesture::from_label("closed_fis"), Gesture::Other);
    assert_eq!(Gesture::from_label(""), Gesture::Other);
    assert_eq!(Gesture::from_label("opén_palm"), Gesture::Other);
}
