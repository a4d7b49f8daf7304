use apexscan::timing::{after_congestion, after_reply, TimingState};

/// Replays steady replies with no loss, as the timing profile sees them.
fn steady_replies(n: u64, max: usize) -> (TimingState, usize) {
    let mut state = TimingState::Probing;
    let mut parallelism = 1usize;
    for samples in 1..=n {
        let scaled = (parallelism as f64 * 0.95) as usize;
        let (s, p) = after_reply(state, samples, parallelism, max, true, true, false, scaled);
        state = s;
        parallelism = p;
    }
    (state, parallelism)
}

#[test]
fn probing_ends_after_ten_samples() {
    let (state, parallelism) = steady_replies(9, 100);
    assert_eq!(state, TimingState::Probing);
    assert_eq!(parallelism, 1);
    let (state, parallelism) = steady_replies(10, 100);
    assert_eq!(state, TimingState::Normal);
    assert_eq!(parallelism, 25);
}

#[test]
fn steady_network_raises_parallelism() {
    let (state, parallelism) = steady_replies(20, 100);
    assert_eq!(state, TimingState::Normal);
    assert_eq!(parallelism, 35);
    assert_eq!(steady_replies(200, 100).1, 100);
    // A small maximum still leaves one probe at a time.
    assert_eq!(after_reply(TimingState::Probing, 10, 1, 3, true, true, false, 0), (TimingState::Normal, 1));
}

#[test]
fn jitter_or_loss_holds_parallelism() {
    assert_eq!(after_reply(TimingState::Normal, 50, 7, 100, true, true, true, 6), (TimingState::Normal, 7));
    assert_eq!(after_reply(TimingState::Normal, 50, 7, 100, false, false, false, 6), (TimingState::Normal, 7));
}

#[test]
fn congestion_and_recovery() {
    assert_eq!(after_congestion(0), (TimingState::Congested, 1));
    assert_eq!(after_congestion(6), (TimingState::Congested, 6));
    assert_eq!(after_reply(TimingState::Congested, 50, 6, 100, false, false, false, 5), (TimingState::Congested, 6));
    assert_eq!(after_reply(TimingState::Congested, 50, 6, 100, true, false, false, 5), (TimingState::Recovering, 6));
    assert_eq!(after_reply(TimingState::Recovering, 50, 6, 100, true, false, false, 5), (TimingState::Recovering, 6));
    assert_eq!(after_reply(TimingState::Recovering, 50, 6, 100, true, true, false, 5), (TimingState::Recovering, 6));
    assert_eq!(after_reply(TimingState::Recovering, 50, 60, 100, true, true, false, 57), (TimingState::Normal, 58));
}
