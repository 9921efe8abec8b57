use stack_manager::{poll_status, NetworkProcessor, TickActions, UpdateState};

fn processor() -> NetworkProcessor<(), (), ()> {
    NetworkProcessor::new((), (), ())
}

fn idle() -> Result<bool, String> {
    Ok(false)
}

fn busy() -> Result<bool, String> {
    Ok(true)
}

#[test]
fn new_starts_armed() {
    let p = NetworkProcessor::new(7u32, "phy", 9u64);
    assert_eq!(p.stack, 7u32);
    assert_eq!(p.phy, "phy");
    assert_eq!(p.clock, 9u64);
    assert!(!p.network_was_reset);
}

#[test]
fn poll_status_maps_each_outcome() {
    assert_eq!(poll_status(&busy()), UpdateState::Updated);
    assert_eq!(poll_status(&idle()), UpdateState::NoChange);
    assert_eq!(poll_status(&Err::<bool, String>("timeout".to_string())), UpdateState::Updated);
}

#[test]
fn link_readings_reset_once_per_streak() {
    let mut p = processor();
    let links = [true, false, false, false, true, false];
    let mut resets = Vec::new();
    for (i, link) in links.iter().enumerate() {
        if p.update(&idle(), *link).reset_link {
            resets.push(i);
        }
    }
    assert_eq!(resets, vec![1, 5]);
}

#[test]
fn error_poll_reports_updated_and_logs_without_reset() {
    let mut p = processor();
    let err: Result<bool, String> = Err("driver fault".to_string());
    let r = p.update(&err, true);
    assert_eq!(r, TickActions { status: UpdateState::Updated, reset_link: false, log_error: true });
    let r = p.update(&busy(), true);
    assert_eq!(r, TickActions { status: UpdateState::Updated, reset_link: false, log_error: false });
    let r = p.update(&idle(), true);
    assert_eq!(r, TickActions { status: UpdateState::NoChange, reset_link: false, log_error: false });
}

#[test]
fn error_poll_with_link_lost_resets_once() {
    let mut p = processor();
    let err: Result<bool, String> = Err("driver fault".to_string());
    let r = p.update(&err, false);
    assert_eq!(r, TickActions { status: UpdateState::Updated, reset_link: true, log_error: true });
    let r = p.update(&err, false);
    assert_eq!(r, TickActions { status: UpdateState::Updated, reset_link: false, log_error: true });
}

#[test]
fn reset_does_not_change_status() {
    let mut p = processor();
    let r = p.update(&idle(), false);
    assert_eq!(r.status, UpdateState::NoChange);
    assert!(r.reset_link);
    assert!(!r.log_error);
}

#[test]
fn present_link_rearms_fired_debounce() {
    let mut p = processor();
    assert!(p.update(&idle(), false).reset_link);
    assert!(p.network_was_reset);
    assert!(!p.update(&idle(), true).reset_link);
    assert!(!p.network_was_reset);
    assert!(p.update(&idle(), false).reset_link);
}

#[test]
fn present_link_keeps_armed_debounce() {
    let mut p = processor();
    assert!(!p.observe_link(true));
    assert!(!p.network_was_reset);
    assert!(p.observe_link(false));
    assert!(!p.observe_link(false));
    assert!(p.network_was_reset);
}

#[test]
fn first_tick_after_construction_resets_on_loss() {
    let mut p = processor();
    assert!(p.update(&busy(), false).reset_link);
}

#[test]
fn scenario_statuses_and_resets() {
    let mut p = processor();
    let ticks = [(true, true), (false, false), (false, false), (true, true), (false, false)];
    let mut statuses = Vec::new();
    let mut resets = Vec::new();
    for (n, (progress, link)) in ticks.iter().enumerate() {
        let poll: Result<bool, String> = Ok(*progress);
        let r = p.update(&poll, *link);
        statuses.push(r.status);
        if r.reset_link {
            resets.push(n + 1);
        }
    }
    assert_eq!(
        statuses,
        vec![
            UpdateState::Updated,
            UpdateState::NoChange,
            UpdateState::NoChange,
            UpdateState::Updated,
            UpdateState::NoChange
        ]
    );
    assert_eq!(resets, vec![2, 5]);
}

