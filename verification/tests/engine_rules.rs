use remote_bind::engine::{handle_code, refresh_tick};
use remote_bind::{
    Action, Bind, BindMap, CapabilityCall, CodeOutcome, DispatchContext, MenuMode,
};

fn volume_binds() -> BindMap {
    let mut binds = BindMap::new();
    binds.insert(
        "FFDA25".to_string(),
        Bind {
            name: "volume down".to_string(),
            action: Action::Handler { handler: "nav-left".to_string() },
            repeat: true,
        },
    );
    binds.insert(
        "FFA857".to_string(),
        Bind {
            name: "close".to_string(),
            action: Action::Handler { handler: "nav-right".to_string() },
            repeat: false,
        },
    );
    binds
}

#[test]
fn unbound_code_is_noop_and_clears_last_code() {
    let binds = volume_binds();
    let mut ctx = DispatchContext::new(0);
    let first = handle_code(&mut ctx, &binds, &"FFDA25".to_string(), 1000);
    assert_eq!(first.outcome, CodeOutcome::Dispatched { unknown_handler: false });
    assert_eq!(ctx.last_code, Some("FFDA25".to_string()));

    let r = handle_code(&mut ctx, &binds, &"DEADBEEF".to_string(), 2000);
    assert_eq!(r.outcome, CodeOutcome::Unbound);
    assert_eq!(r.calls, vec![]);
    assert_eq!(ctx.last_code, None);
    assert_eq!(ctx.last_action_at, 2000);
}

#[test]
fn sentinel_inside_window_is_discarded() {
    let binds = volume_binds();
    let mut ctx = DispatchContext::new(0);
    handle_code(&mut ctx, &binds, &"FFDA25".to_string(), 1000);
    let before = DispatchContext {
        last_code: ctx.last_code.clone(),
        last_action_at: ctx.last_action_at,
        last_refresh_at: ctx.last_refresh_at,
        mode: ctx.mode,
    };

    let r = handle_code(&mut ctx, &binds, &"FFFFFFFF".to_string(), 1010);
    assert_eq!(r.outcome, CodeOutcome::SuppressedNoise);
    assert_eq!(r.calls, vec![]);
    assert_eq!(ctx, before);
}

#[test]
fn sentinel_after_window_replays_as_repeat() {
    let binds = volume_binds();
    let mut ctx = DispatchContext::new(0);
    let first = handle_code(&mut ctx, &binds, &"FFDA25".to_string(), 1000);
    assert_eq!(first.calls, vec![CapabilityCall::MediaDecreaseVolume { step: 2 }]);

    let r = handle_code(&mut ctx, &binds, &"FFFFFFFF".to_string(), 1100);
    assert_eq!(r.outcome, CodeOutcome::Replayed { unknown_handler: false });
    assert_eq!(r.calls, vec![CapabilityCall::MediaDecreaseVolume { step: 5 }]);
    assert_eq!(ctx.last_code, Some("FFDA25".to_string()));
    assert_eq!(ctx.last_action_at, 1100);
}

#[test]
fn sentinel_at_exact_window_edge_replays() {
    let binds = volume_binds();
    let mut ctx = DispatchContext::new(0);
    handle_code(&mut ctx, &binds, &"FFDA25".to_string(), 1000);

    let at_edge = handle_code(&mut ctx, &binds, &"FFFFFFFF".to_string(), 1025);
    assert_eq!(at_edge.outcome, CodeOutcome::Replayed { unknown_handler: false });

    let just_inside = handle_code(&mut ctx, &binds, &"FFFFFFFF".to_string(), 1049);
    assert_eq!(just_inside.outcome, CodeOutcome::SuppressedNoise);
}

#[test]
fn sentinel_with_nothing_to_repeat_is_noop() {
    let binds = volume_binds();
    let mut ctx = DispatchContext::new(0);
    let r = handle_code(&mut ctx, &binds, &"FFFFFFFF".to_string(), 5000);
    assert_eq!(r.outcome, CodeOutcome::NothingToRepeat);
    assert_eq!(r.calls, vec![]);
    assert_eq!(ctx.last_code, None);
    assert_eq!(ctx.last_action_at, 0);
}

#[test]
fn nonrepeat_bind_never_replayed() {
    let binds = volume_binds();
    let mut ctx = DispatchContext::new(0);
    let first = handle_code(&mut ctx, &binds, &"FFA857".to_string(), 1000);
    assert_eq!(first.outcome, CodeOutcome::Dispatched { unknown_handler: false });
    assert_eq!(ctx.last_code, None);

    let soon = handle_code(&mut ctx, &binds, &"FFFFFFFF".to_string(), 1005);
    assert_eq!(soon.outcome, CodeOutcome::SuppressedNoise);
    assert_eq!(soon.calls, vec![]);

    let late = handle_code(&mut ctx, &binds, &"FFFFFFFF".to_string(), 9000);
    assert_eq!(late.outcome, CodeOutcome::NothingToRepeat);
    assert_eq!(late.calls, vec![]);
}

#[test]
fn dispatch_resets_action_timestamp() {
    let binds = volume_binds();
    let mut ctx = DispatchContext::new(0);
    handle_code(&mut ctx, &binds, &"FFDA25".to_string(), 777);
    assert_eq!(ctx.last_action_at, 777);
    assert_eq!(ctx.last_refresh_at, 0);
    assert_eq!(ctx.mode, MenuMode::Media);
}

#[test]
fn refresh_waits_for_idle_threshold() {
    let mut ctx = DispatchContext::new(0);
    assert!(!refresh_tick(&mut ctx, 500));
    assert_eq!(ctx.last_refresh_at, 500);
    assert!(!refresh_tick(&mut ctx, 999));
    assert_eq!(ctx.last_refresh_at, 999);
}

#[test]
fn refresh_fires_once_per_interval_while_idle() {
    let mut ctx = DispatchContext::new(0);
    assert!(!refresh_tick(&mut ctx, 500));
    assert!(!refresh_tick(&mut ctx, 1500));
    assert_eq!(ctx.last_refresh_at, 500);
    assert!(refresh_tick(&mut ctx, 2600));
    assert_eq!(ctx.last_refresh_at, 2600);
    assert!(!refresh_tick(&mut ctx, 2700));
    assert!(!refresh_tick(&mut ctx, 4500));
    assert!(refresh_tick(&mut ctx, 4600));
    assert_eq!(ctx.last_refresh_at, 4600);
}

#[test]
fn refresh_dormant_while_buttons_arrive() {
    let binds = volume_binds();
    let mut ctx = DispatchContext::new(0);
    let mut fired = false;
    for tick in 1..20u64 {
        let now = tick * 500;
        handle_code(&mut ctx, &binds, &"FFDA25".to_string(), now);
        fired = fired || refresh_tick(&mut ctx, now + 100);
    }
    assert!(!fired);
}

#[test]
fn replay_uses_mode_at_replay_time() {
    let mut binds = BindMap::new();
    binds.insert(
        "FF0001".to_string(),
        Bind {
            name: "nav".to_string(),
            action: Action::Handler { handler: "navigation".to_string() },
            repeat: true,
        },
    );
    let mut ctx = DispatchContext::new(0);
    handle_code(&mut ctx, &binds, &"FF0001".to_string(), 1000);
    assert_eq!(ctx.mode, MenuMode::MouseEmulation);
    handle_code(&mut ctx, &binds, &"FFFFFFFF".to_string(), 1100);
    assert_eq!(ctx.mode, MenuMode::Selector);
    handle_code(&mut ctx, &binds, &"FFFFFFFF".to_string(), 1200);
    assert_eq!(ctx.mode, MenuMode::Media);
}
