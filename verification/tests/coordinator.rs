use splash_greeter::coordinator::{Coordinator, SplashEvent, WindowAction, SPLASH_DELAY_MS};

fn fresh() -> Coordinator {
    let (state, _requests) = Coordinator::startup();
    state
}

#[test]
fn startup_creates_exactly_two_windows() {
    let (_state, requests) = Coordinator::startup();
    assert_eq!(requests.len(), 2);
    assert_eq!(requests[0].label, "splashscreen");
    assert_eq!(requests[0].url, "splashscreen.html");
    assert_eq!(requests[1].label, "main");
    assert_eq!(requests[1].url, "index.html");
}

#[test]
fn startup_state_is_splash_up_main_hidden() {
    let state = fresh();
    assert!(state.splash_open);
    assert!(!state.main_visible);
    assert!(state.timer_pending);
}

#[test]
fn timer_alone_swaps_the_windows() {
    let mut state = fresh();
    let actions = state.step(SplashEvent::TimerFired);
    assert_eq!(actions, vec![WindowAction::CloseSplash, WindowAction::ShowMain]);
    assert!(!state.splash_open);
    assert!(state.main_visible);
    assert!(!state.timer_pending);
}

#[test]
fn explicit_close_swaps_the_windows() {
    let mut state = fresh();
    let actions = state.step(SplashEvent::CloseRequested);
    assert_eq!(actions, vec![WindowAction::CloseSplash, WindowAction::ShowMain]);
    assert!(!state.splash_open);
    assert!(state.main_visible);
}

#[test]
fn close_before_timer_disarms_the_timer() {
    let mut state = fresh();
    let first = state.step(SplashEvent::CloseRequested);
    assert_eq!(first, vec![WindowAction::CloseSplash, WindowAction::ShowMain]);
    let after_close = state;
    let second = state.step(SplashEvent::TimerFired);
    assert!(second.is_empty());
    assert_eq!(state, after_close);
    assert!(!state.splash_open);
    assert!(state.main_visible);
}

#[test]
fn close_after_timer_never_closes_twice() {
    let mut state = fresh();
    let first = state.step(SplashEvent::TimerFired);
    assert_eq!(first, vec![WindowAction::CloseSplash, WindowAction::ShowMain]);
    let second = state.step(SplashEvent::CloseRequested);
    assert_eq!(second, vec![WindowAction::ShowMain]);
    assert!(!state.splash_open);
    assert!(state.main_visible);
}

#[test]
fn repeated_close_requests_stay_settled() {
    let mut state = fresh();
    let _ = state.step(SplashEvent::CloseRequested);
    let again = state.step(SplashEvent::CloseRequested);
    assert_eq!(again, vec![WindowAction::ShowMain]);
    assert!(!state.splash_open);
    assert!(state.main_visible);
}

#[test]
fn splash_delay_is_two_seconds() {
    assert_eq!(SPLASH_DELAY_MS, 2000);
}
