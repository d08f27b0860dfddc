//! The splashscreen coordinator: a state machine over plain values.
//!
//! On startup the application asks the host runtime for two windows, a
//! transient splash window and the main window. After a fixed delay — or
//! earlier, on an explicit close request — the splash window is closed and
//! the main window is shown. The coordinator decides; the host performs.
//!
//! The host's window registry is modelled here explicitly: the coordinator
//! owns the two windows' states, both the timer task and the close command
//! step the same coordinator, and the explicit close cancels the pending
//! timer, so the delayed swap can never run a second time against an
//! already-closed splash window.

use vstd::prelude::*;

verus! {

/// How long the splash window stays up when nothing closes it earlier,
/// in milliseconds.
pub const SPLASH_DELAY_MS: u64 = 2000;

/// A request to the host runtime to create one window: its name and the
/// bundled page it loads.
pub struct WindowRequest {
    /// The name under which the host registers the window.
    pub label: String,
    /// The bundled front-end page the window displays.
    pub url: String,
}

/// An action the host runtime is asked to perform on an existing window.
#[derive(Clone, Copy, Debug, PartialEq, Eq, Structural)]
pub enum WindowAction {
    /// Close (destroy) the splash window.
    CloseSplash,
    /// Make the main window visible.
    ShowMain,
}

/// An event the coordinator reacts to.
#[derive(Clone, Copy, Debug, PartialEq, Eq, Structural)]
pub enum SplashEvent {
    /// The fixed startup delay has elapsed.
    TimerFired,
    /// The front end explicitly asked to close the splash window.
    CloseRequested,
}

/// The coordinator's view of the two windows and of its own pending timer.
#[derive(Clone, Copy, Debug, PartialEq, Eq, Structural)]
pub struct Coordinator {
    /// The splash window exists (has not been closed).
    pub splash_open: bool,
    /// The main window is visible.
    pub main_visible: bool,
    /// The delayed swap has neither fired nor been cancelled.
    pub timer_pending: bool,
}

impl Coordinator {
    /// The state right after startup: splash up, main hidden, timer armed.
    pub open spec fn initial() -> Coordinator {
        Coordinator { splash_open: true, main_visible: false, timer_pending: true }
    }

    /// The transition is over: the splash window is gone and the main
    /// window is visible.
    pub open spec fn transitioned(self) -> bool {
        !self.splash_open && self.main_visible
    }

    /// States the coordinator keeps itself in: the main window becomes
    /// visible only once the splash window is closed, and a pending timer
    /// means the transition has not happened yet.
    pub open spec fn wf(self) -> bool {
        &&& self.main_visible ==> !self.splash_open
        &&& self.timer_pending ==> self.splash_open && !self.main_visible
    }

    /// The state after `event` arrives in state `s`. Either event performs
    /// the swap — close the splash, show the main window, disarm the timer
    /// — except a fired timer that was already cancelled, which changes
    /// nothing.
    pub open spec fn spec_step(s: Coordinator, event: SplashEvent) -> Coordinator {
        match event {
            SplashEvent::TimerFired => {
                if s.timer_pending {
                    Coordinator { splash_open: false, main_visible: true, timer_pending: false }
                } else {
                    s
                }
            },
            SplashEvent::CloseRequested => {
                Coordinator { splash_open: false, main_visible: true, timer_pending: false }
            },
        }
    }

    /// The actions the host must perform when `event` arrives in state `s`:
    /// close the splash window only if it is still open, then show the main
    /// window. A cancelled timer asks for nothing.
    pub open spec fn spec_actions(s: Coordinator, event: SplashEvent) -> Seq<WindowAction> {
        match event {
            SplashEvent::TimerFired => {
                if !s.timer_pending {
                    Seq::<WindowAction>::empty()
                } else if s.splash_open {
                    seq![WindowAction::CloseSplash, WindowAction::ShowMain]
                } else {
                    seq![WindowAction::ShowMain]
                }
            },
            SplashEvent::CloseRequested => {
                if s.splash_open {
                    seq![WindowAction::CloseSplash, WindowAction::ShowMain]
                } else {
                    seq![WindowAction::ShowMain]
                }
            },
        }
    }

    /// Builds the startup state together with the two window requests the
    /// host is asked to create: the splash window named "splashscreen"
    /// loading "splashscreen.html", then the main window named "main"
    /// loading "index.html" — exactly those two, in that order.
    pub fn startup() -> (r: (Coordinator, Vec<WindowRequest>))
        ensures
            r.0 == Coordinator::initial(),
            r.1@.len() == 2,
            r.1@[0].label@ == "splashscreen"@,
            r.1@[0].url@ == "splashscreen.html"@,
            r.1@[1].label@ == "main"@,
            r.1@[1].url@ == "index.html"@,
    {
        let state = Coordinator { splash_open: true, main_visible: false, timer_pending: true };
        let mut requests: Vec<WindowRequest> = Vec::new();
        requests.push(WindowRequest {
            label: String::from_str("splashscreen"),
            url: String::from_str("splashscreen.html"),
        });
        requests.push(WindowRequest {
            label: String::from_str("main"),
            url: String::from_str("index.html"),
        });
        (state, requests)
    }

    /// Advances the coordinator on `event` and returns the actions the host
    /// must perform, exactly as `spec_step` and `spec_actions` say.
    pub fn step(&mut self, event: SplashEvent) -> (actions: Vec<WindowAction>)
        ensures
            *final(self) == Coordinator::spec_step(*old(self), event),
            actions@ == Coordinator::spec_actions(*old(self), event),
    {
        let fire = match event {
            SplashEvent::TimerFired => self.timer_pending,
            SplashEvent::CloseRequested => true,
        };
        let mut actions: Vec<WindowAction> = Vec::new();
        if fire {
            if self.splash_open {
                actions.push(WindowAction::CloseSplash);
            }
            actions.push(WindowAction::ShowMain);
            self.splash_open = false;
            self.main_visible = true;
            self.timer_pending = false;
        }
        proof {
            assert(actions@ =~= Coordinator::spec_actions(*old(self), event));
        }
        actions
    }
}

/// The startup state is well formed, so with the step lemma below every
/// reachable state is: the main window is never visible while the splash
/// window is still open.
pub proof fn lemma_initial_wf()
    ensures
        Coordinator::initial().wf(),
{
}

/// Every step keeps the coordinator well formed: from a well-formed state,
/// any event leads again to a state where the main window is visible only
/// with the splash window closed.
pub proof fn lemma_step_preserves_wf(s: Coordinator, event: SplashEvent)
    requires
        s.wf(),
    ensures
        Coordinator::spec_step(s, event).wf(),
{
}

/// With no explicit close invoked, the timer firing in the startup state
/// completes the transition: the splash window is closed and the main
/// window is visible, by exactly a close of the splash followed by a show
/// of the main window.
pub proof fn lemma_timer_completes_transition()
    ensures
        Coordinator::spec_step(Coordinator::initial(), SplashEvent::TimerFired).transitioned(),
        Coordinator::spec_actions(Coordinator::initial(), SplashEvent::TimerFired)
            == seq![WindowAction::CloseSplash, WindowAction::ShowMain],
{
}

/// An explicit close before the timer fires also completes the transition,
/// and the timer firing afterwards changes nothing and asks the host to
/// touch no window: in particular it never closes the already-closed
/// splash window.
pub proof fn lemma_close_then_timer_is_safe()
    ensures
        Coordinator::spec_step(Coordinator::initial(), SplashEvent::CloseRequested).transitioned(),
        Coordinator::spec_actions(Coordinator::initial(), SplashEvent::CloseRequested)
            == seq![WindowAction::CloseSplash, WindowAction::ShowMain],
        Coordinator::spec_step(
            Coordinator::spec_step(Coordinator::initial(), SplashEvent::CloseRequested),
            SplashEvent::TimerFired,
        ).transitioned(),
        Coordinator::spec_actions(
            Coordinator::spec_step(Coordinator::initial(), SplashEvent::CloseRequested),
            SplashEvent::TimerFired,
        ) == Seq::<WindowAction>::empty(),
{
}

/// Once the transition is over, it stays over: no later event reopens the
/// splash window or hides the main window.
pub proof fn lemma_transition_is_stable(s: Coordinator, event: SplashEvent)
    requires
        s.transitioned(),
    ensures
        Coordinator::spec_step(s, event).transitioned(),
{
}

} // verus!
