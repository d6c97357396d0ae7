use vstd::prelude::*;

verus! {

/// A capability plugin that the application registers when it is assembled.
#[derive(Clone, Copy, Debug, PartialEq, Eq, Structural)]
pub enum Plugin {
    /// Opens links and files with the system's handlers.
    Opener,
    /// Checks for and installs application updates.
    Updater,
    /// Exits or restarts the process.
    Process,
    /// Delivers desktop notifications.
    Notification,
}

/// The plugins, in the order in which they are registered.
pub open spec fn plugin_order() -> Seq<Plugin> {
    seq![Plugin::Opener, Plugin::Updater, Plugin::Process, Plugin::Notification]
}

/// The plugins to register, in registration order.
pub fn plugins() -> (r: Vec<Plugin>)
    ensures
        r@ == plugin_order(),
{
    let r = vec![Plugin::Opener, Plugin::Updater, Plugin::Process, Plugin::Notification];
    assert(r@ =~= plugin_order());
    r
}

/// Where the application stands in its life.
#[derive(Clone, Copy, Debug, PartialEq, Eq, Structural)]
pub enum Phase {
    /// Nothing has been built yet.
    NotStarted,
    /// The application is assembled and waits for its setup hook.
    SetupPending,
    /// The setup hook has completed and the run loop is going.
    Running,
    /// The run loop has ended, or never started.
    Terminated,
}

/// What the host reports to the application.
#[derive(Clone, Copy, Debug, PartialEq, Eq, Structural)]
pub enum Event {
    /// The application has been assembled with its plugins and command.
    Launch,
    /// The setup hook fires; says whether the main window was found.
    Setup { window_found: bool },
    /// The injected script was evaluated, successfully or not.
    ScriptEvaluated { ok: bool },
    /// A window was shown again.
    WindowShown,
    /// The run loop could not be started or failed.
    RunFailed,
    /// The host closed the application.
    Closed,
}

/// What the application asks the host to do next.
#[derive(Clone, Copy, Debug, PartialEq, Eq, Structural)]
pub enum Action {
    /// Nothing to do.
    Nothing,
    /// Evaluate the autofill-disabling script in the main window.
    InjectScript,
    /// Stop the process with a diagnostic.
    Abort,
}

/// The abstract state: the phase, and how many times the script was injected.
pub ghost struct LifecycleView {
    pub phase: Phase,
    pub injections: nat,
}

/// The state in which every application starts.
pub open spec fn initial() -> LifecycleView {
    LifecycleView { phase: Phase::NotStarted, injections: 0 }
}

/// One transition: the next state and the action asked of the host.
/// An event that does not fit the current phase changes nothing.
pub open spec fn next(s: LifecycleView, e: Event) -> (LifecycleView, Action) {
    match e {
        Event::Launch => if s.phase == Phase::NotStarted {
            (LifecycleView { phase: Phase::SetupPending, ..s }, Action::Nothing)
        } else {
            (s, Action::Nothing)
        },
        Event::Setup { window_found } => if s.phase == Phase::SetupPending {
            if window_found {
                (
                    LifecycleView { phase: Phase::Running, injections: s.injections + 1 },
                    Action::InjectScript,
                )
            } else {
                (LifecycleView { phase: Phase::Running, ..s }, Action::Nothing)
            }
        } else {
            (s, Action::Nothing)
        },
        Event::ScriptEvaluated { .. } => (s, Action::Nothing),
        Event::WindowShown => (s, Action::Nothing),
        Event::RunFailed => if s.phase == Phase::SetupPending || s.phase == Phase::Running {
            (LifecycleView { phase: Phase::Terminated, ..s }, Action::Abort)
        } else {
            (s, Action::Nothing)
        },
        Event::Closed => if s.phase == Phase::Running {
            (LifecycleView { phase: Phase::Terminated, ..s }, Action::Nothing)
        } else {
            (s, Action::Nothing)
        },
    }
}

/// The state reached from `s` by the events in order.
pub open spec fn after(s: LifecycleView, events: Seq<Event>) -> LifecycleView
    decreases events.len(),
{
    if events.len() == 0 {
        s
    } else {
        after(next(s, events[0]).0, events.drop_first())
    }
}

/// The states that some run can reach: the script has been injected at most
/// once, and not before the setup hook.
pub open spec fn reachable(s: LifecycleView) -> bool {
    &&& s.injections <= 1
    &&& (s.phase == Phase::NotStarted || s.phase == Phase::SetupPending) ==> s.injections == 0
}

/// Every transition keeps a reachable state reachable.
pub proof fn lemma_next_reachable(s: LifecycleView, e: Event)
    requires
        reachable(s),
    ensures
        reachable(next(s, e).0),
{
}

/// Every run that starts from a reachable state stays in reachable states.
pub proof fn lemma_after_reachable(s: LifecycleView, events: Seq<Event>)
    requires
        reachable(s),
    ensures
        reachable(after(s, events)),
    decreases events.len(),
{
    if events.len() > 0 {
        lemma_next_reachable(s, events[0]);
        lemma_after_reachable(next(s, events[0]).0, events.drop_first());
    }
}

/// Once the script has been injected, no later event injects it again.
pub proof fn lemma_injections_stay(s: LifecycleView, events: Seq<Event>)
    requires
        reachable(s),
        s.injections == 1,
    ensures
        after(s, events).injections == 1,
    decreases events.len(),
{
    if events.len() > 0 {
        lemma_next_reachable(s, events[0]);
        lemma_injections_stay(next(s, events[0]).0, events.drop_first());
    }
}

/// In one start of the application the script is injected at most once,
/// whatever the host reports, windows shown again included.
pub proof fn lemma_inject_at_most_once(events: Seq<Event>)
    ensures
        after(initial(), events).injections <= 1,
{
    lemma_after_reachable(initial(), events);
}

/// When the setup hook finds the main window, the script is injected exactly
/// once in that start, whatever the host reports afterwards.
pub proof fn lemma_inject_once_with_window(events: Seq<Event>)
    ensures
        after(initial(), seq![Event::Launch, Event::Setup { window_found: true }] + events).injections
            == 1,
{
    let start = seq![Event::Launch, Event::Setup { window_found: true }];
    let s1 = next(initial(), Event::Launch).0;
    let s2 = next(s1, Event::Setup { window_found: true }).0;
    let rest = seq![Event::Setup { window_found: true }] + events;
    assert((start + events)[0] == Event::Launch);
    assert((start + events).drop_first() =~= rest);
    assert(rest[0] == (Event::Setup { window_found: true }));
    assert(rest.drop_first() =~= events);
    assert(after(initial(), start + events) == after(s1, rest));
    assert(after(s1, rest) == after(s2, events));
    lemma_injections_stay(s2, events);
}

/// The setup hook never keeps the run loop from starting: with or without the
/// main window, and whether or not the script evaluates, the application runs.
pub proof fn lemma_setup_failure_still_runs(window_found: bool, ok: bool)
    ensures
        after(
            initial(),
            seq![Event::Launch, Event::Setup { window_found }, Event::ScriptEvaluated { ok }],
        ).phase == Phase::Running,
{
    let evs = seq![Event::Launch, Event::Setup { window_found }, Event::ScriptEvaluated { ok }];
    let s1 = next(initial(), Event::Launch).0;
    let s2 = next(s1, Event::Setup { window_found }).0;
    let e1 = evs.drop_first();
    let e2 = e1.drop_first();
    assert(e1 =~= seq![Event::Setup { window_found }, Event::ScriptEvaluated { ok }]);
    assert(e2 =~= seq![Event::ScriptEvaluated { ok }]);
    assert(e2.drop_first() =~= Seq::<Event>::empty());
    assert(after(s2, e2) == after(s2, e2.drop_first()));
    assert(after(s1, e1) == after(s2, e2));
    assert(after(initial(), evs) == after(s1, e1));
}

/// The application's lifecycle, fed with the host's events.
pub struct Lifecycle {
    phase: Phase,
    injections: u8,
}

impl View for Lifecycle {
    type V = LifecycleView;

    closed spec fn view(&self) -> LifecycleView {
        LifecycleView { phase: self.phase, injections: self.injections as nat }
    }
}

impl Lifecycle {
    /// Every lifecycle value holds a reachable state.
    pub open spec fn wf(&self) -> bool {
        reachable(self@)
    }

    /// A lifecycle that has not started.
    pub fn new() -> (r: Lifecycle)
        ensures
            r.wf(),
            r@ == initial(),
    {
        Lifecycle { phase: Phase::NotStarted, injections: 0 }
    }

    /// The current phase.
    pub fn phase(&self) -> (r: Phase)
        ensures
            r == self@.phase,
    {
        self.phase
    }

    /// How many times the script has been injected.
    pub fn injections(&self) -> (r: u8)
        ensures
            r as nat == self@.injections,
    {
        self.injections
    }

    /// Takes one event and returns the action for the host.
    pub fn step(&mut self, e: Event) -> (a: Action)
        requires
            old(self).wf(),
        ensures
            final(self).wf(),
            (final(self)@, a) == next(old(self)@, e),
    {
        match e {
            Event::Launch => {
                if self.phase == Phase::NotStarted {
                    self.phase = Phase::SetupPending;
                }
                Action::Nothing
            },
            Event::Setup { window_found } => {
                if self.phase == Phase::SetupPending {
                    self.phase = Phase::Running;
                    if window_found {
                        self.injections = self.injections + 1;
                        Action::InjectScript
                    } else {
                        Action::Nothing
                    }
                } else {
                    Action::Nothing
                }
            },
            Event::ScriptEvaluated { .. } => Action::Nothing,
            Event::WindowShown => Action::Nothing,
            Event::RunFailed => {
                if self.phase == Phase::SetupPending || self.phase == Phase::Running {
                    self.phase = Phase::Terminated;
                    Action::Abort
                } else {
                    Action::Nothing
                }
            },
            Event::Closed => {
                if self.phase == Phase::Running {
                    self.phase = Phase::Terminated;
                }
                Action::Nothing
            },
        }
    }
}

} // verus!
