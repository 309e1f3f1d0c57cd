//! The file watcher: which file system events call for a rebuild, and how a burst of them is
//! collapsed into one.

use std::time::Duration;
use vstd::prelude::*;

verus! {

/// What happened to a file, in the classes that the watcher tells apart.
#[derive(Clone, Copy, Debug, PartialEq, Eq, Structural)]
pub enum ChangeKind {
    Any,
    Access,
    Create,
    Modify,
    Remove,
    Other,
}

/// What the watcher hands over: an event, or word that it failed to get one.
#[derive(Clone, Copy, Debug, PartialEq, Eq, Structural)]
pub enum Notification {
    Event(ChangeKind),
    Failed,
}

/// A notification that calls for a rebuild: a file was created, modified or removed.
pub open spec fn is_change(notification: Notification) -> bool {
    match notification {
        Notification::Event(kind) => kind == ChangeKind::Create || kind == ChangeKind::Modify
            || kind == ChangeKind::Remove,
        Notification::Failed => false,
    }
}

impl Notification {
    /// Whether this notification calls for a rebuild.
    pub fn is_change(&self) -> (res: bool)
        ensures
            res == is_change(*self),
    {
        match self {
            Notification::Event(ChangeKind::Modify) => true,
            Notification::Event(ChangeKind::Create) => true,
            Notification::Event(ChangeKind::Remove) => true,
            _ => false,
        }
    }
}

/// The loop that turns change signals into rebuilds.
#[derive(Clone, Copy, Debug, PartialEq, Eq, Structural)]
pub enum Debounce {
    /// Waiting for the first signal, for as long as it takes.
    Idle,
    /// A signal has come; waiting for the next one, for at most the debounce window.
    Collecting,
    /// Rebuilding.
    Rebuilding,
    /// The source of signals is closed: the loop has ended.
    Stopped,
}

/// What is to be done before the loop goes on.
pub enum Wait {
    /// Wait for a signal, for as long as it takes.
    ForSignal,
    /// Wait for a signal, for at most this long.
    ForSignalWithin(Duration),
    /// Reload.
    Reload,
    /// Nothing: the loop has ended.
    Stop,
}

/// What wakes the loop.
#[derive(Clone, Copy, Debug, PartialEq, Eq, Structural)]
pub enum Wake {
    /// A change signal came.
    Signal,
    /// The debounce window passed without a signal.
    Quiet,
    /// There will be no more signals.
    Closed,
    /// The rebuild is over, whether it succeeded or not.
    Rebuilt,
}

impl Debounce {
    /// The events that can wake the loop in this state.
    pub open spec fn expects(self, wake: Wake) -> bool {
        match self {
            Debounce::Idle => wake == Wake::Signal || wake == Wake::Closed,
            Debounce::Collecting => wake == Wake::Signal || wake == Wake::Quiet || wake
                == Wake::Closed,
            Debounce::Rebuilding => wake == Wake::Rebuilt,
            Debounce::Stopped => false,
        }
    }

    /// The state after an event.
    pub open spec fn after(self, wake: Wake) -> Debounce {
        match (self, wake) {
            (Debounce::Idle, Wake::Signal) => Debounce::Collecting,
            (Debounce::Idle, _) => Debounce::Stopped,
            (Debounce::Collecting, Wake::Signal) => Debounce::Collecting,
            (Debounce::Collecting, _) => Debounce::Rebuilding,
            (Debounce::Rebuilding, _) => Debounce::Idle,
            (Debounce::Stopped, _) => Debounce::Stopped,
        }
    }

    /// What is to be done in this state, with the given debounce window.
    pub open spec fn wait_of(self, window: Duration) -> Wait {
        match self {
            Debounce::Idle => Wait::ForSignal,
            Debounce::Collecting => Wait::ForSignalWithin(window),
            Debounce::Rebuilding => Wait::Reload,
            Debounce::Stopped => Wait::Stop,
        }
    }

    /// The loop at its start.
    pub fn new() -> (res: Debounce)
        ensures
            res == Debounce::Idle,
    {
        Debounce::Idle
    }

    /// What is to be done before the loop goes on, with the given debounce window.
    pub fn wait(&self, window: Duration) -> (res: Wait)
        ensures
            res == self.wait_of(window),
    {
        match self {
            Debounce::Idle => Wait::ForSignal,
            Debounce::Collecting => Wait::ForSignalWithin(window),
            Debounce::Rebuilding => Wait::Reload,
            Debounce::Stopped => Wait::Stop,
        }
    }

    /// Takes the event that woke the loop.
    pub fn step(self, wake: Wake) -> (res: Debounce)
        ensures
            res == self.after(wake),
    {
        match self {
            Debounce::Idle => match wake {
                Wake::Signal => Debounce::Collecting,
                _ => Debounce::Stopped,
            },
            Debounce::Collecting => match wake {
                Wake::Signal => Debounce::Collecting,
                _ => Debounce::Rebuilding,
            },
            Debounce::Rebuilding => Debounce::Idle,
            Debounce::Stopped => Debounce::Stopped,
        }
    }
}

/// The events can come one after the other, starting in the given state.
pub open spec fn is_run(from: Debounce, wakes: Seq<Wake>) -> bool
    decreases wakes.len(),
{
    wakes.len() == 0 || (is_run(from, wakes.drop_last()) && end_of(from, wakes.drop_last()).expects(
        wakes.last(),
    ))
}

/// The state after the events.
pub open spec fn end_of(from: Debounce, wakes: Seq<Wake>) -> Debounce
    decreases wakes.len(),
{
    if wakes.len() == 0 {
        from
    } else {
        end_of(from, wakes.drop_last()).after(wakes.last())
    }
}

/// How many rebuilds the events start.
pub open spec fn rebuilds(from: Debounce, wakes: Seq<Wake>) -> nat
    decreases wakes.len(),
{
    if wakes.len() == 0 {
        0
    } else {
        rebuilds(from, wakes.drop_last()) + if end_of(from, wakes.drop_last())
            == Debounce::Collecting && end_of(from, wakes) == Debounce::Rebuilding {
            1nat
        } else {
            0
        }
    }
}

/// How many of the events are change signals.
pub open spec fn signals(wakes: Seq<Wake>) -> nat
    decreases wakes.len(),
{
    if wakes.len() == 0 {
        0
    } else {
        signals(wakes.drop_last()) + if wakes.last() == Wake::Signal {
            1nat
        } else {
            0
        }
    }
}

/// `n` signals in a row.
pub open spec fn burst(n: nat) -> Seq<Wake> {
    Seq::new(n, |i: int| Wake::Signal)
}

proof fn lemma_burst(n: nat)
    requires
        n > 0,
    ensures
        is_run(Debounce::Idle, burst(n)),
        end_of(Debounce::Idle, burst(n)) == Debounce::Collecting,
        rebuilds(Debounce::Idle, burst(n)) == 0,
    decreases n,
{
    assert(burst(n).drop_last() =~= burst((n - 1) as nat));
    if n > 1 {
        lemma_burst((n - 1) as nat);
    } else {
        reveal_with_fuel(is_run, 2);
        reveal_with_fuel(end_of, 2);
        reveal_with_fuel(rebuilds, 2);
    }
}

/// A burst of signals of any length, with a quiet window or the closing of the source behind it,
/// starts exactly one rebuild.
pub proof fn law_burst_is_one_rebuild(n: nat, last: Wake)
    requires
        n > 0,
        last == Wake::Quiet || last == Wake::Closed,
    ensures
        is_run(Debounce::Idle, burst(n).push(last)),
        end_of(Debounce::Idle, burst(n).push(last)) == Debounce::Rebuilding,
        rebuilds(Debounce::Idle, burst(n).push(last)) == 1,
{
    lemma_burst(n);
    assert(burst(n).push(last).drop_last() =~= burst(n));
}

/// No rebuild without a signal: in every run from the start there are at most as many rebuilds
/// as signals, and one fewer while a burst is being collected.
pub proof fn law_no_rebuild_without_signal(wakes: Seq<Wake>)
    requires
        is_run(Debounce::Idle, wakes),
    ensures
        rebuilds(Debounce::Idle, wakes) <= signals(wakes),
        end_of(Debounce::Idle, wakes) == Debounce::Collecting ==> rebuilds(Debounce::Idle, wakes)
            < signals(wakes),
    decreases wakes.len(),
{
    if wakes.len() > 0 {
        law_no_rebuild_without_signal(wakes.drop_last());
    }
}

/// No signal is lost: whenever one has come since the last rebuild began, the next quiet window,
/// or the closing of the source, starts a rebuild.
pub proof fn law_signal_leads_to_rebuild(wakes: Seq<Wake>, last: Wake)
    requires
        is_run(Debounce::Idle, wakes),
        wakes.len() > 0,
        wakes.last() == Wake::Signal,
        last == Wake::Quiet || last == Wake::Closed,
    ensures
        is_run(Debounce::Idle, wakes.push(last)),
        end_of(Debounce::Idle, wakes.push(last)) == Debounce::Rebuilding,
        rebuilds(Debounce::Idle, wakes.push(last)) == rebuilds(Debounce::Idle, wakes) + 1,
{
    assert(wakes.push(last).drop_last() =~= wakes);
}

/// The loop ends only when the source of signals closes while it is idle, and after that nothing
/// wakes it any more.
pub proof fn law_loop_ends_with_its_source(wakes: Seq<Wake>)
    requires
        is_run(Debounce::Idle, wakes),
        end_of(Debounce::Idle, wakes) == Debounce::Stopped,
    ensures
        wakes.len() > 0,
        wakes.last() == Wake::Closed,
        end_of(Debounce::Idle, wakes.drop_last()) == Debounce::Idle,
        forall|wake: Wake| !is_run(Debounce::Idle, #[trigger] wakes.push(wake)),
{
    assert forall|wake: Wake| !is_run(Debounce::Idle, #[trigger] wakes.push(wake)) by {
        assert(wakes.push(wake).drop_last() =~= wakes);
    }
}

/// What a state of the loop waits for. While a burst is being collected, that is a signal within
/// exactly the window that was given, whatever it is; otherwise the window plays no part.
pub proof fn law_wait_keeps_to_the_window(state: Debounce, window: Duration, res: Wait)
    requires
        call_ensures(Debounce::wait, (&state, window), res),
    ensures
        state is Collecting <==> res is ForSignalWithin,
        res matches Wait::ForSignalWithin(limit) ==> limit == window,
        state is Idle <==> res is ForSignal,
        state is Rebuilding <==> res is Reload,
        state is Stopped <==> res is Stop,
{
}

/// Two different windows give two different waits while a burst is being collected.
pub proof fn law_windows_are_told_apart(a: Duration, b: Duration, wait_a: Wait, wait_b: Wait)
    requires
        call_ensures(Debounce::wait, (&Debounce::Collecting, a), wait_a),
        call_ensures(Debounce::wait, (&Debounce::Collecting, b), wait_b),
    ensures
        wait_a == wait_b <==> a == b,
{
}

/// How the loop goes round. It takes a signal to leave the idle state for the burst; further
/// signals stay in the burst, and anything else ends it in a rebuild; behind a rebuild the loop
/// is idle again; and it stops when the source closes while it is idle.
pub proof fn law_loop_goes_round(state: Debounce, wake: Wake, next: Debounce)
    requires
        state.expects(wake),
        call_ensures(Debounce::step, (state, wake), next),
    ensures
        next is Collecting <==> wake is Signal,
        next is Rebuilding <==> state is Collecting && !(wake is Signal),
        next is Idle <==> wake is Rebuilt,
        next is Stopped <==> state is Idle && wake is Closed,
{
}

/// What can wake the loop: a signal or the closing of the source while it waits for signals, the
/// end of the window too while that is running, and the end of the rebuild while there is one.
pub proof fn law_what_wakes_the_loop(state: Debounce, wake: Wake)
    ensures
        state.expects(wake) <==> match wake {
            Wake::Signal => state is Idle || state is Collecting,
            Wake::Closed => state is Idle || state is Collecting,
            Wake::Quiet => state is Collecting,
            Wake::Rebuilt => state is Rebuilding,
        },
{
}

/// A notification calls for a rebuild exactly where it is an event in which a file was created,
/// modified or removed.
pub proof fn law_changes(notification: Notification, res: bool)
    requires
        call_ensures(Notification::is_change, (&notification,), res),
    ensures
        res <==> match notification {
            Notification::Event(kind) => kind is Create || kind is Modify || kind is Remove,
            Notification::Failed => false,
        },
{
}

} // verus!
