use vstd::prelude::*;
use crate::desired::DesiredState;
use crate::drift::{drifted, has_drifted};
use crate::error::ReconcileError;
use crate::render::{rendered_text, RenderedConfig};

verus! {

/// Where the reconciliation loop stands.
#[derive(Clone, Debug, PartialEq, Eq)]
pub enum Phase {
    /// Waiting for the remote configuration that seeds the cache.
    Bootstrapping,
    /// Waiting for the next tick.
    Idle,
    /// Waiting for the desired state to be observed and rendered.
    Rendering,
    /// Waiting for the candidate to be written to the remote host.
    Writing(RenderedConfig),
    /// The candidate is written; waiting for the proxy to reload it.
    Reloading(RenderedConfig),
    /// Bootstrap failed; the process must stop.
    Failed(ReconcileError),
}

/// What the outside world reports back to the loop.
#[derive(Debug, PartialEq, Eq)]
pub enum Event {
    /// The remote configuration file was read, or could not be.
    RemoteFetched(Result<RenderedConfig, ReconcileError>),
    /// The interval elapsed.
    Tick,
    /// The desired state was observed and rendered, or that failed.
    Rendered(Result<RenderedConfig, ReconcileError>),
    /// The remote file write finished.
    Written(Result<(), ReconcileError>),
    /// The reload command finished.
    Reloaded(Result<(), ReconcileError>),
}

/// What a tick came to, for the log.
#[derive(Clone, Copy, Debug, PartialEq, Eq)]
pub enum Note {
    /// The cache was seeded from the remote host.
    Bootstrapped,
    /// The candidate equals what was last applied; nothing was sent.
    NoDrift,
    /// The candidate was written and the proxy reloaded it.
    Applied,
    /// Observing or rendering failed; the tick was skipped.
    RenderFailed(ReconcileError),
    /// Connecting or writing failed; nothing was reloaded.
    WriteFailed(ReconcileError),
    /// The file was written but the reload failed: the remote file and the
    /// cache disagree until a later apply.
    ReloadUnconfirmed(ReconcileError),
}

/// What the loop asks the outside world to do next.
#[derive(Clone, Debug, PartialEq, Eq)]
pub enum Action {
    /// Read the remote configuration file.
    FetchRemote,
    /// Log the note, then wait for the next tick.
    Wait(Note),
    /// Observe the desired state and render it.
    ObserveAndRender,
    /// Open a fresh session and write this configuration to the remote file.
    Write(RenderedConfig),
    /// Run the reload command on the remote host.
    Reload,
    /// Stop the process with this error.
    Exit(ReconcileError),
    /// The event did not fit the phase; nothing to do.
    Nothing,
}

/// The loop's whole state: its phase and the configuration last known to be
/// active on the remote host.
#[derive(Clone, Debug, PartialEq, Eq)]
pub struct Reconciler {
    pub phase: Phase,
    pub last_applied: Option<RenderedConfig>,
}

/// The state before bootstrap.
pub open spec fn initial() -> Reconciler {
    Reconciler { phase: Phase::Bootstrapping, last_applied: None }
}

/// The cache is empty before bootstrap (and after a failed one), and holds a
/// configuration in every phase after it.
pub open spec fn wf(s: Reconciler) -> bool {
    match s.phase {
        Phase::Bootstrapping => s.last_applied is None,
        Phase::Failed(_) => s.last_applied is None,
        _ => s.last_applied is Some,
    }
}

/// The same state in another phase.
pub open spec fn in_phase(s: Reconciler, p: Phase) -> Reconciler {
    Reconciler { phase: p, last_applied: s.last_applied }
}

/// One transition of the loop: the next state and the action it asks for.
pub open spec fn next(s: Reconciler, e: Event) -> (Reconciler, Action) {
    match s.phase {
        Phase::Bootstrapping => match e {
            Event::RemoteFetched(Ok(c)) => (
                Reconciler { phase: Phase::Idle, last_applied: Some(c) },
                Action::Wait(Note::Bootstrapped),
            ),
            Event::RemoteFetched(Err(err)) => (in_phase(s, Phase::Failed(err)), Action::Exit(err)),
            _ => (s, Action::Nothing),
        },
        Phase::Idle => match e {
            Event::Tick => (in_phase(s, Phase::Rendering), Action::ObserveAndRender),
            _ => (s, Action::Nothing),
        },
        Phase::Rendering => match e {
            Event::Rendered(Ok(c)) => if drifted(s.last_applied, c) {
                (in_phase(s, Phase::Writing(c)), Action::Write(c))
            } else {
                (in_phase(s, Phase::Idle), Action::Wait(Note::NoDrift))
            },
            Event::Rendered(Err(err)) => (
                in_phase(s, Phase::Idle),
                Action::Wait(Note::RenderFailed(err)),
            ),
            _ => (s, Action::Nothing),
        },
        Phase::Writing(c) => match e {
            Event::Written(Ok(_)) => (in_phase(s, Phase::Reloading(c)), Action::Reload),
            Event::Written(Err(err)) => (
                in_phase(s, Phase::Idle),
                Action::Wait(Note::WriteFailed(err)),
            ),
            _ => (s, Action::Nothing),
        },
        Phase::Reloading(c) => match e {
            Event::Reloaded(Ok(_)) => (
                Reconciler { phase: Phase::Idle, last_applied: Some(c) },
                Action::Wait(Note::Applied),
            ),
            Event::Reloaded(Err(err)) => (
                in_phase(s, Phase::Idle),
                Action::Wait(Note::ReloadUnconfirmed(err)),
            ),
            _ => (s, Action::Nothing),
        },
        Phase::Failed(err) => (s, Action::Exit(err)),
    }
}

impl Reconciler {
    /// The state before bootstrap, and its first action: read the remote file.
    pub fn start() -> (r: (Reconciler, Action))
        ensures
            r == (initial(), Action::FetchRemote),
            wf(r.0),
    {
        (Reconciler { phase: Phase::Bootstrapping, last_applied: None }, Action::FetchRemote)
    }

    /// Takes the state and what happened, and returns the next state with the
    /// action to perform.
    pub fn step(self, event: Event) -> (r: (Reconciler, Action))
        ensures
            r == next(self, event),
            wf(self) ==> wf(r.0),
    {
        let Reconciler { phase, last_applied } = self;
        match phase {
            Phase::Bootstrapping => match event {
                Event::RemoteFetched(Ok(c)) => (
                    Reconciler { phase: Phase::Idle, last_applied: Some(c) },
                    Action::Wait(Note::Bootstrapped),
                ),
                Event::RemoteFetched(Err(err)) => (
                    Reconciler { phase: Phase::Failed(err), last_applied },
                    Action::Exit(err),
                ),
                _ => (Reconciler { phase: Phase::Bootstrapping, last_applied }, Action::Nothing),
            },
            Phase::Idle => match event {
                Event::Tick => (
                    Reconciler { phase: Phase::Rendering, last_applied },
                    Action::ObserveAndRender,
                ),
                _ => (Reconciler { phase: Phase::Idle, last_applied }, Action::Nothing),
            },
            Phase::Rendering => match event {
                Event::Rendered(Ok(c)) => {
                    if has_drifted(&last_applied, &c) {
                        let out = c.clone();
                        (Reconciler { phase: Phase::Writing(c), last_applied }, Action::Write(out))
                    } else {
                        (
                            Reconciler { phase: Phase::Idle, last_applied },
                            Action::Wait(Note::NoDrift),
                        )
                    }
                },
                Event::Rendered(Err(err)) => (
                    Reconciler { phase: Phase::Idle, last_applied },
                    Action::Wait(Note::RenderFailed(err)),
                ),
                _ => (Reconciler { phase: Phase::Rendering, last_applied }, Action::Nothing),
            },
            Phase::Writing(c) => match event {
                Event::Written(Ok(_)) => (
                    Reconciler { phase: Phase::Reloading(c), last_applied },
                    Action::Reload,
                ),
                Event::Written(Err(err)) => (
                    Reconciler { phase: Phase::Idle, last_applied },
                    Action::Wait(Note::WriteFailed(err)),
                ),
                _ => (Reconciler { phase: Phase::Writing(c), last_applied }, Action::Nothing),
            },
            Phase::Reloading(c) => match event {
                Event::Reloaded(Ok(_)) => (
                    Reconciler { phase: Phase::Idle, last_applied: Some(c) },
                    Action::Wait(Note::Applied),
                ),
                Event::Reloaded(Err(err)) => (
                    Reconciler { phase: Phase::Idle, last_applied },
                    Action::Wait(Note::ReloadUnconfirmed(err)),
                ),
                _ => (Reconciler { phase: Phase::Reloading(c), last_applied }, Action::Nothing),
            },
            Phase::Failed(err) => (Reconciler { phase: Phase::Failed(err), last_applied }, Action::Exit(err)),
        }
    }

    /// The configuration last known to be active on the remote host.
    pub fn last_applied(&self) -> (r: &Option<RenderedConfig>)
        ensures
            *r == self.last_applied,
    {
        &self.last_applied
    }
}

} // verus!
