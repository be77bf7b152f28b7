use vstd::prelude::*;
use crate::desired::DesiredState;
use crate::drift::drifted;
use crate::error::ReconcileError;
use crate::reconcile::{initial, next, wf, Action, Event, Note, Phase, Reconciler};
use crate::render::{lemma_render_deterministic, rendered_text, RenderedConfig};

verus! {

/// Every transition keeps the state well formed.
pub proof fn lemma_next_preserves_wf(s: Reconciler, e: Event)
    requires
        wf(s),
    ensures
        wf(next(s, e).0),
{
}

/// The cache changes only on a bootstrap read or a confirmed apply: then it
/// holds exactly the configuration that was read, or written and reloaded.
pub proof fn lemma_cache_changes_only_on_confirmation(s: Reconciler, e: Event)
    ensures
        next(s, e).0.last_applied != s.last_applied ==> (
        (e matches Event::RemoteFetched(Ok(c)) && s.phase is Bootstrapping
            && next(s, e).0.last_applied == Some(c))
        || (s.phase matches Phase::Reloading(c) && e is Reloaded && e->Reloaded_0 is Ok
            && next(s, e).0.last_applied == Some(c))),
{
}

/// A write is asked for only for a rendered candidate that has drifted from
/// the cache, and it carries that candidate unchanged.
pub proof fn lemma_write_only_on_drift(s: Reconciler, e: Event)
    ensures
        next(s, e).1 matches Action::Write(c) ==> s.phase is Rendering
            && e == Event::Rendered(Ok(c)) && drifted(s.last_applied, c),
{
}

/// A reload is asked for only right after a successful write.
pub proof fn lemma_reload_only_after_write(s: Reconciler, e: Event)
    ensures
        next(s, e).1 is Reload ==> (e matches Event::Written(Ok(_)) && s.phase is Writing),
{
}

/// When the desired state has not changed since the configuration in the
/// cache was made from it, the next tick finds no drift, asks for no write
/// or reload, and leaves the state as it was.
pub proof fn lemma_no_op_stability(
    s: Reconciler,
    previous: DesiredState,
    current: DesiredState,
    candidate: RenderedConfig,
)
    requires
        s.phase is Idle,
        s.last_applied matches Some(l) && l@ == rendered_text(previous),
        previous.port_set() == current.port_set(),
        previous.address@ == current.address@,
        candidate@ == rendered_text(current),
    ensures
        !drifted(s.last_applied, candidate),
        next(s, Event::Tick).1 == Action::ObserveAndRender,
        next(next(s, Event::Tick).0, Event::Rendered(Ok(candidate))) == (
            s,
            Action::Wait(Note::NoDrift),
        ),
{
    lemma_render_deterministic(previous, current);
}

/// A retried apply writes the same content: after a write that failed, or a
/// write whose reload failed, the next tick with the same candidate asks to
/// write exactly that candidate again.
pub proof fn lemma_idempotent_apply(s: Reconciler, candidate: RenderedConfig, err: ReconcileError)
    requires
        s.phase is Rendering,
        drifted(s.last_applied, candidate),
    ensures
        ({
            let (s1, a1) = next(s, Event::Rendered(Ok(candidate)));
            let after_write_failure = next(s1, Event::Written(Err(err))).0;
            let (s2, _) = next(s1, Event::Written(Ok(())));
            let after_reload_failure = next(s2, Event::Reloaded(Err(err))).0;
            &&& a1 == Action::Write(candidate)
            &&& next(
                next(after_write_failure, Event::Tick).0,
                Event::Rendered(Ok(candidate)),
            ).1 == Action::Write(candidate)
            &&& next(
                next(after_reload_failure, Event::Tick).0,
                Event::Rendered(Ok(candidate)),
            ).1 == Action::Write(candidate)
        }),
{
}

/// The first comparison is against the configuration read from the remote
/// host: when the first candidate has the same text, nothing is written.
pub proof fn lemma_bootstrap_precedence(remote: RenderedConfig, candidate: RenderedConfig)
    requires
        remote@ == candidate@,
    ensures
        ({
            let (s1, a1) = next(initial(), Event::RemoteFetched(Ok(remote)));
            let (s2, a2) = next(s1, Event::Tick);
            let (s3, a3) = next(s2, Event::Rendered(Ok(candidate)));
            &&& s1.last_applied == Some(remote)
            &&& a1 == Action::Wait(Note::Bootstrapped)
            &&& a2 == Action::ObserveAndRender
            &&& a3 == Action::Wait(Note::NoDrift)
            &&& s3.last_applied == Some(remote)
        }),
{
}

/// A reload that fails after a successful write leaves the cache at exactly
/// its value before the apply, and is reported apart from other failures.
pub proof fn lemma_failure_isolation(s: Reconciler, candidate: RenderedConfig, err: ReconcileError)
    requires
        s.phase is Rendering,
        drifted(s.last_applied, candidate),
    ensures
        ({
            let (s1, _) = next(s, Event::Rendered(Ok(candidate)));
            let (s2, a2) = next(s1, Event::Written(Ok(())));
            let (s3, a3) = next(s2, Event::Reloaded(Err(err)));
            &&& a2 == Action::Reload
            &&& s3.last_applied == s.last_applied
            &&& s3.phase is Idle
            &&& a3 == Action::Wait(Note::ReloadUnconfirmed(err))
        }),
{
}

} // verus!
