use vstd::prelude::*;

verus! {

/// The phases of a daemon's life.
#[derive(PartialEq, Eq, Structural, Clone, Copy, Debug)]
pub enum DaemonPhase {
    /// Detached; the local server is not bound yet.
    Spawning,
    /// The local server listens and the tunnel client is being started.
    Serving,
    /// The public address is known and the record is written.
    UrlKnown,
    /// The job failed without an observer: the daemon exits.
    Failed,
    /// The tunnel client exited: the daemon exits.
    Exited,
}

/// What the daemon's two tasks report.
#[derive(PartialEq, Eq, Structural, Clone, Copy, Debug)]
pub enum DaemonEvent {
    /// The local server is bound to its port.
    ServerBound,
    /// The local server could not be bound.
    BindFailed,
    /// The tunnel client could not be started.
    ClientSpawnFailed,
    /// The broker wrote the job's record.
    RecordWritten,
    /// The tunnel client exited.
    ClientExited,
}

/// The phase that follows `p` on the event `e`; an event that does not
/// apply to a phase leaves it as it is.
pub open spec fn phase_after(p: DaemonPhase, e: DaemonEvent) -> DaemonPhase {
    match (p, e) {
        (DaemonPhase::Spawning, DaemonEvent::ServerBound) => DaemonPhase::Serving,
        (DaemonPhase::Spawning, DaemonEvent::BindFailed) => DaemonPhase::Failed,
        (DaemonPhase::Serving, DaemonEvent::ClientSpawnFailed) => DaemonPhase::Failed,
        (DaemonPhase::Serving, DaemonEvent::RecordWritten) => DaemonPhase::UrlKnown,
        (DaemonPhase::Serving, DaemonEvent::ClientExited) => DaemonPhase::Exited,
        (DaemonPhase::UrlKnown, DaemonEvent::ClientExited) => DaemonPhase::Exited,
        _ => p,
    }
}

/// The phase after the events `events`, in order, starting from `p`.
pub open spec fn phase_after_all(p: DaemonPhase, events: Seq<DaemonEvent>) -> DaemonPhase
    decreases events.len(),
{
    if events.len() == 0 {
        p
    } else {
        phase_after_all(phase_after(p, events[0]), events.drop_first())
    }
}

/// The daemon process ends in phase `p`.
pub open spec fn is_final(p: DaemonPhase) -> bool {
    p == DaemonPhase::Failed || p == DaemonPhase::Exited
}

/// The daemon's phase after the event `event`.
pub fn next_phase(phase: DaemonPhase, event: DaemonEvent) -> (r: DaemonPhase)
    ensures
        r == phase_after(phase, event),
{
    match (phase, event) {
        (DaemonPhase::Spawning, DaemonEvent::ServerBound) => DaemonPhase::Serving,
        (DaemonPhase::Spawning, DaemonEvent::BindFailed) => DaemonPhase::Failed,
        (DaemonPhase::Serving, DaemonEvent::ClientSpawnFailed) => DaemonPhase::Failed,
        (DaemonPhase::Serving, DaemonEvent::RecordWritten) => DaemonPhase::UrlKnown,
        (DaemonPhase::Serving, DaemonEvent::ClientExited) => DaemonPhase::Exited,
        (DaemonPhase::UrlKnown, DaemonEvent::ClientExited) => DaemonPhase::Exited,
        _ => phase,
    }
}

/// Whether the daemon process ends in `phase`.
pub fn should_exit(phase: DaemonPhase) -> (r: bool)
    ensures
        r == is_final(phase),
{
    phase == DaemonPhase::Failed || phase == DaemonPhase::Exited
}

/// A daemon that ended stays ended, whatever its tasks report after.
pub proof fn lemma_final_phase_is_kept(p: DaemonPhase, events: Seq<DaemonEvent>)
    requires
        is_final(p),
    ensures
        phase_after_all(p, events) == p,
    decreases events.len(),
{
    if events.len() > 0 {
        lemma_final_phase_is_kept(phase_after(p, events[0]), events.drop_first());
    }
}

/// The public address becomes known only on a bound server: a daemon whose
/// server never bound never reaches `UrlKnown`.
pub proof fn lemma_url_needs_bound_server(events: Seq<DaemonEvent>)
    requires
        !events.contains(DaemonEvent::ServerBound),
    ensures
        phase_after_all(DaemonPhase::Spawning, events) != DaemonPhase::UrlKnown,
    decreases events.len(),
{
    if events.len() > 0 {
        let rest = events.drop_first();
        assert forall|i: int| 0 <= i < rest.len() implies rest[i] != DaemonEvent::ServerBound by {
            assert(rest[i] == events[i + 1]);
        }
        if events[0] == DaemonEvent::ServerBound {
            assert(events.contains(DaemonEvent::ServerBound));
        }
        let next = phase_after(DaemonPhase::Spawning, events[0]);
        if next == DaemonPhase::Spawning {
            lemma_url_needs_bound_server(rest);
        } else {
            lemma_final_phase_is_kept(next, rest);
        }
    }
}

} // verus!
