use vstd::prelude::*;
use crate::record::{TunnelState, TunnelStateView, record_view};
use crate::units::{decimal, decimal_text};

verus! {

/// How long the launcher waits for a new daemon to publish its record.
pub const HANDSHAKE_TIMEOUT_MS: u64 = 30_000;

/// How long the launcher sleeps between two reads of the state file.
pub const POLL_INTERVAL_MS: u64 = 500;

/// What the launcher finds in the state file when asked for a job on a port.
#[derive(PartialEq, Eq, Structural, Clone, Copy, Debug)]
pub enum RecordStatus {
    /// There is no record.
    NoRecord,
    /// There is a record, and its daemon is not running.
    StaleRecord,
    /// A running daemon serves the requested port.
    LiveRecordSamePort,
    /// A running daemon serves another port.
    LiveRecordOtherPort,
}

/// One step of the launcher's work for a share request, in order.
#[derive(PartialEq, Eq, Structural, Clone, Copy, Debug)]
pub enum LaunchStep {
    /// Remove the state file.
    DeleteRecord,
    /// Start a detached daemon for the resource.
    SpawnDaemon,
    /// Poll the state file until the daemon publishes its record.
    AwaitRecord,
    /// Hand over to the status view.
    Present,
}

/// What the launcher does after one read of the state file while it waits
/// for a new daemon.
#[derive(PartialEq, Eq, Structural, Clone, Copy, Debug)]
pub enum HandshakeAction {
    /// The record is there: go on.
    Ready,
    /// Sleep this many milliseconds and read again.
    Wait { millis: u64 },
    /// The time is up and there is still no record: the job failed.
    TimedOut,
}

/// What the kill command does.
#[derive(PartialEq, Eq, Structural, Clone, Copy, Debug)]
pub enum KillAction {
    /// There is no record: report that there is no tunnel.
    NothingToKill,
    /// The recorded daemon is gone: report it and remove the record.
    DeleteStale,
    /// Kill the process group of `pid`, then remove the record whether or
    /// not the signal was delivered.
    KillGroupAndDelete { pid: u32 },
}

/// What the status command reports.
#[derive(PartialEq, Eq, Structural, Clone, Copy, Debug)]
pub enum StatusReport {
    /// There is no record.
    NoState,
    /// The recorded daemon runs.
    Alive,
    /// The recorded daemon is gone; the record is removed.
    Dead,
}

/// The status of the record `existing`, whose daemon runs where `alive`
/// holds, for a request on `port`.
pub open spec fn status_of(existing: Option<TunnelStateView>, alive: bool, port: u16) -> RecordStatus {
    match existing {
        None => RecordStatus::NoRecord,
        Some(r) => if !alive {
            RecordStatus::StaleRecord
        } else if r.port == port {
            RecordStatus::LiveRecordSamePort
        } else {
            RecordStatus::LiveRecordOtherPort
        },
    }
}

/// The launcher's steps for a record of status `s`: a live record on the
/// requested port is reused; otherwise a new daemon is spawned, after the
/// old record is removed where there is one.
pub open spec fn launch_steps(s: RecordStatus) -> Seq<LaunchStep> {
    match s {
        RecordStatus::LiveRecordSamePort => seq![LaunchStep::Present],
        RecordStatus::NoRecord => seq![
            LaunchStep::SpawnDaemon,
            LaunchStep::AwaitRecord,
            LaunchStep::Present,
        ],
        _ => seq![
            LaunchStep::DeleteRecord,
            LaunchStep::SpawnDaemon,
            LaunchStep::AwaitRecord,
            LaunchStep::Present,
        ],
    }
}

/// The handshake's next action after `elapsed_ms` milliseconds of waiting,
/// where a read of the state file found a record (`present`) or not.
pub open spec fn handshake_action(elapsed_ms: u64, present: bool) -> HandshakeAction {
    if present {
        HandshakeAction::Ready
    } else if elapsed_ms < HANDSHAKE_TIMEOUT_MS {
        HandshakeAction::Wait { millis: POLL_INTERVAL_MS }
    } else {
        HandshakeAction::TimedOut
    }
}

/// The kill command's action on the record `existing`.
pub open spec fn kill_action(existing: Option<TunnelStateView>, alive: bool) -> KillAction {
    match existing {
        None => KillAction::NothingToKill,
        Some(r) => if alive {
            KillAction::KillGroupAndDelete { pid: r.pid }
        } else {
            KillAction::DeleteStale
        },
    }
}

/// What the state file holds after the kill action `a` on `existing`.
pub open spec fn store_after_kill(existing: Option<TunnelStateView>, a: KillAction) -> Option<
    TunnelStateView,
> {
    match a {
        KillAction::NothingToKill => existing,
        _ => None,
    }
}

/// The status command's report on the record `existing`.
pub open spec fn status_report(existing: Option<TunnelStateView>, alive: bool) -> StatusReport {
    match existing {
        None => StatusReport::NoState,
        Some(_) => if alive {
            StatusReport::Alive
        } else {
            StatusReport::Dead
        },
    }
}

/// What the state file holds after the status command reported `report`
/// on `existing`: a dead record is removed.
pub open spec fn store_after_status(existing: Option<TunnelStateView>, report: StatusReport) -> Option<
    TunnelStateView,
> {
    if report == StatusReport::Dead {
        None
    } else {
        existing
    }
}

/// Classifies the record `existing`, whose daemon runs where `alive`
/// holds, for a request on `port`.
pub fn classify_record(existing: &Option<TunnelState>, alive: bool, port: u16) -> (r: RecordStatus)
    ensures
        r == status_of(record_view(*existing), alive, port),
{
    match existing {
        None => RecordStatus::NoRecord,
        Some(rec) => if !alive {
            RecordStatus::StaleRecord
        } else if rec.port == port {
            RecordStatus::LiveRecordSamePort
        } else {
            RecordStatus::LiveRecordOtherPort
        },
    }
}

/// The launcher's steps for a request to share on `port`, given the
/// record `existing` and whether its daemon runs.
pub fn plan_launch(existing: &Option<TunnelState>, alive: bool, port: u16) -> (r: Vec<LaunchStep>)
    ensures
        r@ == launch_steps(status_of(record_view(*existing), alive, port)),
{
    let status = classify_record(existing, alive, port);
    let mut steps: Vec<LaunchStep> = Vec::new();
    match status {
        RecordStatus::LiveRecordSamePort => {
            steps.push(LaunchStep::Present);
        },
        RecordStatus::NoRecord => {
            steps.push(LaunchStep::SpawnDaemon);
            steps.push(LaunchStep::AwaitRecord);
            steps.push(LaunchStep::Present);
        },
        _ => {
            steps.push(LaunchStep::DeleteRecord);
            steps.push(LaunchStep::SpawnDaemon);
            steps.push(LaunchStep::AwaitRecord);
            steps.push(LaunchStep::Present);
        },
    }
    assert(steps@ =~= launch_steps(status));
    steps
}

/// The handshake's next action after `elapsed_ms` milliseconds, where the
/// last read of the state file found a record (`present`) or not.
pub fn handshake_step(elapsed_ms: u64, present: bool) -> (r: HandshakeAction)
    ensures
        r == handshake_action(elapsed_ms, present),
{
    if present {
        HandshakeAction::Ready
    } else if elapsed_ms < HANDSHAKE_TIMEOUT_MS {
        HandshakeAction::Wait { millis: POLL_INTERVAL_MS }
    } else {
        HandshakeAction::TimedOut
    }
}

/// The kill command's action on the record `existing`, whose daemon runs
/// where `alive` holds.
pub fn plan_kill(existing: &Option<TunnelState>, alive: bool) -> (r: KillAction)
    ensures
        r == kill_action(record_view(*existing), alive),
{
    match existing {
        None => KillAction::NothingToKill,
        Some(rec) => if alive {
            KillAction::KillGroupAndDelete { pid: rec.pid }
        } else {
            KillAction::DeleteStale
        },
    }
}

/// The status command's report on the record `existing`, whose daemon runs
/// where `alive` holds.
pub fn plan_status(existing: &Option<TunnelState>, alive: bool) -> (r: StatusReport)
    ensures
        r == status_report(record_view(*existing), alive),
{
    match existing {
        None => StatusReport::NoState,
        Some(_) => if alive {
            StatusReport::Alive
        } else {
            StatusReport::Dead
        },
    }
}

/// The arguments of `kill` that probe whether the process `pid` exists:
/// `-0 <pid>`, a signal that is checked and not delivered.
pub fn liveness_probe_args(pid: u32) -> (r: Vec<String>)
    ensures
        r@.len() == 2,
        r@[0]@ == "-0"@,
        r@[1]@ == decimal_text(pid as nat),
{
    let mut args: Vec<String> = Vec::new();
    args.push(String::from_str("-0"));
    args.push(decimal(pid as u128));
    args
}

/// The arguments of `kill` that end the whole process group led by `pid`,
/// the daemon and the tunnel client it started: `-9 -<pid>`.
pub fn group_kill_args(pid: u32) -> (r: Vec<String>)
    ensures
        r@.len() == 2,
        r@[0]@ == "-9"@,
        r@[1]@ == seq!['-'] + decimal_text(pid as nat),
{
    proof {
        reveal_strlit("-");
    }
    let mut group = String::from_str("-");
    group.append(decimal(pid as u128).as_str());
    let mut args: Vec<String> = Vec::new();
    args.push(String::from_str("-9"));
    args.push(group);
    args
}

/// A live record on the requested port is reused: the launcher goes
/// straight to the status view and spawns no daemon.
pub proof fn lemma_live_record_is_reused(existing: TunnelStateView, port: u16)
    requires
        existing.port == port,
    ensures
        launch_steps(status_of(Some(existing), true, port)) == seq![LaunchStep::Present],
        !launch_steps(status_of(Some(existing), true, port)).contains(LaunchStep::SpawnDaemon),
{
    let steps = launch_steps(status_of(Some(existing), true, port));
    assert(steps[0] == LaunchStep::Present);
}

/// A record whose daemon is gone is removed before a new daemon is
/// spawned, whatever port it names.
pub proof fn lemma_stale_record_removed_before_spawn(existing: TunnelStateView, port: u16)
    ensures
        ({
            let steps = launch_steps(status_of(Some(existing), false, port));
            &&& steps[0] == LaunchStep::DeleteRecord
            &&& steps[1] == LaunchStep::SpawnDaemon
            &&& forall|i: int| 0 <= i < steps.len() && steps[i] == LaunchStep::SpawnDaemon ==> i > 0
        }),
{
}

/// A record on another port is replaced by a new job, as a stale one is.
pub proof fn lemma_other_port_is_replaced(existing: TunnelStateView, port: u16)
    requires
        existing.port != port,
    ensures
        launch_steps(status_of(Some(existing), true, port)) == launch_steps(
            RecordStatus::StaleRecord,
        ),
{
}

/// Killing is idempotent: after a kill the state file holds no record, and
/// a second kill finds nothing to kill and leaves it empty; neither can
/// fail.
pub proof fn lemma_kill_twice(existing: Option<TunnelStateView>, alive_first: bool, alive_second: bool)
    ensures
        ({
            let first = kill_action(existing, alive_first);
            let after_first = store_after_kill(existing, first);
            let second = kill_action(after_first, alive_second);
            &&& after_first is None
            &&& second == KillAction::NothingToKill
            &&& store_after_kill(after_first, second) is None
        }),
{
}

/// The handshake waits only while time is left, and ends as soon as the
/// record is read.
pub proof fn lemma_handshake_bounded(elapsed_ms: u64, present: bool)
    ensures
        handshake_action(elapsed_ms, present) is Wait ==> elapsed_ms < HANDSHAKE_TIMEOUT_MS && !present,
        present ==> handshake_action(elapsed_ms, present) == HandshakeAction::Ready,
        elapsed_ms >= HANDSHAKE_TIMEOUT_MS && !present ==> handshake_action(elapsed_ms, present)
            == HandshakeAction::TimedOut,
{
}

} // verus!
