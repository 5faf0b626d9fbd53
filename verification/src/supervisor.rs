//! The supervisor state machine.
//!
//! One `AppState` value holds at most one live child-process handle. The
//! lifecycle commands (`status`, `start`, `stop`, `restart`) and the watchdog
//! all act on that slot. Everything the operating system decides — whether a
//! spawn succeeded, whether the child has exited, whether the backend's port
//! answers — enters these functions as a plain argument, so every decision
//! made here is verified for every possible outcome of the outside world.

use vstd::prelude::*;

use crate::db::Database;

verus! {

/// The supervisor's record of a live child process: the operating-system
/// process identifier. The caller that spawned the process keeps the real
/// handle and answers liveness queries; this value is the supervisor's
/// sole claim on it.
#[derive(Clone, Copy, PartialEq, Eq, Structural, Debug)]
pub struct ProcessHandle {
    pub pid: u32,
}

/// The single shared application state: the project database, the slot
/// holding at most one live backend process, whether the watchdog owes a
/// respawn for a crashed process (so a failed respawn is retried on the
/// next poll rather than abandoning the service), and the data directory
/// that the backend is told to use.
pub struct AppState {
    pub db: Database,
    pub agent_process: Option<ProcessHandle>,
    pub awaiting_respawn: bool,
    pub data_dir: String,
}

/// Health report derived from the state and a fresh port probe.
#[derive(Clone, Copy)]
pub struct AgentStatus {
    pub running: bool,
    pub ready: bool,
    pub pid: Option<u32>,
}

/// Outcome of a lifecycle command, one variant per user-visible message.
#[derive(Clone, Copy, PartialEq, Eq, Structural, Debug)]
pub enum LifecycleReply {
    Started,
    AlreadyRunning,
    SpawnFailed,
    Stopped,
    NotRunning,
    Restarted,
    RestartFailed,
}

pub open spec fn opt_pid(c: Option<ProcessHandle>) -> Option<u32> {
    match c {
        Some(h) => Some(h.pid),
        None => None,
    }
}

/// The state's process slot as the event model sees it: the held pid, and
/// whether the watchdog owes a respawn.
pub open spec fn slot_of(st: &AppState) -> (Option<u32>, bool) {
    (opt_pid(st.agent_process), st.awaiting_respawn)
}

/// Reports occupancy, readiness and pid without touching the state.
/// `probe_ok` is the result of the caller's bounded TCP probe of the
/// backend's port; readiness never holds without both a live handle and a
/// successful probe.
pub fn agent_status(st: &AppState, probe_ok: bool) -> (r: AgentStatus)
    ensures
        r.running == (st.agent_process is Some),
        r.ready == (st.agent_process is Some && probe_ok),
        r.pid == opt_pid(st.agent_process),
{
    match &st.agent_process {
        Some(h) => AgentStatus { running: true, ready: probe_ok, pid: Some(h.pid) },
        None => AgentStatus { running: false, ready: false, pid: None },
    }
}

/// The absolute path of the directory holding persisted state.
pub fn get_data_dir(st: &AppState) -> (r: String)
    ensures
        r@ == st.data_dir@,
{
    st.data_dir.clone()
}

/// First half of `start`: decides whether a spawn is due. Returns `true`
/// exactly when the slot is empty; when it returns `false` the caller must
/// not spawn, and the held handle is untouched.
pub fn start_agent_begin(st: &AppState) -> (must_spawn: bool)
    ensures
        must_spawn == (st.agent_process is None),
{
    st.agent_process.is_none()
}

/// Second half of `start`: records the outcome of the spawn the caller
/// performed. Only callable while the slot is empty, so a handle is never
/// overwritten.
pub fn start_agent_commit(st: &mut AppState, spawned: Option<ProcessHandle>) -> (r: LifecycleReply)
    requires
        old(st).agent_process is None,
    ensures
        final(st).agent_process == spawned,
        final(st).awaiting_respawn == false,
        final(st).data_dir == old(st).data_dir,
        final(st).db == old(st).db,
        r == (if spawned is Some {
            LifecycleReply::Started
        } else {
            LifecycleReply::SpawnFailed
        }),
        slot_of(final(st)) == slot_step(slot_of(old(st)), SlotEvent::StartCommit(opt_pid(spawned))),
{
    st.awaiting_respawn = false;
    match spawned {
        Some(h) => {
            st.agent_process = Some(h);
            LifecycleReply::Started
        }
        None => LifecycleReply::SpawnFailed,
    }
}

/// Empties the slot. The previously held handle, if any, is returned so the
/// caller can terminate its process tree; the supervisor never reuses it.
/// Stopping an already-stopped supervisor reports `NotRunning` and is not
/// an error.
pub fn stop_agent(st: &mut AppState) -> (r: (LifecycleReply, Option<ProcessHandle>))
    ensures
        final(st).agent_process is None,
        final(st).awaiting_respawn == false,
        final(st).data_dir == old(st).data_dir,
        final(st).db == old(st).db,
        r.1 == old(st).agent_process,
        r.0 == (if old(st).agent_process is Some {
            LifecycleReply::Stopped
        } else {
            LifecycleReply::NotRunning
        }),
        slot_of(final(st)) == slot_step(slot_of(old(st)), SlotEvent::Stop),
{
    st.awaiting_respawn = false;
    let taken = st.agent_process.take();
    match taken {
        Some(h) => (LifecycleReply::Stopped, Some(h)),
        None => (LifecycleReply::NotRunning, None),
    }
}

/// First half of `restart`: unconditionally empties the slot and hands the
/// old handle (if any) to the caller for termination. A respawn always
/// follows, committed with `restart_agent_commit`.
pub fn restart_agent_begin(st: &mut AppState) -> (to_kill: Option<ProcessHandle>)
    ensures
        final(st).agent_process is None,
        final(st).awaiting_respawn == false,
        final(st).data_dir == old(st).data_dir,
        final(st).db == old(st).db,
        to_kill == old(st).agent_process,
        slot_of(final(st)) == slot_step(slot_of(old(st)), SlotEvent::RestartBegin),
{
    st.awaiting_respawn = false;
    st.agent_process.take()
}

/// Second half of `restart`: records the outcome of the respawn.
pub fn restart_agent_commit(st: &mut AppState, spawned: Option<ProcessHandle>) -> (r:
    LifecycleReply)
    requires
        old(st).agent_process is None,
    ensures
        final(st).agent_process == spawned,
        final(st).awaiting_respawn == false,
        final(st).data_dir == old(st).data_dir,
        final(st).db == old(st).db,
        r == (if spawned is Some {
            LifecycleReply::Restarted
        } else {
            LifecycleReply::RestartFailed
        }),
        slot_of(final(st)) == slot_step(
            slot_of(old(st)),
            SlotEvent::RestartCommit(opt_pid(spawned)),
        ),
{
    st.awaiting_respawn = false;
    match spawned {
        Some(h) => {
            st.agent_process = Some(h);
            LifecycleReply::Restarted
        }
        None => LifecycleReply::RestartFailed,
    }
}

/// Whether one watchdog poll must order a respawn: a held process has
/// exited, or an earlier crash still awaits its recovery because the last
/// respawn failed.
pub open spec fn spec_watchdog_respawn(s: (Option<u32>, bool), exited: bool) -> bool {
    (s.0 is Some && exited) || (s.0 is None && s.1)
}

/// One watchdog poll. `exited` is the caller's non-blocking answer to "has
/// the held child exited?". Returns `true` exactly when a respawn is due:
/// either a crash was just detected — the dead handle is then cleared and
/// the state marked as awaiting recovery — or an earlier respawn failed
/// and recovery is still owed, so every later poll retries until a store
/// succeeds. A deliberately stopped service never awaits recovery, so it
/// is never resurrected.
pub fn watchdog_step(st: &mut AppState, exited: bool) -> (respawn: bool)
    ensures
        respawn == spec_watchdog_respawn(slot_of(old(st)), exited),
        final(st).agent_process == (if old(st).agent_process is Some && exited {
            None
        } else {
            old(st).agent_process
        }),
        final(st).awaiting_respawn == (old(st).awaiting_respawn || (old(st).agent_process is Some
            && exited)),
        final(st).data_dir == old(st).data_dir,
        final(st).db == old(st).db,
        slot_of(final(st)) == slot_step(slot_of(old(st)), SlotEvent::WatchdogPoll(exited)),
{
    if st.agent_process.is_some() && exited {
        st.agent_process = None;
        st.awaiting_respawn = true;
        true
    } else {
        st.agent_process.is_none() && st.awaiting_respawn
    }
}

/// Stores the handle the watchdog respawned, but only if the slot is still
/// empty: a handle started by a user command in the meantime is never
/// overwritten. Either way the recovery is over, so nothing more is owed.
/// Returns whether the handle was stored; when it was not, the caller owns
/// the surplus process and must terminate it. When the respawn itself
/// failed there is nothing to store, the state keeps awaiting recovery,
/// and the next poll retries.
pub fn watchdog_store(st: &mut AppState, h: ProcessHandle) -> (stored: bool)
    ensures
        stored == (old(st).agent_process is None),
        final(st).agent_process == (if stored {
            Some(h)
        } else {
            old(st).agent_process
        }),
        final(st).awaiting_respawn == false,
        final(st).data_dir == old(st).data_dir,
        final(st).db == old(st).db,
        slot_of(final(st)) == slot_step(slot_of(old(st)), SlotEvent::WatchdogStore(h.pid)),
{
    st.awaiting_respawn = false;
    if st.agent_process.is_none() {
        st.agent_process = Some(h);
        true
    } else {
        false
    }
}

/// One operation on the process slot, seen at the slot level: what a
/// lifecycle command or a watchdog cycle does to the held pid. Spawn
/// outcomes appear as the pid they delivered (`None` for a failed spawn).
pub enum SlotEvent {
    StartCommit(Option<u32>),
    Stop,
    RestartBegin,
    RestartCommit(Option<u32>),
    WatchdogPoll(bool),
    WatchdogStore(u32),
}

/// The slot after one event, as the pair (held pid, awaiting recovery).
/// Commits and the watchdog's store fill only an empty slot — the protocol
/// each exec operation's contract enforces — and every user command ends
/// any pending recovery, so a deliberately stopped service stays stopped.
/// A crash detected by the poll marks recovery owed, and the mark outlives
/// failed respawns (only a store clears it), which is the retry.
pub open spec fn slot_step(s: (Option<u32>, bool), ev: SlotEvent) -> (Option<u32>, bool) {
    match ev {
        SlotEvent::StartCommit(p) => if s.0 is None {
            (p, false)
        } else {
            s
        },
        SlotEvent::Stop => (None, false),
        SlotEvent::RestartBegin => (None, false),
        SlotEvent::RestartCommit(p) => if s.0 is None {
            (p, false)
        } else {
            s
        },
        SlotEvent::WatchdogPoll(exited) => if s.0 is Some && exited {
            (None, true)
        } else {
            s
        },
        SlotEvent::WatchdogStore(p) => if s.0 is None {
            (Some(p), false)
        } else {
            (s.0, false)
        },
    }
}

/// The slot after a whole sequence of events, applied in order.
pub open spec fn run_slot(init: (Option<u32>, bool), evs: Seq<SlotEvent>) -> (Option<u32>, bool)
    decreases evs.len(),
{
    if evs.len() == 0 {
        init
    } else {
        slot_step(run_slot(init, evs.drop_last()), evs.last())
    }
}

/// How many handles the slot holds.
pub open spec fn occupancy(slot: Option<u32>) -> nat {
    if slot is Some {
        1nat
    } else {
        0nat
    }
}

/// Whether `ev` is the storing of a handle with pid `p`.
pub open spec fn event_stores(ev: SlotEvent, p: u32) -> bool {
    ev == SlotEvent::StartCommit(Some(p)) || ev == SlotEvent::RestartCommit(Some(p)) || ev
        == SlotEvent::WatchdogStore(p)
}

/// At-most-one-handle: under every interleaving of start, stop, restart
/// and watchdog cycles, the supervisor holds at most one occupied handle
/// at any observation point, and any handle it holds was either there from
/// the start or stored by exactly the event kinds that may store one — a
/// handle never appears from nowhere, and a cleared handle is never
/// resurrected without a new store.
pub proof fn lemma_at_most_one_handle(init: (Option<u32>, bool), evs: Seq<SlotEvent>)
    ensures
        occupancy(run_slot(init, evs).0) <= 1,
        run_slot(init, evs).0 matches Some(p) ==> run_slot(init, evs).0 == init.0 || exists|
            i: int,
        |
            0 <= i < evs.len() && event_stores(#[trigger] evs[i], p),
    decreases evs.len(),
{
    if evs.len() > 0 {
        lemma_at_most_one_handle(init, evs.drop_last());
        let prev = run_slot(init, evs.drop_last());
        let cur = run_slot(init, evs);
        if cur.0 is Some {
            let p = cur.0->0;
            if prev.0 is Some && cur.0 == prev.0 {
                if prev.0 != init.0 {
                    let i = choose|i: int|
                        0 <= i < evs.drop_last().len() && event_stores(
                            #[trigger] evs.drop_last()[i],
                            p,
                        );
                    assert(evs[i] == evs.drop_last()[i]);
                    assert(event_stores(evs[i], p));
                }
            } else {
                assert(event_stores(evs[evs.len() - 1], p));
            }
        }
    }
}

/// Idempotent stop: stopping when nothing runs leaves the slot empty and
/// owing nothing — together with `stop_agent`'s own contract, which
/// reports the non-error `NotRunning` outcome in exactly that case.
pub proof fn lemma_idempotent_stop(awaiting: bool)
    ensures
        slot_step((None::<u32>, awaiting), SlotEvent::Stop) == (None::<u32>, false),
{
}

/// Start-when-running: committing a start against an occupied slot leaves
/// the held handle and pid untouched, whatever the spawn delivered.
pub proof fn lemma_start_when_running(pid: u32, outcome: Option<u32>)
    ensures
        slot_step((Some(pid), false), SlotEvent::StartCommit(outcome)) == (Some(pid), false),
{
}

/// Crash recovery at the slot level: when the watchdog's poll finds that
/// the held process exited, the slot is cleared and marked as awaiting
/// recovery, and a successful respawn stores the new pid — after which
/// `agent_status` (by its own contract) reports the service running under
/// exactly that pid.
pub proof fn lemma_crash_recovery(old_pid: u32, new_pid: u32)
    ensures
        slot_step((Some(old_pid), false), SlotEvent::WatchdogPoll(true)) == (None::<u32>, true),
        slot_step(
            slot_step((Some(old_pid), false), SlotEvent::WatchdogPoll(true)),
            SlotEvent::WatchdogStore(new_pid),
        ) == (Some(new_pid), false),
        occupancy(
            slot_step(
                slot_step((Some(old_pid), false), SlotEvent::WatchdogPoll(true)),
                SlotEvent::WatchdogStore(new_pid),
            ).0,
        ) == 1,
        new_pid != old_pid ==> slot_step(
            slot_step((Some(old_pid), false), SlotEvent::WatchdogPoll(true)),
            SlotEvent::WatchdogStore(new_pid),
        ).0 != Some(old_pid),
{
}

/// Bounded retry by polling: after a crash whose respawn failed (no store
/// happened), the slot stays empty but the recovery debt stands, so the
/// next poll orders the respawn again — and again, until one succeeds. A
/// deliberate stop pays the debt off, and an idle stopped service orders
/// nothing.
pub proof fn lemma_watchdog_retries_failed_respawn(pid: u32)
    ensures
        spec_watchdog_respawn((Some(pid), false), true),
        slot_step((Some(pid), false), SlotEvent::WatchdogPoll(true)) == (None::<u32>, true),
        spec_watchdog_respawn((None::<u32>, true), false),
        slot_step((None::<u32>, true), SlotEvent::WatchdogPoll(false)) == (None::<u32>, true),
        slot_step((None::<u32>, true), SlotEvent::Stop) == (None::<u32>, false),
        !spec_watchdog_respawn((None::<u32>, false), false),
{
}

/// The user-visible message for a lifecycle outcome, exactly as the
/// commands report it.
pub open spec fn reply_text(r: LifecycleReply) -> Seq<char> {
    match r {
        LifecycleReply::Started => "Agent started on port 8765"@,
        LifecycleReply::AlreadyRunning => "Agent already running"@,
        LifecycleReply::SpawnFailed => "Failed to start agent process"@,
        LifecycleReply::Stopped => "Agent stopped"@,
        LifecycleReply::NotRunning => "Agent not running"@,
        LifecycleReply::Restarted => "Agent restarted"@,
        LifecycleReply::RestartFailed => "Failed to restart agent"@,
    }
}

/// Whether a lifecycle outcome is reported to the user as an error rather
/// than as a plain message.
pub open spec fn spec_reply_is_error(r: LifecycleReply) -> bool {
    r == LifecycleReply::SpawnFailed || r == LifecycleReply::RestartFailed
}

pub fn reply_message(r: LifecycleReply) -> (s: &'static str)
    ensures
        s@ == reply_text(r),
{
    match r {
        LifecycleReply::Started => "Agent started on port 8765",
        LifecycleReply::AlreadyRunning => "Agent already running",
        LifecycleReply::SpawnFailed => "Failed to start agent process",
        LifecycleReply::Stopped => "Agent stopped",
        LifecycleReply::NotRunning => "Agent not running",
        LifecycleReply::Restarted => "Agent restarted",
        LifecycleReply::RestartFailed => "Failed to restart agent",
    }
}

pub fn reply_is_error(r: LifecycleReply) -> (b: bool)
    ensures
        b == spec_reply_is_error(r),
{
    match r {
        LifecycleReply::SpawnFailed => true,
        LifecycleReply::RestartFailed => true,
        _ => false,
    }
}

} // verus!
