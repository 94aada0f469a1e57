//! The decisions of the polling loop and of the supervisor that restarts it.
use vstd::prelude::*;

use crate::discord::{clear_view, DiscordClientRequest, DiscordClientRequestType};
use crate::melee::{emits, presence_for};
use crate::memory::GameMemory;
use crate::config::AppConfig;

verus! {

/// Milliseconds between two polls.
pub const POLL_INTERVAL_MS: u64 = 1000;

/// Milliseconds to wait after a fault before a fresh loop starts.
pub const RESTART_BACKOFF_MS: u64 = 500;

/// What the polling loop does at the top of a tick.
#[derive(Debug, Clone, Copy, PartialEq, Eq, Structural)]
pub enum PollAction {
    /// Cancellation was asked for: the loop ends.
    Stop,
    /// No game process is attached: look for one, then poll.
    Search,
    /// A game process is attached: check that it still runs, then poll.
    Probe,
}

/// Decides the start of a tick: cancellation ends the loop, checked before
/// anything else; otherwise an attachment is looked for or probed.
pub fn poll_action(cancelled: bool, attached: bool) -> (r: PollAction)
    ensures
        r == (if cancelled {
            PollAction::Stop
        } else if attached {
            PollAction::Probe
        } else {
            PollAction::Search
        }),
{
    if cancelled {
        PollAction::Stop
    } else if attached {
        PollAction::Probe
    } else {
        PollAction::Search
    }
}

/// How the worker that ran the polling loop ended.
#[derive(Debug, Clone, Copy, PartialEq, Eq, Structural)]
pub enum WorkerOutcome {
    /// The loop returned, as it does once cancelled.
    Finished,
    /// A tick failed.
    Faulted,
    /// The worker was torn down from outside.
    Cancelled,
}

/// What the supervisor does once the worker has ended.
#[derive(Debug)]
pub enum SupervisorAction {
    /// Supervision ends.
    Stop,
    /// Send `clear` on a best-effort basis, wait `backoff_ms` milliseconds,
    /// then start a fresh loop with a fresh client.
    Restart { clear: DiscordClientRequest, backoff_ms: u64 },
}

/// Decides what follows the end of the worker: only a fault brings a restart,
/// preceded by one clear request and the backoff.
pub fn on_worker_exit(outcome: WorkerOutcome) -> (r: SupervisorAction)
    ensures
        r is Restart <==> outcome == WorkerOutcome::Faulted,
        r matches SupervisorAction::Restart { clear, backoff_ms } ==> clear@ == clear_view()
            && backoff_ms == RESTART_BACKOFF_MS,
{
    match outcome {
        WorkerOutcome::Faulted => SupervisorAction::Restart {
            clear: DiscordClientRequest::clear(),
            backoff_ms: RESTART_BACKOFF_MS,
        },
        _ => SupervisorAction::Stop,
    }
}

/// A fault is followed by exactly one clear request: the supervisor sends it
/// and starts a fresh client, which counts as having cleared the presence; so
/// no poll of the fresh client sends another clear request, and every poll
/// that gives any other request sends it, as before the fault.
pub proof fn lemma_fault_clears_once(mem: GameMemory, c: AppConfig, now: i64)
    ensures
        presence_for(mem, c, now).req_type == DiscordClientRequestType::Clear ==> !emits(
            clear_view(),
            presence_for(mem, c, now),
        ),
        presence_for(mem, c, now).req_type != DiscordClientRequestType::Clear ==> emits(
            clear_view(),
            presence_for(mem, c, now),
        ),
{
}

} // verus!
