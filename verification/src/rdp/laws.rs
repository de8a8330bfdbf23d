//! What holds of every run of the supervisor, whatever its driver reports and
//! in whatever order.
//!
//! A run is the sequence of events handed to
//! [`RDPTaskInstance::wait_for_exit_or_task_done`], starting from a launched
//! process. The ledger counts what the driver saw and did: each event that
//! answered the pending action stands for one performed action.
//!
//! [`RDPTaskInstance::wait_for_exit_or_task_done`]: crate::rdp::supervisor::RDPTaskInstance::wait_for_exit_or_task_done

use crate::rdp::supervisor::{
    client_answers, client_next, client_start, ClientEvent, ProcessStatus, RDPTaskInstanceView,
};
use crate::ledger::tally;
use vstd::prelude::*;

verus! {

/// What was seen of a client process and done to it, counted by kind.
pub ghost struct ClientLedger {
    /// Requests to shut down that were seen.
    pub shutdowns_seen: nat,
    /// Queries that found the process exited.
    pub exits_seen: nat,
    /// Queries that failed.
    pub queries_failed: nat,
    /// Rests between two rounds.
    pub rests: nat,
    /// Attempts to kill the process.
    pub kills: nat,
}

/// The ledger of a process that was just launched.
pub open spec fn empty_client_ledger() -> ClientLedger {
    ClientLedger { shutdowns_seen: 0, exits_seen: 0, queries_failed: 0, rests: 0, kills: 0 }
}

/// The ledger after `event` arrived in state `client`: an event that answers
/// the pending action records what it reports.
pub open spec fn client_record(
    ledger: ClientLedger,
    client: RDPTaskInstanceView,
    event: ClientEvent,
) -> ClientLedger {
    if !client_answers(client, event) {
        ledger
    } else {
        match event {
            ClientEvent::ShutdownChecked { requested } => ClientLedger {
                shutdowns_seen: tally(ledger.shutdowns_seen, requested),
                ..ledger
            },
            ClientEvent::ProcessChecked(status) => ClientLedger {
                exits_seen: tally(ledger.exits_seen, status == ProcessStatus::Exited),
                queries_failed: tally(ledger.queries_failed, status == ProcessStatus::Unknown),
                ..ledger
            },
            ClientEvent::Slept => ClientLedger { rests: ledger.rests + 1, ..ledger },
            ClientEvent::Killed { killed } => ClientLedger { kills: ledger.kills + 1, ..ledger },
        }
    }
}

/// A supervisor's state and ledger.
pub ghost struct ClientRun {
    pub client: RDPTaskInstanceView,
    pub ledger: ClientLedger,
}

/// The run that begins with a launched process and takes `events` one by one.
pub open spec fn client_run(events: Seq<ClientEvent>) -> ClientRun
    decreases events.len(),
{
    if events.len() == 0 {
        ClientRun { client: client_start(), ledger: empty_client_ledger() }
    } else {
        let before = client_run(events.drop_last());
        ClientRun {
            client: client_next(before.client, events.last()),
            ledger: client_record(before.ledger, before.client, events.last()),
        }
    }
}

/// What the ledger holds at each step of the supervisor.
pub open spec fn client_consistent(run: ClientRun) -> bool {
    let l = run.ledger;
    match run.client {
        RDPTaskInstanceView::CheckingShutdown
        | RDPTaskInstanceView::CheckingProcess
        | RDPTaskInstanceView::Sleeping => {
            l.shutdowns_seen == 0 && l.exits_seen == 0 && l.queries_failed == 0 && l.kills == 0
        },
        RDPTaskInstanceView::Killing => {
            l.shutdowns_seen == 1 && l.exits_seen == 0 && l.queries_failed == 0 && l.kills == 0
        },
        RDPTaskInstanceView::Finished { outcome } => {
            ||| l.shutdowns_seen == 1 && l.kills == 1 && l.exits_seen == 0 && l.queries_failed == 0
            ||| l.shutdowns_seen == 0 && l.kills == 0 && l.exits_seen == 1 && l.queries_failed == 0
                && outcome is Ok
            ||| l.shutdowns_seen == 0 && l.kills == 0 && l.exits_seen == 0 && l.queries_failed == 1
                && outcome is Ok
        },
    }
}

/// Every run keeps the ledger consistent with the state.
pub proof fn lemma_client_run_consistent(events: Seq<ClientEvent>)
    ensures
        client_consistent(client_run(events)),
    decreases events.len(),
{
    if events.len() > 0 {
        lemma_client_run_consistent(events.drop_last());
    }
}

/// The supervisor closes its process' account in exactly one way: a run that
/// has ended has seen the process exited, or has attempted to kill it, or has
/// found that it cannot be queried, and only one of the three. It kills only
/// on a request to shut down, and then always.
pub proof fn law_client_ends_one_way(events: Seq<ClientEvent>)
    ensures
        ({
            let run = client_run(events);
            &&& run.ledger.kills <= run.ledger.shutdowns_seen <= 1
            &&& run.client is Finished ==> run.ledger.kills == run.ledger.shutdowns_seen
            &&& run.client is Finished ==> run.ledger.kills + run.ledger.exits_seen
                + run.ledger.queries_failed == 1
        }),
{
    lemma_client_run_consistent(events);
}

/// No client process is left behind: a run in which every query of the process
/// was answered, and which has ended, has seen the process exited or has
/// attempted to kill it.
pub proof fn law_client_not_leaked(events: Seq<ClientEvent>)
    requires
        client_run(events).ledger.queries_failed == 0,
    ensures
        client_run(events).client is Finished ==> client_run(events).ledger.kills
            + client_run(events).ledger.exits_seen == 1,
{
    lemma_client_run_consistent(events);
}

/// The supervisor fails in one way only: a run reports a failure exactly where
/// it has ended after a kill that failed, and the failure is then of kind
/// `Kill`.
pub proof fn law_client_fails_only_on_kill(events: Seq<ClientEvent>)
    ensures
        client_run(events).client matches RDPTaskInstanceView::Finished { outcome: Err(e) }
            ==> client_run(events).ledger.kills == 1 && e
            == crate::rdp::supervisor::client_kill_failure(),
    decreases events.len(),
{
    lemma_client_run_consistent(events);
    if events.len() > 0 {
        law_client_fails_only_on_kill(events.drop_last());
        lemma_client_run_consistent(events.drop_last());
    }
}

} // verus!
