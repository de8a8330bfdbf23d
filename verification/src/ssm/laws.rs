//! What holds of every run of the tunnel's protocol, whatever its driver
//! reports and in whatever order.
//!
//! A run is the sequence of events handed to [`TunnelTask::step`], starting
//! from [`launch_ssm_tunnel`]. The ledger counts what the driver did on the
//! tunnel's behalf: each event that answered the pending action stands for one
//! performed action.
//!
//! [`TunnelTask::step`]: crate::ssm::tunnel::TunnelTask::step
//! [`launch_ssm_tunnel`]: crate::ssm::tunnel::launch_ssm_tunnel

use crate::ssm::tunnel::{
    tunnel_answers, tunnel_next, tunnel_start, TunnelEventView, TunnelTaskView,
};
use crate::ledger::tally;
use vstd::prelude::*;

verus! {

/// The actions performed for a tunnel, counted by kind.
pub ghost struct TunnelLedger {
    /// Attempts to negotiate a remote session.
    pub negotiations: nat,
    /// Remote sessions negotiated.
    pub sessions: nat,
    /// Attempts to start the forwarding process.
    pub launches: nat,
    /// Forwarding processes started.
    pub plugins: nat,
    /// Attempts to send the readiness token.
    pub ready_signals: nat,
    /// Readiness tokens handed over.
    pub ready_delivered: nat,
    /// Waits for the request to stop that ended, with a request or without.
    pub stop_requests: nat,
    /// Attempts to acknowledge the request to stop.
    pub acknowledgements: nat,
    /// Calls to terminate the remote session.
    pub terminations: nat,
    /// Calls that did terminate the remote session.
    pub sessions_terminated: nat,
    /// Attempts to kill the forwarding process.
    pub kills: nat,
    /// Attempts after which the forwarding process was gone.
    pub plugins_killed: nat,
}

/// The ledger of a tunnel for which nothing was done yet.
pub open spec fn empty_ledger() -> TunnelLedger {
    TunnelLedger {
        negotiations: 0,
        sessions: 0,
        launches: 0,
        plugins: 0,
        ready_signals: 0,
        ready_delivered: 0,
        stop_requests: 0,
        acknowledgements: 0,
        terminations: 0,
        sessions_terminated: 0,
        kills: 0,
        plugins_killed: 0,
    }
}

/// The ledger after `event` arrived in state `task`: an event that answers the
/// pending action records the action it answers.
pub open spec fn tunnel_record(
    ledger: TunnelLedger,
    task: TunnelTaskView,
    event: TunnelEventView,
) -> TunnelLedger {
    if !tunnel_answers(task, event) {
        ledger
    } else {
        match event {
            TunnelEventView::SessionNegotiation(session) => TunnelLedger {
                negotiations: ledger.negotiations + 1,
                sessions: tally(ledger.sessions, session is Some),
                ..ledger
            },
            TunnelEventView::PluginLaunch { spawned } => TunnelLedger {
                launches: ledger.launches + 1,
                plugins: tally(ledger.plugins, spawned),
                ..ledger
            },
            TunnelEventView::ReadySignal { delivered } => TunnelLedger {
                ready_signals: ledger.ready_signals + 1,
                ready_delivered: tally(ledger.ready_delivered, delivered),
                ..ledger
            },
            TunnelEventView::StopRequest { received } => TunnelLedger {
                stop_requests: ledger.stop_requests + 1,
                ..ledger
            },
            TunnelEventView::Acknowledgement { delivered } => TunnelLedger {
                acknowledgements: ledger.acknowledgements + 1,
                ..ledger
            },
            TunnelEventView::SessionTermination { terminated } => TunnelLedger {
                terminations: ledger.terminations + 1,
                sessions_terminated: tally(ledger.sessions_terminated, terminated),
                ..ledger
            },
            TunnelEventView::PluginKill { killed } => TunnelLedger {
                kills: ledger.kills + 1,
                plugins_killed: tally(ledger.plugins_killed, killed),
                ..ledger
            },
        }
    }
}

/// A tunnel's state and ledger.
pub ghost struct TunnelRun {
    pub task: TunnelTaskView,
    pub ledger: TunnelLedger,
}

/// The run that begins in state `start` with an empty ledger and takes
/// `events` one by one.
pub open spec fn tunnel_run(start: TunnelTaskView, events: Seq<TunnelEventView>) -> TunnelRun
    decreases events.len(),
{
    if events.len() == 0 {
        TunnelRun { task: start, ledger: empty_ledger() }
    } else {
        let before = tunnel_run(start, events.drop_last());
        TunnelRun {
            task: tunnel_next(before.task, events.last()),
            ledger: tunnel_record(before.ledger, before.task, events.last()),
        }
    }
}

/// The ledger of a tunnel that holds its session and has not tried to start
/// the forwarding process.
pub open spec fn session_held() -> TunnelLedger {
    TunnelLedger { negotiations: 1, sessions: 1, ..empty_ledger() }
}

/// The ledger of a tunnel whose forwarding process runs.
pub open spec fn plugin_running() -> TunnelLedger {
    TunnelLedger { launches: 1, plugins: 1, ..session_held() }
}

/// What the ledger holds at each step of the protocol.
pub open spec fn tunnel_consistent(run: TunnelRun) -> bool {
    let l = run.ledger;
    match run.task {
        TunnelTaskView::StartingSession { .. } => l == empty_ledger(),
        TunnelTaskView::LaunchingPlugin { .. } => l == session_held(),
        TunnelTaskView::AbortingSession { .. } => {
            &&& l == TunnelLedger { launches: l.launches, ..session_held() }
            &&& l.launches <= 1
        },
        TunnelTaskView::SignallingReady { .. } => l == plugin_running(),
        TunnelTaskView::AwaitingStop { .. } => l == TunnelLedger {
            ready_signals: 1,
            ready_delivered: 1,
            ..plugin_running()
        },
        TunnelTaskView::Acknowledging { failure, .. } => {
            &&& l == TunnelLedger {
                ready_signals: 1,
                ready_delivered: l.ready_delivered,
                stop_requests: l.ready_delivered,
                ..plugin_running()
            }
            &&& l.ready_delivered <= 1
            &&& failure is None <==> l.ready_delivered == 1
        },
        TunnelTaskView::TerminatingSession { failure, .. } => {
            &&& l == TunnelLedger {
                ready_signals: 1,
                ready_delivered: l.ready_delivered,
                stop_requests: l.ready_delivered,
                acknowledgements: 1,
                ..plugin_running()
            }
            &&& l.ready_delivered <= 1
            &&& failure is None <==> l.ready_delivered == 1
        },
        TunnelTaskView::KillingPlugin { failure } => {
            &&& l == TunnelLedger {
                ready_signals: 1,
                ready_delivered: l.ready_delivered,
                stop_requests: l.ready_delivered,
                acknowledgements: 1,
                terminations: 1,
                sessions_terminated: l.sessions_terminated,
                ..plugin_running()
            }
            &&& l.ready_delivered <= 1
            &&& l.sessions_terminated <= 1
            &&& failure is None <==> l.ready_delivered == 1 && l.sessions_terminated == 1
        },
        TunnelTaskView::Finished { outcome } => {
            ||| l == TunnelLedger { negotiations: 1, ..empty_ledger() } && outcome is Err
            ||| {
                &&& l == TunnelLedger {
                    launches: l.launches,
                    terminations: 1,
                    sessions_terminated: l.sessions_terminated,
                    ..session_held()
                }
                &&& l.launches <= 1
                &&& l.sessions_terminated <= 1
                &&& outcome is Err
            }
            ||| {
                &&& l == TunnelLedger {
                    ready_signals: 1,
                    ready_delivered: l.ready_delivered,
                    stop_requests: l.ready_delivered,
                    acknowledgements: 1,
                    terminations: 1,
                    sessions_terminated: l.sessions_terminated,
                    kills: 1,
                    plugins_killed: l.plugins_killed,
                    ..plugin_running()
                }
                &&& l.ready_delivered <= 1
                &&& l.sessions_terminated <= 1
                &&& l.plugins_killed <= 1
                &&& outcome is Ok <==> l.ready_delivered == 1 && l.sessions_terminated == 1
                    && l.plugins_killed == 1
            }
        },
    }
}

/// One event keeps the ledger consistent with the state.
proof fn lemma_event_keeps_consistent(run: TunnelRun, event: TunnelEventView)
    requires
        tunnel_consistent(run),
    ensures
        tunnel_consistent(
            TunnelRun {
                task: tunnel_next(run.task, event),
                ledger: tunnel_record(run.ledger, run.task, event),
            },
        ),
{
}

/// Every run from the start keeps the ledger consistent with the state.
pub proof fn lemma_run_consistent(
    target: Seq<char>,
    local_port_number: Seq<char>,
    region: Seq<char>,
    events: Seq<TunnelEventView>,
)
    ensures
        tunnel_consistent(tunnel_run(tunnel_start(target, local_port_number, region), events)),
    decreases events.len(),
{
    if events.len() > 0 {
        lemma_run_consistent(target, local_port_number, region, events.drop_last());
        lemma_event_keeps_consistent(
            tunnel_run(tunnel_start(target, local_port_number, region), events.drop_last()),
            events.last(),
        );
    }
}

/// The remote session is cleaned up exactly once: no run terminates a session
/// that it did not negotiate, none terminates twice, and a run that has ended
/// has made one call to terminate for the session it negotiated, whatever
/// failed after the negotiation.
pub proof fn law_session_terminated_exactly_once(
    target: Seq<char>,
    local_port_number: Seq<char>,
    region: Seq<char>,
    events: Seq<TunnelEventView>,
)
    ensures
        ({
            let run = tunnel_run(tunnel_start(target, local_port_number, region), events);
            &&& run.ledger.terminations <= run.ledger.sessions <= 1
            &&& run.task is Finished ==> run.ledger.terminations == run.ledger.sessions
        }),
{
    lemma_run_consistent(target, local_port_number, region, events);
}

/// The readiness token is sent at most once, and never before the forwarding
/// process was started.
pub proof fn law_ready_only_after_launch(
    target: Seq<char>,
    local_port_number: Seq<char>,
    region: Seq<char>,
    events: Seq<TunnelEventView>,
)
    ensures
        ({
            let run = tunnel_run(tunnel_start(target, local_port_number, region), events);
            run.ledger.ready_signals <= run.ledger.plugins <= run.ledger.sessions
        }),
{
    lemma_run_consistent(target, local_port_number, region, events);
}

/// The forwarding process does not outlive the tunnel: it is killed at most
/// once, only if it was started, and a run that has ended has attempted the
/// kill of the process it started.
pub proof fn law_plugin_killed_before_end(
    target: Seq<char>,
    local_port_number: Seq<char>,
    region: Seq<char>,
    events: Seq<TunnelEventView>,
)
    ensures
        ({
            let run = tunnel_run(tunnel_start(target, local_port_number, region), events);
            &&& run.ledger.kills <= run.ledger.plugins <= 1
            &&& run.task is Finished ==> run.ledger.kills == run.ledger.plugins
        }),
{
    lemma_run_consistent(target, local_port_number, region, events);
}

/// The protocol is linear: no run does anything twice. Each of its actions is
/// performed at most once, and nothing is performed after the end.
pub proof fn law_nothing_done_twice(
    target: Seq<char>,
    local_port_number: Seq<char>,
    region: Seq<char>,
    events: Seq<TunnelEventView>,
    more: TunnelEventView,
)
    ensures
        ({
            let run = tunnel_run(tunnel_start(target, local_port_number, region), events);
            let l = run.ledger;
            &&& l.negotiations <= 1 && l.launches <= 1 && l.ready_signals <= 1
            &&& l.stop_requests <= 1 && l.acknowledgements <= 1
            &&& l.terminations <= 1 && l.kills <= 1
            &&& run.task is Finished ==> tunnel_run(
                tunnel_start(target, local_port_number, region),
                events.push(more),
            ) == run
        }),
{
    lemma_run_consistent(target, local_port_number, region, events);
    assert(events.push(more).drop_last() =~= events);
}

/// The shutdown handshake is ordered. The request to stop is awaited only
/// after readiness was delivered. The acknowledgement is sent only after that
/// wait has ended, or after the readiness token found no receiver. With the
/// forwarding process started, the remote session is terminated only after the
/// acknowledgement was attempted, and the process is killed only after the
/// call to terminate.
pub proof fn law_handshake_in_order(
    target: Seq<char>,
    local_port_number: Seq<char>,
    region: Seq<char>,
    events: Seq<TunnelEventView>,
)
    ensures
        ({
            let l = tunnel_run(tunnel_start(target, local_port_number, region), events).ledger;
            &&& l.stop_requests <= l.ready_delivered
            &&& l.acknowledgements >= 1 ==> l.stop_requests == 1 || (l.ready_signals == 1
                && l.ready_delivered == 0)
            &&& l.plugins >= 1 ==> l.kills <= l.terminations <= l.acknowledgements
        }),
{
    lemma_run_consistent(target, local_port_number, region, events);
}

/// Success is reported only where everything succeeded: a run that ends well
/// negotiated the session, started the forwarding process, delivered the
/// readiness token, terminated the session and killed the process. A run that
/// ended after all of these succeeded reports success.
pub proof fn law_success_only_if_all_succeeded(
    target: Seq<char>,
    local_port_number: Seq<char>,
    region: Seq<char>,
    events: Seq<TunnelEventView>,
)
    ensures
        ({
            let run = tunnel_run(tunnel_start(target, local_port_number, region), events);
            run.task matches TunnelTaskView::Finished { outcome } ==> (outcome is Ok <==> {
                &&& run.ledger.sessions == 1
                &&& run.ledger.plugins == 1
                &&& run.ledger.ready_delivered == 1
                &&& run.ledger.sessions_terminated == 1
                &&& run.ledger.plugins_killed == 1
            })
        }),
{
    lemma_run_consistent(target, local_port_number, region, events);
}

} // verus!
