//! What holds of the merge of two outcomes, and of every run of the handler,
//! whatever its driver reports and in whatever order.
//!
//! A run is the sequence of events handed to [`TaskHandler::step`], starting
//! from [`start`]. The ledger counts what the driver saw and did: each event
//! that answered the pending action stands for one performed action.
//!
//! [`TaskHandler::step`]: crate::tasks_handler::handler::TaskHandler::step
//! [`start`]: crate::tasks_handler::handler::start

use crate::ledger::tally;
use crate::rdp::laws::{client_consistent, client_record, empty_client_ledger, ClientLedger, ClientRun};
use crate::rdp::supervisor::RDPErrorView;
use crate::ssm::error::SSMErrorView;
use crate::ssm::instance::{StopEventView, StopHandshakeView};
use crate::tasks_handler::error::{
    both_failed, both_messages, merged, TaskHandlerErrorKind, TaskHandlerErrorView,
};
use crate::tasks_handler::handler::{
    handler_answers, handler_next, handler_start, HandlerEventView, TaskHandlerView,
};
use crate::text::{lemma_occurs_between, lemma_occurs_last, occurs_in};
use vstd::prelude::*;

verus! {

/// Nothing is lost where both sides fail: the merged failure is of kind
/// `RDPAndSSM`, and the message of each side stands in its message, character
/// for character.
pub proof fn law_both_messages_kept(ssm_err: SSMErrorView, rdp_err: RDPErrorView)
    ensures
        merged(Err(ssm_err), Err(rdp_err)) == Err::<(), _>(both_failed(ssm_err, rdp_err)),
        both_failed(ssm_err, rdp_err).kind == TaskHandlerErrorKind::RDPAndSSM,
        occurs_in(ssm_err.msg, both_failed(ssm_err, rdp_err).msg),
        occurs_in(rdp_err.msg, both_failed(ssm_err, rdp_err).msg),
{
    lemma_occurs_between("SSM Error : "@, ssm_err.msg, "\nRDP Error : "@ + rdp_err.msg);
    assert("SSM Error : "@ + ssm_err.msg + ("\nRDP Error : "@ + rdp_err.msg) =~= both_messages(
        ssm_err.msg,
        rdp_err.msg,
    ));
    lemma_occurs_last("SSM Error : "@ + ssm_err.msg + "\nRDP Error : "@, rdp_err.msg);
}

/// The merge succeeds exactly where both sides succeeded, and a failure of one
/// side alone keeps that side's message as it is.
pub proof fn law_merge_succeeds_only_for_two_successes(
    ssm_res: Result<(), SSMErrorView>,
    rdp_res: Result<(), RDPErrorView>,
)
    ensures
        merged(Ok(()), Ok(())) == Ok::<(), TaskHandlerErrorView>(()),
        merged(ssm_res, rdp_res) is Ok <==> ssm_res is Ok && rdp_res is Ok,
        ssm_res matches Err(e) ==> rdp_res is Ok ==> merged(ssm_res, rdp_res) == Err::<(), _>(
            TaskHandlerErrorView { kind: TaskHandlerErrorKind::SSM, msg: e.msg },
        ),
        rdp_res matches Err(e) ==> ssm_res is Ok ==> merged(ssm_res, rdp_res) == Err::<(), _>(
            TaskHandlerErrorView { kind: TaskHandlerErrorKind::RDP, msg: e.msg },
        ),
{
}

/// The merge of two failures holds the same messages whichever side brought
/// which: each of the two messages stands in the merged message, and would
/// stand in it had the two sides been swapped.
pub proof fn law_merged_messages_commute(first: Seq<char>, second: Seq<char>)
    ensures
        occurs_in(first, both_messages(first, second)),
        occurs_in(second, both_messages(first, second)),
        occurs_in(first, both_messages(second, first)),
        occurs_in(second, both_messages(second, first)),
{
    lemma_messages_kept(first, second);
    lemma_messages_kept(second, first);
}

/// Both messages stand in their merge.
proof fn lemma_messages_kept(ssm_msg: Seq<char>, rdp_msg: Seq<char>)
    ensures
        occurs_in(ssm_msg, both_messages(ssm_msg, rdp_msg)),
        occurs_in(rdp_msg, both_messages(ssm_msg, rdp_msg)),
{
    lemma_occurs_between("SSM Error : "@, ssm_msg, "\nRDP Error : "@ + rdp_msg);
    assert("SSM Error : "@ + ssm_msg + ("\nRDP Error : "@ + rdp_msg) =~= both_messages(
        ssm_msg,
        rdp_msg,
    ));
    lemma_occurs_last("SSM Error : "@ + ssm_msg + "\nRDP Error : "@, rdp_msg);
}

/// What the handler's driver saw and did, counted by kind.
pub ghost struct HandlerLedger {
    /// Readiness tokens received that said the tunnel is ready.
    pub tunnels_ready: nat,
    /// Attempts to launch the client process.
    pub client_launches: nat,
    /// Client processes launched.
    pub clients_started: nat,
    /// What the supervisor saw of the client process and did to it.
    pub client: ClientLedger,
    /// Attempts to send the request to stop to the tunnel.
    pub stop_requests: nat,
    /// Acknowledgements received from the tunnel.
    pub stops_acknowledged: nat,
    /// Waits for the tunnel's task that have ended.
    pub tunnels_joined: nat,
}

/// The ledger of a handler that has just spawned its tunnel.
pub open spec fn empty_handler_ledger() -> HandlerLedger {
    HandlerLedger {
        tunnels_ready: 0,
        client_launches: 0,
        clients_started: 0,
        client: empty_client_ledger(),
        stop_requests: 0,
        stops_acknowledged: 0,
        tunnels_joined: 0,
    }
}

/// The ledger after `event` arrived in state `handler`: an event that answers
/// the pending action records what it reports.
pub open spec fn handler_record(
    ledger: HandlerLedger,
    handler: TaskHandlerView,
    event: HandlerEventView,
) -> HandlerLedger {
    if !handler_answers(handler, event) {
        ledger
    } else {
        match (handler, event) {
            (_, HandlerEventView::TunnelCreated(token)) => HandlerLedger {
                tunnels_ready: tally(ledger.tunnels_ready, token matches Ok(t) && t.ok),
                ..ledger
            },
            (_, HandlerEventView::ClientLaunched(launched)) => HandlerLedger {
                client_launches: ledger.client_launches + 1,
                clients_started: tally(ledger.clients_started, launched is Ok),
                ..ledger
            },
            (TaskHandlerView::Supervising { tunnel, client }, HandlerEventView::Client(reply)) => {
                HandlerLedger { client: client_record(ledger.client, client, reply), ..ledger }
            },
            (_, HandlerEventView::Tunnel(StopEventView::RequestSent { delivered })) => {
                HandlerLedger { stop_requests: ledger.stop_requests + 1, ..ledger }
            },
            (_, HandlerEventView::Tunnel(StopEventView::AcknowledgementReceived { arrived })) => {
                HandlerLedger {
                    stops_acknowledged: tally(ledger.stops_acknowledged, arrived),
                    ..ledger
                }
            },
            (_, HandlerEventView::Tunnel(StopEventView::Joined(_))) => HandlerLedger {
                tunnels_joined: ledger.tunnels_joined + 1,
                ..ledger
            },
            _ => ledger,
        }
    }
}

/// A handler's state and ledger.
pub ghost struct HandlerRun {
    pub handler: TaskHandlerView,
    pub ledger: HandlerLedger,
}

/// The run that begins with the handler for `rdp_file_path`, its tunnel just
/// spawned, and takes `events` one by one.
pub open spec fn handler_run(rdp_file_path: Seq<char>, events: Seq<HandlerEventView>) -> HandlerRun
    decreases events.len(),
{
    if events.len() == 0 {
        HandlerRun { handler: handler_start(rdp_file_path), ledger: empty_handler_ledger() }
    } else {
        let before = handler_run(rdp_file_path, events.drop_last());
        HandlerRun {
            handler: handler_next(before.handler, events.last()),
            ledger: handler_record(before.ledger, before.handler, events.last()),
        }
    }
}

/// The number of ways in which the client's account was closed: it was seen
/// exited, a kill was attempted, or it could not be queried.
pub open spec fn client_closures(client: ClientLedger) -> nat {
    client.exits_seen + client.kills + client.queries_failed
}

/// The part of the ledger that is about the client, once the client is done
/// with: a client that was launched has its account closed in one way, and
/// one that was not has no account.
pub open spec fn client_settled(l: HandlerLedger) -> bool {
    &&& l.tunnels_ready == 1
    &&& l.client_launches == 1
    &&& l.clients_started <= 1
    &&& client_closures(l.client) == l.clients_started
    &&& l.client.kills == l.client.shutdowns_seen
    &&& l.clients_started == 0 ==> l.client == empty_client_ledger()
}

/// What the ledger holds at each step of the handler.
pub open spec fn handler_consistent(run: HandlerRun) -> bool {
    let l = run.ledger;
    match run.handler {
        TaskHandlerView::AwaitingTunnel { .. } => l == empty_handler_ledger(),
        TaskHandlerView::SpawningClient { .. } => l == HandlerLedger {
            tunnels_ready: 1,
            ..empty_handler_ledger()
        },
        TaskHandlerView::Supervising { tunnel, client } => {
            &&& l == HandlerLedger {
                tunnels_ready: 1,
                client_launches: 1,
                clients_started: 1,
                client: l.client,
                ..empty_handler_ledger()
            }
            &&& client !is Finished
            &&& client_consistent(ClientRun { client, ledger: l.client })
        },
        TaskHandlerView::Stopping { handshake, client_outcome } => {
            &&& client_settled(l)
            &&& l.clients_started == 0 ==> client_outcome is Err
            &&& l.tunnels_joined == 0
            &&& match handshake {
                StopHandshakeView::SendingRequest => l.stop_requests == 0 && l.stops_acknowledged
                    == 0,
                StopHandshakeView::AwaitingAcknowledgement => l.stop_requests == 1
                    && l.stops_acknowledged == 0,
                StopHandshakeView::Joining => l.stop_requests == 1 && l.stops_acknowledged == 1,
                StopHandshakeView::Stopped { .. } => false,
            }
        },
        TaskHandlerView::Finished { outcome } => {
            ||| l == empty_handler_ledger() && outcome is Err
            ||| {
                &&& client_settled(l)
                &&& l.stop_requests == 1
                &&& l.stops_acknowledged <= 1
                &&& l.tunnels_joined <= l.stops_acknowledged
                &&& outcome is Ok ==> l.clients_started == 1 && l.tunnels_joined == 1
            }
        },
    }
}

/// Every run from the start keeps the ledger consistent with the state.
pub proof fn lemma_handler_run_consistent(rdp_file_path: Seq<char>, events: Seq<HandlerEventView>)
    ensures
        handler_consistent(handler_run(rdp_file_path, events)),
    decreases events.len(),
{
    if events.len() > 0 {
        lemma_handler_run_consistent(rdp_file_path, events.drop_last());
    }
}

/// The client is launched only for a tunnel that is ready: no run attempts a
/// launch before a readiness token said so, and none attempts two.
pub proof fn law_client_only_after_tunnel_ready(
    rdp_file_path: Seq<char>,
    events: Seq<HandlerEventView>,
)
    ensures
        ({
            let l = handler_run(rdp_file_path, events).ledger;
            l.clients_started <= l.client_launches <= l.tunnels_ready <= 1
        }),
{
    lemma_handler_run_consistent(rdp_file_path, events);
}

/// The tunnel is not stopped under a running client: when the request to stop
/// is sent, the launch of the client has been attempted, and a client that was
/// launched has had its account closed by its supervisor.
pub proof fn law_stop_only_after_client_done(
    rdp_file_path: Seq<char>,
    events: Seq<HandlerEventView>,
)
    ensures
        ({
            let l = handler_run(rdp_file_path, events).ledger;
            &&& l.stop_requests <= 1
            &&& l.stop_requests == 1 ==> l.client_launches == 1 && client_closures(l.client)
                == l.clients_started
        }),
{
    lemma_handler_run_consistent(rdp_file_path, events);
}

/// The tunnel is stopped whatever the client did: a run that has ended after
/// the tunnel was ready has sent the request to stop, once.
pub proof fn law_ready_tunnel_always_stopped(
    rdp_file_path: Seq<char>,
    events: Seq<HandlerEventView>,
)
    ensures
        ({
            let run = handler_run(rdp_file_path, events);
            run.handler is Finished ==> run.ledger.stop_requests == run.ledger.tunnels_ready
        }),
{
    lemma_handler_run_consistent(rdp_file_path, events);
}

/// The handler leaves no client process behind: a run in which every query of
/// the process was answered, and which has ended, has seen each process that
/// it launched exited, or has attempted to kill it.
pub proof fn law_handler_leaks_no_client(rdp_file_path: Seq<char>, events: Seq<HandlerEventView>)
    requires
        handler_run(rdp_file_path, events).ledger.client.queries_failed == 0,
    ensures
        ({
            let run = handler_run(rdp_file_path, events);
            run.handler is Finished ==> run.ledger.client.exits_seen + run.ledger.client.kills
                == run.ledger.clients_started
        }),
{
    lemma_handler_run_consistent(rdp_file_path, events);
}

/// The handler succeeds only where both sides were seen through: a run that
/// ends well has had a ready tunnel, has launched the client, and has stopped
/// the tunnel through the whole handshake, down to the end of its task.
pub proof fn law_handler_succeeds_only_after_both(
    rdp_file_path: Seq<char>,
    events: Seq<HandlerEventView>,
)
    ensures
        ({
            let run = handler_run(rdp_file_path, events);
            run.handler matches TaskHandlerView::Finished { outcome: Ok(_) } ==> {
                &&& run.ledger.tunnels_ready == 1
                &&& run.ledger.clients_started == 1
                &&& client_closures(run.ledger.client) == 1
                &&& run.ledger.stop_requests == 1
                &&& run.ledger.stops_acknowledged == 1
                &&& run.ledger.tunnels_joined == 1
            }
        }),
{
    lemma_handler_run_consistent(rdp_file_path, events);
}

/// A tunnel that is not ready ends the handler with a failure of the tunnel
/// and without a client: a run that has ended without a ready tunnel has
/// launched nothing, has stopped nothing, and reports a failure.
pub proof fn law_no_client_without_tunnel(rdp_file_path: Seq<char>, events: Seq<HandlerEventView>)
    ensures
        ({
            let run = handler_run(rdp_file_path, events);
            run.handler matches TaskHandlerView::Finished { outcome } ==> run.ledger.tunnels_ready
                == 0 ==> run.ledger == empty_handler_ledger() && outcome is Err
        }),
{
    lemma_handler_run_consistent(rdp_file_path, events);
}

} // verus!
