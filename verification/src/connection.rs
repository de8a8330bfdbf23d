//! A whole connection: the handler and its tunnel, each running its own
//! protocol, with the three single-use channels between them.
//!
//! The two protocols know nothing of each other. What ties them together is
//! what a channel allows: a message can be received only after it was sent,
//! and a sender can be found gone only after it went away. [`possible`] says
//! so, and the laws at the end hold of every run in which each step was
//! possible, whichever side moved when. A task that dies before its protocol
//! has ended is no part of this picture.

use crate::messages::{ApplicationExitedMessage, SSMTunnelLaunchedMessage};
use crate::rdp::supervisor::{ClientEvent, ProcessStatus};
use crate::ssm::instance::{StopEventView, StopHandshakeView};
use crate::ssm::laws::{
    empty_ledger, tunnel_consistent, tunnel_record, TunnelLedger, TunnelRun,
};
use crate::ssm::plugin::{port_forwarding, SessionHandleView};
use crate::ssm::tunnel::{
    tunnel_answers, tunnel_next, tunnel_start, TunnelEventView, TunnelTaskView,
};
use crate::tasks_handler::handler::{
    handler_answers, handler_next, handler_start, HandlerEventView, TaskHandlerView,
};
use crate::tasks_handler::laws::{
    client_closures, empty_handler_ledger, handler_consistent, handler_record, HandlerLedger,
    HandlerRun,
};
use vstd::prelude::*;

verus! {

/// A single-use channel, by what has become of its two ends.
pub ghost enum Slot<T> {
    /// Nothing was sent, and both ends are there.
    Open,
    /// The message was sent and waits for its receiver.
    Full(T),
    /// The message was received.
    Taken,
    /// The sender went away without a message.
    SenderGone,
    /// The receiver went away without the message.
    ReceiverGone,
}

impl<T> Slot<T> {
    /// The channel after its sender was let go.
    pub open spec fn without_sender(self) -> Slot<T> {
        if self is Open {
            Slot::SenderGone
        } else {
            self
        }
    }

    /// The channel after its receiver was let go.
    pub open spec fn without_receiver(self) -> Slot<T> {
        if self is Open || self is Full {
            Slot::ReceiverGone
        } else {
            self
        }
    }

    /// Whether a message sent now is handed over.
    pub open spec fn takes_a_message(self) -> bool {
        self is Open
    }

    /// Whether a receive that ends now can end this way: with a message that
    /// was sent, or without one because the sender is gone.
    pub open spec fn gives(self, arrived: bool) -> bool {
        if arrived {
            self is Full
        } else {
            self is SenderGone
        }
    }
}

/// A connection: both protocols, the channels between them, and what was done
/// on either side so far.
pub ghost struct Connection {
    pub handler: TaskHandlerView,
    pub tunnel: TunnelTaskView,
    /// Carries the readiness token from the tunnel to the handler.
    pub tunnel_created: Slot<SSMTunnelLaunchedMessage>,
    /// Carries the request to stop from the handler to the tunnel.
    pub stop: Slot<ApplicationExitedMessage>,
    /// Carries the acknowledgement from the tunnel to the handler.
    pub stop_ack: Slot<ApplicationExitedMessage>,
    pub handler_ledger: HandlerLedger,
    pub tunnel_ledger: TunnelLedger,
}

/// One step of a connection: a reply to the tunnel, or one to the handler.
pub ghost enum Move {
    Tunnel(TunnelEventView),
    Handler(HandlerEventView),
}

/// The connection that was just started.
pub open spec fn connection_start(
    target: Seq<char>,
    rdp_file_path: Seq<char>,
    local_port_number: Seq<char>,
    region: Seq<char>,
) -> Connection {
    Connection {
        handler: handler_start(rdp_file_path),
        tunnel: tunnel_start(target, local_port_number, region),
        tunnel_created: Slot::Open,
        stop: Slot::Open,
        stop_ack: Slot::Open,
        handler_ledger: empty_handler_ledger(),
        tunnel_ledger: empty_ledger(),
    }
}

/// Whether `step` can happen in `c`: it answers what its side waits for, and
/// where it reports on a channel or on the tunnel's task, it reports what is
/// the case. What the remote service and the two processes do is open.
pub open spec fn possible(c: Connection, step: Move) -> bool {
    match step {
        Move::Tunnel(event) => {
            &&& tunnel_answers(c.tunnel, event)
            &&& match event {
                TunnelEventView::ReadySignal { delivered } => delivered
                    == c.tunnel_created.takes_a_message(),
                TunnelEventView::StopRequest { received } => c.stop.gives(received),
                TunnelEventView::Acknowledgement { delivered } => delivered
                    == c.stop_ack.takes_a_message(),
                _ => true,
            }
        },
        Move::Handler(event) => {
            &&& handler_answers(c.handler, event)
            &&& match event {
                HandlerEventView::TunnelCreated(Ok(token)) => c.tunnel_created == Slot::Full(token),
                HandlerEventView::TunnelCreated(Err(_)) => c.tunnel_created is SenderGone,
                HandlerEventView::Tunnel(StopEventView::RequestSent { delivered }) => delivered
                    == c.stop.takes_a_message(),
                HandlerEventView::Tunnel(StopEventView::AcknowledgementReceived { arrived }) => {
                    c.stop_ack.gives(arrived)
                },
                HandlerEventView::Tunnel(StopEventView::Joined(Some(outcome))) => c.tunnel
                    == (TunnelTaskView::Finished { outcome }),
                HandlerEventView::Tunnel(StopEventView::Joined(None)) => false,
                _ => true,
            }
        },
    }
}

/// The connection after `step`: the side that the step is for moves on, a
/// message that was handed over or received changes its channel, and a side
/// that has ended lets go of the channel ends it holds.
pub open spec fn moved(c: Connection, step: Move) -> Connection {
    match step {
        Move::Tunnel(event) => {
            let tunnel = tunnel_next(c.tunnel, event);
            let ended = tunnel is Finished && c.tunnel !is Finished;
            let tunnel_created = match event {
                TunnelEventView::ReadySignal { delivered: true } => Slot::Full(
                    SSMTunnelLaunchedMessage { ok: true },
                ),
                _ => c.tunnel_created,
            };
            let stop = match event {
                TunnelEventView::StopRequest { received: true } => Slot::Taken,
                _ => c.stop,
            };
            let stop_ack = match event {
                TunnelEventView::Acknowledgement { delivered: true } => Slot::Full(
                    ApplicationExitedMessage,
                ),
                _ => c.stop_ack,
            };
            Connection {
                tunnel,
                tunnel_ledger: tunnel_record(c.tunnel_ledger, c.tunnel, event),
                tunnel_created: if ended {
                    tunnel_created.without_sender()
                } else {
                    tunnel_created
                },
                stop: if ended {
                    stop.without_receiver()
                } else {
                    stop
                },
                stop_ack: if ended {
                    stop_ack.without_sender()
                } else {
                    stop_ack
                },
                ..c
            }
        },
        Move::Handler(event) => {
            let handler = handler_next(c.handler, event);
            let ended = handler is Finished && c.handler !is Finished;
            let tunnel_created = match event {
                HandlerEventView::TunnelCreated(Ok(_)) => Slot::Taken,
                _ => c.tunnel_created,
            };
            let stop = match event {
                HandlerEventView::Tunnel(StopEventView::RequestSent { delivered: true }) => {
                    Slot::Full(ApplicationExitedMessage)
                },
                _ => c.stop,
            };
            let stop_ack = match event {
                HandlerEventView::Tunnel(
                    StopEventView::AcknowledgementReceived { arrived: true },
                ) => Slot::Taken,
                _ => c.stop_ack,
            };
            Connection {
                handler,
                handler_ledger: handler_record(c.handler_ledger, c.handler, event),
                tunnel_created: if ended {
                    tunnel_created.without_receiver()
                } else {
                    tunnel_created
                },
                stop: if ended {
                    stop.without_sender()
                } else {
                    stop
                },
                stop_ack: if ended {
                    stop_ack.without_receiver()
                } else {
                    stop_ack
                },
                ..c
            }
        },
    }
}

/// The connection after `steps`, taken one by one from `start`.
pub open spec fn connection_after(start: Connection, steps: Seq<Move>) -> Connection
    decreases steps.len(),
{
    if steps.len() == 0 {
        start
    } else {
        moved(connection_after(start, steps.drop_last()), steps.last())
    }
}

/// Whether each of `steps` was possible when its turn came.
pub open spec fn feasible(start: Connection, steps: Seq<Move>) -> bool
    decreases steps.len(),
{
    steps.len() > 0 ==> {
        &&& feasible(start, steps.drop_last())
        &&& possible(connection_after(start, steps.drop_last()), steps.last())
    }
}

/// Whether the handler is stopping the tunnel and its handshake is at `step`.
pub open spec fn stopping_at(handler: TaskHandlerView, step: StopHandshakeView) -> bool {
    handler matches TaskHandlerView::Stopping { handshake, .. } && handshake == step
}

/// Whether the tunnel has acknowledged the request to stop and is tearing
/// down, or has torn down, what it holds.
pub open spec fn tearing_down(c: Connection) -> bool {
    &&& c.tunnel_ledger.ready_delivered == 1
    &&& c.tunnel_ledger.acknowledgements == 1
    &&& c.tunnel is TerminatingSession || c.tunnel is KillingPlugin || c.tunnel is Finished
}

/// Whether the handler has ended after it joined the tunnel's task, with an
/// outcome that is good only if the tunnel's is.
pub open spec fn ended_together(c: Connection) -> bool {
    &&& c.handler matches TaskHandlerView::Finished { outcome }
    &&& c.tunnel is Finished
    &&& c.handler_ledger.tunnels_joined == 1
    &&& outcome is Ok ==> ended_well(c.tunnel)
}

/// Whether the tunnel has ended with success.
pub open spec fn ended_well(tunnel: TunnelTaskView) -> bool {
    tunnel matches TunnelTaskView::Finished { outcome } && outcome is Ok
}

/// Where the two sides stand to each other, by the state of the channels.
pub open spec fn in_step(c: Connection) -> bool {
    &&& tunnel_consistent(TunnelRun { task: c.tunnel, ledger: c.tunnel_ledger })
    &&& handler_consistent(HandlerRun { handler: c.handler, ledger: c.handler_ledger })
    &&& match (c.tunnel_created, c.stop, c.stop_ack) {
        (Slot::Open, Slot::Open, Slot::Open) => {
            &&& c.handler is AwaitingTunnel
            &&& c.tunnel is StartingSession || c.tunnel is LaunchingPlugin
                || c.tunnel is AbortingSession || c.tunnel is SignallingReady
        },
        (Slot::SenderGone, Slot::ReceiverGone, Slot::SenderGone) => {
            &&& c.tunnel is Finished
            &&& c.tunnel_ledger.plugins == 0
            &&& c.handler is AwaitingTunnel || c.handler is Finished
            &&& c.handler_ledger == empty_handler_ledger()
        },
        (Slot::Full(token), Slot::Open, Slot::Open) => {
            &&& token.ok
            &&& c.tunnel is AwaitingStop
            &&& c.handler is AwaitingTunnel
        },
        (Slot::Taken, Slot::Open, Slot::Open) => {
            &&& c.tunnel is AwaitingStop
            &&& c.handler_ledger.tunnels_ready == 1
            &&& c.handler is SpawningClient || c.handler is Supervising || stopping_at(
                c.handler,
                StopHandshakeView::SendingRequest,
            )
        },
        (Slot::Taken, Slot::Full(_), Slot::Open) => {
            &&& c.tunnel is AwaitingStop
            &&& stopping_at(c.handler, StopHandshakeView::AwaitingAcknowledgement)
        },
        (Slot::Taken, Slot::Taken, Slot::Open) => {
            &&& c.tunnel is Acknowledging
            &&& c.tunnel_ledger.ready_delivered == 1
            &&& stopping_at(c.handler, StopHandshakeView::AwaitingAcknowledgement)
        },
        (Slot::Taken, Slot::Taken, Slot::Full(_)) => {
            &&& tearing_down(c)
            &&& stopping_at(c.handler, StopHandshakeView::AwaitingAcknowledgement)
        },
        (Slot::Taken, Slot::Taken, Slot::Taken) => {
            &&& tearing_down(c)
            &&& c.handler_ledger.stops_acknowledged == 1
            &&& stopping_at(c.handler, StopHandshakeView::Joining) || ended_together(c)
        },
        _ => false,
    }
}

/// A possible step of the tunnel keeps the two sides in step.
proof fn lemma_tunnel_keeps_in_step(c: Connection, event: TunnelEventView)
    requires
        in_step(c),
        possible(c, Move::Tunnel(event)),
    ensures
        in_step(moved(c, Move::Tunnel(event))),
{
}

/// A possible step of the handler keeps the two sides in step.
proof fn lemma_handler_keeps_in_step(c: Connection, event: HandlerEventView)
    requires
        in_step(c),
        possible(c, Move::Handler(event)),
    ensures
        in_step(moved(c, Move::Handler(event))),
{
}

/// A possible step keeps the two sides in step.
proof fn lemma_move_keeps_in_step(c: Connection, step: Move)
    requires
        in_step(c),
        possible(c, step),
    ensures
        in_step(moved(c, step)),
{
    match step {
        Move::Tunnel(event) => lemma_tunnel_keeps_in_step(c, event),
        Move::Handler(event) => lemma_handler_keeps_in_step(c, event),
    }
}

/// Every feasible run from the start keeps the two sides in step.
pub proof fn lemma_connection_in_step(
    target: Seq<char>,
    rdp_file_path: Seq<char>,
    local_port_number: Seq<char>,
    region: Seq<char>,
    steps: Seq<Move>,
)
    requires
        feasible(connection_start(target, rdp_file_path, local_port_number, region), steps),
    ensures
        in_step(
            connection_after(
                connection_start(target, rdp_file_path, local_port_number, region),
                steps,
            ),
        ),
    decreases steps.len(),
{
    let start = connection_start(target, rdp_file_path, local_port_number, region);
    if steps.len() > 0 {
        lemma_connection_in_step(
            target,
            rdp_file_path,
            local_port_number,
            region,
            steps.drop_last(),
        );
        lemma_move_keeps_in_step(connection_after(start, steps.drop_last()), steps.last());
    }
}

/// The readiness token is not seen before the forwarding process runs: when
/// the handler has received a token that says ready, the tunnel has started
/// the forwarding process and has handed the token over, and by then the
/// handler has launched no client.
pub proof fn law_readiness_seen_only_after_launch(
    target: Seq<char>,
    rdp_file_path: Seq<char>,
    local_port_number: Seq<char>,
    region: Seq<char>,
    steps: Seq<Move>,
)
    requires
        feasible(connection_start(target, rdp_file_path, local_port_number, region), steps),
    ensures
        ({
            let c = connection_after(
                connection_start(target, rdp_file_path, local_port_number, region),
                steps,
            );
            &&& c.handler_ledger.tunnels_ready <= c.tunnel_ledger.ready_delivered
            &&& c.tunnel_ledger.ready_delivered <= c.tunnel_ledger.plugins
            &&& c.handler_ledger.client_launches <= c.handler_ledger.tunnels_ready
        }),
{
    lemma_connection_in_step(target, rdp_file_path, local_port_number, region, steps);
}

/// The tunnel is not torn down under a client in use: once the tunnel was
/// ready, it leaves its wait only on the handler's request to stop, and it
/// calls to terminate the remote session only when the handler has attempted
/// to launch the client and the supervisor has closed the account of a client
/// that was launched.
pub proof fn law_teardown_only_after_client(
    target: Seq<char>,
    rdp_file_path: Seq<char>,
    local_port_number: Seq<char>,
    region: Seq<char>,
    steps: Seq<Move>,
)
    requires
        feasible(connection_start(target, rdp_file_path, local_port_number, region), steps),
    ensures
        ({
            let c = connection_after(
                connection_start(target, rdp_file_path, local_port_number, region),
                steps,
            );
            &&& c.tunnel_ledger.stop_requests <= c.handler_ledger.stop_requests
            &&& c.tunnel_ledger.plugins == 1 && c.tunnel_ledger.terminations == 1 ==> {
                &&& c.handler_ledger.stop_requests == 1
                &&& c.handler_ledger.client_launches == 1
                &&& client_closures(c.handler_ledger.client) == c.handler_ledger.clients_started
            }
        }),
{
    lemma_connection_in_step(target, rdp_file_path, local_port_number, region, steps);
}

/// The acknowledgement can be relied on: when the handler has received it,
/// the tunnel has seen the request to stop and is terminating the remote
/// session, or is past that.
pub proof fn law_acknowledged_means_tearing_down(
    target: Seq<char>,
    rdp_file_path: Seq<char>,
    local_port_number: Seq<char>,
    region: Seq<char>,
    steps: Seq<Move>,
)
    requires
        feasible(connection_start(target, rdp_file_path, local_port_number, region), steps),
    ensures
        ({
            let c = connection_after(
                connection_start(target, rdp_file_path, local_port_number, region),
                steps,
            );
            c.handler_ledger.stops_acknowledged == 1 ==> c.tunnel_ledger.stop_requests == 1
                && tearing_down(c)
        }),
{
    lemma_connection_in_step(target, rdp_file_path, local_port_number, region, steps);
}

/// A handler that has ended leaves nothing behind: where the tunnel was ready,
/// the handler has ended only after the tunnel has, and by then the remote
/// session has seen its one call to terminate and the forwarding process its
/// one kill; where the tunnel was not ready, the tunnel has ended before the
/// handler too, with every session that it negotiated terminated and no
/// forwarding process running.
pub proof fn law_handler_ends_after_cleanup(
    target: Seq<char>,
    rdp_file_path: Seq<char>,
    local_port_number: Seq<char>,
    region: Seq<char>,
    steps: Seq<Move>,
)
    requires
        feasible(connection_start(target, rdp_file_path, local_port_number, region), steps),
    ensures
        ({
            let c = connection_after(
                connection_start(target, rdp_file_path, local_port_number, region),
                steps,
            );
            c.handler is Finished ==> {
                &&& c.tunnel is Finished
                &&& c.tunnel_ledger.terminations == c.tunnel_ledger.sessions
                &&& c.tunnel_ledger.kills == c.tunnel_ledger.plugins
                &&& c.tunnel_ledger.plugins == c.handler_ledger.tunnels_ready
            }
        }),
{
    lemma_connection_in_step(target, rdp_file_path, local_port_number, region, steps);
}

/// Between two sides that run to their ends, no channel fails once the tunnel
/// is ready: the readiness token is handed over, and a handler that has ended
/// after it has sent its request, has received the acknowledgement and has
/// joined the tunnel's task.
pub proof fn law_channels_hold_between_running_sides(
    target: Seq<char>,
    rdp_file_path: Seq<char>,
    local_port_number: Seq<char>,
    region: Seq<char>,
    steps: Seq<Move>,
)
    requires
        feasible(connection_start(target, rdp_file_path, local_port_number, region), steps),
    ensures
        ({
            let c = connection_after(
                connection_start(target, rdp_file_path, local_port_number, region),
                steps,
            );
            &&& c.tunnel_ledger.ready_delivered == c.tunnel_ledger.ready_signals
            &&& c.handler is Finished && c.handler_ledger.tunnels_ready == 1 ==> {
                &&& c.handler_ledger.stop_requests == 1
                &&& c.handler_ledger.stops_acknowledged == 1
                &&& c.handler_ledger.tunnels_joined == 1
            }
        }),
{
    lemma_connection_in_step(target, rdp_file_path, local_port_number, region, steps);
}

/// Success is success on both sides: where the handler reports success, the
/// tunnel has reported success, the remote session is terminated and the
/// forwarding process is gone, and the client that was launched has had its
/// account closed.
pub proof fn law_success_means_all_is_gone(
    target: Seq<char>,
    rdp_file_path: Seq<char>,
    local_port_number: Seq<char>,
    region: Seq<char>,
    steps: Seq<Move>,
)
    requires
        feasible(connection_start(target, rdp_file_path, local_port_number, region), steps),
    ensures
        ({
            let c = connection_after(
                connection_start(target, rdp_file_path, local_port_number, region),
                steps,
            );
            c.handler matches TaskHandlerView::Finished { outcome: Ok(_) } ==> {
                &&& ended_well(c.tunnel)
                &&& c.tunnel_ledger.sessions_terminated == 1
                &&& c.tunnel_ledger.plugins_killed == 1
                &&& c.handler_ledger.clients_started == 1
                &&& client_closures(c.handler_ledger.client) == 1
            }
        }),
{
    lemma_connection_in_step(target, rdp_file_path, local_port_number, region, steps);
}

/// One more possible step extends a feasible run.
proof fn lemma_one_more(start: Connection, steps: Seq<Move>, step: Move)
    requires
        feasible(start, steps),
        possible(connection_after(start, steps), step),
    ensures
        feasible(start, steps.push(step)),
        connection_after(start, steps.push(step)) == moved(connection_after(start, steps), step),
{
    assert(steps.push(step).drop_last() =~= steps);
}

/// The steps of a connection in which nothing fails and the client exits by
/// itself at the first look.
pub open spec fn plain_sailing(session: SessionHandleView) -> Seq<Move> {
    seq![
        Move::Tunnel(TunnelEventView::SessionNegotiation(Some(session))),
        Move::Tunnel(TunnelEventView::PluginLaunch { spawned: true }),
        Move::Tunnel(TunnelEventView::ReadySignal { delivered: true }),
        Move::Handler(HandlerEventView::TunnelCreated(Ok(SSMTunnelLaunchedMessage { ok: true }))),
        Move::Handler(HandlerEventView::ClientLaunched(Ok(()))),
        Move::Handler(HandlerEventView::Client(ClientEvent::ShutdownChecked { requested: false })),
        Move::Handler(HandlerEventView::Client(ClientEvent::ProcessChecked(ProcessStatus::Exited))),
        Move::Handler(HandlerEventView::Tunnel(StopEventView::RequestSent { delivered: true })),
        Move::Tunnel(TunnelEventView::StopRequest { received: true }),
        Move::Tunnel(TunnelEventView::Acknowledgement { delivered: true }),
        Move::Handler(
            HandlerEventView::Tunnel(StopEventView::AcknowledgementReceived { arrived: true }),
        ),
        Move::Tunnel(TunnelEventView::SessionTermination { terminated: true }),
        Move::Tunnel(TunnelEventView::PluginKill { killed: true }),
        Move::Handler(HandlerEventView::Tunnel(StopEventView::Joined(Some(Ok(()))))),
    ]
}

/// The picture is not empty: for a session whose credentials can be written
/// into the session document, the steps of [`plain_sailing`] are a feasible
/// run, and it ends with success on both sides.
pub proof fn law_a_connection_can_succeed(
    target: Seq<char>,
    rdp_file_path: Seq<char>,
    local_port_number: Seq<char>,
    region: Seq<char>,
    session: SessionHandleView,
)
    requires
        port_forwarding(session, region) is Ok,
    ensures
        ({
            let start = connection_start(target, rdp_file_path, local_port_number, region);
            let end = connection_after(start, plain_sailing(session));
            &&& feasible(start, plain_sailing(session))
            &&& end.handler == (TaskHandlerView::Finished { outcome: Ok(()) })
            &&& ended_well(end.tunnel)
        }),
{
    let start = connection_start(target, rdp_file_path, local_port_number, region);
    let all = plain_sailing(session);
    let done = Seq::<Move>::empty();
    assert(feasible(start, done));
    assert(connection_after(start, done) == start);
    lemma_one_more(start, done, all[0]);
    let s1 = done.push(all[0]);
    lemma_one_more(start, s1, all[1]);
    let s2 = s1.push(all[1]);
    lemma_one_more(start, s2, all[2]);
    let s3 = s2.push(all[2]);
    lemma_one_more(start, s3, all[3]);
    let s4 = s3.push(all[3]);
    lemma_one_more(start, s4, all[4]);
    let s5 = s4.push(all[4]);
    lemma_one_more(start, s5, all[5]);
    let s6 = s5.push(all[5]);
    lemma_one_more(start, s6, all[6]);
    let s7 = s6.push(all[6]);
    lemma_one_more(start, s7, all[7]);
    let s8 = s7.push(all[7]);
    lemma_one_more(start, s8, all[8]);
    let s9 = s8.push(all[8]);
    lemma_one_more(start, s9, all[9]);
    let s10 = s9.push(all[9]);
    lemma_one_more(start, s10, all[10]);
    let s11 = s10.push(all[10]);
    lemma_one_more(start, s11, all[11]);
    let s12 = s11.push(all[11]);
    lemma_one_more(start, s12, all[12]);
    let s13 = s12.push(all[12]);
    lemma_one_more(start, s13, all[13]);
    let s14 = s13.push(all[13]);
    assert(s14 =~= all);
}

} // verus!
