//! What holds of the coordinator whatever happens to it.

use vstd::prelude::*;
use crate::control::{DeviceView, WsMessageView};
use crate::input_simulator::Injection;
use crate::keys::key_of_code;
use crate::machine::{
    consistent, initial, on_inbound_first, on_peer_message, refusal, step, ActionView, Clock,
    CoordinatorView, EventView, PendingView,
};
use crate::peers::{
    first_with_ip, has_fresh_id, has_id, has_ip, heard_recently, in_order, lemma_observed,
    lemma_pruned_ids, lemma_table_counts_recent, recent_ids, table_after, Sighting,
};
use crate::protocol::MessageView;

verus! {

/// The state after the events of `run`, from the start.
pub open spec fn after(local: DeviceView, run: Seq<(EventView, Clock)>) -> CoordinatorView
    decreases run.len(),
{
    if run.len() == 0 {
        initial(local)
    } else {
        step(after(local, run.drop_last()), run.last().0, run.last().1).0
    }
}

/// No event breaks the agreement of the slots and the peer table.
pub proof fn lemma_step_keeps_consistent(s: CoordinatorView, e: EventView, clock: Clock)
    requires
        consistent(s),
    ensures
        consistent(step(s, e, clock).0),
{
    match e {
        EventView::Datagram { message, from_ip } => {
            match message {
                MessageView::Discovery { id, name, port } => {
                    let device = DeviceView { id, name, ip: from_ip, device_type: "DESKTOP"@ };
                    lemma_observed(s.peers, device, clock.now);
                },
                _ => {},
            }
        },
        EventView::Ui { command, fresh } => {
            match command {
                WsMessageView::StartDiscovery => {
                    lemma_pruned_ids(s.peers, clock.now);
                    if has_fresh_id(s.peers, s.local.id, clock.now) {
                        let k = choose|k: int|
                            0 <= k < s.peers.len() && #[trigger] s.peers[k].device.id == s.local.id
                                && crate::peers::fresh(s.peers[k], clock.now);
                        assert(has_id(s.peers, s.local.id));
                    }
                },
                _ => {},
            }
        },
        _ => {},
    }
}

/// At every point in time there is at most one outgoing request and at
/// most one pending inbound request, which their slots can hold no more
/// of, and while there is a session there is neither. Capture runs only
/// during a session.
pub proof fn lemma_always_consistent(local: DeviceView, run: Seq<(EventView, Clock)>)
    ensures
        consistent(after(local, run)),
        after(local, run).session is Some ==> after(local, run).outgoing is None && after(
            local,
            run,
        ).pending is None,
        after(local, run).capturing ==> after(local, run).session is Some,
    decreases run.len(),
{
    if run.len() > 0 {
        lemma_always_consistent(local, run.drop_last());
        lemma_step_keeps_consistent(after(local, run.drop_last()), run.last().0, run.last().1);
    }
}

/// Whether `a` writes an answer to a request on the connection `conn`.
pub open spec fn is_answer(a: ActionView, conn: u64) -> bool {
    a matches ActionView::Send { conn: c, message: MessageView::ConnectResponse { success } }
        && c == conn
}

/// Whether `actions` answer the connection `conn` exactly once, and do not
/// let go of it before.
pub open spec fn answered_once(actions: Seq<ActionView>, conn: u64) -> bool {
    exists|i: int|
        {
            &&& 0 <= i < actions.len()
            &&& #[trigger] is_answer(actions[i], conn)
            &&& forall|j: int|
                0 <= j < actions.len() && #[trigger] is_answer(actions[j], conn) ==> j == i
            &&& forall|j: int|
                0 <= j < i ==> #[trigger] actions[j] != (ActionView::Close { conn })
        }
}

/// Whether `actions` hold no answer to the connection `conn`.
pub open spec fn unanswered(actions: Seq<ActionView>, conn: u64) -> bool {
    forall|j: int| 0 <= j < actions.len() ==> !#[trigger] is_answer(actions[j], conn)
}

/// Whether the connection `conn` holds the pending request of `s`.
pub open spec fn is_pending(s: CoordinatorView, conn: u64) -> bool {
    s.pending matches Some(p) && p.conn == conn
}

/// Whether `e` brings a request on the connection `conn`.
pub open spec fn brings_request(e: EventView, conn: u64) -> bool {
    e matches EventView::InboundFirst { conn: c, message: MessageView::ConnectRequest, .. } && c
        == conn
}

/// Whether the handles in `s` and `e` are told apart: the attempt and the
/// pending connection differ, and a handle that `e` brings in is new.
pub open spec fn handles_apart(s: CoordinatorView, e: EventView) -> bool {
    &&& s.outgoing matches Some(o) ==> !is_pending(s, o.attempt)
    &&& e matches EventView::InboundFirst { conn, .. } ==> !is_pending(s, conn)
}

/// Every request that comes in is answered exactly once, and before its
/// connection is let go of: in the step in which a connection brings a
/// request and does not become the pending one, or in which it ceases to
/// be the pending one. In no other step is it answered.
pub proof fn lemma_one_answer(s: CoordinatorView, e: EventView, clock: Clock, conn: u64)
    requires
        consistent(s),
        handles_apart(s, e),
    ensures
        (is_pending(s, conn) || brings_request(e, conn)) && !is_pending(step(s, e, clock).0, conn)
            ==> answered_once(step(s, e, clock).1, conn),
        !(is_pending(s, conn) || brings_request(e, conn)) || is_pending(step(s, e, clock).0, conn)
            ==> unanswered(step(s, e, clock).1, conn),
{
    let acts = step(s, e, clock).1;
    let leaves = (is_pending(s, conn) || brings_request(e, conn)) && !is_pending(
        step(s, e, clock).0,
        conn,
    );
    match e {
        EventView::Ui { command, fresh } => {
            match command {
                WsMessageView::AcceptConnection { target_device_id } => {
                    if leaves {
                        let i = acts.len() - 3;
                        assert(is_answer(acts[i], conn));
                    }
                },
                WsMessageView::RejectConnection { target_device_id } => {
                    if leaves {
                        assert(is_answer(acts[0], conn));
                    }
                },
                _ => {},
            }
        },
        EventView::InboundFirst { conn: c, message, remote_ip } => {
            if leaves {
                assert(is_answer(acts[0], conn));
            }
        },
        EventView::InboundClosed { conn: c } => {
            if leaves {
                assert(is_answer(acts[0], conn));
            }
        },
        EventView::Tick => {
            if leaves {
                assert(is_answer(acts[0], conn));
            }
        },
        EventView::AttemptEnded { attempt, outcome } => {
            if leaves {
                assert(is_answer(acts[0], conn));
            }
        },
        _ => {},
    }
}

/// How many answers to the connection `conn` are among `actions`.
pub open spec fn count_answers(actions: Seq<ActionView>, conn: u64) -> nat
    decreases actions.len(),
{
    if actions.len() == 0 {
        0
    } else {
        count_answers(actions.drop_last(), conn) + if is_answer(actions.last(), conn) {
            1nat
        } else {
            0nat
        }
    }
}

/// How many answers to the connection `conn` the events of `run` led to.
pub open spec fn answers_during(local: DeviceView, run: Seq<(EventView, Clock)>, conn: u64) -> nat
    decreases run.len(),
{
    if run.len() == 0 {
        0
    } else {
        answers_during(local, run.drop_last(), conn) + count_answers(
            step(after(local, run.drop_last()), run.last().0, run.last().1).1,
            conn,
        )
    }
}

/// How many requests the events of `run` brought on the connection `conn`.
pub open spec fn requests_during(run: Seq<(EventView, Clock)>, conn: u64) -> nat
    decreases run.len(),
{
    if run.len() == 0 {
        0
    } else {
        requests_during(run.drop_last(), conn) + if brings_request(run.last().0, conn) {
            1nat
        } else {
            0nat
        }
    }
}

/// Whether the handles were told apart at every event of `run`.
pub open spec fn apart_throughout(local: DeviceView, run: Seq<(EventView, Clock)>) -> bool
    decreases run.len(),
{
    run.len() > 0 ==> apart_throughout(local, run.drop_last()) && handles_apart(
        after(local, run.drop_last()),
        run.last().0,
    )
}

proof fn lemma_count_none(actions: Seq<ActionView>, conn: u64)
    requires
        unanswered(actions, conn),
    ensures
        count_answers(actions, conn) == 0,
    decreases actions.len(),
{
    if actions.len() > 0 {
        assert(!is_answer(actions[actions.len() - 1], conn));
        assert forall|j: int| 0 <= j < actions.drop_last().len() implies !#[trigger] is_answer(
            actions.drop_last()[j],
            conn,
        ) by {
            assert(!is_answer(actions[j], conn));
        }
        lemma_count_none(actions.drop_last(), conn);
    }
}

proof fn lemma_count_one(actions: Seq<ActionView>, conn: u64)
    requires
        answered_once(actions, conn),
    ensures
        count_answers(actions, conn) == 1,
    decreases actions.len(),
{
    let i = choose|i: int|
        {
            &&& 0 <= i < actions.len()
            &&& #[trigger] is_answer(actions[i], conn)
            &&& forall|j: int|
                0 <= j < actions.len() && #[trigger] is_answer(actions[j], conn) ==> j == i
            &&& forall|j: int|
                0 <= j < i ==> #[trigger] actions[j] != (ActionView::Close { conn })
        };
    let front = actions.drop_last();
    if i == actions.len() - 1 {
        assert forall|j: int| 0 <= j < front.len() implies !#[trigger] is_answer(
            front[j],
            conn,
        ) by {
            if is_answer(actions[j], conn) {
                assert(j == i);
            }
        }
        lemma_count_none(front, conn);
    } else {
        assert(is_answer(front[i], conn));
        assert forall|j: int| 0 <= j < front.len() && #[trigger] is_answer(
            front[j],
            conn,
        ) implies j == i by {
            assert(is_answer(actions[j], conn));
        }
        assert forall|j: int| 0 <= j < i implies #[trigger] front[j] != (ActionView::Close {
            conn,
        }) by {
            assert(actions[j] != (ActionView::Close { conn }));
        }
        assert(answered_once(front, conn));
        lemma_count_one(front, conn);
        if is_answer(actions[actions.len() - 1], conn) {
            assert(actions.len() - 1 == i);
        }
    }
}

/// Every inbound request gets exactly one answer: at every point in time
/// the requests that came in on a connection are as many as the answers
/// it was given, and one more while it holds the pending request.
pub proof fn lemma_requests_answered_once(
    local: DeviceView,
    run: Seq<(EventView, Clock)>,
    conn: u64,
)
    requires
        apart_throughout(local, run),
    ensures
        requests_during(run, conn) == answers_during(local, run, conn) + if is_pending(
            after(local, run),
            conn,
        ) {
            1nat
        } else {
            0nat
        },
    decreases run.len(),
{
    if run.len() > 0 {
        let front = run.drop_last();
        let s = after(local, front);
        let (e, clock) = run.last();
        lemma_requests_answered_once(local, front, conn);
        lemma_always_consistent(local, front);
        lemma_one_answer(s, e, clock, conn);
        let acts = step(s, e, clock).1;
        if (is_pending(s, conn) || brings_request(e, conn)) && !is_pending(
            step(s, e, clock).0,
            conn,
        ) {
            lemma_count_one(acts, conn);
        } else {
            lemma_count_none(acts, conn);
        }
    }
}

/// A second request supersedes the first: the first is refused and let go
/// of, the user interface hears that the first device's request is gone
/// and is shown the second, and the second is the pending one.
pub proof fn lemma_newer_request_supersedes(
    s: CoordinatorView,
    first: PendingView,
    conn: u64,
    remote_ip: Seq<char>,
    now: u64,
)
    requires
        consistent(s),
        s.session is None,
        s.pending == Some(first),
        has_ip(s.peers, remote_ip),
    ensures
        ({
            let (t, actions) = on_inbound_first(
                s,
                conn,
                MessageView::ConnectRequest,
                remote_ip,
                now,
            );
            &&& t.pending matches Some(p) && p.conn == conn && p.since == now && p.device.ip
                == remote_ip && has_id(s.peers, p.device.id)
            &&& actions == seq![
                refusal(first.conn),
                ActionView::Close { conn: first.conn },
                ActionView::Notify(
                    WsMessageView::ConnectionRequestCancelled { device_id: first.device.id },
                ),
                ActionView::Notify(
                    WsMessageView::ConnectionRequest { device: t.pending->0.device },
                ),
            ]
        }),
{
    let (t, actions) = on_inbound_first(s, conn, MessageView::ConnectRequest, remote_ip, now);
    let k = choose|k: int| 0 <= k < s.peers.len() && #[trigger] s.peers[k].device.ip == remote_ip;
    lemma_first_with_ip(s.peers, remote_ip, k);
    let i = choose|i: int| first_with_ip(s.peers, remote_ip, i);
    assert(s.peers[i].device.id == s.peers[i].device.id);
    assert(actions =~= seq![
        refusal(first.conn),
        ActionView::Close { conn: first.conn },
        ActionView::Notify(WsMessageView::ConnectionRequestCancelled { device_id: first.device.id }),
        ActionView::Notify(WsMessageView::ConnectionRequest { device: t.pending->0.device }),
    ]);
}

proof fn lemma_first_with_ip(s: Seq<crate::peers::PeerView>, ip: Seq<char>, k: int)
    requires
        0 <= k < s.len(),
        s[k].device.ip == ip,
    ensures
        exists|i: int| first_with_ip(s, ip, i),
    decreases k,
{
    if exists|j: int| 0 <= j < k && #[trigger] s[j].device.ip == ip {
        let j = choose|j: int| 0 <= j < k && #[trigger] s[j].device.ip == ip;
        lemma_first_with_ip(s, ip, j);
    } else {
        assert(first_with_ip(s, ip, k));
    }
}

/// Whether `a` sends or injects a motion by nothing.
pub open spec fn is_zero_motion(a: ActionView) -> bool {
    ||| a matches ActionView::Send { message: MessageView::MouseMove { x, y }, .. } && x == 0 && y
        == 0
    ||| a == ActionView::Inject(Injection::MoveRelative { dx: 0, dy: 0 })
}

/// A motion by nothing is never put on the wire, and never injected.
pub proof fn lemma_zero_motion_suppressed(s: CoordinatorView, e: EventView, clock: Clock)
    ensures
        forall|i: int|
            0 <= i < step(s, e, clock).1.len() ==> !is_zero_motion(
                #[trigger] step(s, e, clock).1[i],
            ),
{
}

/// A key code that names no key is ignored on replay: nothing is injected
/// and the state stays as it is.
pub proof fn lemma_unknown_key_ignored(
    s: CoordinatorView,
    conn: u64,
    key: u32,
    state: bool,
    stamp: u64,
)
    requires
        key_of_code(key) is None,
    ensures
        on_peer_message(s, conn, MessageView::KeyPress { key, state }, stamp).0 == s,
        forall|i: int|
            0 <= i < on_peer_message(s, conn, MessageView::KeyPress { key, state }, stamp).1.len()
                ==> !(#[trigger] on_peer_message(
                s,
                conn,
                MessageView::KeyPress { key, state },
                stamp,
            ).1[i] is Inject),
{
}

/// The announce that an event brings, with the time it came at.
pub open spec fn sighting_of(e: EventView, clock: Clock) -> Option<Sighting> {
    match e {
        EventView::Datagram { message: MessageView::Discovery { id, name, port }, from_ip } => Some(
            Sighting {
                device: DeviceView { id, name, ip: from_ip, device_type: "DESKTOP"@ },
                at: clock.now,
            },
        ),
        _ => None,
    }
}

/// The announces that the events of `run` brought, in their order.
pub open spec fn sightings(run: Seq<(EventView, Clock)>) -> Seq<Sighting>
    decreases run.len(),
{
    if run.len() == 0 {
        Seq::empty()
    } else {
        match sighting_of(run.last().0, run.last().1) {
            Some(sighting) => sightings(run.drop_last()).push(sighting),
            None => sightings(run.drop_last()),
        }
    }
}

/// Whether no event of `run` asks for the list of peers, which prunes the
/// table.
pub open spec fn without_listing(run: Seq<(EventView, Clock)>) -> bool {
    forall|i: int|
        0 <= i < run.len() ==> !((#[trigger] run[i]).0 matches EventView::Ui {
            command: WsMessageView::StartDiscovery,
            ..
        })
}

/// The coordinator's peer table is made of the announces it was given and
/// of nothing else: until the list of peers is asked for, it is the table
/// after those announces.
pub proof fn lemma_peers_follow_announces(local: DeviceView, run: Seq<(EventView, Clock)>)
    requires
        without_listing(run),
    ensures
        after(local, run).peers == table_after(local.id, sightings(run)),
        after(local, run).local == local,
    decreases run.len(),
{
    if run.len() > 0 {
        let front = run.drop_last();
        assert forall|i: int| 0 <= i < front.len() implies !((#[trigger] front[i]).0 matches EventView::Ui {
            command: WsMessageView::StartDiscovery,
            ..
        }) by {
            assert(front[i] == run[i]);
        }
        lemma_peers_follow_announces(local, front);
        let (e, clock) = run.last();
        assert(run[run.len() - 1] == run.last());
        match sighting_of(e, clock) {
            Some(sighting) => {
                assert(sightings(run).drop_last() =~= sightings(front));
                assert(sightings(run).last() == sighting);
            },
            None => {},
        }
    }
}

/// When the list of peers is asked for at `now`, after announces that
/// came in the order of their times, the table that is listed holds each
/// device that was heard in the last ten seconds once, and no other: its
/// size is the number of their identifiers, this host's not counted.
pub proof fn lemma_listed_peers_are_the_recent_ones(
    local: DeviceView,
    run: Seq<(EventView, Clock)>,
    fresh: u64,
    clock: Clock,
)
    requires
        without_listing(run),
        in_order(sightings(run), clock.now),
    ensures
        ({
            let listed = step(
                after(local, run),
                EventView::Ui { command: WsMessageView::StartDiscovery, fresh },
                clock,
            );
            &&& listed.0.peers.len() == recent_ids(local.id, sightings(run), clock.now).len()
            &&& listed.1.len() == listed.0.peers.len()
            &&& forall|id: Seq<char>|
                has_id(listed.0.peers, id) <==> heard_recently(
                    local.id,
                    sightings(run),
                    clock.now,
                    id,
                )
        }),
{
    lemma_peers_follow_announces(local, run);
    lemma_table_counts_recent(local.id, sightings(run), clock.now);
}

} // verus!
