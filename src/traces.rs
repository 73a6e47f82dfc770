//! Facts about whole runs of the connection handler.
use vstd::prelude::*;
use crate::handler::{Action, DisconnectOutcome, Event, Phase, run, step_spec};
use crate::packets::{HandlerError, Hello, Intention, is_supported};

verus! {

/// How many actions of `acts` satisfy `f`.
pub open spec fn count_where(acts: Seq<Action>, f: spec_fn(Action) -> bool) -> nat
    decreases acts.len(),
{
    if acts.len() == 0 {
        0
    } else {
        (if f(acts[0]) { 1nat } else { 0nat }) + count_where(acts.drop_first(), f)
    }
}

/// The action opens a backend connection.
pub open spec fn opens_backend(a: Action) -> bool {
    a is Solicit
}

/// The action starts a handoff: the relay ended because the client left.
pub open spec fn starts_handoff(a: Action) -> bool {
    a == Action::RelayEnded(DisconnectOutcome::ClientDisconnected)
}

/// The action reports the end of a relay.
pub open spec fn ends_relay(a: Action) -> bool {
    a is RelayEnded
}

/// Which side's stream ends first among `events`, if any.
pub open spec fn first_eof(events: Seq<Event>) -> Option<DisconnectOutcome>
    decreases events.len(),
{
    if events.len() == 0 {
        None
    } else {
        match events[0] {
            Event::ClientEof => Some(DisconnectOutcome::ClientDisconnected),
            Event::BackendEof => Some(DisconnectOutcome::BackendDisconnected),
            _ => first_eof(events.drop_first()),
        }
    }
}

/// The bytes read from the client before either stream ends.
pub open spec fn client_bytes(events: Seq<Event>) -> Seq<u8>
    decreases events.len(),
{
    if events.len() == 0 {
        Seq::empty()
    } else {
        match events[0] {
            Event::ClientEof => Seq::empty(),
            Event::BackendEof => Seq::empty(),
            Event::ClientData(v) => v@ + client_bytes(events.drop_first()),
            _ => client_bytes(events.drop_first()),
        }
    }
}

/// The bytes read from the backend before either stream ends.
pub open spec fn backend_bytes(events: Seq<Event>) -> Seq<u8>
    decreases events.len(),
{
    if events.len() == 0 {
        Seq::empty()
    } else {
        match events[0] {
            Event::ClientEof => Seq::empty(),
            Event::BackendEof => Seq::empty(),
            Event::BackendData(v) => v@ + backend_bytes(events.drop_first()),
            _ => backend_bytes(events.drop_first()),
        }
    }
}

/// The bytes that `acts` write to the backend, in order.
pub open spec fn written_to_backend(acts: Seq<Action>) -> Seq<u8>
    decreases acts.len(),
{
    if acts.len() == 0 {
        Seq::empty()
    } else {
        match acts[0] {
            Action::ToBackend(v) => v@ + written_to_backend(acts.drop_first()),
            _ => written_to_backend(acts.drop_first()),
        }
    }
}

/// The bytes that `acts` write to the client, in order.
pub open spec fn written_to_client(acts: Seq<Action>) -> Seq<u8>
    decreases acts.len(),
{
    if acts.len() == 0 {
        Seq::empty()
    } else {
        match acts[0] {
            Action::ToClient(v) => v@ + written_to_client(acts.drop_first()),
            _ => written_to_client(acts.drop_first()),
        }
    }
}

proof fn lemma_run_cons(player: Seq<char>, p: Phase, e: Event, rest: Seq<Event>)
    ensures
        run(player, p, seq![e] + rest) == ({
            let (p1, a) = step_spec(player, p, e);
            let (pn, acts) = run(player, p1, rest);
            (pn, seq![a] + acts)
        }),
{
    let events = seq![e] + rest;
    assert(events[0] == e);
    assert(events.drop_first() =~= rest);
}

proof fn lemma_count_cons(a: Action, acts: Seq<Action>, f: spec_fn(Action) -> bool)
    ensures
        count_where(seq![a] + acts, f) == (if f(a) { 1nat } else { 0nat }) + count_where(acts, f),
{
    let s = seq![a] + acts;
    assert(s[0] == a);
    assert(s.drop_first() =~= acts);
}

proof fn lemma_written_cons(a: Action, acts: Seq<Action>)
    ensures
        written_to_backend(seq![a] + acts) == (match a {
            Action::ToBackend(v) => v@ + written_to_backend(acts),
            _ => written_to_backend(acts),
        }),
        written_to_client(seq![a] + acts) == (match a {
            Action::ToClient(v) => v@ + written_to_client(acts),
            _ => written_to_client(acts),
        }),
{
    let s = seq![a] + acts;
    assert(s[0] == a);
    assert(s.drop_first() =~= acts);
}

proof fn lemma_events_split(events: Seq<Event>)
    requires
        events.len() > 0,
    ensures
        events =~= seq![events[0]] + events.drop_first(),
{
}

/// A closed connection stays closed and does nothing more.
proof fn lemma_closed_quiet(player: Seq<char>, events: Seq<Event>, f: spec_fn(Action) -> bool)
    requires
        !f(Action::Idle),
    ensures
        run(player, Phase::Closed, events).0 == Phase::Closed,
        count_where(run(player, Phase::Closed, events).1, f) == 0,
        written_to_backend(run(player, Phase::Closed, events).1) == Seq::<u8>::empty(),
        written_to_client(run(player, Phase::Closed, events).1) == Seq::<u8>::empty(),
    decreases events.len(),
{
    if events.len() > 0 {
        let rest = events.drop_first();
        lemma_events_split(events);
        lemma_run_cons(player, Phase::Closed, events[0], rest);
        lemma_closed_quiet(player, rest, f);
        let acts = run(player, Phase::Closed, rest).1;
        lemma_count_cons(Action::Idle, acts, f);
        lemma_written_cons(Action::Idle, acts);
    }
}

/// What a relay does over any sequence of events.
proof fn lemma_relaying(player: Seq<char>, events: Seq<Event>)
    ensures
        count_where(run(player, Phase::Relaying, events).1, |a: Action| opens_backend(a)) == 0,
        count_where(run(player, Phase::Relaying, events).1, |a: Action| starts_handoff(a)) == (
        if first_eof(events) == Some(DisconnectOutcome::ClientDisconnected) {
            1nat
        } else {
            0nat
        }),
        count_where(run(player, Phase::Relaying, events).1, |a: Action| ends_relay(a)) == (
        if first_eof(events) is Some {
            1nat
        } else {
            0nat
        }),
        written_to_backend(run(player, Phase::Relaying, events).1) == client_bytes(events),
        written_to_client(run(player, Phase::Relaying, events).1) == backend_bytes(events),
    decreases events.len(),
{
    let fo = |a: Action| opens_backend(a);
    let fh = |a: Action| starts_handoff(a);
    let fe = |a: Action| ends_relay(a);
    if events.len() > 0 {
        let e = events[0];
        let rest = events.drop_first();
        lemma_events_split(events);
        lemma_run_cons(player, Phase::Relaying, e, rest);
        let (p1, a) = step_spec(player, Phase::Relaying, e);
        let acts = run(player, p1, rest).1;
        lemma_count_cons(a, acts, fo);
        lemma_count_cons(a, acts, fh);
        lemma_count_cons(a, acts, fe);
        lemma_written_cons(a, acts);
        if p1 == Phase::Closed {
            lemma_closed_quiet(player, rest, fo);
            lemma_closed_quiet(player, rest, fh);
            lemma_closed_quiet(player, rest, fe);
        } else {
            lemma_relaying(player, rest);
        }
    }
}

/// The action opens a backend connection for someone other than `player`.
pub open spec fn opens_backend_for_other(a: Action, player: Seq<char>) -> bool {
    a matches Action::Solicit(h) && h.username@ != player
}

/// Bounds that hold from any phase: at most one backend connection, never
/// one for another player, at most one relay end; none more once relaying.
proof fn lemma_run_bounds(player: Seq<char>, p: Phase, events: Seq<Event>)
    ensures
        count_where(run(player, p, events).1, |a: Action| opens_backend(a)) <= 1,
        (p == Phase::Relaying || p == Phase::Closed) ==> count_where(
            run(player, p, events).1,
            |a: Action| opens_backend(a),
        ) == 0,
        count_where(run(player, p, events).1, |a: Action| opens_backend_for_other(a, player))
            == 0,
        count_where(run(player, p, events).1, |a: Action| ends_relay(a)) <= 1,
        p == Phase::Closed ==> count_where(run(player, p, events).1, |a: Action| ends_relay(a))
            == 0,
    decreases events.len(),
{
    let fo = |a: Action| opens_backend(a);
    let fx = |a: Action| opens_backend_for_other(a, player);
    let fe = |a: Action| ends_relay(a);
    if events.len() > 0 {
        let e = events[0];
        let rest = events.drop_first();
        lemma_events_split(events);
        lemma_run_cons(player, p, e, rest);
        let (p1, a) = step_spec(player, p, e);
        let acts = run(player, p1, rest).1;
        lemma_count_cons(a, acts, fo);
        lemma_count_cons(a, acts, fx);
        lemma_count_cons(a, acts, fe);
        lemma_run_bounds(player, p1, rest);
        if p == Phase::Relaying {
            lemma_relaying(player, events);
        }
    }
}

/// Over a whole connection, a backend connection is opened at most once and
/// only after the declared name matched the allowed player, and a relay
/// ends at most once.
pub proof fn backend_only_for_player(player: Seq<char>, events: Seq<Event>)
    ensures
        count_where(run(player, Phase::AwaitHandshake, events).1, |a: Action| opens_backend(a))
            <= 1,
        count_where(
            run(player, Phase::AwaitHandshake, events).1,
            |a: Action| opens_backend_for_other(a, player),
        ) == 0,
        count_where(run(player, Phase::AwaitHandshake, events).1, |a: Action| ends_relay(a))
            <= 1,
{
    lemma_run_bounds(player, Phase::AwaitHandshake, events);
}

/// A status query is answered with the status and then a pong carrying the
/// ping's timestamp; the connection then closes and never reaches the backend.
pub proof fn status_exchange(player: Seq<char>, time: u64, rest: Seq<Event>)
    ensures
        ({
            let events = seq![Event::Handshake(Intention::Status), Event::StatusRequest, Event::PingRequest(time)]
                + rest;
            let (p, acts) = run(player, Phase::AwaitHandshake, events);
            &&& p == Phase::Closed
            &&& acts[0] == Action::Idle
            &&& acts[1] == Action::SendStatus
            &&& acts[2] == Action::SendPong(time)
            &&& count_where(acts, |a: Action| opens_backend(a)) == 0
        }),
{
    let f = |a: Action| opens_backend(a);
    let e0 = Event::Handshake(Intention::Status);
    let e1 = Event::StatusRequest;
    let e2 = Event::PingRequest(time);
    let events = seq![e0, e1, e2] + rest;
    let r2 = seq![e2] + rest;
    let r1 = seq![e1] + r2;
    assert(events =~= seq![e0] + r1);
    lemma_run_cons(player, Phase::AwaitHandshake, e0, r1);
    lemma_run_cons(player, Phase::AwaitStatusRequest, e1, r2);
    lemma_run_cons(player, Phase::AwaitPing, e2, rest);
    lemma_closed_quiet(player, rest, f);
    let a3 = run(player, Phase::Closed, rest).1;
    lemma_count_cons(Action::SendPong(time), a3, f);
    lemma_count_cons(Action::SendStatus, seq![Action::SendPong(time)] + a3, f);
    lemma_count_cons(Action::Idle, seq![Action::SendStatus] + (seq![Action::SendPong(time)] + a3), f);
}

/// A handshake that declares neither status nor login ends the connection
/// with an error, and no backend connection is ever opened.
pub proof fn unsupported_intention_closes(player: Seq<char>, i: Intention, rest: Seq<Event>)
    requires
        !is_supported(i),
    ensures
        run(player, Phase::AwaitHandshake, seq![Event::Handshake(i)] + rest).0 == Phase::Closed,
        run(player, Phase::AwaitHandshake, seq![Event::Handshake(i)] + rest).1[0] == Action::Fail(
            HandlerError::UnsupportedIntention(i),
        ),
        count_where(
            run(player, Phase::AwaitHandshake, seq![Event::Handshake(i)] + rest).1,
            |a: Action| opens_backend(a),
        ) == 0,
{
    let f = |a: Action| opens_backend(a);
    lemma_run_cons(player, Phase::AwaitHandshake, Event::Handshake(i), rest);
    lemma_closed_quiet(player, rest, f);
    lemma_count_cons(
        Action::Fail(HandlerError::UnsupportedIntention(i)),
        run(player, Phase::Closed, rest).1,
        f,
    );
}

/// A login whose declared name is not the allowed player gets a disconnect,
/// and no backend connection is ever opened for it.
pub proof fn rejected_player_is_kicked(player: Seq<char>, hello: Hello, rest: Seq<Event>)
    requires
        hello.username@ != player,
    ensures
        run(player, Phase::AwaitHello, seq![Event::Hello(hello)] + rest).0 == Phase::Closed,
        run(player, Phase::AwaitHello, seq![Event::Hello(hello)] + rest).1[0] == Action::Kick,
        count_where(
            run(player, Phase::AwaitHello, seq![Event::Hello(hello)] + rest).1,
            |a: Action| opens_backend(a),
        ) == 0,
{
    let f = |a: Action| opens_backend(a);
    lemma_run_cons(player, Phase::AwaitHello, Event::Hello(hello), rest);
    lemma_closed_quiet(player, rest, f);
    lemma_count_cons(Action::Kick, run(player, Phase::Closed, rest).1, f);
}

/// A login by the allowed player opens exactly one backend connection, and
/// the hello forwarded there is the one the client sent.
pub proof fn accepted_player_solicits_once(player: Seq<char>, hello: Hello, rest: Seq<Event>)
    requires
        hello.username@ == player,
    ensures
        run(player, Phase::AwaitHello, seq![Event::Hello(hello)] + rest).1[0] == Action::Solicit(
            hello,
        ),
        count_where(
            run(player, Phase::AwaitHello, seq![Event::Hello(hello)] + rest).1,
            |a: Action| opens_backend(a),
        ) == 1,
{
    let f = |a: Action| opens_backend(a);
    lemma_run_cons(player, Phase::AwaitHello, Event::Hello(hello), rest);
    lemma_relaying(player, rest);
    lemma_count_cons(Action::Solicit(hello), run(player, Phase::Relaying, rest).1, f);
}

/// A relay ends at most once. The handoff starts exactly once when the
/// client's stream ends before the backend's, and never otherwise.
pub proof fn handoff_follows_client_exit(player: Seq<char>, events: Seq<Event>)
    ensures
        count_where(run(player, Phase::Relaying, events).1, |a: Action| starts_handoff(a)) == (
        if first_eof(events) == Some(DisconnectOutcome::ClientDisconnected) {
            1nat
        } else {
            0nat
        }),
        count_where(run(player, Phase::Relaying, events).1, |a: Action| ends_relay(a)) <= 1,
{
    lemma_relaying(player, events);
}

/// A relay writes to each side exactly the bytes read from the other, in
/// order, up to the end of either stream.
pub proof fn relay_forwards_in_order(player: Seq<char>, events: Seq<Event>)
    ensures
        written_to_backend(run(player, Phase::Relaying, events).1) == client_bytes(events),
        written_to_client(run(player, Phase::Relaying, events).1) == backend_bytes(events),
{
    lemma_relaying(player, events);
}

/// How the bytes are cut into reads does not change what a relay writes:
/// two runs that read the same bytes from a side write the same bytes to the
/// other.
pub proof fn relay_ignores_chunking(player: Seq<char>, a: Seq<Event>, b: Seq<Event>)
    ensures
        client_bytes(a) == client_bytes(b) ==> written_to_backend(
            run(player, Phase::Relaying, a).1,
        ) == written_to_backend(run(player, Phase::Relaying, b).1),
        backend_bytes(a) == backend_bytes(b) ==> written_to_client(
            run(player, Phase::Relaying, a).1,
        ) == written_to_client(run(player, Phase::Relaying, b).1),
{
    lemma_relaying(player, a);
    lemma_relaying(player, b);
}

} // verus!
