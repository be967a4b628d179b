//! What is proved of the state machine as a whole.
//!
//! The handlers of [`crate::context::Context`] each say what one event does.
//! The theorems here say what follows over several events: that the reachable
//! states are the well-formed ones, that the bytes owed to the collector reach
//! the socket in order, each once, and that reconnection is attempted at a
//! fixed pace and always begins a new session.
use crate::context::{spec_handshake, Action, ConnectionView, ContextView, Event, CONTENT_TYPE};
use crate::frame::{
    framable, law_roundtrip, spec_closing, spec_data_frame, spec_data_frames, spec_decode,
    spec_session, SessionView,
};
use vstd::prelude::*;
use vstd::string::StringSliceAdditionalSpecFns;

verus! {

/// The bytes that the collector is still owed on the present connection, in
/// the order in which the socket will see them: what is unsent, then the
/// frames of the records that wait.
pub open spec fn outstanding(state: ContextView) -> Seq<u8> {
    state.unsent() + spec_data_frames(state.queue)
}

/// The bytes that the socket took when the reactor reports `event`: for a
/// report of `n` written bytes, the first `n` of the unsent bytes, or all of
/// them if there are fewer; for any other event, none.
pub open spec fn accepted(state: ContextView, event: Event) -> Seq<u8> {
    match event {
        Event::Written(n) => if n <= state.unsent().len() {
            state.unsent().take(n as int)
        } else {
            state.unsent()
        },
        _ => Seq::empty(),
    }
}

/// The state after a sequence of events, and the action that answered each.
pub open spec fn run(state: ContextView, events: Seq<Event>) -> (ContextView, Seq<Action>)
    decreases events.len(),
{
    if events.len() == 0 {
        (state, Seq::empty())
    } else {
        let first = state.step(events[0]);
        let rest = run(first.0, events.skip(1));
        (rest.0, seq![first.1] + rest.1)
    }
}

/// The events of `failures` connection attempts that fail, each begun by the
/// timer, and of the timer expiring once more after the last.
pub open spec fn failed_attempts(failures: nat) -> Seq<Event>
    decreases failures,
{
    if failures == 0 {
        seq![Event::TimerExpired]
    } else {
        seq![Event::TimerExpired, Event::ConnectFailed] + failed_attempts((failures - 1) as nat)
    }
}

/// `failures` times a dial and a retry after `delay_secs`, then one more dial.
pub open spec fn dials_and_retries(failures: nat, delay_secs: u64) -> Seq<Action>
    decreases failures,
{
    if failures == 0 {
        seq![Action::Dial]
    } else {
        seq![Action::Dial, Action::ArmRetry(delay_secs)] + dials_and_retries(
            (failures - 1) as nat,
            delay_secs,
        )
    }
}

/// How often `action` occurs in `actions`.
pub open spec fn occurrences(actions: Seq<Action>, action: Action) -> nat
    decreases actions.len(),
{
    if actions.len() == 0 {
        0
    } else {
        occurrences(actions.drop_last(), action) + if actions.last() == action {
            1nat
        } else {
            0nat
        }
    }
}

/// Every event, every offered record and the end of the service lead from a
/// well-formed state to a well-formed state: the queue stays within its
/// capacity, and no retry is pending while a connection is up.
pub proof fn law_invariant(state: ContextView, event: Event, payload: Seq<u8>)
    requires
        state.inv(),
    ensures
        state.step(event).0.inv(),
        state.enqueue(payload).0.inv(),
        state.finish().0.inv(),
{
}

/// What was configured stays as it was: no event, no offered record and not
/// the end of the service changes the capacity of the queue, the retry delay
/// or the socket path.
pub proof fn law_configuration_is_fixed(state: ContextView, event: Event, payload: Seq<u8>)
    ensures
        same_configuration(state, state.step(event).0),
        same_configuration(state, state.enqueue(payload).0),
        same_configuration(state, state.finish().0),
{
}

/// Whether two states were configured alike.
pub open spec fn same_configuration(before: ContextView, after: ContextView) -> bool {
    &&& after.capacity == before.capacity
    &&& after.retry_delay_secs == before.retry_delay_secs
    &&& after.unix_socket_path == before.unix_socket_path
}

/// There is at most one deadline. The retry timer is armed only when no
/// retry is pending, always with the configured delay, and always into a
/// state without a connection; from then on a retry is pending, until the
/// timer expires or the service ends.
pub proof fn law_one_deadline(state: ContextView, event: Event)
    ensures
        state.step(event).1 matches Action::ArmRetry(secs) ==> {
            &&& secs == state.retry_delay_secs
            &&& !state.retry_pending
            &&& state.step(event).0.retry_pending
            &&& state.step(event).0.connection is Disconnected
        },
        state.retry_pending && !(event is TimerExpired) && !(event is Connected) ==> {
            &&& state.step(event).0.retry_pending
            &&& !(state.step(event).1 is ArmRetry)
        },
        !state.step(Event::TimerExpired).0.retry_pending,
        !state.finish().0.retry_pending,
{
}

/// The frames of a queue with one more record at its back are the frames of
/// the queue and then the frame of that record.
pub proof fn lemma_frames_push(queue: Seq<Seq<u8>>, payload: Seq<u8>)
    ensures
        spec_data_frames(queue.push(payload)) == spec_data_frames(queue) + spec_data_frame(
            payload,
        ),
    decreases queue.len(),
{
    if queue.len() == 0 {
        let one = queue.push(payload);
        assert(one.skip(1) =~= Seq::<Seq<u8>>::empty());
        assert(one[0] == payload);
        assert(spec_data_frames(one.skip(1)) =~= Seq::<u8>::empty());
        assert(spec_data_frames(one) =~= spec_data_frame(payload));
        assert(spec_data_frames(queue) + spec_data_frame(payload) =~= spec_data_frame(payload));
    } else {
        lemma_frames_push(queue.skip(1), payload);
        assert(queue.push(payload).skip(1) =~= queue.skip(1).push(payload));
        assert(spec_data_frames(queue.push(payload)) =~= spec_data_frames(queue)
            + spec_data_frame(payload));
    }
}

/// While the connection stays up, nothing is lost and nothing is repeated.
/// Whatever the reactor reports, other than a new connection, the bytes owed
/// before are the bytes that the socket took in this step followed by the
/// bytes owed afterwards. This holds in particular of a write that stalls and
/// of the writability that follows it: the socket takes nothing, and what is
/// owed stays what it was.
pub proof fn law_nothing_lost_or_repeated(state: ContextView, event: Event)
    requires
        state.connection is Connected,
        !(event is Connected),
        state.step(event).0.connection is Connected,
    ensures
        outstanding(state) == accepted(state, event) + outstanding(state.step(event).0),
{
    let next = state.step(event).0;
    let unsent = state.unsent();
    assert(state.queue.len() > 0 ==> spec_data_frames(state.queue) == spec_data_frame(
        state.queue[0],
    ) + spec_data_frames(state.queue.skip(1)));
    match event {
        Event::Written(n) => {
            let taken = accepted(state, event);
            assert(unsent =~= taken + unsent.skip(taken.len() as int));
            assert(outstanding(state) =~= taken + outstanding(next));
        },
        _ => {
            assert(outstanding(state) =~= accepted(state, event) + outstanding(next));
        },
    }
}

/// A record that the queue accepts is owed to the collector after
/// everything that was owed before: records are delivered in the order in
/// which they were accepted.
pub proof fn law_enqueue_appends(state: ContextView, payload: Seq<u8>)
    requires
        state.enqueue(payload).1,
    ensures
        outstanding(state.enqueue(payload).0) == outstanding(state) + spec_data_frame(payload),
{
    lemma_frames_push(state.queue, payload);
    assert(outstanding(state.enqueue(payload).0) =~= outstanding(state) + spec_data_frame(
        payload,
    ));
}

/// A write that stalls midway is resumed, not repeated. Let the socket take
/// the first `k` unsent bytes, then stall, then signal writability. The
/// reactor offers the rest at once after the partial write, waits for
/// writability after the stall, and offers again when it is signalled. What
/// it offers then is exactly what was left; the queue has not been touched;
/// and the two parts that the socket takes make up what was unsent, once.
pub proof fn law_stalled_write_resumes(state: ContextView, k: usize)
    requires
        state.connection is Connected,
        0 < k < state.unsent().len(),
    ensures
        ({
            let partial = state.step(Event::Written(k));
            let stalled = partial.0.step(Event::WriteStalled);
            let resumed = stalled.0.step(Event::Socket { hup: false, error: false });
            &&& partial.1 == Action::Write
            &&& stalled.1 == Action::AwaitWritable
            &&& resumed.1 == Action::Write
            &&& resumed.0.unsent() == state.unsent().skip(k as int)
            &&& resumed.0.queue == state.queue
            &&& accepted(state, Event::Written(k)) + resumed.0.unsent() == state.unsent()
        }),
{
    let unsent = state.unsent();
    assert(unsent.take(k as int) + unsent.skip(k as int) =~= unsent);
}

/// Unfolds `run` over two leading events.
proof fn lemma_run_two(state: ContextView, first: Event, second: Event, rest: Seq<Event>)
    ensures
        ({
            let one = state.step(first);
            let two = one.0.step(second);
            let tail = run(two.0, rest);
            run(state, seq![first, second] + rest) == (tail.0, seq![one.1, two.1] + tail.1)
        }),
{
    let events = seq![first, second] + rest;
    let one = state.step(first);
    let two = one.0.step(second);
    let tail = run(two.0, rest);
    assert(events[0] == first);
    assert(events.skip(1)[0] == second);
    assert(events.skip(1).skip(1) =~= rest);
    assert(run(one.0, events.skip(1)) == (tail.0, seq![two.1] + tail.1));
    assert(seq![one.1] + (seq![two.1] + tail.1) =~= seq![one.1, two.1] + tail.1);
}

/// The actions of `failures` failed attempts hold one dial more than they
/// hold retries.
proof fn lemma_count_dials(failures: nat, delay_secs: u64)
    ensures
        dials_and_retries(failures, delay_secs).len() == 2 * failures + 1,
        occurrences(dials_and_retries(failures, delay_secs), Action::Dial) == failures + 1,
        occurrences(dials_and_retries(failures, delay_secs), Action::ArmRetry(delay_secs))
            == failures,
        forall|i: int|
            0 <= i < 2 * failures + 1 ==> #[trigger] dials_and_retries(failures, delay_secs)[i]
                == if i % 2 == 0 {
                Action::Dial
            } else {
                Action::ArmRetry(delay_secs)
            },
    decreases failures,
{
    let actions = dials_and_retries(failures, delay_secs);
    if failures == 0 {
        assert(actions.drop_last() =~= Seq::<Action>::empty());
        reveal_with_fuel(occurrences, 2);
    } else {
        let fewer = dials_and_retries((failures - 1) as nat, delay_secs);
        lemma_count_dials((failures - 1) as nat, delay_secs);
        let head = seq![Action::Dial, Action::ArmRetry(delay_secs)];
        assert(actions == head + fewer);
        lemma_occurrences_concat(head, fewer, Action::Dial);
        lemma_occurrences_concat(head, fewer, Action::ArmRetry(delay_secs));
        assert(head.drop_last() =~= seq![Action::Dial]);
        assert(head.drop_last().drop_last() =~= Seq::<Action>::empty());
        reveal_with_fuel(occurrences, 3);
        assert(occurrences(head, Action::Dial) == 1);
        assert(occurrences(head, Action::ArmRetry(delay_secs)) == 1);
        assert forall|i: int| 0 <= i < 2 * failures + 1 implies #[trigger] actions[i] == if i % 2
            == 0 {
            Action::Dial
        } else {
            Action::ArmRetry(delay_secs)
        } by {
            if i >= 2 {
                assert(actions[i] == fewer[i - 2]);
            }
        }
    }
}

/// Occurrences add up over concatenation.
proof fn lemma_occurrences_concat(left: Seq<Action>, right: Seq<Action>, action: Action)
    ensures
        occurrences(left + right, action) == occurrences(left, action) + occurrences(
            right,
            action,
        ),
    decreases right.len(),
{
    if right.len() == 0 {
        assert(left + right =~= left);
    } else {
        lemma_occurrences_concat(left, right.drop_last(), action);
        assert((left + right).drop_last() =~= left + right.drop_last());
    }
}

/// Reconnection keeps a fixed pace. From a disconnected state, let
/// `failures` attempts in a row fail, each begun when the timer expires, and
/// let the timer expire once more. The reactor answers every expiry with a
/// dial and every failure with a retry after the configured delay, the same
/// each time: `failures + 1` dials and `failures` retries in all, in turn.
/// The state at the end is disconnected still, with the same delay.
pub proof fn law_retry_pace(state: ContextView, failures: nat)
    requires
        state.connection is Disconnected,
    ensures
        run(state, failed_attempts(failures)).1 == dials_and_retries(
            failures,
            state.retry_delay_secs,
        ),
        occurrences(run(state, failed_attempts(failures)).1, Action::Dial) == failures + 1,
        occurrences(
            run(state, failed_attempts(failures)).1,
            Action::ArmRetry(state.retry_delay_secs),
        ) == failures,
        forall|i: int|
            0 <= i < 2 * failures + 1 ==> #[trigger] run(state, failed_attempts(failures)).1[i]
                == if i % 2 == 0 {
                Action::Dial
            } else {
                Action::ArmRetry(state.retry_delay_secs)
            },
        run(state, failed_attempts(failures)).0.connection is Disconnected,
        run(state, failed_attempts(failures)).0.retry_delay_secs == state.retry_delay_secs,
        run(state, failed_attempts(failures)).0.queue == state.queue,
{
    lemma_run_pace(state, failures);
    lemma_count_dials(failures, state.retry_delay_secs);
}

/// The induction behind `law_retry_pace`.
proof fn lemma_run_pace(state: ContextView, failures: nat)
    requires
        state.connection is Disconnected,
    ensures
        run(state, failed_attempts(failures)).1 == dials_and_retries(
            failures,
            state.retry_delay_secs,
        ),
        run(state, failed_attempts(failures)).0.connection is Disconnected,
        run(state, failed_attempts(failures)).0.retry_delay_secs == state.retry_delay_secs,
        run(state, failed_attempts(failures)).0.queue == state.queue,
    decreases failures,
{
    if failures == 0 {
        let events = failed_attempts(0);
        assert(events.skip(1) =~= Seq::<Event>::empty());
        reveal_with_fuel(run, 2);
        assert(run(state, events).1 =~= seq![Action::Dial]);
    } else {
        let rest = failed_attempts((failures - 1) as nat);
        let failed = state.step(Event::TimerExpired).0.step(Event::ConnectFailed).0;
        lemma_run_two(state, Event::TimerExpired, Event::ConnectFailed, rest);
        lemma_run_pace(failed, (failures - 1) as nat);
    }
}

/// A lost connection is followed by a new session, not by a resumed one.
/// Let the connection be lost, by a hangup, a socket error or a failed
/// write; let the timer expire and the next attempt succeed. The reactor arms
/// the retry timer with the configured delay, dials, and waits for
/// writability. The new connection starts with the handshake and nothing
/// else: what the old one had not sent is gone for good, and the records that
/// waited in the queue wait there still, to follow the handshake.
pub proof fn law_reconnect_opens_session(state: ContextView, lost: Event)
    requires
        state.inv(),
        state.connection is Connected,
        lost == Event::WriteFailed || (lost matches Event::Socket { hup, error } && (hup
            || error)),
    ensures
        run(state, seq![lost, Event::TimerExpired, Event::Connected]) == (
            ContextView {
                connection: ConnectionView::Connected { unsent: spec_handshake() },
                ..state
            },
            seq![
                Action::ArmRetry(state.retry_delay_secs),
                Action::Dial,
                Action::AwaitWritable,
            ],
        ),
        outstanding(run(state, seq![lost, Event::TimerExpired, Event::Connected]).0)
            == spec_handshake() + spec_data_frames(state.queue),
{
    let events = seq![lost, Event::TimerExpired, Event::Connected];
    assert(events =~= seq![lost, Event::TimerExpired] + seq![Event::Connected]);
    lemma_run_two(state, lost, Event::TimerExpired, seq![Event::Connected]);
    let down = state.step(lost).0.step(Event::TimerExpired).0;
    assert(seq![Event::Connected].skip(1) =~= Seq::<Event>::empty());
    reveal_with_fuel(run, 2);
    let last = run(down, seq![Event::Connected]);
    assert(last.1 =~= seq![Action::AwaitWritable]);
    assert(seq![Action::ArmRetry(state.retry_delay_secs), Action::Dial] + last.1 =~= seq![
        Action::ArmRetry(state.retry_delay_secs),
        Action::Dial,
        Action::AwaitWritable,
    ]);
}

/// The content type of this library is 22 bytes long.
pub proof fn lemma_content_type_len()
    ensures
        CONTENT_TYPE.spec_bytes().len() == 22,
{
    broadcast use vstd::string::is_ascii_spec_bytes;

    reveal_strlit("protobuf:dnstap.Dnstap");
    assert(CONTENT_TYPE@.len() == 22);
    assert(vstd::string::is_ascii(CONTENT_TYPE)) by {
        assert(vstd::utf8::is_ascii_chars(CONTENT_TYPE@));
    }
}

/// What a new connection owes reads back as one session. Right after a
/// connection is made, the bytes owed to the collector are a session of the
/// library's content type whose payloads are the records that wait, in their
/// order, not closed yet: the handshake comes first, then one data frame for
/// each record.
pub proof fn law_session_on_the_wire(state: ContextView)
    requires
        framable(state.queue),
    ensures
        outstanding(state.step(Event::Connected).0) == spec_session(
            CONTENT_TYPE.spec_bytes(),
            state.queue,
            false,
        ),
        spec_decode(outstanding(state.step(Event::Connected).0)) == Some(
            SessionView {
                content_type: CONTENT_TYPE.spec_bytes(),
                payloads: state.queue,
                finished: false,
            },
        ),
{
    lemma_content_type_len();
    law_roundtrip(CONTENT_TYPE.spec_bytes(), state.queue, false);
    assert(outstanding(state.step(Event::Connected).0) =~= spec_session(
        CONTENT_TYPE.spec_bytes(),
        state.queue,
        false,
    ));
}

/// What the reactor is waiting for: which of the three one-shot sources are
/// armed, and which report it owes the state machine at once.
pub struct Watch {
    /// The notification for queue readiness is armed.
    pub queue: bool,
    /// The notification for socket readiness is armed.
    pub socket: bool,
    /// The retry timer is armed.
    pub timer: bool,
    /// `Dial` or `Write` while the outcome of that action is due, else `Idle`.
    pub owed: Action,
}

/// The watch after one turn. The source that fired is disarmed, for every
/// source is one-shot; then the answer arms a source or leaves a report owed.
/// Arming the retry timer drops the socket, which disarms its notification.
pub open spec fn watch_after(watch: Watch, event: Event, action: Action) -> Watch {
    let fired = Watch {
        queue: watch.queue && !(event is QueueReady),
        socket: watch.socket && !(event is Socket),
        timer: watch.timer && !(event is TimerExpired),
        owed: Action::Idle,
    };
    match action {
        Action::Idle => fired,
        Action::Dial => Watch { owed: Action::Dial, ..fired },
        Action::Write => Watch { owed: Action::Write, ..fired },
        Action::AwaitWritable => Watch { socket: true, ..fired },
        Action::AwaitQueue => Watch { queue: true, ..fired },
        Action::ArmRetry(_) => Watch { timer: true, socket: false, ..fired },
    }
}

/// Whether `event` can come next: the outcome of the action whose report is
/// owed, or else the firing of a source that is armed.
pub open spec fn in_turn(watch: Watch, event: Event) -> bool {
    match watch.owed {
        Action::Dial => event is Connected || event is ConnectFailed,
        Action::Write => event is Written || event is WriteStalled || event is WriteFailed,
        _ => match event {
            Event::QueueReady => watch.queue,
            Event::Socket { .. } => watch.socket,
            Event::TimerExpired => watch.timer,
            _ => false,
        },
    }
}

/// What holds of a running service between any two events. The retry timer
/// is armed exactly while a retry is pending, and the socket is watched only
/// while there is a connection. With a connection up, either a write is under
/// way, or the socket is watched, or nothing is unsent and the queue is
/// watched. Without one, either a dial is under way or the retry timer is
/// armed.
pub open spec fn watched(state: ContextView, watch: Watch) -> bool {
    &&& state.inv()
    &&& watch.owed is Idle || watch.owed is Dial || watch.owed is Write
    &&& watch.timer == state.retry_pending
    &&& watch.socket ==> state.connection is Connected
    &&& watch.owed is Write ==> state.connection is Connected
    &&& watch.owed is Dial ==> state.connection is Disconnected && !watch.timer
    &&& state.connection is Connected && !(watch.owed is Write) ==> watch.socket || (watch.queue
        && state.unsent().len() == 0)
    &&& state.connection is Disconnected && !(watch.owed is Dial) ==> watch.timer
}

/// No source is forgotten. A service that has just been started is watched,
/// with the first dial under way; every event that can come next, and every
/// record that is offered in between, leaves it watched. So the reactor never
/// falls silent: at every moment a report is owed or a source is armed, and
/// unsent bytes never wait without the socket being watched.
pub proof fn law_no_source_is_forgotten(
    state: ContextView,
    watch: Watch,
    event: Event,
    payload: Seq<u8>,
)
    requires
        state.inv(),
    ensures
        state.connection is Disconnected && !state.retry_pending ==> watched(
            state.connect().0,
            Watch { queue: true, socket: false, timer: false, owed: state.connect().1 },
        ),
        watched(state, watch) && in_turn(watch, event) ==> watched(
            state.step(event).0,
            watch_after(watch, event, state.step(event).1),
        ),
        watched(state, watch) ==> watched(state.enqueue(payload).0, watch),
        watched(state, watch) ==> !(watch.owed is Idle) || watch.queue || watch.socket
            || watch.timer,
        watched(state, watch) && watch.owed is Idle && state.unsent().len() > 0 ==> watch.socket,
{
}

} // verus!
