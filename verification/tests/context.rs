use dnstap::frame::{data_frame, decode, start_frame, stop_frame};
use dnstap::{Action, Context, Event, QueueFull, CONTENT_TYPE};

const WRITABLE: Event = Event::Socket { hup: false, error: false };

fn context(backlog: usize) -> Context {
    Context::new(backlog, "/var/run/dnstap.sock".to_owned(), 1)
}

/// A context that has just connected: the handshake is unsent.
fn connected(backlog: usize) -> Context {
    let mut context = context(backlog);
    assert_eq!(context.connect(), Action::Dial);
    assert_eq!(context.connected(), Action::AwaitWritable);
    context
}

/// Plays the socket for as long as the context wants to write: each write
/// takes at most `chunk` bytes. Returns the first action that is not `Write`.
fn drain(context: &mut Context, mut action: Action, wire: &mut Vec<u8>, chunk: usize) -> Action {
    while action == Action::Write {
        let unsent = context.unsent();
        assert!(!unsent.is_empty());
        let taken = unsent.len().min(chunk);
        wire.extend_from_slice(&unsent[..taken]);
        action = context.written(taken);
    }
    action
}

#[test]
fn a_new_context_is_disconnected_and_quiet() {
    let context = context(3);
    assert!(!context.is_connected());
    assert!(!context.retry_pending());
    assert_eq!(context.queued(), 0);
    assert!(context.unsent().is_empty());
    assert_eq!(context.unix_socket_path(), "/var/run/dnstap.sock");
    assert_eq!(context.retry_delay_secs(), 1);
}

#[test]
fn connect_dials_unless_connected() {
    let mut context = context(1);
    assert_eq!(context.connect(), Action::Dial);
    assert_eq!(context.connected(), Action::AwaitWritable);
    assert!(context.is_connected());
    assert_eq!(context.connect(), Action::Idle);
    assert!(context.is_connected());
}

#[test]
fn connecting_queues_the_handshake() {
    let context = connected(1);
    assert_eq!(context.unsent(), &start_frame(CONTENT_TYPE)[..]);
}

#[test]
fn a_failed_attempt_arms_the_timer_once() {
    let mut context = Context::new(1, "/x".to_owned(), 7);
    assert_eq!(context.connect(), Action::Dial);
    assert_eq!(context.connect_failed(), Action::ArmRetry(7));
    assert!(context.retry_pending());
    assert_eq!(context.connect_failed(), Action::Idle);
    assert!(context.retry_pending());
    assert_eq!(context.connect(), Action::Dial);
    assert!(!context.retry_pending());
}

#[test]
fn a_late_failure_does_not_disturb_a_connection() {
    let mut context = connected(1);
    assert_eq!(context.connect_failed(), Action::Idle);
    assert!(context.is_connected());
    assert!(!context.retry_pending());
}

#[test]
fn consecutive_failures_retry_at_a_fixed_pace() {
    for failures in [0usize, 1, 2, 5, 50] {
        let mut context = Context::new(4, "/x".to_owned(), 3);
        let mut dials = 0;
        let mut delays = Vec::new();
        let mut action = context.handle(Event::TimerExpired);
        for _ in 0..failures {
            assert_eq!(action, Action::Dial);
            dials += 1;
            match context.handle(Event::ConnectFailed) {
                Action::ArmRetry(secs) => delays.push(secs),
                other => panic!("no retry but {:?}", other),
            }
            action = context.handle(Event::TimerExpired);
        }
        assert_eq!(action, Action::Dial);
        dials += 1;
        assert_eq!(dials, failures + 1);
        assert_eq!(delays, vec![3u64; failures]);
        assert_eq!(context.handle(Event::Connected), Action::AwaitWritable);
        assert!(context.is_connected());
    }
}

#[test]
fn the_queue_is_sent_in_order_after_the_handshake() {
    let mut context = connected(8);
    for tag in 1..=3u8 {
        context.enqueue(vec![tag; tag as usize]).unwrap();
    }
    let mut wire = Vec::new();
    let first = context.write_cb(false, false);
    assert_eq!(drain(&mut context, first, &mut wire, usize::MAX), Action::AwaitQueue);
    let mut expected = start_frame(CONTENT_TYPE);
    expected.extend(data_frame(&[1]));
    expected.extend(data_frame(&[2, 2]));
    expected.extend(data_frame(&[3, 3, 3]));
    assert_eq!(wire, expected);
    assert_eq!(context.queued(), 0);
    assert!(context.unsent().is_empty());
}

#[test]
fn one_frame_is_offered_at_a_time() {
    let mut context = connected(8);
    context.enqueue(b"one".to_vec()).unwrap();
    context.enqueue(b"two".to_vec()).unwrap();
    assert_eq!(context.write_cb(false, false), Action::Write);
    assert_eq!(context.unsent(), &start_frame(CONTENT_TYPE)[..]);
    assert_eq!(context.queued(), 2);
    let handshake = context.unsent().len();
    assert_eq!(context.written(handshake), Action::Write);
    assert_eq!(context.unsent(), &data_frame(b"one")[..]);
    assert_eq!(context.queued(), 1);
    assert_eq!(context.written(7), Action::Write);
    assert_eq!(context.unsent(), &data_frame(b"two")[..]);
    assert_eq!(context.queued(), 0);
    assert_eq!(context.written(7), Action::AwaitQueue);
    assert!(context.unsent().is_empty());
}

#[test]
fn queue_readiness_resumes_sending() {
    let mut context = connected(8);
    let mut wire = Vec::new();
    let first = context.write_cb(false, false);
    assert_eq!(drain(&mut context, first, &mut wire, usize::MAX), Action::AwaitQueue);
    context.enqueue(b"late".to_vec()).unwrap();
    let next = context.message_cb();
    assert_eq!(next, Action::Write);
    assert_eq!(drain(&mut context, next, &mut wire, usize::MAX), Action::AwaitQueue);
    let found = decode(&wire).unwrap();
    assert_eq!(found.payloads, vec![b"late".to_vec()]);
}

#[test]
fn queue_readiness_without_a_connection_leaves_the_records() {
    let mut context = context(2);
    context.enqueue(b"kept".to_vec()).unwrap();
    assert_eq!(context.message_cb(), Action::Idle);
    assert_eq!(context.queued(), 1);
    assert!(!context.is_connected());
}

#[test]
fn socket_readiness_without_a_connection_is_ignored() {
    let mut context = context(2);
    assert_eq!(context.write_cb(false, false), Action::Idle);
    assert_eq!(context.write_cb(true, false), Action::Idle);
    assert_eq!(context.written(10), Action::Idle);
    assert_eq!(context.write_stalled(), Action::Idle);
    assert_eq!(context.write_failed(), Action::Idle);
    assert!(!context.retry_pending());
}

#[test]
fn a_write_that_would_block_is_resumed_not_repeated() {
    let mut context = connected(4);
    context.enqueue(b"a payload that goes out in two parts".to_vec()).unwrap();
    let mut wire = Vec::new();
    assert_eq!(context.handle(WRITABLE), Action::Write);
    let handshake = context.unsent().to_vec();
    wire.extend_from_slice(&handshake);
    assert_eq!(context.handle(Event::Written(handshake.len())), Action::Write);
    // the socket takes ten bytes of the frame, then would block
    let frame = context.unsent().to_vec();
    assert_eq!(frame, data_frame(b"a payload that goes out in two parts"));
    wire.extend_from_slice(&frame[..10]);
    assert_eq!(context.handle(Event::Written(10)), Action::Write);
    assert_eq!(context.handle(Event::WriteStalled), Action::AwaitWritable);
    assert_eq!(context.unsent(), &frame[10..]);
    assert_eq!(context.queued(), 0);
    // records that arrive meanwhile wait behind the stalled frame
    context.enqueue(b"next".to_vec()).unwrap();
    // writability is signalled again
    let resumed = context.handle(WRITABLE);
    assert_eq!(resumed, Action::Write);
    assert_eq!(context.unsent(), &frame[10..]);
    assert_eq!(drain(&mut context, resumed, &mut wire, usize::MAX), Action::AwaitQueue);
    let found = decode(&wire).unwrap();
    assert_eq!(
        found.payloads,
        vec![b"a payload that goes out in two parts".to_vec(), b"next".to_vec()]
    );
}

#[test]
fn byte_by_byte_delivery_loses_and_repeats_nothing() {
    let mut context = connected(16);
    let mut sent = Vec::new();
    for tag in 1..=10u8 {
        let payload = vec![tag; 3 * tag as usize];
        context.enqueue(payload.clone()).unwrap();
        sent.push(payload);
    }
    let mut wire = Vec::new();
    let mut action = context.handle(WRITABLE);
    let mut stalls = 0;
    loop {
        action = drain(&mut context, action, &mut wire, 1);
        if action != Action::Write {
            break;
        }
    }
    // stall after every fifth byte of a second pass over new records
    for tag in 11..=14u8 {
        let payload = vec![tag; 40];
        context.enqueue(payload.clone()).unwrap();
        sent.push(payload);
    }
    assert_eq!(action, Action::AwaitQueue);
    action = context.handle(Event::QueueReady);
    while action == Action::Write {
        let taken = context.unsent().len().min(5);
        wire.extend_from_slice(&context.unsent()[..taken]);
        action = context.handle(Event::Written(taken));
        if action == Action::Write {
            assert_eq!(context.handle(Event::WriteStalled), Action::AwaitWritable);
            stalls += 1;
            action = context.handle(WRITABLE);
        }
    }
    assert!(stalls > 10);
    assert_eq!(action, Action::AwaitQueue);
    assert_eq!(decode(&wire).unwrap().payloads, sent);
}

#[test]
fn a_socket_that_takes_nothing_is_given_up() {
    let mut context = connected(2);
    assert_eq!(context.write_cb(false, false), Action::Write);
    assert_eq!(context.written(0), Action::ArmRetry(1));
    assert!(!context.is_connected());
    assert!(context.retry_pending());
    assert!(context.unsent().is_empty());
}

#[test]
fn a_report_of_more_than_was_offered_counts_as_all() {
    let mut context = connected(2);
    assert_eq!(context.write_cb(false, false), Action::Write);
    assert_eq!(context.written(usize::MAX), Action::AwaitQueue);
    assert!(context.unsent().is_empty());
    assert!(context.is_connected());
}

#[test]
fn a_hangup_or_an_error_loses_the_connection() {
    for (hup, error) in [(true, false), (false, true), (true, true)] {
        let mut context = connected(2);
        context.enqueue(b"waiting".to_vec()).unwrap();
        assert_eq!(context.write_cb(hup, error), Action::ArmRetry(1));
        assert!(!context.is_connected());
        assert!(context.retry_pending());
        assert!(context.unsent().is_empty());
        assert_eq!(context.queued(), 1);
    }
}

#[test]
fn a_failed_write_loses_the_connection_but_not_the_reactor() {
    let mut context = connected(2);
    assert_eq!(context.write_cb(false, false), Action::Write);
    assert_eq!(context.write_failed(), Action::ArmRetry(1));
    assert!(!context.is_connected());
    assert_eq!(context.connect(), Action::Dial);
    assert_eq!(context.connected(), Action::AwaitWritable);
    assert!(context.is_connected());
}

#[test]
fn after_a_disconnect_the_session_starts_over() {
    let mut context = connected(8);
    let mut first_wire = Vec::new();
    context.enqueue(b"delivered".to_vec()).unwrap();
    context.enqueue(b"handed over, then lost".to_vec()).unwrap();
    context.enqueue(b"still queued".to_vec()).unwrap();
    let mut action = context.handle(WRITABLE);
    // handshake and first record go out whole
    for _ in 0..2 {
        assert_eq!(action, Action::Write);
        first_wire.extend_from_slice(context.unsent());
        let all = context.unsent().len();
        action = context.handle(Event::Written(all));
    }
    // the second record is cut off by a hangup after four bytes
    assert_eq!(action, Action::Write);
    first_wire.extend_from_slice(&context.unsent()[..4]);
    assert_eq!(context.handle(Event::Written(4)), Action::Write);
    assert_eq!(context.handle(Event::Socket { hup: true, error: false }), Action::ArmRetry(1));
    assert!(!context.is_connected());
    assert_eq!(context.queued(), 1);
    // the retry fires and succeeds
    assert_eq!(context.handle(Event::TimerExpired), Action::Dial);
    assert_eq!(context.handle(Event::Connected), Action::AwaitWritable);
    context.enqueue(b"sent after the reconnect".to_vec()).unwrap();
    let mut second_wire = Vec::new();
    let resumed = context.handle(WRITABLE);
    assert_eq!(drain(&mut context, resumed, &mut second_wire, 3), Action::AwaitQueue);
    let found = decode(&second_wire).unwrap();
    assert_eq!(found.content_type, CONTENT_TYPE.as_bytes());
    assert_eq!(
        found.payloads,
        vec![b"still queued".to_vec(), b"sent after the reconnect".to_vec()]
    );
    assert!(!found.finished);
}

#[test]
fn end_to_end_with_a_collector_that_comes_late() {
    let mut context = Context::new(2, "/tmp/dnstap.sock".to_owned(), 1);
    // the socket is absent when the service starts
    assert_eq!(context.connect(), Action::Dial);
    assert_eq!(context.connect_failed(), Action::ArmRetry(1));
    assert!(context.enqueue(b"A".to_vec()).is_ok());
    assert!(context.enqueue(b"B".to_vec()).is_ok());
    let QueueFull(refused) = context.enqueue(b"C".to_vec()).unwrap_err();
    assert_eq!(refused, b"C");
    assert_eq!(context.handle(Event::QueueReady), Action::Idle);
    // the collector starts listening; the next retry connects
    assert_eq!(context.handle(Event::TimerExpired), Action::Dial);
    assert_eq!(context.handle(Event::Connected), Action::AwaitWritable);
    let mut wire = Vec::new();
    let first = context.handle(WRITABLE);
    assert_eq!(drain(&mut context, first, &mut wire, 5), Action::AwaitQueue);
    let mut expected = start_frame(CONTENT_TYPE);
    expected.extend(data_frame(b"A"));
    expected.extend(data_frame(b"B"));
    assert_eq!(wire, expected);
    // now there is room again
    assert!(context.enqueue(b"D".to_vec()).is_ok());
    let next = context.handle(Event::QueueReady);
    assert_eq!(drain(&mut context, next, &mut wire, 5), Action::AwaitQueue);
    let found = decode(&wire).unwrap();
    assert_eq!(found.content_type, CONTENT_TYPE.as_bytes());
    assert_eq!(found.payloads, vec![b"A".to_vec(), b"B".to_vec(), b"D".to_vec()]);
}

#[test]
fn finishing_a_connection_ends_with_the_stop_frame() {
    let mut context = connected(4);
    context.enqueue(b"record".to_vec()).unwrap();
    let mut wire = Vec::new();
    let first = context.write_cb(false, false);
    assert_eq!(drain(&mut context, first, &mut wire, usize::MAX), Action::AwaitQueue);
    let last = context.finish();
    assert_eq!(last, stop_frame());
    wire.extend(last);
    let found = decode(&wire).unwrap();
    assert_eq!(found.payloads, vec![b"record".to_vec()]);
    assert!(found.finished);
    assert_eq!(&wire[wire.len() - 12..], &[0, 0, 0, 0, 0, 0, 0, 4, 0, 0, 0, 3]);
    assert!(!context.is_connected());
    assert!(!context.retry_pending());
    assert!(context.finish().is_empty());
}

#[test]
fn finishing_in_the_middle_of_a_frame_sends_the_rest_first() {
    let mut context = connected(4);
    context.enqueue(b"half sent".to_vec()).unwrap();
    let mut wire = Vec::new();
    let mut action = context.write_cb(false, false);
    wire.extend_from_slice(context.unsent());
    let handshake = context.unsent().len();
    action = if action == Action::Write { context.written(handshake) } else { action };
    assert_eq!(action, Action::Write);
    wire.extend_from_slice(&context.unsent()[..6]);
    assert_eq!(context.written(6), Action::Write);
    assert_eq!(context.write_stalled(), Action::AwaitWritable);
    wire.extend(context.finish());
    let found = decode(&wire).unwrap();
    assert_eq!(found.payloads, vec![b"half sent".to_vec()]);
    assert!(found.finished);
}

#[test]
fn finishing_without_a_connection_says_nothing() {
    let mut never = context(4);
    never.enqueue(b"unsent".to_vec()).unwrap();
    assert!(never.finish().is_empty());
    let mut failed = context(4);
    assert_eq!(failed.connect(), Action::Dial);
    assert_eq!(failed.connect_failed(), Action::ArmRetry(1));
    assert!(failed.finish().is_empty());
    assert!(!failed.retry_pending());
}

#[test]
fn handle_dispatches_every_event() {
    let mut context = context(2);
    assert_eq!(context.handle(Event::QueueReady), Action::Idle);
    assert_eq!(context.handle(WRITABLE), Action::Idle);
    assert_eq!(context.handle(Event::TimerExpired), Action::Dial);
    assert_eq!(context.handle(Event::ConnectFailed), Action::ArmRetry(1));
    assert_eq!(context.handle(Event::TimerExpired), Action::Dial);
    assert_eq!(context.handle(Event::Connected), Action::AwaitWritable);
    assert_eq!(context.handle(Event::WriteStalled), Action::AwaitWritable);
    assert_eq!(context.handle(WRITABLE), Action::Write);
    assert_eq!(context.handle(Event::Written(1)), Action::Write);
    assert_eq!(context.handle(Event::WriteFailed), Action::ArmRetry(1));
    assert_eq!(context.handle(Event::WriteFailed), Action::Idle);
}

#[test]
fn enqueue_answers_at_once_in_every_state() {
    let started = std::time::Instant::now();
    // disconnected, before and after a failed attempt
    let mut context = context(2);
    assert!(context.enqueue(vec![1]).is_ok());
    assert_eq!(context.connect(), Action::Dial);
    assert_eq!(context.connect_failed(), Action::ArmRetry(1));
    assert!(context.enqueue(vec![2]).is_ok());
    assert!(context.enqueue(vec![3]).is_err());
    // connected, with the handshake unsent and the queue full
    assert_eq!(context.connect(), Action::Dial);
    assert_eq!(context.connected(), Action::AwaitWritable);
    assert!(context.enqueue(vec![4]).is_err());
    // connected and stalled in the middle of a frame
    assert_eq!(context.write_cb(false, false), Action::Write);
    let handshake = context.unsent().len();
    assert_eq!(context.written(handshake), Action::Write);
    assert_eq!(context.written(2), Action::Write);
    assert_eq!(context.write_stalled(), Action::AwaitWritable);
    assert!(context.enqueue(vec![5]).is_ok());
    assert!(context.enqueue(vec![6]).is_err());
    // after the end of the service
    context.finish();
    assert!(context.enqueue(vec![7]).is_err());
    assert_eq!(context.queued(), 2);
    assert!(started.elapsed() < std::time::Duration::from_secs(5));
}

/// A small generator of numbers that look random and are the same in every
/// run.
struct Dice(u64);

impl Dice {
    fn roll(&mut self, sides: u64) -> u64 {
        self.0 = self.0.wrapping_mul(6364136223846793005).wrapping_add(1442695040888963407);
        (self.0 >> 33) % sides
    }
}

/// What one connection has seen: the bytes that its socket took, and the
/// first record that was framed for it.
struct Wire {
    bytes: Vec<u8>,
    first_record: usize,
}

/// Holds the bytes of the present connection against the records: they are
/// the handshake and the frames of the records taken from the queue since the
/// connection was made, less what is still unsent.
fn check_wire(context: &Context, wire: &Wire, accepted: &[Vec<u8>]) {
    let taken = accepted.len() - context.queued();
    let mut owed = start_frame(CONTENT_TYPE);
    for record in &accepted[wire.first_record..taken] {
        owed.extend(data_frame(record));
    }
    assert_eq!(owed.len(), wire.bytes.len() + context.unsent().len());
    assert_eq!(&owed[..wire.bytes.len()], &wire.bytes[..]);
    assert_eq!(&owed[wire.bytes.len()..], context.unsent());
}

#[test]
fn long_runs_with_stalls_and_failures_keep_every_session_intact() {
    for seed in 0..40u64 {
        let mut dice = Dice(seed);
        let capacity = 1 + dice.roll(6) as usize;
        let mut context = Context::new(capacity, "/x".to_owned(), 9);
        let mut accepted: Vec<Vec<u8>> = Vec::new();
        let mut wire: Option<Wire> = None;
        let (mut queue_armed, mut socket_armed, mut timer_armed) = (true, false, false);
        let mut sessions = 0;
        let mut action = context.connect();
        for turn in 0..3000u64 {
            // producers offer records whenever they like
            if dice.roll(3) == 0 {
                let record = vec![(turn % 251) as u8; 1 + dice.roll(40) as usize];
                let room = context.queued() < capacity;
                match context.enqueue(record.clone()) {
                    Ok(()) => {
                        assert!(room);
                        accepted.push(record);
                    }
                    Err(QueueFull(refused)) => {
                        assert!(!room);
                        assert_eq!(refused, record);
                    }
                }
            }
            if let Some(wire) = wire.as_ref() {
                if context.is_connected() {
                    check_wire(&context, wire, &accepted);
                }
            }
            // the reactor performs the action, or arms a source and waits
            let outcome = match action {
                Action::Dial => {
                    assert!(!context.is_connected());
                    if dice.roll(3) == 0 {
                        wire = Some(Wire {
                            bytes: Vec::new(),
                            first_record: accepted.len() - context.queued(),
                        });
                        sessions += 1;
                        Some(Event::Connected)
                    } else {
                        Some(Event::ConnectFailed)
                    }
                }
                Action::Write => {
                    let unsent = context.unsent();
                    assert!(!unsent.is_empty());
                    match dice.roll(10) {
                        0 => Some(Event::WriteStalled),
                        1 if dice.roll(8) == 0 => Some(Event::WriteFailed),
                        _ => {
                            let taken = 1 + dice.roll(unsent.len() as u64) as usize;
                            wire.as_mut().unwrap().bytes.extend_from_slice(&unsent[..taken]);
                            Some(Event::Written(taken))
                        }
                    }
                }
                Action::AwaitWritable => {
                    socket_armed = true;
                    None
                }
                Action::AwaitQueue => {
                    queue_armed = true;
                    None
                }
                Action::ArmRetry(secs) => {
                    assert_eq!(secs, 9);
                    assert!(!timer_armed);
                    timer_armed = true;
                    socket_armed = false;
                    wire = None;
                    None
                }
                Action::Idle => None,
            };
            let event = match outcome {
                Some(event) => event,
                None => {
                    // some source is armed: the reactor never falls silent
                    assert!(queue_armed || socket_armed || timer_armed);
                    assert_eq!(timer_armed, context.retry_pending());
                    assert!(!socket_armed || context.is_connected());
                    assert!(socket_armed || context.unsent().is_empty());
                    let mut fired = None;
                    while fired.is_none() {
                        fired = match dice.roll(3) {
                            0 if queue_armed => {
                                queue_armed = false;
                                Some(Event::QueueReady)
                            }
                            1 if socket_armed => {
                                socket_armed = false;
                                let hup = dice.roll(12) == 0;
                                let error = dice.roll(12) == 0;
                                Some(Event::Socket { hup, error })
                            }
                            2 if timer_armed => {
                                timer_armed = false;
                                Some(Event::TimerExpired)
                            }
                            _ => None,
                        };
                    }
                    fired.unwrap()
                }
            };
            action = context.handle(event);
        }
        assert!(sessions > 5, "seed {} made {} sessions", seed, sessions);
        // whatever state the run ended in, a session that is open can be closed
        match wire {
            Some(mut wire) if context.is_connected() => {
                let taken = accepted.len() - context.queued();
                wire.bytes.extend(context.finish());
                let found = decode(&wire.bytes).unwrap();
                assert_eq!(found.content_type, CONTENT_TYPE.as_bytes());
                assert_eq!(found.payloads, accepted[wire.first_record..taken].to_vec());
                assert!(found.finished);
            }
            _ => assert!(context.finish().is_empty()),
        }
    }
}
