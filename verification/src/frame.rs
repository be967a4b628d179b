//! Frame Streams framing: the bytes that carry a session on the wire.
//!
//! A session is one control frame that opens it and names the content type,
//! then any number of data frames, then optionally one control frame that
//! closes it. A data frame is a four-byte big-endian length and that many
//! bytes of payload. A control frame starts with four zero bytes, the escape,
//! so that a reader can tell it from a data frame; after the escape come the
//! length of the control payload and the payload itself, whose first word is
//! the control type.
use vstd::prelude::*;
use vstd::string::StringSliceAdditionalSpecFns;

verus! {

/// Control type of the frame that opens a session.
pub const CONTROL_START: u32 = 2;

/// Control type of the frame that closes a session.
pub const CONTROL_STOP: u32 = 3;

/// Tag of the control field that carries the content type.
pub const CONTROL_FIELD_CONTENT_TYPE: u32 = 1;

/// The four bytes of `n`, most significant first. Of a number that does not
/// fit in 32 bits, the low 32 bits.
pub open spec fn spec_be32(n: int) -> Seq<u8> {
    seq![
        ((n / 0x100_0000) % 0x100) as u8,
        ((n / 0x1_0000) % 0x100) as u8,
        ((n / 0x100) % 0x100) as u8,
        (n % 0x100) as u8,
    ]
}

/// The number that four big-endian bytes stand for.
pub open spec fn spec_be32_value(b: Seq<u8>) -> int
    recommends
        b.len() == 4,
{
    b[0] as int * 0x100_0000 + b[1] as int * 0x1_0000 + b[2] as int * 0x100 + b[3] as int
}

/// One data frame: the length of the payload, then the payload.
pub open spec fn spec_data_frame(payload: Seq<u8>) -> Seq<u8> {
    spec_be32(payload.len() as int) + payload
}

/// The data frames of several payloads, one after the other.
pub open spec fn spec_data_frames(payloads: Seq<Seq<u8>>) -> Seq<u8>
    decreases payloads.len(),
{
    if payloads.len() == 0 {
        Seq::empty()
    } else {
        spec_data_frame(payloads[0]) + spec_data_frames(payloads.skip(1))
    }
}

/// One control frame: the escape, the length of what follows, the control
/// type, and the control fields.
pub open spec fn spec_control_frame(kind: u32, fields: Seq<u8>) -> Seq<u8> {
    spec_be32(0) + spec_be32(4 + fields.len() as int) + spec_be32(kind as int) + fields
}

/// The control frame that opens a session for `content_type`.
pub open spec fn spec_start_frame(content_type: Seq<u8>) -> Seq<u8> {
    spec_control_frame(
        CONTROL_START,
        spec_be32(CONTROL_FIELD_CONTENT_TYPE as int) + spec_be32(content_type.len() as int)
            + content_type,
    )
}

/// The control frame that closes a session.
pub open spec fn spec_stop_frame() -> Seq<u8> {
    spec_control_frame(CONTROL_STOP, Seq::empty())
}

/// A whole session as it appears on the wire.
pub open spec fn spec_session(content_type: Seq<u8>, payloads: Seq<Seq<u8>>, finished: bool) -> Seq<
    u8,
> {
    spec_start_frame(content_type) + spec_data_frames(payloads) + spec_closing(finished)
}

/// Appends the four big-endian bytes of `n` to `out`.
fn push_be32(out: &mut Vec<u8>, n: u128)
    ensures
        final(out)@ == old(out)@ + spec_be32(n as int),
{
    out.push((n / 0x100_0000 % 0x100) as u8);
    out.push((n / 0x1_0000 % 0x100) as u8);
    out.push((n / 0x100 % 0x100) as u8);
    out.push((n % 0x100) as u8);
    assert(out@ =~= old(out)@ + spec_be32(n as int));
}

/// Appends a copy of `bytes` to `out`.
fn push_bytes(out: &mut Vec<u8>, bytes: &[u8])
    ensures
        final(out)@ == old(out)@ + bytes@,
{
    let mut i: usize = 0;
    while i < bytes.len()
        invariant
            i <= bytes@.len(),
            out@ == old(out)@ + bytes@.take(i as int),
        decreases bytes@.len() - i,
    {
        out.push(bytes[i]);
        i = i + 1;
        assert(out@ =~= old(out)@ + bytes@.take(i as int));
    }
    assert(bytes@.take(i as int) =~= bytes@);
}

/// Encodes `payload` as one data frame.
///
/// A payload of 4 GiB or more gets the low 32 bits of its length as prefix,
/// and an empty payload becomes the four zero bytes that a reader takes for
/// the escape of a control frame: neither can be read back.
pub fn data_frame(payload: &[u8]) -> (frame: Vec<u8>)
    ensures
        frame@ == spec_data_frame(payload@),
{
    let mut frame: Vec<u8> = Vec::new();
    push_be32(&mut frame, payload.len() as u128);
    push_bytes(&mut frame, payload);
    assert(frame@ =~= spec_data_frame(payload@));
    frame
}

/// Encodes the control frame that opens a session for `content_type`.
pub fn start_frame(content_type: &str) -> (frame: Vec<u8>)
    ensures
        frame@ == spec_start_frame(content_type.spec_bytes()),
{
    let name = content_type.as_bytes();
    let mut fields: Vec<u8> = Vec::new();
    push_be32(&mut fields, 1);
    push_be32(&mut fields, name.len() as u128);
    push_bytes(&mut fields, name);
    let mut frame: Vec<u8> = Vec::new();
    push_be32(&mut frame, 0);
    push_be32(&mut frame, fields.len() as u128 + 4);
    push_be32(&mut frame, 2);
    push_bytes(&mut frame, fields.as_slice());
    assert(frame@ =~= spec_start_frame(content_type.spec_bytes()));
    frame
}

/// Encodes the control frame that closes a session.
pub fn stop_frame() -> (frame: Vec<u8>)
    ensures
        frame@ == spec_stop_frame(),
{
    let mut frame: Vec<u8> = Vec::new();
    push_be32(&mut frame, 0);
    push_be32(&mut frame, 4);
    push_be32(&mut frame, 3);
    assert(frame@ =~= spec_stop_frame());
    frame
}

/// What a reader makes of a session.
pub struct Session {
    /// The content type that the session declared when it opened.
    pub content_type: Vec<u8>,
    /// The payloads of the data frames, in their order.
    pub payloads: Vec<Vec<u8>>,
    /// Whether the session was closed by a stop frame.
    pub finished: bool,
}

/// The mathematical value of a [`Session`].
pub struct SessionView {
    pub content_type: Seq<u8>,
    pub payloads: Seq<Seq<u8>>,
    pub finished: bool,
}

impl View for Session {
    type V = SessionView;

    open spec fn view(&self) -> SessionView {
        SessionView {
            content_type: self.content_type@,
            payloads: self.payloads@.map_values(|payload: Vec<u8>| payload@),
            finished: self.finished,
        }
    }
}

/// What a reader makes of the frames that follow the start frame: the
/// payloads of the data frames, and whether a stop frame closes them. `None`
/// where the bytes are not whole data frames followed by nothing or by one
/// stop frame.
pub open spec fn spec_decode_frames(bytes: Seq<u8>) -> Option<(Seq<Seq<u8>>, bool)>
    decreases bytes.len(),
{
    if bytes.len() == 0 {
        Some((Seq::empty(), false))
    } else if bytes.len() < 4 {
        None
    } else {
        let n = spec_be32_value(bytes.subrange(0, 4));
        if n == 0 {
            if bytes.len() == 12 && spec_be32_value(bytes.subrange(4, 8)) == 4
                && spec_be32_value(bytes.subrange(8, 12)) == CONTROL_STOP {
                Some((Seq::empty(), true))
            } else {
                None
            }
        } else if bytes.len() < 4 + n {
            None
        } else {
            match spec_decode_frames(bytes.skip(4 + n)) {
                Some(rest) => Some((seq![bytes.subrange(4, 4 + n)] + rest.0, rest.1)),
                None => None,
            }
        }
    }
}

/// What a reader makes of a session: the start frame with its content type,
/// then the frames. `None` where the bytes are no such session.
pub open spec fn spec_decode(bytes: Seq<u8>) -> Option<SessionView> {
    if bytes.len() < 20 {
        None
    } else {
        let name_len = spec_be32_value(bytes.subrange(16, 20));
        if spec_be32_value(bytes.subrange(0, 4)) != 0 || spec_be32_value(bytes.subrange(4, 8))
            != 12 + name_len || spec_be32_value(bytes.subrange(8, 12)) != CONTROL_START
            || spec_be32_value(bytes.subrange(12, 16)) != CONTROL_FIELD_CONTENT_TYPE
            || bytes.len() < 20 + name_len {
            None
        } else {
            match spec_decode_frames(bytes.skip(20 + name_len)) {
                Some(frames) => Some(
                    SessionView {
                        content_type: bytes.subrange(20, 20 + name_len),
                        payloads: frames.0,
                        finished: frames.1,
                    },
                ),
                None => None,
            }
        }
    }
}

/// Reads the big-endian word at `at`.
fn read_be32(bytes: &[u8], at: usize) -> (n: u32)
    requires
        at + 4 <= bytes@.len(),
    ensures
        n == spec_be32_value(bytes@.subrange(at as int, at + 4)),
{
    let b0: u32 = bytes[at] as u32;
    let b1: u32 = bytes[at + 1] as u32;
    let b2: u32 = bytes[at + 2] as u32;
    let b3: u32 = bytes[at + 3] as u32;
    b0 * 0x100_0000 + b1 * 0x1_0000 + b2 * 0x100 + b3
}

/// Copies `bytes[from..to]`.
fn copy_range(bytes: &[u8], from: usize, to: usize) -> (out: Vec<u8>)
    requires
        from <= to <= bytes@.len(),
    ensures
        out@ == bytes@.subrange(from as int, to as int),
{
    let mut out: Vec<u8> = Vec::new();
    let mut i: usize = from;
    while i < to
        invariant
            from <= i <= to <= bytes@.len(),
            out@ == bytes@.subrange(from as int, i as int),
        decreases to - i,
    {
        out.push(bytes[i]);
        i = i + 1;
        assert(out@ =~= bytes@.subrange(from as int, i as int));
    }
    out
}

/// Reads a session back: the content type of its start frame, the payloads
/// of its data frames in their order, and whether a stop frame closes it.
///
/// Returns `None` exactly where the bytes are not a start frame with one
/// content type, followed by whole data frames, followed by nothing or by one
/// stop frame.
pub fn decode(bytes: &[u8]) -> (session: Option<Session>)
    ensures
        match session {
            Some(found) => spec_decode(bytes@) == Some(found@),
            None => spec_decode(bytes@) is None,
        },
{
    let len = bytes.len();
    if len < 20 {
        return None;
    }
    let escape = read_be32(bytes, 0);
    let control_len = read_be32(bytes, 4);
    let kind = read_be32(bytes, 8);
    let field = read_be32(bytes, 12);
    let name_len = read_be32(bytes, 16);
    if escape != 0 || control_len as u64 != 12 + name_len as u64 || kind != CONTROL_START || field
        != CONTROL_FIELD_CONTENT_TYPE || len - 20 < name_len as usize {
        return None;
    }
    let start = 20 + name_len as usize;
    let content_type = copy_range(bytes, 20, start);
    let mut payloads: Vec<Vec<u8>> = Vec::new();
    let mut finished = false;
    let mut at: usize = start;
    let ghost body = bytes@.skip(start as int);
    proof {
        assert(bytes@.skip(at as int) =~= body);
        assert(payloads@.map_values(|payload: Vec<u8>| payload@) =~= Seq::<Seq<u8>>::empty());
        let whole = spec_decode_frames(body);
        if whole is Some {
            assert(Seq::<Seq<u8>>::empty() + whole->Some_0.0 =~= whole->Some_0.0);
        }
    }
    while at < len
        invariant
            start <= at <= len,
            len == bytes@.len(),
            body == bytes@.skip(start as int),
            !finished,
            spec_decode(bytes@) == match spec_decode_frames(body) {
                Some(frames) => Some(
                    SessionView {
                        content_type: content_type@,
                        payloads: frames.0,
                        finished: frames.1,
                    },
                ),
                None => None,
            },
            spec_decode_frames(body) == match spec_decode_frames(bytes@.skip(at as int)) {
                Some(rest) => Some(
                    (payloads@.map_values(|payload: Vec<u8>| payload@) + rest.0, rest.1),
                ),
                None => None,
            },
        decreases len - at,
    {
        let ghost here = bytes@.skip(at as int);
        let ghost done = payloads@.map_values(|payload: Vec<u8>| payload@);
        if len - at < 4 {
            return None;
        }
        let n = read_be32(bytes, at);
        proof {
            assert(here.subrange(0, 4) =~= bytes@.subrange(at as int, at + 4));
        }
        if n == 0 {
            if len - at != 12 {
                return None;
            }
            let control_len = read_be32(bytes, at + 4);
            let kind = read_be32(bytes, at + 8);
            proof {
                assert(here.subrange(4, 8) =~= bytes@.subrange(at + 4, at + 8));
                assert(here.subrange(8, 12) =~= bytes@.subrange(at + 8, at + 12));
            }
            if control_len != 4 || kind != CONTROL_STOP {
                return None;
            }
            proof {
                assert(done + Seq::<Seq<u8>>::empty() =~= done);
            }
            return Some(Session { content_type, payloads, finished: true });
        }
        if len - at - 4 < n as usize {
            return None;
        }
        let end = at + 4 + n as usize;
        let payload = copy_range(bytes, at + 4, end);
        proof {
            assert(here.subrange(4, 4 + n) =~= payload@);
            assert(here.skip(4 + n) =~= bytes@.skip(end as int));
            let rest = spec_decode_frames(bytes@.skip(end as int));
            if rest is Some {
                assert(done.push(payload@) + rest->Some_0.0 =~= done + (seq![payload@]
                    + rest->Some_0.0));
            }
        }
        payloads.push(payload);
        proof {
            assert(payloads@.map_values(|payload: Vec<u8>| payload@) =~= done.push(payload@));
        }
        at = end;
    }
    proof {
        assert(bytes@.skip(at as int) =~= Seq::<u8>::empty());
        let done = payloads@.map_values(|payload: Vec<u8>| payload@);
        assert(done + Seq::<Seq<u8>>::empty() =~= done);
    }
    Some(Session { content_type, payloads, finished })
}

/// A number below 2^32 is the value of its four big-endian bytes.
pub proof fn lemma_be32_value(n: int)
    requires
        0 <= n < 0x1_0000_0000,
    ensures
        spec_be32(n).len() == 4,
        spec_be32_value(spec_be32(n)) == n,
{
}

/// Whether every payload is one that a data frame can carry and a reader
/// can tell from a control frame: not empty, and shorter than 4 GiB.
pub open spec fn framable(payloads: Seq<Seq<u8>>) -> bool {
    forall|i: int| 0 <= i < payloads.len() ==> 0 < #[trigger] payloads[i].len() < 0x1_0000_0000
}

/// The bytes that end a session: the stop frame if it is finished, nothing
/// if it is not.
pub open spec fn spec_closing(finished: bool) -> Seq<u8> {
    if finished {
        spec_stop_frame()
    } else {
        Seq::empty()
    }
}

/// The frames of framable payloads, closed or not, are read back as those
/// payloads.
proof fn lemma_frames_roundtrip(payloads: Seq<Seq<u8>>, finished: bool)
    requires
        framable(payloads),
    ensures
        spec_decode_frames(spec_data_frames(payloads) + spec_closing(finished)) == Some(
            (payloads, finished),
        ),
    decreases payloads.len(),
{
    let bytes = spec_data_frames(payloads) + spec_closing(finished);
    if payloads.len() == 0 {
        assert(bytes =~= spec_closing(finished));
        if finished {
            lemma_be32_value(0);
            lemma_be32_value(4);
            lemma_be32_value(3);
            assert(bytes.subrange(0, 4) =~= spec_be32(0));
            assert(bytes.subrange(4, 8) =~= spec_be32(4));
            assert(bytes.subrange(8, 12) =~= spec_be32(3));
        }
        assert(payloads =~= Seq::<Seq<u8>>::empty());
    } else {
        let first = payloads[0];
        let others = payloads.skip(1);
        let n = first.len() as int;
        assert(framable(others)) by {
            assert forall|i: int| 0 <= i < others.len() implies 0 < #[trigger] others[i].len()
                < 0x1_0000_0000 by {
                assert(others[i] == payloads[i + 1]);
            }
        }
        lemma_frames_roundtrip(others, finished);
        lemma_be32_value(n);
        let tail = spec_data_frames(others) + spec_closing(finished);
        assert(bytes =~= spec_be32(n) + first + tail);
        assert(bytes.subrange(0, 4) =~= spec_be32(n));
        assert(bytes.subrange(4, 4 + n) =~= first);
        assert(bytes.skip(4 + n) =~= tail);
        assert(seq![first] + others =~= payloads);
    }
}

/// The round trip of framing. A session that is encoded and then decoded
/// comes back as it was: the same content type, the same payloads in the same
/// order, closed if and only if it was closed. This holds of every content
/// type that fits a control frame and of all payloads that are framable;
/// `spec_session` is what `start_frame`, `data_frame` and `stop_frame` write
/// one after the other.
pub proof fn law_roundtrip(content_type: Seq<u8>, payloads: Seq<Seq<u8>>, finished: bool)
    requires
        content_type.len() + 12 < 0x1_0000_0000,
        framable(payloads),
    ensures
        spec_decode(spec_session(content_type, payloads, finished)) == Some(
            SessionView { content_type, payloads, finished },
        ),
{
    let bytes = spec_session(content_type, payloads, finished);
    let name_len = content_type.len() as int;
    let frames = spec_data_frames(payloads) + spec_closing(finished);
    lemma_frames_roundtrip(payloads, finished);
    lemma_be32_value(0);
    lemma_be32_value(12 + name_len);
    lemma_be32_value(2);
    lemma_be32_value(1);
    lemma_be32_value(name_len);
    let body = content_type + frames;
    lemma_five_words(
        spec_be32(0),
        spec_be32(12 + name_len),
        spec_be32(2),
        spec_be32(1),
        spec_be32(name_len),
        body,
    );
    assert(bytes =~= spec_be32(0) + spec_be32(12 + name_len) + spec_be32(2) + spec_be32(1)
        + spec_be32(name_len) + body);
    assert(bytes.subrange(20, 20 + name_len) =~= content_type) by {
        assert(bytes.skip(20) == body);
        assert(body.subrange(0, name_len) =~= content_type);
        assert(bytes.skip(20).subrange(0, name_len) =~= bytes.subrange(20, 20 + name_len));
    }
    assert(bytes.skip(20 + name_len) =~= frames) by {
        assert(bytes.skip(20) == body);
        assert(body.skip(name_len) =~= frames);
        assert(bytes.skip(20).skip(name_len) =~= bytes.skip(20 + name_len));
    }
}

/// Where five words and what follows them lie in their concatenation.
proof fn lemma_five_words(
    a: Seq<u8>,
    b: Seq<u8>,
    c: Seq<u8>,
    d: Seq<u8>,
    e: Seq<u8>,
    rest: Seq<u8>,
)
    requires
        a.len() == 4,
        b.len() == 4,
        c.len() == 4,
        d.len() == 4,
        e.len() == 4,
    ensures
        (a + b + c + d + e + rest).subrange(0, 4) == a,
        (a + b + c + d + e + rest).subrange(4, 8) == b,
        (a + b + c + d + e + rest).subrange(8, 12) == c,
        (a + b + c + d + e + rest).subrange(12, 16) == d,
        (a + b + c + d + e + rest).subrange(16, 20) == e,
        (a + b + c + d + e + rest).skip(20) == rest,
        (a + b + c + d + e + rest).len() == 20 + rest.len(),
{
    let all = a + b + c + d + e + rest;
    assert(all.subrange(0, 4) =~= a);
    assert(all.subrange(4, 8) =~= b);
    assert(all.subrange(8, 12) =~= c);
    assert(all.subrange(12, 16) =~= d);
    assert(all.subrange(16, 20) =~= e);
    assert(all.skip(20) =~= rest);
}

} // verus!
