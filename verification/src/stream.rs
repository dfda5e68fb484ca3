//! The stream connection manager and typed frame decoder: connecting a
//! topic's WebSocket, telling a handshake rejection apart from transport
//! failure, and turning the inbound frame sequence into events — text
//! frames delivered in order, control frames skipped, a close frame a
//! clean end, and a transport fault an attached terminal error.

use vstd::prelude::*;
use vstd::slice::slice_to_vec;
use vstd::utf8::encode_utf8;
use vstd::string::StrSliceExecFns;
use vstd::string::StringSliceAdditionalSpecFns;
use tokio_tungstenite::tungstenite;
use tokio_tungstenite::tungstenite::Error as WsError;
use tokio_tungstenite::tungstenite::Message as WsMessage;

verus! {

/// One inbound WebSocket frame, as the transport hands it over.
#[derive(Debug)]
pub enum Frame {
    /// A text frame: the only kind that carries an event.
    Text(Vec<u8>),
    /// A binary frame; consumed and discarded.
    Binary(Vec<u8>),
    /// A ping control frame; consumed and discarded.
    Ping(Vec<u8>),
    /// A pong control frame; consumed and discarded.
    Pong(Vec<u8>),
    /// The peer's close frame: a clean end of the sequence.
    Close,
    /// A raw protocol frame; consumed and discarded.
    Raw,
}

/// A WebSocket failure, one variant per failure the transport reports.
#[derive(Debug)]
pub enum WsFault {
    ConnectionClosed,
    AlreadyClosed,
    Io,
    Tls,
    Capacity,
    Protocol,
    WriteBufferFull,
    Utf8,
    AttackAttempt,
    Url,
    /// The server answered the upgrade with a plain HTTP response
    /// instead of switching protocols.
    Http { status: u16, headers: Vec<(Vec<u8>, Vec<u8>)>, body: Vec<u8> },
    HttpFormat,
}

/// Why a `connect` call failed: the server refused the upgrade at the
/// HTTP layer (actionable server-side policy, such as rate limiting), or
/// the transport itself failed (DNS, TLS, a refused connection).
#[derive(Debug)]
pub enum ConnectError {
    HandshakeRejected { status: u16, headers: Vec<(Vec<u8>, Vec<u8>)>, body: Vec<u8> },
    Transport { fault: WsFault },
}

/// Classifies a WebSocket failure observed while connecting: exactly the
/// HTTP-response fault is a handshake rejection; every other fault is a
/// transport error carrying the fault itself.
pub fn classify_connect(fault: WsFault) -> (r: ConnectError)
    ensures
        match fault {
            WsFault::Http { status, headers, body } => r matches ConnectError::HandshakeRejected {
                status: s,
                headers: h,
                body: b,
            } && s == status && h@ == headers@ && b@ == body@,
            _ => r matches ConnectError::Transport { fault: f } && f == fault,
        },
{
    match fault {
        WsFault::Http { status, headers, body } => ConnectError::HandshakeRejected {
            status,
            headers,
            body,
        },
        other => ConnectError::Transport { fault: other },
    }
}

/// Copies one header's name and value into plain byte strings.
fn header_pair(name: &str, value: &[u8]) -> (r: (Vec<u8>, Vec<u8>))
    ensures
        r.0@ == name.spec_bytes(),
        r.1@ == value@,
{
    (name.as_bytes_vec(), slice_to_vec(value))
}

/// Relies on tungstenite's `Error`: maps each failure variant to the
/// library's mirror, reading the HTTP variant's status, headers and body.
#[verifier::external_body]
fn fault_of(e: tungstenite::Error) -> (r: WsFault) {
    match e {
        WsError::ConnectionClosed => WsFault::ConnectionClosed,
        WsError::AlreadyClosed => WsFault::AlreadyClosed,
        WsError::Io(_) => WsFault::Io,
        WsError::Tls(_) => WsFault::Tls,
        WsError::Capacity(_) => WsFault::Capacity,
        WsError::Protocol(_) => WsFault::Protocol,
        WsError::WriteBufferFull(_) => WsFault::WriteBufferFull,
        WsError::Utf8(_) => WsFault::Utf8,
        WsError::AttackAttempt => WsFault::AttackAttempt,
        WsError::Url(_) => WsFault::Url,
        WsError::Http(r) => WsFault::Http { status: r.status().as_u16(), headers: r.headers().iter().map(|(k, v)| header_pair(k.as_str(), v.as_bytes())).collect(), body: r.into_body().unwrap_or_default() },
        WsError::HttpFormat(_) => WsFault::HttpFormat,
    }
}

#[verifier::external_type_specification]
#[verifier::external_body]
pub struct ExTungsteniteError(tungstenite::Error);

#[verifier::external_type_specification]
#[verifier::external_body]
pub struct ExTungsteniteMessage(tungstenite::Message);

/// Relies on tungstenite's `Message`: maps each frame kind to the
/// library's mirror, moving the payload bytes.
#[verifier::external_body]
fn frame_of_message(m: tungstenite::Message) -> (r: Frame) {
    match m {
        WsMessage::Text(t) => Frame::Text(t.as_str().as_bytes().to_vec()),
        WsMessage::Binary(b) => Frame::Binary(b.to_vec()),
        WsMessage::Ping(p) => Frame::Ping(p.to_vec()),
        WsMessage::Pong(p) => Frame::Pong(p.to_vec()),
        WsMessage::Close(_) => Frame::Close,
        WsMessage::Frame(_) => Frame::Raw,
    }
}

/// Classifies a failure the transport reported while connecting.
/// Whatever failure came back, the result is exactly one of the two
/// connect error forms; the split itself is `classify_connect`'s exact
/// contract.
pub fn connect_failure_of(e: tungstenite::Error) -> (r: ConnectError)
    ensures
        r is HandshakeRejected || r is Transport,
{
    classify_connect(fault_of(e))
}

/// What the transport hands back for one pull.
#[derive(Debug)]
pub enum Inbound {
    /// A frame arrived.
    Item(Frame),
    /// The transport failed while waiting.
    Failed(WsFault),
    /// The transport's stream ended.
    Ended,
}

/// Converts one polled transport item into the library's inbound form.
pub fn inbound_of(item: Option<Result<tungstenite::Message, tungstenite::Error>>) -> (r: Inbound)
    ensures
        item is None ==> r is Ended,
        item is Some && item.unwrap() is Ok ==> r is Item,
        item is Some && item.unwrap() is Err ==> r is Failed,
{
    match item {
        None => Inbound::Ended,
        Some(Ok(m)) => Inbound::Item(frame_of_message(m)),
        Some(Err(e)) => Inbound::Failed(fault_of(e)),
    }
}

/// The per-connection state: open until a close frame, a transport end
/// or a transport fault; `Closed` is terminal.
#[derive(Clone, Copy, Debug, PartialEq, Eq, Structural)]
pub enum StreamState {
    Open,
    Closed,
}

/// What one pull yields.
#[derive(Debug)]
pub enum PullAction {
    /// One text frame's bytes, to be decoded into exactly one event.
    Deliver(Vec<u8>),
    /// A control or binary frame was consumed; pull again.
    Skip,
    /// The sequence ended cleanly.
    EndClean,
    /// The sequence ended with a transport fault attached.
    EndFault(WsFault),
}

/// One step of the frame decoder: from the connection state and one
/// inbound item to the next state and the pull's outcome. A closed
/// stream stays closed and yields nothing; an open stream delivers text
/// frames, skips binary and control frames, ends cleanly on a close
/// frame or a transport end, and ends with the fault attached on a
/// transport failure.
pub fn poll_step(state: StreamState, inbound: Inbound) -> (r: (StreamState, PullAction))
    ensures
        state is Closed ==> r.0 is Closed && r.1 is EndClean,
        state is Open ==> match inbound {
            Inbound::Item(f) => match f {
                Frame::Text(t) => r.0 is Open && (r.1 matches PullAction::Deliver(d) && d@ == t@),
                Frame::Binary(_) => r.0 is Open && r.1 is Skip,
                Frame::Ping(_) => r.0 is Open && r.1 is Skip,
                Frame::Pong(_) => r.0 is Open && r.1 is Skip,
                Frame::Raw => r.0 is Open && r.1 is Skip,
                Frame::Close => r.0 is Closed && r.1 is EndClean,
            },
            Inbound::Failed(f) => r.0 is Closed && (r.1 matches PullAction::EndFault(g) && g == f),
            Inbound::Ended => r.0 is Closed && r.1 is EndClean,
        },
{
    match state {
        StreamState::Closed => (StreamState::Closed, PullAction::EndClean),
        StreamState::Open => match inbound {
            Inbound::Item(f) => match f {
                Frame::Text(t) => (StreamState::Open, PullAction::Deliver(t)),
                Frame::Binary(_) => (StreamState::Open, PullAction::Skip),
                Frame::Ping(_) => (StreamState::Open, PullAction::Skip),
                Frame::Pong(_) => (StreamState::Open, PullAction::Skip),
                Frame::Raw => (StreamState::Open, PullAction::Skip),
                Frame::Close => (StreamState::Closed, PullAction::EndClean),
            },
            Inbound::Failed(f) => (StreamState::Closed, PullAction::EndFault(f)),
            Inbound::Ended => (StreamState::Closed, PullAction::EndClean),
        },
    }
}

/// The events a frame sequence yields from index `i` on: each text
/// frame's bytes in arrival order, stopping at the first close frame.
pub open spec fn events_from(frames: Seq<Frame>, i: int) -> Seq<Seq<u8>>
    recommends
        0 <= i <= frames.len(),
    decreases frames.len() - i,
{
    if i < 0 || i >= frames.len() {
        Seq::empty()
    } else {
        match frames[i] {
            Frame::Text(t) => seq![t@] + events_from(frames, i + 1),
            Frame::Close => Seq::empty(),
            _ => events_from(frames, i + 1),
        }
    }
}

/// The state a stream is left in after a frame sequence from index `i`:
/// closed exactly when a close frame occurs.
pub open spec fn end_state_from(frames: Seq<Frame>, i: int) -> StreamState
    recommends
        0 <= i <= frames.len(),
    decreases frames.len() - i,
{
    if i < 0 || i >= frames.len() {
        StreamState::Open
    } else {
        match frames[i] {
            Frame::Close => StreamState::Closed,
            _ => end_state_from(frames, i + 1),
        }
    }
}

/// Replays a frame sequence from index `i` through the decoder.
fn collect_from(frames: &Vec<Frame>, i: usize) -> (r: (Vec<Vec<u8>>, StreamState))
    requires
        i <= frames@.len(),
    ensures
        r.0@.map_values(|v: Vec<u8>| v@) == events_from(frames@, i as int),
        r.1 == end_state_from(frames@, i as int),
    decreases frames@.len() - i,
{
    if i == frames.len() {
        proof {
            assert(Seq::<Vec<u8>>::empty().map_values(|v: Vec<u8>| v@) =~= Seq::<Seq<u8>>::empty());
        }
        (Vec::new(), StreamState::Open)
    } else {
        match &frames[i] {
            Frame::Text(t) => {
                let copied = slice_to_vec(t.as_slice());
                let (mut rest, st) = collect_from(frames, i + 1);
                let mut out: Vec<Vec<u8>> = Vec::new();
                out.push(copied);
                out.append(&mut rest);
                proof {
                    assert(out@.map_values(|v: Vec<u8>| v@) =~= events_from(frames@, i as int));
                }
                (out, st)
            },
            Frame::Close => {
                proof {
                    assert(Seq::<Vec<u8>>::empty().map_values(|v: Vec<u8>| v@)
                        =~= Seq::<Seq<u8>>::empty());
                }
                (Vec::new(), StreamState::Closed)
            },
            _ => collect_from(frames, i + 1),
        }
    }
}

/// Replays a whole frame sequence through the decoder: the events each
/// text frame yields, in arrival order, and the state the stream is left
/// in. Running the decoder over a sequence is exactly this function.
pub fn collect_events(frames: &Vec<Frame>) -> (r: (Vec<Vec<u8>>, StreamState))
    ensures
        r.0@.map_values(|v: Vec<u8>| v@) == events_from(frames@, 0),
        r.1 == end_state_from(frames@, 0),
{
    collect_from(frames, 0)
}

/// Frame filtering: a sequence of a ping, a text frame, a pong, a second
/// text frame and a close yields exactly the two text payloads in order
/// and then ends cleanly, whatever the payloads are.
pub proof fn lemma_frame_filtering(frames: Seq<Frame>, t1: Seq<u8>, t2: Seq<u8>)
    requires
        frames.len() == 5,
        frames[0] is Ping,
        frames[1] matches Frame::Text(a) && a@ == t1,
        frames[2] is Pong,
        frames[3] matches Frame::Text(b) && b@ == t2,
        frames[4] is Close,
    ensures
        events_from(frames, 0) == seq![t1, t2],
        end_state_from(frames, 0) is Closed,
{
    assert(events_from(frames, 5) =~= Seq::<Seq<u8>>::empty());
    assert(events_from(frames, 4) =~= Seq::<Seq<u8>>::empty());
    assert(events_from(frames, 3) =~= seq![t2]);
    assert(events_from(frames, 2) =~= seq![t2]);
    assert(events_from(frames, 1) =~= seq![t1, t2]);
    assert(events_from(frames, 0) =~= seq![t1, t2]);
    assert(end_state_from(frames, 4) is Closed);
    assert(end_state_from(frames, 3) is Closed);
    assert(end_state_from(frames, 2) is Closed);
    assert(end_state_from(frames, 1) is Closed);
    assert(end_state_from(frames, 0) is Closed);
}

/// A stream error: a frame that did not decode into the topic's event
/// type, or a transport fault. Only the transport fault is terminal —
/// after a decode error the connection is still open and the caller may
/// pull again or drop the stream.
#[derive(Debug)]
pub enum StreamError {
    /// A text frame violated the topic's event schema.
    Decode,
    /// The transport failed; the sequence has ended.
    Transport { fault: WsFault },
}

impl StreamError {
    /// Whether the stream is finished after this error.
    pub fn is_terminal(&self) -> (r: bool)
        ensures
            r == (self is Transport),
    {
        matches!(self, StreamError::Transport { .. })
    }
}

/// Settles the typed decode of one delivered text frame: a decoded event
/// is yielded; a failed decode surfaces as the recoverable decode error,
/// never a crash, and leaves the connection state untouched.
pub fn settle_event<T>(decoded: Option<T>) -> (r: Result<T, StreamError>)
    ensures
        r is Ok <==> decoded is Some,
        r is Ok ==> r->Ok_0 == decoded.unwrap(),
        r is Err ==> r->Err_0 is Decode,
{
    match decoded {
        Some(v) => Ok(v),
        None => Err(StreamError::Decode),
    }
}

/// The target URL of a topic's stream: the WebSocket base followed by
/// the topic's endpoint path.
pub fn stream_url(base: &str, endpoint: &str) -> (r: Vec<u8>)
    ensures
        r@ == encode_utf8(base@) + encode_utf8(endpoint@),
{
    let mut url = base.as_bytes_vec();
    let mut tail = endpoint.as_bytes_vec();
    url.append(&mut tail);
    url
}

} // verus!
