//! The client's side of the daemon's protocol: one JSON line out, one JSON line
//! back over the Unix socket.

use crate::daemon;
use crate::daemon::{Request, RequestView, Response};
use crate::text;
use vstd::prelude::*;
use vstd::string::*;

verus! {

/// What went wrong between a client and the daemon.
#[derive(Debug)]
pub enum DaemonTransportError {
    Io(String),
    Json(String),
    Protocol(String),
}

impl DaemonTransportError {
    /// The error in words.
    pub open spec fn message_of(self) -> Seq<char> {
        match self {
            DaemonTransportError::Io(e) => "io error: "@ + e@,
            DaemonTransportError::Json(e) => "json error: "@ + e@,
            DaemonTransportError::Protocol(e) => "protocol error: "@ + e@,
        }
    }

    /// The error in words.
    pub fn message(&self) -> (res: String)
        ensures
            res@ == self.message_of(),
    {
        match self {
            DaemonTransportError::Io(e) => {
                let mut res = "io error: ".to_owned();
                res.append(e.as_str());
                res
            },
            DaemonTransportError::Json(e) => {
                let mut res = "json error: ".to_owned();
                res.append(e.as_str());
                res
            },
            DaemonTransportError::Protocol(e) => {
                let mut res = "protocol error: ".to_owned();
                res.append(e.as_str());
                res
            },
        }
    }
}

/// A transport to the daemon at a given socket. The caller resolves the path.
#[derive(Debug)]
pub struct DaemonTransport {
    pub socket_path: String,
}

/// What happened to a request on its way.
#[derive(Debug)]
pub enum SendEvent {
    /// Nothing yet.
    Start,
    /// The socket was connected, or could not be.
    Connected(Result<(), String>),
    /// The request was written and flushed, or could not be.
    Written(Result<(), String>),
    /// A line came back, or the end of the stream, or a failure.
    Line(Result<Option<String>, String>),
    /// The line was decoded, or could not be.
    Decoded(Result<Response, String>),
}

/// What to do next for a request.
#[derive(Debug)]
pub enum SendAction<E> {
    /// Connect the socket at this path.
    Connect(String),
    /// Write this text and flush it.
    Write(String),
    /// Read the next line.
    ReadLine,
    /// Decode this line.
    Decode(String),
    /// The request is answered, or has failed.
    Finish(Result<Response, E>),
}

/// `action` is the next action for a request in the given text to the socket at
/// `path`.
pub open spec fn is_send_action(
    path: Seq<char>,
    payload: Seq<char>,
    event: SendEvent,
    action: SendAction<DaemonTransportError>,
) -> bool {
    match event {
        SendEvent::Start => action matches SendAction::Connect(to) && to@ == path,
        SendEvent::Connected(Ok(_)) => action matches SendAction::Write(out) && out@ == payload
            + "\n"@,
        SendEvent::Connected(Err(e)) => action == SendAction::Finish(
            Err::<Response, _>(DaemonTransportError::Io(e)),
        ),
        SendEvent::Written(Ok(_)) => action is ReadLine,
        SendEvent::Written(Err(e)) => action == SendAction::Finish(
            Err::<Response, _>(DaemonTransportError::Io(e)),
        ),
        SendEvent::Line(Ok(Some(line))) => action matches SendAction::Decode(l) && l == line,
        SendEvent::Line(Ok(None)) => action matches SendAction::Finish(Err(e)) && (
        e matches DaemonTransportError::Protocol(message) && message@
            == "daemon closed connection"@),
        SendEvent::Line(Err(e)) => action == SendAction::Finish(
            Err::<Response, _>(DaemonTransportError::Io(e)),
        ),
        SendEvent::Decoded(Ok(response)) => action == SendAction::Finish(
            Ok::<_, DaemonTransportError>(response),
        ),
        SendEvent::Decoded(Err(e)) => action == SendAction::Finish(
            Err::<Response, _>(DaemonTransportError::Json(e)),
        ),
    }
}

impl DaemonTransport {
    /// A transport to the daemon at the given socket.
    pub fn new(socket_path: String) -> (res: DaemonTransport)
        ensures
            res.socket_path == socket_path,
    {
        DaemonTransport { socket_path }
    }

    /// The next action for a request, given what the last one led to.
    pub fn send(&self, request: &Request, event: SendEvent) -> (res: SendAction<
        DaemonTransportError,
    >)
        ensures
            is_send_action(
                self.socket_path@,
                crate::daemon::request_text(request@),
                event,
                res,
            ),
    {
        match event {
            SendEvent::Start => SendAction::Connect(self.socket_path.clone()),
            SendEvent::Connected(Ok(_)) => SendAction::Write(request.frame()),
            SendEvent::Connected(Err(e)) => SendAction::Finish(Err(DaemonTransportError::Io(e))),
            SendEvent::Written(Ok(_)) => SendAction::ReadLine,
            SendEvent::Written(Err(e)) => SendAction::Finish(Err(DaemonTransportError::Io(e))),
            SendEvent::Line(Ok(Some(line))) => SendAction::Decode(line),
            SendEvent::Line(Ok(None)) => SendAction::Finish(
                Err(DaemonTransportError::Protocol("daemon closed connection".to_owned())),
            ),
            SendEvent::Line(Err(e)) => SendAction::Finish(Err(DaemonTransportError::Io(e))),
            SendEvent::Decoded(Ok(response)) => SendAction::Finish(Ok(response)),
            SendEvent::Decoded(Err(e)) => SendAction::Finish(Err(DaemonTransportError::Json(e))),
        }
    }
}

// ─── Laws ────────────────────────────────────────────────────────────────────

/// A request succeeds only with an answer that was decoded, and with that very answer.
pub proof fn law_only_an_answer_is_success(
    path: Seq<char>,
    payload: Seq<char>,
    event: SendEvent,
    action: SendAction<DaemonTransportError>,
)
    requires
        is_send_action(path, payload, event, action),
    ensures
        action matches SendAction::Finish(Ok(response)) ==> event == SendEvent::Decoded(
            Ok(response),
        ),
        event matches SendEvent::Decoded(Ok(response)) ==> action == SendAction::Finish(
            Ok::<Response, DaemonTransportError>(response),
        ),
        action is Finish <==> match event {
            SendEvent::Start => false,
            SendEvent::Connected(r) => r is Err,
            SendEvent::Written(r) => r is Err,
            SendEvent::Line(r) => r is Err || r->Ok_0 is None,
            SendEvent::Decoded(_) => true,
        },
{
}

/// A failure of the socket, an answer that is none and a connection that was closed are
/// told apart, and the first two are named as they are.
pub proof fn law_failures_are_told_apart(
    path: Seq<char>,
    payload: Seq<char>,
    e: String,
    connect: SendAction<DaemonTransportError>,
    write: SendAction<DaemonTransportError>,
    read: SendAction<DaemonTransportError>,
    end: SendAction<DaemonTransportError>,
    decode: SendAction<DaemonTransportError>,
)
    requires
        is_send_action(path, payload, SendEvent::Connected(Err(e)), connect),
        is_send_action(path, payload, SendEvent::Written(Err(e)), write),
        is_send_action(path, payload, SendEvent::Line(Err(e)), read),
        is_send_action(path, payload, SendEvent::Line(Ok(None)), end),
        is_send_action(path, payload, SendEvent::Decoded(Err(e)), decode),
    ensures
        connect == SendAction::Finish(Err::<Response, _>(DaemonTransportError::Io(e))),
        write == connect && read == connect,
        decode == SendAction::Finish(Err::<Response, _>(DaemonTransportError::Json(e))),
        end matches SendAction::Finish(Err(failure)) && failure.message_of()
            == "protocol error: daemon closed connection"@,
{
    reveal_strlit("protocol error: ");
    reveal_strlit("daemon closed connection");
    reveal_strlit("protocol error: daemon closed connection");
    assert("protocol error: "@ + "daemon closed connection"@
        =~= "protocol error: daemon closed connection"@);
}

/// What is sent to the daemon is one line, in which the daemon finds the request, and it
/// is sent to the socket that the transport was made for. The line that comes back is
/// decoded as it is.
pub proof fn law_daemon_finds_the_request(
    path: Seq<char>,
    request: RequestView,
    line: String,
    start: SendAction<DaemonTransportError>,
    write: SendAction<DaemonTransportError>,
    decode: SendAction<DaemonTransportError>,
)
    requires
        is_send_action(path, daemon::request_text(request), SendEvent::Start, start),
        is_send_action(path, daemon::request_text(request), SendEvent::Connected(Ok(())), write),
        is_send_action(
            path,
            daemon::request_text(request),
            SendEvent::Line(Ok(Some(line))),
            decode,
        ),
    ensures
        start matches SendAction::Connect(to) && to@ == path,
        write matches SendAction::Write(out) && text::lines(out@).len() == 1
            && daemon::decoded_request(text::lines(out@)[0]) == Some(request),
        decode matches SendAction::Decode(l) && l == line,
{
    daemon::lemma_request_is_line(request);
    daemon::law_frame_is_one_line(daemon::request_text(request));
    daemon::law_request_is_read_back(request);
}

/// A failure names its kind and its cause.
pub proof fn law_failure_names_its_cause(e: String)
    ensures
        DaemonTransportError::Io(e).message_of() == "io error: "@ + e@,
        DaemonTransportError::Json(e).message_of() == "json error: "@ + e@,
        DaemonTransportError::Protocol(e).message_of() == "protocol error: "@ + e@,
{
}

} // verus!
