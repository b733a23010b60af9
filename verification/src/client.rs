//! A client of the daemon that finds the daemon's socket by itself.

use crate::daemon;
use crate::daemon::{DaemonError, Request, Response};
use crate::text;
use crate::transport;
use crate::transport::{DaemonTransport, DaemonTransportError, SendAction, SendEvent};
use vstd::prelude::*;
use vstd::string::*;

verus! {

/// What went wrong between a client and the daemon.
#[derive(Debug)]
pub enum ClientError {
    Io(String),
    Json(String),
    Protocol(String),
    Daemon(DaemonError),
}

impl ClientError {
    /// The error in words.
    pub open spec fn message_of(self) -> Seq<char> {
        match self {
            ClientError::Io(e) => "io error: "@ + e@,
            ClientError::Json(e) => "json error: "@ + e@,
            ClientError::Protocol(e) => "protocol error: "@ + e@,
            ClientError::Daemon(e) => "daemon error: "@ + e.message_of(),
        }
    }

    /// The client's error for a transport's.
    pub open spec fn of_transport(e: DaemonTransportError) -> ClientError {
        match e {
            DaemonTransportError::Io(e) => ClientError::Io(e),
            DaemonTransportError::Json(e) => ClientError::Json(e),
            DaemonTransportError::Protocol(e) => ClientError::Protocol(e),
        }
    }

    /// The client's error for a transport's.
    pub fn from_transport(e: DaemonTransportError) -> (res: ClientError)
        ensures
            res == ClientError::of_transport(e),
            res.message_of() == e.message_of(),
    {
        match e {
            DaemonTransportError::Io(e) => ClientError::Io(e),
            DaemonTransportError::Json(e) => ClientError::Json(e),
            DaemonTransportError::Protocol(e) => ClientError::Protocol(e),
        }
    }

    /// The error in words.
    pub fn message(&self) -> (res: String)
        ensures
            res@ == self.message_of(),
    {
        match self {
            ClientError::Io(e) => {
                let mut res = "io error: ".to_owned();
                res.append(e.as_str());
                res
            },
            ClientError::Json(e) => {
                let mut res = "json error: ".to_owned();
                res.append(e.as_str());
                res
            },
            ClientError::Protocol(e) => {
                let mut res = "protocol error: ".to_owned();
                res.append(e.as_str());
                res
            },
            ClientError::Daemon(e) => {
                let mut res = "daemon error: ".to_owned();
                res.append(e.message().as_str());
                res
            },
        }
    }
}

/// A client of the daemon, at a given socket or at the daemon's own.
#[derive(Debug)]
pub struct DaemonClient {
    pub socket_path: Option<String>,
}

impl DaemonClient {
    /// A client of the daemon at its own socket.
    pub fn new() -> (res: DaemonClient)
        ensures
            res.socket_path is None,
    {
        DaemonClient { socket_path: None }
    }

    /// A client of the daemon at a given socket.
    pub fn with_socket_path(path: String) -> (res: DaemonClient)
        ensures
            res.socket_path == Some(path),
    {
        DaemonClient { socket_path: Some(path) }
    }

    /// The socket that the client connects to, given the values of
    /// `XDG_RUNTIME_DIR` and `UID`.
    pub open spec fn path_of(
        self,
        runtime_dir: Option<Seq<char>>,
        uid: Option<Seq<char>>,
    ) -> Seq<char> {
        match self.socket_path {
            Some(path) => path@,
            None => daemon::socket_path_of(runtime_dir, uid),
        }
    }

    /// The next action for a request, given what the last one led to and the
    /// values of `XDG_RUNTIME_DIR` and `UID`.
    pub fn send(
        &self,
        request: &Request,
        runtime_dir: Option<&str>,
        uid: Option<&str>,
        event: SendEvent,
    ) -> (res: SendAction<ClientError>)
        ensures
            exists|action: SendAction<DaemonTransportError>| #[trigger]
                transport::is_send_action(
                    self.path_of(text::opt_text(runtime_dir), text::opt_text(uid)),
                    daemon::request_text(request@),
                    event,
                    action,
                ) && res == client_action(action),
    {
        let path = match &self.socket_path {
            Some(path) => path.clone(),
            None => match daemon::socket_path(runtime_dir, uid) {
                Ok(path) => path,
                Err(e) => {
                    return SendAction::Finish(Err(ClientError::Daemon(e)));
                },
            },
        };
        let action = DaemonTransport::new(path).send(request, event);
        assert(transport::is_send_action(
            self.path_of(text::opt_text(runtime_dir), text::opt_text(uid)),
            daemon::request_text(request@),
            event,
            action,
        ));
        let ghost done = action;
        let res = match action {
            SendAction::Connect(to) => SendAction::Connect(to),
            SendAction::Write(out) => SendAction::Write(out),
            SendAction::ReadLine => SendAction::ReadLine,
            SendAction::Decode(line) => SendAction::Decode(line),
            SendAction::Finish(Ok(response)) => SendAction::Finish(Ok(response)),
            SendAction::Finish(Err(e)) => SendAction::Finish(Err(ClientError::from_transport(e))),
        };
        assert(res == client_action(done));
        res
    }
}

/// A transport's action as the client's.
pub open spec fn client_action(action: SendAction<DaemonTransportError>) -> SendAction<
    ClientError,
> {
    match action {
        SendAction::Connect(to) => SendAction::Connect(to),
        SendAction::Write(out) => SendAction::Write(out),
        SendAction::ReadLine => SendAction::ReadLine,
        SendAction::Decode(line) => SendAction::Decode(line),
        SendAction::Finish(Ok(response)) => SendAction::Finish(Ok::<Response, ClientError>(response)),
        SendAction::Finish(Err(e)) => SendAction::Finish(
            Err::<Response, ClientError>(ClientError::of_transport(e)),
        ),
    }
}

// ─── Laws ────────────────────────────────────────────────────────────────────

/// A client that was given a socket uses it, whatever the environment says. Any other
/// uses the one at which the daemon listens.
pub proof fn law_client_finds_the_daemon(
    path: String,
    runtime_dir: Option<Seq<char>>,
    uid: Option<Seq<char>>,
)
    ensures
        (DaemonClient { socket_path: Some(path) }).path_of(runtime_dir, uid) == path@,
        (DaemonClient { socket_path: None }).path_of(runtime_dir, uid) == daemon::socket_path_of(
            runtime_dir,
            uid,
        ),
{
}

/// The client does what the transport does, and succeeds exactly when the transport does
/// and with the same answer. A failure is told in the same words.
pub proof fn law_client_acts_as_the_transport(action: SendAction<DaemonTransportError>)
    ensures
        action matches SendAction::Connect(to) ==> client_action(action) == SendAction::<
            ClientError,
        >::Connect(to),
        action matches SendAction::Write(out) ==> client_action(action) == SendAction::<
            ClientError,
        >::Write(out),
        action is ReadLine ==> client_action(action) is ReadLine,
        action matches SendAction::Decode(line) ==> client_action(action) == SendAction::<
            ClientError,
        >::Decode(line),
        action matches SendAction::Finish(Ok(response)) ==> client_action(action)
            == SendAction::Finish(Ok::<Response, ClientError>(response)),
        action matches SendAction::Finish(Err(e)) ==> (client_action(action)
            matches SendAction::Finish(Err(f)) && f.message_of() == e.message_of()),
{
}

/// A failure names its kind and its cause.
pub proof fn law_failure_names_its_cause(e: String, d: DaemonError)
    ensures
        ClientError::Io(e).message_of() == "io error: "@ + e@,
        ClientError::Json(e).message_of() == "json error: "@ + e@,
        ClientError::Protocol(e).message_of() == "protocol error: "@ + e@,
        ClientError::Daemon(d).message_of() == "daemon error: "@ + d.message_of(),
{
}

} // verus!
