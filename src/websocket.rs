use vstd::prelude::*;
use vstd::string::StringExecFns;

use crate::error::AppError;
use crate::greenlight::CreateOfferRequest;

verus! {

/// The query of a socket upgrade: the session token.
pub struct WebSocketAuth {
    pub token: String,
}

/// The first message on a socket: the stored node credential and its password.
pub struct AuthMessage {
    pub encrypted_device_creds: String,
    pub password: String,
}

/// A command received after authentication, its payload already read as an
/// offer request where it is one.
pub struct WebSocketCommand {
    pub command: String,
    pub offer: Option<CreateOfferRequest>,
}

/// What a socket receives, as the transport reads it.
pub enum WsInput {
    /// A text message; `None` when it did not have the shape expected in the
    /// current state (an authentication message first, commands after).
    Auth(Option<AuthMessage>),
    Command(Option<WebSocketCommand>),
    /// The peer closed the socket.
    Close,
    /// Any other frame.
    Other,
}

/// A command the node can run.
pub enum NodeCommand {
    GetInfo,
    CreateOffer(CreateOfferRequest),
}

/// What the transport does next.
pub enum WsAction {
    /// Confirm authentication.
    AuthAccepted,
    /// Report a malformed authentication message, then close.
    AuthRejected,
    /// Run a command on the node and reply with its outcome under this name.
    Run(String, NodeCommand),
    /// Reply that the command failed, under its name.
    Fail(String, AppError),
    /// Reply that the message was malformed.
    InvalidMessage,
    /// Stop reading and close.
    Close,
    /// Nothing to do.
    Ignore,
}

/// A socket's state: waiting for authentication, or authenticated with the
/// credential and password it was given.
pub struct WsSession {
    pub authenticated: bool,
    pub encrypted_creds: Option<String>,
    pub password: Option<String>,
}

impl WsSession {
    /// Every authenticated session holds the credential and password it was
    /// given; an unauthenticated one holds neither.
    pub open spec fn wf(&self) -> bool {
        &&& self.authenticated <==> self.encrypted_creds is Some
        &&& self.authenticated <==> self.password is Some
    }

    /// A fresh socket, waiting for its authentication message.
    pub fn new() -> (r: WsSession)
        ensures
            r.wf(),
            !r.authenticated,
    {
        WsSession { authenticated: false, encrypted_creds: None, password: None }
    }

    /// Whether the next text message is read as an authentication message.
    pub fn expects_auth(&self) -> (r: bool)
        ensures
            r == !self.authenticated,
    {
        !self.authenticated
    }

    /// Handles one input and says what to do.
    pub fn step(&mut self, input: WsInput) -> (r: WsAction)
        requires
            old(self).wf(),
        ensures
            final(self).wf(),
            match input {
                WsInput::Close => r is Close && *final(self) == *old(self),
                WsInput::Other => r is Ignore && *final(self) == *old(self),
                WsInput::Auth(Some(m)) => if !old(self).authenticated {
                    &&& r is AuthAccepted
                    &&& final(self).authenticated
                    &&& final(self).encrypted_creds == Some(m.encrypted_device_creds)
                    &&& final(self).password == Some(m.password)
                } else {
                    r is Ignore && *final(self) == *old(self)
                },
                WsInput::Auth(None) => if !old(self).authenticated {
                    r is AuthRejected && *final(self) == *old(self)
                } else {
                    r is Ignore && *final(self) == *old(self)
                },
                WsInput::Command(c) => *final(self) == *old(self) && if !old(self).authenticated {
                    r is Ignore
                } else {
                    match c {
                        None => r is InvalidMessage,
                        Some(cmd) => dispatches(cmd, r),
                    }
                },
            },
    {
        match input {
            WsInput::Close => WsAction::Close,
            WsInput::Other => WsAction::Ignore,
            WsInput::Auth(Some(m)) => {
                if self.authenticated {
                    WsAction::Ignore
                } else {
                    self.authenticated = true;
                    self.encrypted_creds = Some(m.encrypted_device_creds);
                    self.password = Some(m.password);
                    WsAction::AuthAccepted
                }
            },
            WsInput::Auth(None) => {
                if self.authenticated {
                    WsAction::Ignore
                } else {
                    WsAction::AuthRejected
                }
            },
            WsInput::Command(c) => {
                if !self.authenticated {
                    WsAction::Ignore
                } else {
                    match c {
                        None => WsAction::InvalidMessage,
                        Some(cmd) => dispatch(cmd),
                    }
                }
            },
        }
    }
}

/// What a well-formed command leads to: "get_info" and "create_offer" with
/// an offer run on the node; "create_offer" without one, "list_offers" and
/// any other name fail as a bad request.
pub open spec fn dispatches(cmd: WebSocketCommand, r: WsAction) -> bool {
    if cmd.command@ == "get_info"@ {
        r matches WsAction::Run(n, NodeCommand::GetInfo) && n@ == cmd.command@
    } else if cmd.command@ == "create_offer"@ {
        match cmd.offer {
            Some(o) => r matches WsAction::Run(n, NodeCommand::CreateOffer(q)) && n@ == cmd.command@ && q == o,
            None => r matches WsAction::Fail(n, e) && n@ == cmd.command@ && e is BadRequest && e.detail()
                == "Invalid create_offer payload"@,
        }
    } else if cmd.command@ == "list_offers"@ {
        r matches WsAction::Fail(n, e) && n@ == cmd.command@ && e is BadRequest && e.detail()
            == "list_offers not yet implemented"@
    } else {
        r matches WsAction::Fail(n, e) && n@ == cmd.command@ && e is BadRequest && e.detail()
            == "Unknown command: "@ + cmd.command@
    }
}

/// Picks what a well-formed command runs.
pub fn dispatch(cmd: WebSocketCommand) -> (r: WsAction)
    ensures
        dispatches(cmd, r),
{
    if cmd.command == String::from_str("get_info") {
        WsAction::Run(cmd.command, NodeCommand::GetInfo)
    } else if cmd.command == String::from_str("create_offer") {
        match cmd.offer {
            Some(o) => WsAction::Run(cmd.command, NodeCommand::CreateOffer(o)),
            None => WsAction::Fail(
                cmd.command,
                AppError::BadRequest(String::from_str("Invalid create_offer payload")),
            ),
        }
    } else if cmd.command == String::from_str("list_offers") {
        WsAction::Fail(cmd.command, AppError::BadRequest(String::from_str("list_offers not yet implemented")))
    } else {
        let detail = String::from_str("Unknown command: ").concat(cmd.command.as_str());
        WsAction::Fail(cmd.command, AppError::BadRequest(detail))
    }
}

} // verus!
