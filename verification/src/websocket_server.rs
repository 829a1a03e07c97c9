//! The rules of one WebSocket connection: how its upgrade request is judged,
//! what it subscribes to, what is answered to its messages and what its end
//! leaves behind.

use vstd::prelude::*;
use vstd::string::*;
use crate::controller::FoxBox;
use crate::registry::contains_id;
use crate::service::{Service, ServicePropertiesView};

verus! {

/// What a connection is subscribed to.
pub enum HandlerKind {
    /// The upgrade request has not been judged yet.
    Unknown,
    /// Every event of the registry.
    Global,
    /// The service with this id.
    Service { id: String },
    /// The connection is over.
    Closed,
}

/// Mathematical form of [`HandlerKind`].
pub enum KindView {
    Unknown,
    Global,
    Service { id: Seq<char> },
    Closed,
}

impl View for HandlerKind {
    type V = KindView;

    open spec fn view(&self) -> KindView {
        match self {
            HandlerKind::Unknown => KindView::Unknown,
            HandlerKind::Global => KindView::Global,
            HandlerKind::Service { id } => KindView::Service { id: id@ },
            HandlerKind::Closed => KindView::Closed,
        }
    }
}

/// Why an upgrade request is refused.
#[derive(PartialEq, Eq, Structural, Clone, Copy, Debug)]
pub enum HandshakeError {
    /// The resource does not start with a slash.
    MalformedPath,
    /// The resource names a service that is not registered.
    NoSuchService,
    /// The connection has been judged before.
    AlreadyJudged,
}

/// What a refused client is told.
pub open spec fn handshake_error_text(error: HandshakeError) -> Seq<char> {
    match error {
        HandshakeError::MalformedPath => "Malformed resource"@,
        HandshakeError::NoSuchService => "No such service"@,
        HandshakeError::AlreadyJudged => "Handshake already done"@,
    }
}

impl HandshakeError {
    /// What a refused client is told.
    pub fn message(&self) -> (r: &'static str)
        ensures
            r@ == handshake_error_text(*self),
    {
        match self {
            HandshakeError::MalformedPath => "Malformed resource",
            HandshakeError::NoSuchService => "No such service",
            HandshakeError::AlreadyJudged => "Handshake already done",
        }
    }
}

/// The resource under which a client subscribes to every event.
pub const GLOBAL_RESOURCE: &'static str = "/services";

/// The close code of a client that is done.
pub const CLOSE_NORMAL: u16 = 1000;

/// The close code of a client that goes away.
pub const CLOSE_AWAY: u16 = 1001;

/// What follows the slash of a resource.
pub open spec fn resource_id(resource: Seq<char>) -> Seq<char> {
    resource.subrange(1, resource.len() as int)
}

/// How the upgrade request for `resource` is judged while `services` are
/// registered.
pub open spec fn classify(resource: Seq<char>, services: Seq<ServicePropertiesView>) -> Result<
    KindView,
    HandshakeError,
> {
    if resource.len() == 0 || resource[0] != '/' {
        Err(HandshakeError::MalformedPath)
    } else if resource == GLOBAL_RESOURCE@ {
        Ok(KindView::Global)
    } else if contains_id(services, resource_id(resource)) {
        Ok(KindView::Service { id: resource_id(resource) })
    } else {
        Err(HandshakeError::NoSuchService)
    }
}

/// The resource under which a client reaches the service `id`.
pub open spec fn resource_of(id: Seq<char>) -> Seq<char> {
    seq!['/'] + id
}

/// The upgrade request for `/services` is always accepted; the one for a
/// registered id is accepted; the one for an id that is not registered is
/// refused, unless the id is the reserved word `services`.
pub proof fn lemma_handshake_outcomes(services: Seq<ServicePropertiesView>, id: Seq<char>)
    ensures
        classify(GLOBAL_RESOURCE@, services) == Ok::<KindView, HandshakeError>(KindView::Global),
        contains_id(services, id) ==> classify(resource_of(id), services) is Ok,
        contains_id(services, id) && id != "services"@ ==> classify(resource_of(id), services)
            == Ok::<KindView, HandshakeError>(KindView::Service { id }),
        !contains_id(services, id) && id != "services"@ ==> classify(resource_of(id), services)
            == Err::<KindView, HandshakeError>(HandshakeError::NoSuchService),
{
    reveal_strlit("/services");
    reveal_strlit("services");
    let resource = resource_of(id);
    assert(resource[0] == '/');
    assert(resource_id(resource) =~= id);
    if resource == GLOBAL_RESOURCE@ {
        assert(id =~= "services"@);
    }
}

/// The note that is logged when a connection ends with `code` and `reason`.
pub open spec fn close_note_text(code: u16, reason: Seq<char>) -> Seq<char> {
    if code == CLOSE_NORMAL {
        "The client is done with the connection."@
    } else if code == CLOSE_AWAY {
        "The client is leaving the site."@
    } else {
        "The client encountered an error: "@ + reason
    }
}

/// The note that is logged when a connection ends with `code` and `reason`.
pub fn close_note(code: u16, reason: &str) -> (r: String)
    ensures
        r@ == close_note_text(code, reason@),
{
    if code == CLOSE_NORMAL {
        String::from_str("The client is done with the connection.")
    } else if code == CLOSE_AWAY {
        String::from_str("The client is leaving the site.")
    } else {
        let mut r = String::from_str("The client encountered an error: ");
        r.append(reason);
        r
    }
}

/// Judges the upgrade request for `resource` against the services that are
/// registered with `controller` now.
pub fn judge<S: Service, H>(resource: &str, controller: &FoxBox<S, H>) -> (r: Result<
    HandlerKind,
    HandshakeError,
>)
    ensures
        match r {
            Ok(kind) => classify(resource@, controller.services()) == Ok::<
                KindView,
                HandshakeError,
            >(kind@),
            Err(e) => classify(resource@, controller.services()) == Err::<
                KindView,
                HandshakeError,
            >(e),
        },
{
    let n = resource.unicode_len();
    if n == 0 || resource.get_char(0) != '/' {
        return Err(HandshakeError::MalformedPath);
    }
    if String::from_str(resource) == String::from_str(GLOBAL_RESOURCE) {
        return Ok(HandlerKind::Global);
    }
    let id = String::from_str(resource.substring_char(1, n));
    if controller.has_service(&id) {
        Ok(HandlerKind::Service { id })
    } else {
        Err(HandshakeError::NoSuchService)
    }
}

/// One WebSocket connection, as the gateway keeps track of it.
pub struct WebsocketHandler {
    token: usize,
    kind: HandlerKind,
    subscribed: bool,
}

impl WebsocketHandler {
    #[verifier::type_invariant]
    spec fn only_global_subscribes(&self) -> bool {
        self.subscribed ==> self.kind is Global
    }

    /// The token of the connection.
    pub closed spec fn spec_token(&self) -> usize {
        self.token
    }

    /// What the connection is subscribed to.
    pub closed spec fn spec_kind(&self) -> KindView {
        self.kind@
    }

    /// Whether the connection's sink is registered with the controller.
    pub closed spec fn spec_subscribed(&self) -> bool {
        self.subscribed
    }

    /// The handler for a connection that was just made.
    pub fn new(token: usize) -> (r: WebsocketHandler)
        ensures
            r.spec_token() == token,
            r.spec_kind() == KindView::Unknown,
            !r.spec_subscribed(),
    {
        WebsocketHandler { token, kind: HandlerKind::Unknown, subscribed: false }
    }

    /// The token of the connection.
    pub fn token(&self) -> (r: usize)
        ensures
            r == self.spec_token(),
    {
        self.token
    }

    /// Whether the connection subscribes to every event.
    pub fn is_global(&self) -> (r: bool)
        ensures
            r == (self.spec_kind() is Global),
    {
        match self.kind {
            HandlerKind::Global => true,
            _ => false,
        }
    }

    /// The id of the service that the connection subscribes to, if it does.
    pub fn service_id(&self) -> (r: Option<String>)
        ensures
            match r {
                Some(id) => self.spec_kind() == (KindView::Service { id: id@ }),
                None => !(self.spec_kind() is Service),
            },
    {
        match &self.kind {
            HandlerKind::Service { id } => Some(id.clone()),
            _ => None,
        }
    }

    /// Whether the connection is over.
    pub fn is_closed(&self) -> (r: bool)
        ensures
            r == (self.spec_kind() is Closed),
    {
        match self.kind {
            HandlerKind::Closed => true,
            _ => false,
        }
    }

    /// Whether the connection's sink is registered with the controller.
    pub fn is_subscribed(&self) -> (r: bool)
        ensures
            r == self.spec_subscribed(),
            r ==> self.spec_kind() is Global,
    {
        proof {
            use_type_invariant(self);
        }
        self.subscribed
    }

    /// Judges the upgrade request of the connection, once. An accepted
    /// request decides what the connection subscribes to; a refused one
    /// leaves the handler as it was.
    pub fn on_request<S: Service, H>(&mut self, resource: &str, controller: &FoxBox<S, H>) -> (r:
        Result<(), HandshakeError>)
        ensures
            final(self).spec_token() == old(self).spec_token(),
            final(self).spec_subscribed() == old(self).spec_subscribed(),
            !(old(self).spec_kind() is Unknown) ==> r == Err::<(), HandshakeError>(
                HandshakeError::AlreadyJudged,
            ) && final(self).spec_kind() == old(self).spec_kind(),
            old(self).spec_kind() is Unknown ==> match classify(resource@, controller.services()) {
                Ok(kind) => r is Ok && final(self).spec_kind() == kind,
                Err(e) => r == Err::<(), HandshakeError>(e) && final(self).spec_kind()
                    == KindView::Unknown,
            },
    {
        proof {
            use_type_invariant(&*self);
        }
        match self.kind {
            HandlerKind::Unknown => {},
            _ => {
                return Err(HandshakeError::AlreadyJudged);
            },
        }
        match judge(resource, controller) {
            Ok(kind) => {
                self.kind = kind;
                Ok(())
            },
            Err(e) => Err(e),
        }
    }

    /// The connection is open. A connection that subscribes to every event
    /// gets `sink` registered under its token, and the result is `true`; for
    /// any other connection nothing changes.
    pub fn on_open<S: Service, H>(&mut self, controller: &mut FoxBox<S, H>, sink: H) -> (r: bool)
        ensures
            r == (old(self).spec_kind() is Global),
            final(self).spec_token() == old(self).spec_token(),
            final(self).spec_kind() == old(self).spec_kind(),
            final(self).spec_subscribed() == (old(self).spec_subscribed() || r),
            final(controller).sinks() == if r {
                old(controller).sinks().insert(old(self).spec_token(), sink)
            } else {
                old(controller).sinks()
            },
            final(controller).services() == old(controller).services(),
            final(controller).service_objects() == old(controller).service_objects(),
            final(controller).same_settings(old(controller)),
    {
        proof {
            use_type_invariant(&*self);
        }
        match self.kind {
            HandlerKind::Global => {
                controller.add_websocket(self.token, sink);
                self.subscribed = true;
                true
            },
            _ => false,
        }
    }

    /// A message has come. On a connection that subscribes to something it
    /// is sent back as it is; on any other connection nothing is sent.
    pub fn on_message<M>(&self, message: M) -> (r: Option<M>)
        ensures
            r == if self.spec_kind() is Global || self.spec_kind() is Service {
                Some(message)
            } else {
                None
            },
    {
        match self.kind {
            HandlerKind::Global | HandlerKind::Service { .. } => Some(message),
            _ => None,
        }
    }

    /// The connection has ended. Its sink, if it was registered, is removed
    /// from the controller; the result is the note to log.
    pub fn on_close<S: Service, H>(
        &mut self,
        controller: &mut FoxBox<S, H>,
        code: u16,
        reason: &str,
    ) -> (r: String)
        ensures
            r@ == close_note_text(code, reason@),
            final(self).spec_token() == old(self).spec_token(),
            final(self).spec_kind() == KindView::Closed,
            !final(self).spec_subscribed(),
            final(controller).sinks() == if old(self).spec_subscribed() {
                old(controller).sinks().remove(old(self).spec_token())
            } else {
                old(controller).sinks()
            },
            final(controller).services() == old(controller).services(),
            final(controller).service_objects() == old(controller).service_objects(),
            final(controller).same_settings(old(controller)),
    {
        if self.subscribed {
            controller.remove_websocket(self.token);
        }
        self.subscribed = false;
        self.kind = HandlerKind::Closed;
        close_note(code, reason)
    }
}

} // verus!
