//! The controller: the registry of services, the set of connected sinks and
//! the addresses under which the gateway is reached, behind one object.

use vstd::prelude::*;
use vstd::string::*;
use crate::broadcaster::SinkSet;
use crate::event::{payload_text, Event, EventView};
use crate::json::{array_text, listing_items, listing_json, properties_json, EncodeError};
use crate::number::{decimal_text, format_port};
use crate::registry::{
    contains_id, ids, index_of, lemma_added_service_is_visible, lookup, unique_ids, with_service,
    without_service, Registry,
};
use crate::text::optional_view;
use crate::service::{
    Header, HttpRequest, HttpResponse, HttpResponseView, Service, ServiceError, ServiceProperties,
    ServicePropertiesView,
};

verus! {

/// The port for HTTPS where none is configured.
pub const DEFAULT_HTTP_PORT: u16 = 3000;

/// The port for WebSocket connections where none is configured.
pub const DEFAULT_WS_PORT: u16 = 4000;

/// The host name where none is configured: every address, in IPv6 terms.
pub const DEFAULT_HOSTNAME: &'static str = "::";

/// The domain that is appended to a configured host name.
pub const DEFAULT_DOMAIN: &'static str = ".local";

/// The name that the certificate files are named after.
pub open spec fn certificate_name(hostname: Option<Seq<char>>) -> Seq<char> {
    match hostname {
        Some(name) => name,
        None => DEFAULT_HOSTNAME@,
    }
}

/// The host name under which the gateway is reached.
pub open spec fn full_hostname(hostname: Option<Seq<char>>) -> Seq<char> {
    match hostname {
        Some(name) => name + DEFAULT_DOMAIN@,
        None => DEFAULT_HOSTNAME@,
    }
}

/// Where the certificate of the host called `name` is kept.
pub open spec fn certificate_path(name: Seq<char>) -> Seq<char> {
    "certs/server/"@ + name + "-server.crt.pem"@
}

/// Where the private key of the host called `name` is kept.
pub open spec fn key_path(name: Seq<char>) -> Seq<char> {
    "certs/server/"@ + name + "-server.key.pem"@
}

/// The root of the URLs of the service `id`: `scheme://hostname:port/services/id/`.
pub open spec fn service_root(
    scheme: Seq<char>,
    hostname: Seq<char>,
    port: u16,
    id: Seq<char>,
) -> Seq<char> {
    scheme + "://"@ + hostname + ":"@ + decimal_text(port as nat) + "/services/"@ + id + "/"@
}

/// The answer to a request for a service that is not registered.
pub open spec fn no_such_service_view(id: Seq<char>) -> HttpResponseView {
    HttpResponseView {
        status: 400,
        headers: seq![
            ("Access-Control-Allow-Origin"@, "*"@),
            ("Content-Type"@, "text/plain"@),
        ],
        body: "No Such Service: "@ + id,
    }
}

/// The answer to a request for the service `id`, which is not registered:
/// status 400, a body that names the id, open to every origin, plain text.
pub fn no_such_service(id: &str) -> (r: HttpResponse)
    ensures
        r@ == no_such_service_view(id@),
{
    let mut headers: Vec<Header> = Vec::new();
    headers.push(
        Header {
            name: String::from_str("Access-Control-Allow-Origin"),
            value: String::from_str("*"),
        },
    );
    headers.push(
        Header { name: String::from_str("Content-Type"), value: String::from_str("text/plain") },
    );
    let mut body = String::from_str("No Such Service: ");
    body.append(id);
    let r = HttpResponse { status: 400, headers, body };
    assert(r@.headers =~= no_such_service_view(id@).headers);
    r
}

/// What is to be pushed, and to whom.
pub struct Broadcast {
    /// The text to send.
    pub payload: String,
    /// The tokens of the sinks to send it to, each once.
    pub targets: Vec<usize>,
}

/// The controller of the gateway. `S` is the type of the services it holds,
/// `H` the type of the handles through which connected sinks are reached.
pub struct FoxBox<S, H> {
    local_tls_crt: String,
    local_tls_key: String,
    pub verbose: bool,
    hostname: String,
    http_port: u16,
    ws_port: u16,
    services: Registry<S>,
    websockets: SinkSet<H>,
}

impl<S, H> FoxBox<S, H> {
    /// The host name under which the gateway is reached.
    pub closed spec fn spec_hostname(&self) -> Seq<char> {
        self.hostname@
    }

    /// Whether verbose output is asked for.
    pub closed spec fn spec_verbose(&self) -> bool {
        self.verbose
    }

    /// The port for HTTPS.
    pub closed spec fn spec_http_port(&self) -> u16 {
        self.http_port
    }

    /// The port for WebSocket connections.
    pub closed spec fn spec_ws_port(&self) -> u16 {
        self.ws_port
    }

    /// Where the certificate is kept.
    pub closed spec fn spec_local_tls_crt(&self) -> Seq<char> {
        self.local_tls_crt@
    }

    /// Where the private key is kept.
    pub closed spec fn spec_local_tls_key(&self) -> Seq<char> {
        self.local_tls_key@
    }

    /// The records of the registered services, in their order.
    pub closed spec fn services(&self) -> Seq<ServicePropertiesView> {
        self.services@
    }

    /// The registered services themselves, each at the place of its record.
    pub closed spec fn service_objects(&self) -> Seq<S> {
        self.services.services()
    }

    /// The connected sinks, each under its token.
    pub closed spec fn sinks(&self) -> Map<usize, H> {
        self.websockets@
    }

    /// Everything but the registry and the sinks is the same in both.
    pub open spec fn same_settings(&self, other: &Self) -> bool {
        &&& self.spec_hostname() == other.spec_hostname()
        &&& self.spec_http_port() == other.spec_http_port()
        &&& self.spec_ws_port() == other.spec_ws_port()
        &&& self.spec_local_tls_crt() == other.spec_local_tls_crt()
        &&& self.spec_local_tls_key() == other.spec_local_tls_key()
        &&& self.spec_verbose() == other.spec_verbose()
    }

    /// The service that a request for `id` is addressed to, if there is one.
    pub open spec fn addressed(&self, id: Seq<char>) -> Option<S> {
        if contains_id(self.services(), id) {
            Some(self.service_objects()[index_of(self.services(), id)])
        } else {
            None
        }
    }

    /// `broadcast` sends `event` to every connected sink, once.
    pub open spec fn sends(&self, broadcast: &Broadcast, event: EventView) -> bool {
        &&& broadcast.payload@ == payload_text(event)
        &&& broadcast.targets@.no_duplicates()
        &&& broadcast.targets@.to_set() == self.sinks().dom()
    }

    /// `self` shows the record `props` to whoever asks for its id; and if
    /// that id is not registered in `before`, `self` counts one service more
    /// and lists what `before` lists with the object of `props` at the end.
    pub open spec fn shows_added(&self, before: &Self, props: ServicePropertiesView) -> bool {
        &&& lookup(self.services(), props.id) == Some(props)
        &&& !contains_id(before.services(), props.id) ==> {
            &&& self.services().len() == before.services().len() + 1
            &&& ids(self.services()).len() == ids(before.services()).len() + 1
            &&& listing_json(self.services()) == array_text(
                listing_items(before.services()).push(properties_json(props)),
            )
        }
    }

    /// `self` is `before` after `service` was registered with the record
    /// `props`, and `broadcast` tells every sink that it started.
    pub open spec fn registered(
        &self,
        before: &Self,
        props: ServicePropertiesView,
        service: S,
        broadcast: &Broadcast,
    ) -> bool {
        &&& self.shows_added(before, props)
        &&& self.services() == with_service(before.services(), props)
        &&& self.service_objects() == if contains_id(before.services(), props.id) {
            before.service_objects().update(index_of(before.services(), props.id), service)
        } else {
            before.service_objects().push(service)
        }
        &&& self.sinks() == before.sinks()
        &&& self.same_settings(before)
        &&& self.sends(broadcast, EventView::ServiceStart { id: props.id })
    }
}

impl<S: Service, H> FoxBox<S, H> {
    /// A controller with no service and no sink. A host name that is given
    /// gets the local domain appended; the certificate files are named after
    /// the name as given.
    pub fn new(
        verbose: bool,
        hostname: Option<String>,
        http_port: Option<u16>,
        ws_port: Option<u16>,
    ) -> (r: FoxBox<S, H>)
        ensures
            r.spec_verbose() == verbose,
            r.spec_hostname() == full_hostname(optional_view(hostname)),
            r.spec_local_tls_crt() == certificate_path(
                certificate_name(optional_view(hostname)),
            ),
            r.spec_local_tls_key() == key_path(
                certificate_name(optional_view(hostname)),
            ),
            r.spec_http_port() == match http_port {
                Some(p) => p,
                None => DEFAULT_HTTP_PORT,
            },
            r.spec_ws_port() == match ws_port {
                Some(p) => p,
                None => DEFAULT_WS_PORT,
            },
            r.services() == Seq::<ServicePropertiesView>::empty(),
            r.service_objects() == Seq::<S>::empty(),
            r.sinks() == Map::<usize, H>::empty(),
    {
        let full = match &hostname {
            Some(name) => {
                let mut full = name.clone();
                full.append(DEFAULT_DOMAIN);
                full
            },
            None => String::from_str(DEFAULT_HOSTNAME),
        };
        let name = match hostname {
            Some(name) => name,
            None => String::from_str(DEFAULT_HOSTNAME),
        };
        let mut local_crt = String::from_str("certs/server/");
        local_crt.append(name.as_str());
        local_crt.append("-server.crt.pem");
        let mut local_key = String::from_str("certs/server/");
        local_key.append(name.as_str());
        local_key.append("-server.key.pem");
        FoxBox {
            local_tls_crt: local_crt,
            local_tls_key: local_key,
            verbose,
            hostname: full,
            http_port: match http_port {
                Some(p) => p,
                None => DEFAULT_HTTP_PORT,
            },
            ws_port: match ws_port {
                Some(p) => p,
                None => DEFAULT_WS_PORT,
            },
            services: Registry::new(),
            websockets: SinkSet::new(),
        }
    }

    /// Whether verbose output is asked for.
    pub fn is_verbose(&self) -> (r: bool)
        ensures
            r == self.spec_verbose(),
    {
        self.verbose
    }

    /// The host name under which the gateway is reached.
    pub fn hostname(&self) -> (r: String)
        ensures
            r@ == self.spec_hostname(),
    {
        self.hostname.clone()
    }

    /// The port for HTTPS.
    pub fn http_port(&self) -> (r: u16)
        ensures
            r == self.spec_http_port(),
    {
        self.http_port
    }

    /// The port for WebSocket connections.
    pub fn ws_port(&self) -> (r: u16)
        ensures
            r == self.spec_ws_port(),
    {
        self.ws_port
    }

    /// Where the certificate is kept.
    pub fn get_local_tls_crt(&self) -> (r: String)
        ensures
            r@ == self.spec_local_tls_crt(),
    {
        self.local_tls_crt.clone()
    }

    /// Where the private key is kept.
    pub fn get_local_tls_key(&self) -> (r: String)
        ensures
            r@ == self.spec_local_tls_key(),
    {
        self.local_tls_key.clone()
    }

    /// The root of the HTTPS URLs of a service.
    pub fn get_http_root_for_service(&self, service_id: String) -> (r: String)
        ensures
            r@ == service_root("https"@, self.spec_hostname(), self.spec_http_port(), service_id@),
    {
        self.root_for_service("https", self.http_port, service_id.as_str())
    }

    /// The root of the WebSocket URLs of a service.
    pub fn get_ws_root_for_service(&self, service_id: String) -> (r: String)
        ensures
            r@ == service_root("ws"@, self.spec_hostname(), self.spec_ws_port(), service_id@),
    {
        self.root_for_service("ws", self.ws_port, service_id.as_str())
    }

    fn root_for_service(&self, scheme: &str, port: u16, id: &str) -> (r: String)
        ensures
            r@ == service_root(scheme@, self.spec_hostname(), port, id@),
    {
        let mut r = String::from_str(scheme);
        r.append("://");
        r.append(self.hostname.as_str());
        r.append(":");
        r.append(format_port(port).as_str());
        r.append("/services/");
        r.append(id);
        r.append("/");
        r
    }

    /// How many services are registered: as many as there are registered ids.
    pub fn services_count(&self) -> (n: usize)
        ensures
            n == self.services().len(),
            n == ids(self.services()).len(),
            unique_ids(self.services()),
    {
        self.services.len()
    }

    /// The record of the service with `id`.
    pub fn get_service_properties(&self, id: String) -> (r: Option<ServiceProperties>)
        ensures
            match r {
                Some(p) => lookup(self.services(), id@) == Some(p@),
                None => lookup(self.services(), id@) is None,
            },
    {
        self.services.get_properties(&id)
    }

    /// The JSON array that lists the records of the registered services, in
    /// their order. A fault of the encoder would come back as an error; with
    /// records made of strings there is none, so this succeeds.
    pub fn services_as_json(&self) -> (r: Result<String, EncodeError>)
        ensures
            r matches Ok(s) && s@ == listing_json(self.services()),
    {
        self.services.to_json()
    }

    /// What to push for `event`: its text, to every sink that is connected
    /// now. Nothing changes; with no sink there is nobody to send to.
    pub fn broadcast_to_websockets(&self, event: &Event) -> (r: Broadcast)
        ensures
            self.sends(&r, event@),
            self.sinks().dom().len() == 0 ==> r.targets@.len() == 0,
    {
        let targets = self.websockets.tokens();
        proof {
            if self.sinks().dom().len() == 0 {
                targets@.unique_seq_to_set();
            }
        }
        Broadcast { payload: event.payload(), targets }
    }

    /// What to push when the adapter called `adapter` has started.
    pub fn adapter_started(&self, adapter: String) -> (r: Broadcast)
        ensures
            self.sends(&r, EventView::AdapterStart { name: adapter@ }),
    {
        self.broadcast_to_websockets(&Event::AdapterStart { name: adapter })
    }

    /// What to push when an adapter has `notification` to pass on.
    pub fn adapter_notification(&self, notification: serde_json::Value) -> (r: Broadcast)
        ensures
            self.sends(&r, EventView::AdapterNotification { message: notification }),
    {
        self.broadcast_to_websockets(&Event::AdapterNotification { message: notification })
    }

    /// Registers `service` with the record `props`: under a new id at the end,
    /// under a known id in place of the service that has it. The record is
    /// found under its id at once, and a new id is counted and listed last.
    /// Says what to push: that the service started.
    pub fn register(&mut self, props: ServiceProperties, service: S) -> (r: Broadcast)
        ensures
            final(self).registered(old(self), props@, service, &r),
    {
        let id = props.id.clone();
        // Asking for the count brings the fact that no id stands twice.
        let _known: usize = self.services.len();
        proof {
            lemma_added_service_is_visible(self.services(), props@);
        }
        self.services.insert(props, service);
        self.broadcast_to_websockets(&Event::ServiceStart { id })
    }

    /// Asks `service` for its record and registers it with that record, as
    /// [`FoxBox::register`] does. This always succeeds: a service that has the
    /// id already is replaced.
    pub fn add_service(&mut self, service: S) -> (r: Broadcast)
        ensures
            exists|props: ServicePropertiesView|
                service.describes(props) && #[trigger] final(self).registered(
                    old(self),
                    props,
                    service,
                    &r,
                ),
    {
        let props = service.get_properties();
        let ghost given = props@;
        let r = self.register(props, service);
        assert(service.describes(given) && self.registered(old(self), given, service, &r));
        r
    }

    /// Removes the service with `id` if there is one, and says what to push:
    /// that the service stopped, whether or not there was one.
    pub fn remove_service(&mut self, id: String) -> (r: Broadcast)
        ensures
            final(self).services() == without_service(old(self).services(), id@),
            !contains_id(old(self).services(), id@) ==> {
                &&& final(self).services() == old(self).services()
                &&& final(self).service_objects() == old(self).service_objects()
            },
            contains_id(old(self).services(), id@) ==> {
                let place = index_of(old(self).services(), id@);
                final(self).service_objects() == old(self).service_objects().remove(place)
            },
            final(self).sinks() == old(self).sinks(),
            final(self).same_settings(old(self)),
            final(self).sends(&r, EventView::ServiceStop { id: id@ }),
    {
        self.services.remove(&id);
        self.broadcast_to_websockets(&Event::ServiceStop { id })
    }

    /// The service with `id`.
    pub fn get_service(&self, id: &String) -> (r: Option<&S>)
        ensures
            r == if contains_id(self.services(), id@) {
                Some(&self.service_objects()[index_of(self.services(), id@)])
            } else {
                None
            },
    {
        self.services.get_service(id)
    }

    /// Hands `request` to the service with `id` and returns what the service
    /// answers, or its error, as it is. Where no such service is registered,
    /// the request is left alone and the answer is that of
    /// [`no_such_service`].
    pub fn dispatch_service_request(&self, id: String, request: &mut HttpRequest) -> (r: Result<
        HttpResponse,
        ServiceError,
    >)
        ensures
            match self.addressed(id@) {
                Some(service) => service.answers(*old(request), *final(request), r),
                None => {
                    &&& *final(request) == *old(request)
                    &&& r matches Ok(response)
                    &&& response@ == no_such_service_view(id@)
                },
            },
    {
        match self.get_service(&id) {
            None => Ok(no_such_service(id.as_str())),
            Some(service) => service.process_request(request),
        }
    }

    /// Registers the sink of the connection `token`.
    pub fn add_websocket(&mut self, token: usize, socket: H)
        ensures
            final(self).sinks() == old(self).sinks().insert(token, socket),
            final(self).services() == old(self).services(),
            final(self).service_objects() == old(self).service_objects(),
            final(self).same_settings(old(self)),
    {
        self.websockets.insert(token, socket);
    }

    /// Removes the sink of the connection `token`, if it is registered, and
    /// hands it out.
    pub fn remove_websocket(&mut self, token: usize) -> (r: Option<H>)
        ensures
            final(self).sinks() == old(self).sinks().remove(token),
            r == if old(self).sinks().contains_key(token) {
                Some(old(self).sinks()[token])
            } else {
                None
            },
            final(self).services() == old(self).services(),
            final(self).service_objects() == old(self).service_objects(),
            final(self).same_settings(old(self)),
    {
        self.websockets.remove(token)
    }

    /// The sink of the connection `token`.
    pub fn websocket(&self, token: usize) -> (r: Option<&H>)
        ensures
            r == if self.sinks().contains_key(token) {
                Some(&self.sinks()[token])
            } else {
                None
            },
    {
        self.websockets.get(token)
    }

    /// How many sinks are connected.
    pub fn websockets_count(&self) -> (n: usize)
        ensures
            self.sinks().dom().finite(),
            n == self.sinks().dom().len(),
    {
        self.websockets.len()
    }

    /// Whether a service with `id` is registered.
    pub fn has_service(&self, id: &String) -> (r: bool)
        ensures
            r == contains_id(self.services(), id@),
    {
        self.services.position(id).is_some()
    }
}

} // verus!
