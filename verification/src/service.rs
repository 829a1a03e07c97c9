//! What a service is to the gateway: its descriptive record, the requests it is
//! handed and the answers it gives.

use vstd::prelude::*;

verus! {

/// The record that describes a registered service.
pub struct ServiceProperties {
    pub id: String,
    pub name: String,
    pub description: String,
    pub http_url: String,
    pub ws_url: String,
}

/// Mathematical form of [`ServiceProperties`].
pub struct ServicePropertiesView {
    pub id: Seq<char>,
    pub name: Seq<char>,
    pub description: Seq<char>,
    pub http_url: Seq<char>,
    pub ws_url: Seq<char>,
}

impl View for ServiceProperties {
    type V = ServicePropertiesView;

    open spec fn view(&self) -> ServicePropertiesView {
        ServicePropertiesView {
            id: self.id@,
            name: self.name@,
            description: self.description@,
            http_url: self.http_url@,
            ws_url: self.ws_url@,
        }
    }
}

impl Clone for ServiceProperties {
    fn clone(&self) -> (r: Self)
        ensures
            r@ == self@,
    {
        ServiceProperties {
            id: self.id.clone(),
            name: self.name.clone(),
            description: self.description.clone(),
            http_url: self.http_url.clone(),
            ws_url: self.ws_url.clone(),
        }
    }
}

/// One header line of a request or of a response.
pub struct Header {
    pub name: String,
    pub value: String,
}

impl View for Header {
    type V = (Seq<char>, Seq<char>);

    open spec fn view(&self) -> (Seq<char>, Seq<char>) {
        (self.name@, self.value@)
    }
}

/// An HTTP request as a service sees it.
pub struct HttpRequest {
    pub method: String,
    pub path: String,
    pub headers: Vec<Header>,
    pub body: Vec<u8>,
}

/// An HTTP response, as a service or the gateway itself produces it.
pub struct HttpResponse {
    pub status: u16,
    pub headers: Vec<Header>,
    pub body: String,
}

/// Mathematical form of [`HttpResponse`].
pub struct HttpResponseView {
    pub status: int,
    pub headers: Seq<(Seq<char>, Seq<char>)>,
    pub body: Seq<char>,
}

impl View for HttpResponse {
    type V = HttpResponseView;

    open spec fn view(&self) -> HttpResponseView {
        HttpResponseView {
            status: self.status as int,
            headers: self.headers@.map_values(|h: Header| h@),
            body: self.body@,
        }
    }
}

/// Why a service could not answer a request.
pub struct ServiceError {
    pub message: String,
}

/// A driver for one device, real or virtual. The gateway holds services as
/// opaque objects: it asks one for its record when it is registered and hands
/// it the requests addressed to it.
///
/// The two predicates say what an implementation promises of its answers. As
/// they stand they admit every answer, so an implementation that states
/// nothing promises nothing; one that is verified may state more.
pub trait Service {
    /// Whether `props` is a record that this service may give of itself.
    open spec fn describes(&self, props: ServicePropertiesView) -> bool {
        true
    }

    /// Whether this service, handed the request `before`, may leave it as
    /// `after` and give `outcome`.
    open spec fn answers(
        &self,
        before: HttpRequest,
        after: HttpRequest,
        outcome: Result<HttpResponse, ServiceError>,
    ) -> bool {
        true
    }

    /// The record of the service.
    fn get_properties(&self) -> (props: ServiceProperties)
        ensures
            self.describes(props@),
    ;

    /// Answers a request that is addressed to the service.
    fn process_request(&self, request: &mut HttpRequest) -> (outcome: Result<
        HttpResponse,
        ServiceError,
    >)
        ensures
            self.answers(*old(request), *final(request), outcome),
    ;
}

/// A boxed service is the service in the box, so a gateway can hold services
/// of several kinds as `Box<dyn Service>`.
impl<T: Service + ?Sized> Service for Box<T> {
    open spec fn describes(&self, props: ServicePropertiesView) -> bool {
        (**self).describes(props)
    }

    open spec fn answers(
        &self,
        before: HttpRequest,
        after: HttpRequest,
        outcome: Result<HttpResponse, ServiceError>,
    ) -> bool {
        (**self).answers(before, after, outcome)
    }

    fn get_properties(&self) -> (props: ServiceProperties) {
        (**self).get_properties()
    }

    fn process_request(&self, request: &mut HttpRequest) -> (outcome: Result<
        HttpResponse,
        ServiceError,
    >) {
        (**self).process_request(request)
    }
}

} // verus!
