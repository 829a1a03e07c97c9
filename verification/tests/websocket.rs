use foxbox::controller::FoxBox;
use foxbox::service::{HttpRequest, HttpResponse, Service, ServiceError, ServiceProperties};
use foxbox::websocket_server::{close_note, judge, HandlerKind, HandshakeError, WebsocketHandler};

struct Lamp {
    id: String,
}

impl Service for Lamp {
    fn get_properties(&self) -> ServiceProperties {
        ServiceProperties {
            id: self.id.clone(),
            name: "lamp".to_owned(),
            description: "a lamp".to_owned(),
            http_url: String::new(),
            ws_url: String::new(),
        }
    }

    fn process_request(&self, _request: &mut HttpRequest) -> Result<HttpResponse, ServiceError> {
        Err(ServiceError { message: "not asked in these tests".to_owned() })
    }
}

fn gateway(ids: &[&str]) -> FoxBox<Lamp, String> {
    let mut controller = FoxBox::new(false, Some("foxbox".to_owned()), None, None);
    for id in ids {
        controller.add_service(Lamp { id: (*id).to_owned() });
    }
    controller
}

#[test]
fn handshake_to_services_always_succeeds() {
    let empty = gateway(&[]);
    let mut handler = WebsocketHandler::new(1);
    assert_eq!(handler.on_request("/services", &empty), Ok(()));
    assert!(handler.is_global());
    let full = gateway(&["services", "a"]);
    let mut other = WebsocketHandler::new(2);
    assert_eq!(other.on_request("/services", &full), Ok(()));
    assert!(other.is_global());
    assert_eq!(other.service_id(), None);
}

#[test]
fn handshake_to_a_live_service_succeeds() {
    let controller = gateway(&["a", "kitchen lamp"]);
    let mut handler = WebsocketHandler::new(1);
    assert_eq!(handler.on_request("/kitchen lamp", &controller), Ok(()));
    assert!(!handler.is_global());
    assert_eq!(handler.service_id(), Some("kitchen lamp".to_owned()));
}

#[test]
fn handshake_to_an_unknown_service_is_refused() {
    let controller = gateway(&["a"]);
    let mut handler = WebsocketHandler::new(1);
    assert_eq!(handler.on_request("/b", &controller), Err(HandshakeError::NoSuchService));
    assert!(!handler.is_global());
    assert_eq!(handler.service_id(), None);
    assert_eq!(handler.on_message("hello".to_owned()), None);
    assert_eq!(handler.on_request("/", &controller), Err(HandshakeError::NoSuchService));
    assert_eq!(handler.on_request("/services/", &controller), Err(HandshakeError::NoSuchService));
    assert_eq!(handler.on_request("/a", &controller), Ok(()));
}

#[test]
fn handshake_to_a_removed_service_is_refused() {
    let mut controller = gateway(&["a"]);
    controller.remove_service("a".to_owned());
    let mut handler = WebsocketHandler::new(1);
    assert_eq!(handler.on_request("/a", &controller), Err(HandshakeError::NoSuchService));
}

#[test]
fn malformed_resource_is_refused() {
    let controller = gateway(&["a", ""]);
    let mut handler = WebsocketHandler::new(1);
    assert_eq!(handler.on_request("", &controller), Err(HandshakeError::MalformedPath));
    assert_eq!(handler.on_request("a", &controller), Err(HandshakeError::MalformedPath));
    assert_eq!(handler.on_request("services", &controller), Err(HandshakeError::MalformedPath));
    assert_eq!(handler.on_request("\u{e9}a", &controller), Err(HandshakeError::MalformedPath));
    assert_eq!(handler.on_request("/", &controller), Ok(()));
    assert_eq!(handler.service_id(), Some(String::new()));
}

#[test]
fn a_connection_is_judged_once() {
    let controller = gateway(&["a"]);
    let mut handler = WebsocketHandler::new(1);
    assert_eq!(handler.on_request("/a", &controller), Ok(()));
    assert_eq!(handler.on_request("/services", &controller), Err(HandshakeError::AlreadyJudged));
    assert_eq!(handler.service_id(), Some("a".to_owned()));
}

#[test]
fn judge_leaves_the_choice_to_the_registry() {
    let controller = gateway(&["caf\u{e9}"]);
    assert!(matches!(judge("/services", &controller), Ok(HandlerKind::Global)));
    match judge("/caf\u{e9}", &controller) {
        Ok(HandlerKind::Service { id }) => assert_eq!(id, "caf\u{e9}"),
        _ => panic!("a live service was refused"),
    }
    assert!(matches!(judge("/cafe", &controller), Err(HandshakeError::NoSuchService)));
}

#[test]
fn global_connection_registers_its_sink_and_removes_it_once() {
    let mut controller = gateway(&[]);
    let mut handler = WebsocketHandler::new(11);
    assert_eq!(handler.token(), 11);
    assert_eq!(handler.on_request("/services", &controller), Ok(()));
    assert!(handler.on_open(&mut controller, "sink 11".to_owned()));
    assert!(handler.is_subscribed());
    assert_eq!(controller.websockets_count(), 1);
    assert_eq!(controller.websocket(11), Some(&"sink 11".to_owned()));
    let note = handler.on_close(&mut controller, 1000, "");
    assert_eq!(note, "The client is done with the connection.");
    assert!(handler.is_closed());
    assert!(!handler.is_subscribed());
    assert_eq!(controller.websockets_count(), 0);
    controller.add_websocket(11, "a later connection".to_owned());
    handler.on_close(&mut controller, 1000, "");
    assert_eq!(controller.websockets_count(), 1);
}

#[test]
fn service_connection_registers_no_sink() {
    let mut controller = gateway(&["a"]);
    let mut handler = WebsocketHandler::new(5);
    assert_eq!(handler.on_request("/a", &controller), Ok(()));
    assert!(!handler.on_open(&mut controller, "sink 5".to_owned()));
    assert!(!handler.is_subscribed());
    assert_eq!(controller.websockets_count(), 0);
    controller.add_websocket(5, "somebody else".to_owned());
    handler.on_close(&mut controller, 1001, "");
    assert_eq!(controller.websockets_count(), 1);
}

#[test]
fn messages_are_echoed_on_accepted_connections_only() {
    let mut controller = gateway(&["a"]);
    let mut handler = WebsocketHandler::new(5);
    assert_eq!(handler.on_message(vec![1u8, 2, 3]), None);
    assert_eq!(handler.on_request("/a", &controller), Ok(()));
    assert_eq!(handler.on_message(vec![1u8, 2, 3]), Some(vec![1u8, 2, 3]));
    let mut global = WebsocketHandler::new(6);
    assert_eq!(global.on_request("/services", &controller), Ok(()));
    assert_eq!(global.on_message("ping".to_owned()), Some("ping".to_owned()));
    handler.on_close(&mut controller, 1006, "gone");
    assert_eq!(handler.on_message(vec![4u8]), None);
}

#[test]
fn close_notes_follow_the_code() {
    assert_eq!(close_note(1000, "bye"), "The client is done with the connection.");
    assert_eq!(close_note(1001, "bye"), "The client is leaving the site.");
    assert_eq!(close_note(1002, "bad frame"), "The client encountered an error: bad frame");
    assert_eq!(close_note(1011, ""), "The client encountered an error: ");
}

#[test]
fn handshake_errors_say_what_went_wrong() {
    assert_eq!(HandshakeError::NoSuchService.message(), "No such service");
    assert_eq!(HandshakeError::MalformedPath.message(), "Malformed resource");
    assert_eq!(HandshakeError::AlreadyJudged.message(), "Handshake already done");
}
