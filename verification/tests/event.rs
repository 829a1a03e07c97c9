use foxbox::event::Event;
use foxbox::json::properties_to_json;
use foxbox::service::ServiceProperties;

#[test]
fn events_have_their_names() {
    assert_eq!(Event::AdapterStart { name: "a".to_owned() }.name(), "core/adapter/start");
    assert_eq!(
        Event::AdapterNotification { message: serde_json::Value::Null }.name(),
        "core/adapter/notification"
    );
    assert_eq!(Event::ServiceStart { id: "a".to_owned() }.name(), "core/service/start");
    assert_eq!(Event::ServiceStop { id: "a".to_owned() }.name(), "core/service/stop");
}

#[test]
fn events_are_objects_with_type_first() {
    let start = Event::ServiceStart { id: "lamp".to_owned() };
    assert_eq!(start.to_json().ok(), Some("{\"type\":\"core/service/start\",\"id\":\"lamp\"}".to_owned()));
    let stop = Event::ServiceStop { id: "lamp".to_owned() };
    assert_eq!(stop.payload(), "{\"type\":\"core/service/stop\",\"id\":\"lamp\"}");
    let adapter = Event::AdapterStart { name: "philips hue".to_owned() };
    assert_eq!(adapter.payload(), "{\"type\":\"core/adapter/start\",\"name\":\"philips hue\"}");
    let note = Event::AdapterNotification { message: serde_json::Value::Bool(true) };
    assert_eq!(note.payload(), "{\"type\":\"core/adapter/notification\",\"message\":true}");
}

#[test]
fn event_text_is_json_that_serde_reads_back() {
    let id = "tab\there \"quoted\" \u{7f} \u{2028}";
    let event = Event::ServiceStart { id: id.to_owned() };
    let value: serde_json::Value = serde_json::from_str(&event.payload()).expect("the event is no JSON");
    assert_eq!(value["type"].as_str(), Some("core/service/start"));
    assert_eq!(value["id"].as_str(), Some(id));
}

#[test]
fn record_is_an_object_with_five_fields_in_order() {
    let props = ServiceProperties {
        id: "i".to_owned(),
        name: "n".to_owned(),
        description: "d".to_owned(),
        http_url: "h".to_owned(),
        ws_url: "w".to_owned(),
    };
    assert_eq!(
        properties_to_json(&props).ok(),
        Some("{\"id\":\"i\",\"name\":\"n\",\"description\":\"d\",\"http_url\":\"h\",\"ws_url\":\"w\"}".to_owned())
    );
}

#[test]
fn strings_are_escaped_by_the_table() {
    let props = |id: &str| ServiceProperties {
        id: id.to_owned(),
        name: String::new(),
        description: String::new(),
        http_url: String::new(),
        ws_url: String::new(),
    };
    let tail = ",\"name\":\"\",\"description\":\"\",\"http_url\":\"\",\"ws_url\":\"\"}";
    let cases = [
        ("\"", "\\\""),
        ("\\", "\\\\"),
        ("\u{8}", "\\b"),
        ("\t", "\\t"),
        ("\n", "\\n"),
        ("\u{c}", "\\f"),
        ("\r", "\\r"),
        ("\u{0}", "\\u0000"),
        ("\u{b}", "\\u000b"),
        ("\u{1f}", "\\u001f"),
        (" ", " "),
        ("/", "/"),
        ("\u{7f}", "\u{7f}"),
        ("\u{e9}", "\u{e9}"),
        ("\u{1f600}", "\u{1f600}"),
    ];
    for (text, escaped) in cases {
        assert_eq!(
            properties_to_json(&props(text)).ok(),
            Some(format!("{{\"id\":\"{}\"{}", escaped, tail))
        );
    }
}
