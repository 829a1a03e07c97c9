use foxbox::broadcaster::SinkSet;
use foxbox::registry::Registry;
use foxbox::service::{HttpRequest, HttpResponse, Service, ServiceError, ServiceProperties};

struct Named {
    name: String,
}

impl Service for Named {
    fn get_properties(&self) -> ServiceProperties {
        record(&self.name)
    }

    fn process_request(&self, _request: &mut HttpRequest) -> Result<HttpResponse, ServiceError> {
        Ok(HttpResponse { status: 200, headers: Vec::new(), body: self.name.clone() })
    }
}

fn record(id: &str) -> ServiceProperties {
    ServiceProperties {
        id: id.to_owned(),
        name: format!("service {}", id),
        description: String::new(),
        http_url: format!("https://foxbox.local:3000/services/{}/", id),
        ws_url: format!("ws://foxbox.local:4000/services/{}/", id),
    }
}

fn named(name: &str) -> Named {
    Named { name: name.to_owned() }
}

#[test]
fn registry_starts_empty() {
    let registry: Registry<Named> = Registry::new();
    assert_eq!(registry.len(), 0);
    assert_eq!(registry.position(&"a".to_owned()), None);
    assert!(registry.get_properties(&"a".to_owned()).is_none());
    assert!(registry.get_service(&"a".to_owned()).is_none());
    assert_eq!(registry.to_json().ok(), Some("[]".to_owned()));
}

#[test]
fn registry_keeps_the_order_of_first_registration() {
    let mut registry = Registry::new();
    registry.insert(record("b"), named("first b"));
    registry.insert(record("a"), named("first a"));
    registry.insert(record("c"), named("first c"));
    assert_eq!(registry.position(&"b".to_owned()), Some(0));
    assert_eq!(registry.position(&"a".to_owned()), Some(1));
    assert_eq!(registry.position(&"c".to_owned()), Some(2));
    registry.insert(record("a"), named("second a"));
    assert_eq!(registry.len(), 3);
    assert_eq!(registry.position(&"a".to_owned()), Some(1));
    assert_eq!(registry.get_service(&"a".to_owned()).map(|s| s.name.clone()), Some("second a".to_owned()));
    assert!(registry.remove(&"b".to_owned()));
    assert!(!registry.remove(&"b".to_owned()));
    assert_eq!(registry.len(), 2);
    assert_eq!(registry.position(&"a".to_owned()), Some(0));
    assert_eq!(registry.position(&"c".to_owned()), Some(1));
    assert_eq!(registry.get_service(&"c".to_owned()).map(|s| s.name.clone()), Some("first c".to_owned()));
}

#[test]
fn registry_tells_ids_apart_exactly() {
    let mut registry = Registry::new();
    registry.insert(record("lamp"), named("lamp"));
    assert_eq!(registry.position(&"Lamp".to_owned()), None);
    assert_eq!(registry.position(&"lamp ".to_owned()), None);
    assert_eq!(registry.position(&"lam".to_owned()), None);
    assert_eq!(registry.position(&"".to_owned()), None);
    registry.insert(record(""), named("nameless"));
    assert_eq!(registry.position(&"".to_owned()), Some(1));
}

#[test]
fn registry_lists_one_record_without_a_comma() {
    let mut registry = Registry::new();
    registry.insert(record("x"), named("x"));
    assert_eq!(
        registry.to_json().ok(),
        Some(
            "[{\"id\":\"x\",\"name\":\"service x\",\"description\":\"\",\"http_url\":\"https://foxbox.local:3000/services/x/\",\"ws_url\":\"ws://foxbox.local:4000/services/x/\"}]"
                .to_owned()
        )
    );
    let found = registry.get_properties(&"x".to_owned()).expect("x is registered");
    assert_eq!(found.http_url, "https://foxbox.local:3000/services/x/");
}

#[test]
fn sink_set_holds_one_sink_per_token() {
    let mut sinks: SinkSet<&str> = SinkSet::new();
    assert_eq!(sinks.len(), 0);
    assert!(sinks.tokens().is_empty());
    sinks.insert(5, "five");
    sinks.insert(2, "two");
    sinks.insert(5, "five again");
    assert_eq!(sinks.len(), 2);
    assert_eq!(sinks.get(5), Some(&"five again"));
    assert_eq!(sinks.get(3), None);
    let mut tokens = sinks.tokens();
    tokens.sort();
    assert_eq!(tokens, vec![2, 5]);
    assert_eq!(sinks.remove(2), Some("two"));
    assert_eq!(sinks.remove(2), None);
    assert_eq!(sinks.tokens(), vec![5]);
}
