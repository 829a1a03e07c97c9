//! The events that the gateway pushes to its subscribers, and their JSON text.

use vstd::prelude::*;
use vstd::string::*;
use crate::json::{
    append_string_member, describe, encode_error, encode_value, json_string_text,
    json_value_text, EncodeError,
};

verus! {

/// Something that happened in the gateway and that subscribers are told of.
pub enum Event {
    /// The adapter called `name` has started.
    AdapterStart { name: String },
    /// An adapter has something to say; `message` is free-form JSON.
    AdapterNotification { message: serde_json::Value },
    /// The service with this id was registered.
    ServiceStart { id: String },
    /// The service with this id was removed, or was asked to be.
    ServiceStop { id: String },
}

/// Mathematical form of [`Event`].
pub enum EventView {
    AdapterStart { name: Seq<char> },
    AdapterNotification { message: serde_json::Value },
    ServiceStart { id: Seq<char> },
    ServiceStop { id: Seq<char> },
}

impl View for Event {
    type V = EventView;

    open spec fn view(&self) -> EventView {
        match self {
            Event::AdapterStart { name } => EventView::AdapterStart { name: name@ },
            Event::AdapterNotification { message } => EventView::AdapterNotification {
                message: *message,
            },
            Event::ServiceStart { id } => EventView::ServiceStart { id: id@ },
            Event::ServiceStop { id } => EventView::ServiceStop { id: id@ },
        }
    }
}

/// The name of an event, as subscribers read it under `type`.
pub open spec fn event_name(event: EventView) -> Seq<char> {
    match event {
        EventView::AdapterStart { .. } => "core/adapter/start"@,
        EventView::AdapterNotification { .. } => "core/adapter/notification"@,
        EventView::ServiceStart { .. } => "core/service/start"@,
        EventView::ServiceStop { .. } => "core/service/stop"@,
    }
}

/// The JSON object that carries an event: `type` first, then what the event
/// holds. `None` where the message of a notification cannot be encoded; the
/// other events hold a string, which always can.
pub open spec fn event_json(event: EventView) -> Option<Seq<char>> {
    match event {
        EventView::AdapterStart { name } => Some(
            "{\"type\":\"core/adapter/start\",\"name\":"@ + json_string_text(name) + "}"@,
        ),
        EventView::AdapterNotification { message } => match json_value_text(message) {
            Some(v) => Some("{\"type\":\"core/adapter/notification\",\"message\":"@ + v + "}"@),
            None => None,
        },
        EventView::ServiceStart { id } => Some(
            "{\"type\":\"core/service/start\",\"id\":"@ + json_string_text(id) + "}"@,
        ),
        EventView::ServiceStop { id } => Some(
            "{\"type\":\"core/service/stop\",\"id\":"@ + json_string_text(id) + "}"@,
        ),
    }
}

/// What is sent for an event: its JSON object, or an empty object where it
/// cannot be encoded.
pub open spec fn payload_text(event: EventView) -> Seq<char> {
    match event_json(event) {
        Some(text) => text,
        None => "{}"@,
    }
}

impl Event {
    /// The name of the event.
    pub fn name(&self) -> (r: &'static str)
        ensures
            r@ == event_name(self@),
    {
        match self {
            Event::AdapterStart { .. } => "core/adapter/start",
            Event::AdapterNotification { .. } => "core/adapter/notification",
            Event::ServiceStart { .. } => "core/service/start",
            Event::ServiceStop { .. } => "core/service/stop",
        }
    }

    /// Encodes the event as a JSON object.
    pub fn to_json(&self) -> (r: Result<String, EncodeError>)
        ensures
            match r {
                Ok(s) => event_json(self@) == Some(s@),
                Err(_) => event_json(self@) is None,
            },
            !(self@ is AdapterNotification) ==> r is Ok,
    {
        let mut out = String::new();
        match self {
            Event::AdapterStart { name } => {
                append_string_member(
                    &mut out,
                    "{\"type\":\"core/adapter/start\",\"name\":",
                    name.as_str(),
                )?;
            },
            Event::AdapterNotification { message } => {
                match encode_value(message) {
                    Ok(v) => {
                        out.append("{\"type\":\"core/adapter/notification\",\"message\":");
                        out.append(v.as_str());
                    },
                    Err(e) => {
                        return Err(encode_error(describe(&e)));
                    },
                }
            },
            Event::ServiceStart { id } => {
                append_string_member(
                    &mut out,
                    "{\"type\":\"core/service/start\",\"id\":",
                    id.as_str(),
                )?;
            },
            Event::ServiceStop { id } => {
                append_string_member(
                    &mut out,
                    "{\"type\":\"core/service/stop\",\"id\":",
                    id.as_str(),
                )?;
            },
        }
        out.append("}");
        assert(event_json(self@) matches Some(t) && t =~= out@);
        Ok(out)
    }

    /// The text to send for the event: a fault of the encoder is not passed
    /// on, an empty object is sent in its place.
    pub fn payload(&self) -> (r: String)
        ensures
            r@ == payload_text(self@),
    {
        match self.to_json() {
            Ok(text) => text,
            Err(_) => String::from_str("{}"),
        }
    }
}

} // verus!
