use crate::irc::response_context::ResponseContext;
use crate::irc_chat::parsers::channel_points_event::{
    channel_points_event_of_json, is_channel_points_event_json, ChannelPointsEvent,
    ChannelPointsEventView,
};
use crate::json::crawler::{crawl, try_crawl_json};
use crate::json::json_object::{
    has_object_property, has_string_property, object_property, string_property,
};
use crate::text::{decimal_chars, decimal_text, str_equal, string_of};
use vstd::prelude::*;

verus! {

/// The PubSub topic of the channel-points events of the account `id`.
pub open spec fn channel_points_topic(id: u32) -> Seq<char> {
    "channel-points-channel-v1."@ + decimal_text(id as nat)
}

/// What a PubSub message `received` gives the bot whose account id is
/// `client_id`: `None` where it cannot be read as the reader expects (a
/// document, a `type`, a `data` object with a `topic` and a `message` that
/// is itself a document whose `data` describes the event), `Some(None)`
/// where it is no message or no channel-points event of that account, and
/// the event otherwise.
pub open spec fn pubsub_event(received: Seq<char>, client_id: u32) -> Option<Option<ChannelPointsEventView>> {
    match crawl(received) {
        None => None,
        Some(o) => if !has_string_property(o, "type"@) {
            None
        } else if string_property(o, "type"@) != "MESSAGE"@ {
            Some(None)
        } else if !has_object_property(o, "data"@) {
            None
        } else {
            let data = object_property(o, "data"@);
            if !has_string_property(data, "topic"@) {
                None
            } else if string_property(data, "topic"@) != channel_points_topic(client_id) {
                Some(None)
            } else if !has_string_property(data, "message"@) {
                None
            } else {
                match crawl(string_property(data, "message"@)) {
                    None => None,
                    Some(inner) => if !has_object_property(inner, "data"@) {
                        None
                    } else if !is_channel_points_event_json(object_property(inner, "data"@)) {
                        None
                    } else {
                        Some(Some(channel_points_event_of_json(object_property(inner, "data"@))))
                    },
                }
            }
        },
    }
}

/// The event as plain values, if any.
pub open spec fn event_view(e: Option<ChannelPointsEvent>) -> Option<ChannelPointsEventView> {
    match e {
        Some(ev) => Some(ev@),
        None => None,
    }
}

/// Reads the messages of Twitch's PubSub service.
pub struct DefaultPubSubParser {}

impl DefaultPubSubParser {
    pub fn new() -> (parser: DefaultPubSubParser) {
        DefaultPubSubParser {  }
    }

    /// The topic of the channel-points events of the account `id`.
    fn topic_of(id: u32) -> (topic: String)
        ensures
            topic@ == channel_points_topic(id),
    {
        let mut topic = String::from_str("channel-points-channel-v1.");
        let digits = string_of(&decimal_chars(id));
        topic.append(digits.as_str());
        topic
    }

    /// Reads the message in `context`: `None` where it cannot be read as
    /// expected, `Some(None)` where it is not a channel-points event of the
    /// bot's account, and the event otherwise.
    pub fn try_process_response(&self, context: &ResponseContext) -> (r: Option<Option<ChannelPointsEvent>>)
        ensures
            match r {
                None => pubsub_event(context.spec_received(), context.spec_client_id()) is None,
                Some(e) => pubsub_event(context.spec_received(), context.spec_client_id()) == Some(
                    event_view(e),
                ),
            },
    {
        let received = context.get_initial_response();
        let client_id = context.get_client_user().get_user_id().get_value();
        let json_object = match try_crawl_json(received.as_str()) {
            Ok(o) => o,
            Err(_) => {
                return None;
            },
        };
        if !json_object.has_string_property("type") {
            return None;
        }
        let message_type = json_object.get_string_property_value(String::from_str("type"));
        if !str_equal(message_type.as_str(), "MESSAGE") {
            return Some(None);
        }
        if !json_object.has_object_property("data") {
            return None;
        }
        let event_outer_wrapper_object = json_object.get_object_property(String::from_str("data"));
        if !event_outer_wrapper_object.has_string_property("topic") {
            return None;
        }
        let event_topic = event_outer_wrapper_object.get_string_property_value(String::from_str("topic"));
        let expected = DefaultPubSubParser::topic_of(client_id);
        if !str_equal(event_topic.as_str(), expected.as_str()) {
            return Some(None);
        }
        if !event_outer_wrapper_object.has_string_property("message") {
            return None;
        }
        let event_json_text = event_outer_wrapper_object.get_string_property_value(
            String::from_str("message"),
        );
        let event_inner_wrapper_object = match try_crawl_json(event_json_text.as_str()) {
            Ok(o) => o,
            Err(_) => {
                return None;
            },
        };
        if !event_inner_wrapper_object.has_object_property("data") {
            return None;
        }
        let event_json_object = event_inner_wrapper_object.get_object_property(String::from_str("data"));
        match ChannelPointsEvent::try_from_json(event_json_object) {
            Some(event) => Some(Some(event)),
            None => None,
        }
    }

    /// The channel-points event of the bot's account that the message in
    /// `context` describes, if it is one. The message must be readable as
    /// expected.
    pub fn process_response(&self, context: &ResponseContext) -> (r: Option<ChannelPointsEvent>)
        requires
            pubsub_event(context.spec_received(), context.spec_client_id()) is Some,
        ensures
            pubsub_event(context.spec_received(), context.spec_client_id()) == Some(event_view(r)),
    {
        match self.try_process_response(context) {
            Some(e) => e,
            None => None,
        }
    }
}

} // verus!
