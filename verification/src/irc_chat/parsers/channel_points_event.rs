use crate::json::json_object::{
    bool_property, has_bool_property, has_object_property, has_string_property, has_u32_property,
    object_property, string_property, u32_property,
};
use crate::json::json_value::{lookup, JsonObject, JsonValue};
use crate::user::{UserId, UserLogin};
use vstd::prelude::*;

verus! {

/// The serialization of the URL that `Url::parse` makes of `s`, or `None`
/// where it refuses `s`.
pub uninterp spec fn url_parse(s: Seq<char>) -> Option<Seq<char>>;

/// Calls `url::Url::parse` and keeps the parsed URL's serialization. The
/// contract names the outcome: the same text gives the same outcome. The
/// URL standard's parsing rules are not stated.
#[verifier::external_body]
fn parse_url(s: &str) -> (r: Option<String>)
    ensures
        match r {
            Some(u) => url_parse(s@) == Some(u@),
            None => url_parse(s@) is None,
        },
{
    match url::Url::parse(s) {
        Ok(u) => Some(String::from(u)),
        Err(_) => None,
    }
}

/// The three sizes of a reward's image, by URL.
pub struct ImageUrlSignature {
    pub url_1x: String,
    pub url_2x: String,
    pub url_4x: String,
}

/// A channel-points reward.
pub struct RewardSignature {
    pub id: String,
    pub channel_id: UserId,
    pub title: String,
    pub prompt: String,
    pub cost: u32,
    pub user_input_required: bool,
    pub sub_only: bool,
    pub image: Option<ImageUrlSignature>,
    pub default_image: ImageUrlSignature,
    pub background_color: String,
    pub enabled: bool,
    pub paused: bool,
    pub in_stock: bool,
    pub max_per_stream: (bool, u32),
    pub should_redemptions_skip_request_queue: bool,
}

/// A viewer redeemed a channel-points reward.
pub struct ChannelPointsEvent {
    pub timestamp: String,
    pub id: String,
    /// The viewer: id, login and display name.
    pub user: (UserId, UserLogin, String),
    pub channel_id: UserId,
    pub redeemed_at: String,
    pub reward: RewardSignature,
    pub user_input: String,
    pub fulfilled: bool,
}

/// An image, as plain values.
pub struct ImageUrlView {
    pub url_1x: Seq<char>,
    pub url_2x: Seq<char>,
    pub url_4x: Seq<char>,
}

/// A reward, as plain values.
pub struct RewardView {
    pub id: Seq<char>,
    pub channel_id: u32,
    pub title: Seq<char>,
    pub prompt: Seq<char>,
    pub cost: u32,
    pub user_input_required: bool,
    pub sub_only: bool,
    pub image: Option<ImageUrlView>,
    pub default_image: ImageUrlView,
    pub background_color: Seq<char>,
    pub enabled: bool,
    pub paused: bool,
    pub in_stock: bool,
    pub max_per_stream: (bool, u32),
    pub should_redemptions_skip_request_queue: bool,
}

/// A redemption, as plain values.
pub struct ChannelPointsEventView {
    pub timestamp: Seq<char>,
    pub id: Seq<char>,
    pub user: (u32, Seq<char>, Seq<char>),
    pub channel_id: u32,
    pub redeemed_at: Seq<char>,
    pub reward: RewardView,
    pub user_input: Seq<char>,
    pub fulfilled: bool,
}

impl View for ImageUrlSignature {
    type V = ImageUrlView;

    open spec fn view(&self) -> ImageUrlView {
        ImageUrlView { url_1x: self.url_1x@, url_2x: self.url_2x@, url_4x: self.url_4x@ }
    }
}

impl View for RewardSignature {
    type V = RewardView;

    open spec fn view(&self) -> RewardView {
        RewardView {
            id: self.id@,
            channel_id: self.channel_id.value,
            title: self.title@,
            prompt: self.prompt@,
            cost: self.cost,
            user_input_required: self.user_input_required,
            sub_only: self.sub_only,
            image: match self.image {
                Some(i) => Some(i@),
                None => None,
            },
            default_image: self.default_image@,
            background_color: self.background_color@,
            enabled: self.enabled,
            paused: self.paused,
            in_stock: self.in_stock,
            max_per_stream: self.max_per_stream,
            should_redemptions_skip_request_queue: self.should_redemptions_skip_request_queue,
        }
    }
}

impl View for ChannelPointsEvent {
    type V = ChannelPointsEventView;

    open spec fn view(&self) -> ChannelPointsEventView {
        ChannelPointsEventView {
            timestamp: self.timestamp@,
            id: self.id@,
            user: (self.user.0.value, self.user.1@, self.user.2@),
            channel_id: self.channel_id.value,
            redeemed_at: self.redeemed_at@,
            reward: self.reward@,
            user_input: self.user_input@,
            fulfilled: self.fulfilled,
        }
    }
}

/// The property `key` of `o` holds a URL that parses.
pub open spec fn has_url_property(o: Seq<(Seq<char>, JsonValue)>, key: Seq<char>) -> bool {
    has_string_property(o, key) && url_parse(string_property(o, key)) is Some
}

/// An image object holds three URLs that parse.
pub open spec fn is_image_json(i: Seq<(Seq<char>, JsonValue)>) -> bool {
    has_url_property(i, "url_1x"@) && has_url_property(i, "url_2x"@) && has_url_property(
        i,
        "url_4x"@,
    )
}

/// The image that an image object describes.
pub open spec fn image_of_json(i: Seq<(Seq<char>, JsonValue)>) -> ImageUrlView {
    ImageUrlView {
        url_1x: url_parse(string_property(i, "url_1x"@)).unwrap(),
        url_2x: url_parse(string_property(i, "url_2x"@)).unwrap(),
        url_4x: url_parse(string_property(i, "url_4x"@)).unwrap(),
    }
}

/// A reward object holds every property a reward is read from.
pub open spec fn is_reward_json(w: Seq<(Seq<char>, JsonValue)>) -> bool {
    &&& has_string_property(w, "id"@)
    &&& has_u32_property(w, "channel_id"@)
    &&& has_string_property(w, "title"@)
    &&& has_string_property(w, "prompt"@)
    &&& has_u32_property(w, "cost"@)
    &&& has_bool_property(w, "is_user_input_required"@)
    &&& has_bool_property(w, "is_sub_only"@)
    &&& (lookup(w, "image"@) matches Some(v) && (v is Null || (v matches JsonValue::Object(i)
        && is_image_json(i))))
    &&& has_object_property(w, "default_image"@)
    &&& is_image_json(object_property(w, "default_image"@))
    &&& has_string_property(w, "background_color"@)
    &&& has_bool_property(w, "is_enabled"@)
    &&& has_bool_property(w, "is_paused"@)
    &&& has_bool_property(w, "is_in_stock"@)
    &&& has_object_property(w, "max_per_stream"@)
    &&& has_bool_property(object_property(w, "max_per_stream"@), "is_enabled"@)
    &&& has_u32_property(object_property(w, "max_per_stream"@), "max_per_stream"@)
    &&& has_bool_property(w, "should_redemptions_skip_request_queue"@)
}

/// The reward that a reward object describes.
pub open spec fn reward_of_json(w: Seq<(Seq<char>, JsonValue)>) -> RewardView {
    RewardView {
        id: string_property(w, "id"@),
        channel_id: u32_property(w, "channel_id"@),
        title: string_property(w, "title"@),
        prompt: string_property(w, "prompt"@),
        cost: u32_property(w, "cost"@),
        user_input_required: bool_property(w, "is_user_input_required"@),
        sub_only: bool_property(w, "is_sub_only"@),
        image: match lookup(w, "image"@) {
            Some(JsonValue::Object(i)) => Some(image_of_json(i)),
            _ => None,
        },
        default_image: image_of_json(object_property(w, "default_image"@)),
        background_color: string_property(w, "background_color"@),
        enabled: bool_property(w, "is_enabled"@),
        paused: bool_property(w, "is_paused"@),
        in_stock: bool_property(w, "is_in_stock"@),
        max_per_stream: (
            bool_property(object_property(w, "max_per_stream"@), "is_enabled"@),
            u32_property(object_property(w, "max_per_stream"@), "max_per_stream"@),
        ),
        should_redemptions_skip_request_queue: bool_property(
            w,
            "should_redemptions_skip_request_queue"@,
        ),
    }
}

/// A redemption's user object holds an id, a login and a display name.
pub open spec fn is_redemption_user_json(u: Seq<(Seq<char>, JsonValue)>) -> bool {
    has_u32_property(u, "id"@) && has_string_property(u, "login"@) && has_string_property(
        u,
        "display_name"@,
    )
}

/// A redemption object holds every property a redemption is read from.
pub open spec fn is_redemption_json(r: Seq<(Seq<char>, JsonValue)>) -> bool {
    &&& has_string_property(r, "id"@)
    &&& has_object_property(r, "user"@)
    &&& is_redemption_user_json(object_property(r, "user"@))
    &&& has_u32_property(r, "channel_id"@)
    &&& has_string_property(r, "redeemed_at"@)
    &&& has_object_property(r, "reward"@)
    &&& is_reward_json(object_property(r, "reward"@))
    &&& has_string_property(r, "user_input"@)
    &&& has_string_property(r, "status"@)
}

/// An event object (the `data` of a channel-points message) holds a
/// timestamp and a redemption.
pub open spec fn is_channel_points_event_json(o: Seq<(Seq<char>, JsonValue)>) -> bool {
    &&& has_string_property(o, "timestamp"@)
    &&& has_object_property(o, "redemption"@)
    &&& is_redemption_json(object_property(o, "redemption"@))
}

/// The redemption that an event object describes.
pub open spec fn channel_points_event_of_json(o: Seq<(Seq<char>, JsonValue)>) -> ChannelPointsEventView {
    let r = object_property(o, "redemption"@);
    let u = object_property(r, "user"@);
    ChannelPointsEventView {
        timestamp: string_property(o, "timestamp"@),
        id: string_property(r, "id"@),
        user: (u32_property(u, "id"@), string_property(u, "login"@), string_property(u, "display_name"@)),
        channel_id: u32_property(r, "channel_id"@),
        redeemed_at: string_property(r, "redeemed_at"@),
        reward: reward_of_json(object_property(r, "reward"@)),
        user_input: string_property(r, "user_input"@),
        fulfilled: string_property(r, "status"@) == "FULFILLED"@,
    }
}

fn url_property(o: &JsonObject, key: &str) -> (u: String)
    requires
        has_url_property(o@, key@),
    ensures
        url_parse(string_property(o@, key@)) == Some(u@),
{
    let text = o.get_string_property_value(String::from_str(key));
    match parse_url(text.as_str()) {
        Some(u) => u,
        None => String::new(),
    }
}

fn has_url_property_exec(o: &JsonObject, key: &str) -> (r: bool)
    ensures
        r == has_url_property(o@, key@),
{
    if !o.has_string_property(key) {
        return false;
    }
    let text = o.get_string_property_value(String::from_str(key));
    parse_url(text.as_str()).is_some()
}

impl ImageUrlSignature {
    /// The image that an image object describes.
    pub fn from_json(i: &JsonObject) -> (image: ImageUrlSignature)
        requires
            is_image_json(i@),
        ensures
            image@ == image_of_json(i@),
    {
        ImageUrlSignature {
            url_1x: url_property(i, "url_1x"),
            url_2x: url_property(i, "url_2x"),
            url_4x: url_property(i, "url_4x"),
        }
    }

    /// Whether an image object holds three URLs that parse.
    pub fn is_valid_json(i: &JsonObject) -> (r: bool)
        ensures
            r == is_image_json(i@),
    {
        has_url_property_exec(i, "url_1x") && has_url_property_exec(i, "url_2x")
            && has_url_property_exec(i, "url_4x")
    }
}

impl RewardSignature {
    /// The reward that a reward object describes.
    pub fn from_json(w: &JsonObject) -> (reward: RewardSignature)
        requires
            is_reward_json(w@),
        ensures
            reward@ == reward_of_json(w@),
    {
        let id = w.get_string_property_value(String::from_str("id"));
        let channel_id = UserId::new(w.get_u32_property_value(String::from_str("channel_id")));
        let title = w.get_string_property_value(String::from_str("title"));
        let prompt = w.get_string_property_value(String::from_str("prompt"));
        let cost = w.get_u32_property_value(String::from_str("cost"));
        let user_input_required = w.get_bool_property_value(String::from_str("is_user_input_required"));
        let sub_only = w.get_bool_property_value(String::from_str("is_sub_only"));
        let image = match w.get_nullable_object_property(String::from_str("image")) {
            None => None,
            Some(image_object) => Some(ImageUrlSignature::from_json(&image_object)),
        };
        let default_image_object = w.get_object_property(String::from_str("default_image"));
        let default_image = ImageUrlSignature::from_json(&default_image_object);
        let background_color = w.get_string_property_value(String::from_str("background_color"));
        let enabled = w.get_bool_property_value(String::from_str("is_enabled"));
        let paused = w.get_bool_property_value(String::from_str("is_paused"));
        let in_stock = w.get_bool_property_value(String::from_str("is_in_stock"));
        let max_per_stream_object = w.get_object_property(String::from_str("max_per_stream"));
        let max_per_stream_enabled = max_per_stream_object.get_bool_property_value(
            String::from_str("is_enabled"),
        );
        let max_per_stream_count = max_per_stream_object.get_u32_property_value(
            String::from_str("max_per_stream"),
        );
        let should_redemptions_skip_request_queue = w.get_bool_property_value(
            String::from_str("should_redemptions_skip_request_queue"),
        );
        RewardSignature {
            id,
            channel_id,
            title,
            prompt,
            cost,
            user_input_required,
            sub_only,
            image,
            default_image,
            background_color,
            enabled,
            paused,
            in_stock,
            max_per_stream: (max_per_stream_enabled, max_per_stream_count),
            should_redemptions_skip_request_queue,
        }
    }

    /// Whether a reward object holds every property a reward is read from.
    pub fn is_valid_json(w: &JsonObject) -> (r: bool)
        ensures
            r == is_reward_json(w@),
    {
        if !(w.has_string_property("id") && w.has_u32_property("channel_id")
            && w.has_string_property("title") && w.has_string_property("prompt")
            && w.has_u32_property("cost") && w.has_bool_property("is_user_input_required")
            && w.has_bool_property("is_sub_only")) {
            return false;
        }
        let image_ok = match w.find_property("image") {
            None => false,
            Some(v) => {
                if v.get_value_type() == crate::json::json_value::PropertyType::Null {
                    true
                } else if v.get_value_type() == crate::json::json_value::PropertyType::JSON_Object {
                    ImageUrlSignature::is_valid_json(&v.get_object_value())
                } else {
                    false
                }
            },
        };
        if !image_ok {
            return false;
        }
        if !w.has_object_property("default_image") {
            return false;
        }
        if !ImageUrlSignature::is_valid_json(
            &w.get_object_property(String::from_str("default_image")),
        ) {
            return false;
        }
        if !(w.has_string_property("background_color") && w.has_bool_property("is_enabled")
            && w.has_bool_property("is_paused") && w.has_bool_property("is_in_stock")
            && w.has_object_property("max_per_stream")) {
            return false;
        }
        let max_per_stream_object = w.get_object_property(String::from_str("max_per_stream"));
        max_per_stream_object.has_bool_property("is_enabled")
            && max_per_stream_object.has_u32_property("max_per_stream")
            && w.has_bool_property("should_redemptions_skip_request_queue")
    }
}

impl ChannelPointsEvent {
    /// The redemption that an event object (the `data` of a channel-points
    /// message) describes.
    pub fn from_json(event_object: JsonObject) -> (event: ChannelPointsEvent)
        requires
            is_channel_points_event_json(event_object@),
        ensures
            event@ == channel_points_event_of_json(event_object@),
    {
        let timestamp = event_object.get_string_property_value(String::from_str("timestamp"));
        let redemption_object = event_object.get_object_property(String::from_str("redemption"));
        let redemption_id = redemption_object.get_string_property_value(String::from_str("id"));
        let redemption_user_object = redemption_object.get_object_property(String::from_str("user"));
        let redemption_user_id = UserId::new(
            redemption_user_object.get_u32_property_value(String::from_str("id")),
        );
        let redemption_user_login = UserLogin::new(
            redemption_user_object.get_string_property_value(String::from_str("login")),
        );
        let redemption_user_display_name = redemption_user_object.get_string_property_value(
            String::from_str("display_name"),
        );
        let channel_id = UserId::new(
            redemption_object.get_u32_property_value(String::from_str("channel_id")),
        );
        let redeemed_at = redemption_object.get_string_property_value(String::from_str("redeemed_at"));
        let reward_object = redemption_object.get_object_property(String::from_str("reward"));
        let reward = RewardSignature::from_json(&reward_object);
        let user_input = redemption_object.get_string_property_value(String::from_str("user_input"));
        let status = redemption_object.get_string_property_value(String::from_str("status"));
        let fulfilled = crate::text::str_equal(status.as_str(), "FULFILLED");
        ChannelPointsEvent {
            timestamp,
            id: redemption_id,
            user: (redemption_user_id, redemption_user_login, redemption_user_display_name),
            channel_id,
            redeemed_at,
            reward,
            user_input,
            fulfilled,
        }
    }

    /// The redemption that an event object describes, or `None` where the
    /// object lacks a property it is read from.
    pub fn try_from_json(event_object: JsonObject) -> (event: Option<ChannelPointsEvent>)
        ensures
            match event {
                Some(e) => is_channel_points_event_json(event_object@) && e@
                    == channel_points_event_of_json(event_object@),
                None => !is_channel_points_event_json(event_object@),
            },
    {
        if !(event_object.has_string_property("timestamp") && event_object.has_object_property(
            "redemption",
        )) {
            return None;
        }
        let r = event_object.get_object_property(String::from_str("redemption"));
        if !(r.has_string_property("id") && r.has_object_property("user")) {
            return None;
        }
        let u = r.get_object_property(String::from_str("user"));
        if !(u.has_u32_property("id") && u.has_string_property("login") && u.has_string_property(
            "display_name",
        )) {
            return None;
        }
        if !(r.has_u32_property("channel_id") && r.has_string_property("redeemed_at")
            && r.has_object_property("reward")) {
            return None;
        }
        if !RewardSignature::is_valid_json(&r.get_object_property(String::from_str("reward"))) {
            return None;
        }
        if !(r.has_string_property("user_input") && r.has_string_property("status")) {
            return None;
        }
        Some(ChannelPointsEvent::from_json(event_object))
    }
}

} // verus!

verus! {

/// The text of the property `key` of `o`, read straight from the object:
/// the string it holds, or the empty text for null.
pub open spec fn text_at(o: Seq<(Seq<char>, JsonValue)>, key: Seq<char>) -> Seq<char> {
    match lookup(o, key) {
        Some(JsonValue::Str(t)) => t,
        _ => Seq::empty(),
    }
}

/// Each text field of a reward is the text of the reward object's property
/// of the same name (`is_sub_only` and the like for the flags), and each
/// number is the number that property writes: no field is read from
/// another field's property.
pub proof fn lemma_reward_fields(w: Seq<(Seq<char>, JsonValue)>)
    requires
        is_reward_json(w),
    ensures
        reward_of_json(w).id == text_at(w, "id"@),
        reward_of_json(w).title == text_at(w, "title"@),
        reward_of_json(w).prompt == text_at(w, "prompt"@),
        reward_of_json(w).background_color == text_at(w, "background_color"@),
        crate::text::parse_u32(text_at(w, "cost"@)) == Some(reward_of_json(w).cost),
        crate::text::parse_u32(text_at(w, "channel_id"@)) == Some(reward_of_json(w).channel_id),
        crate::text::parse_bool(text_at(w, "is_user_input_required"@)) == Some(
            reward_of_json(w).user_input_required,
        ),
        crate::text::parse_bool(text_at(w, "is_sub_only"@)) == Some(reward_of_json(w).sub_only),
        crate::text::parse_bool(text_at(w, "is_enabled"@)) == Some(reward_of_json(w).enabled),
        crate::text::parse_bool(text_at(w, "is_paused"@)) == Some(reward_of_json(w).paused),
        crate::text::parse_bool(text_at(w, "is_in_stock"@)) == Some(reward_of_json(w).in_stock),
        crate::text::parse_bool(text_at(w, "should_redemptions_skip_request_queue"@)) == Some(
            reward_of_json(w).should_redemptions_skip_request_queue,
        ),
{
}

/// Each field of a redemption is read from the property of the same name:
/// its id, the viewer's id, login and display name, the channel, the time
/// it was redeemed, the viewer's input and whether its status is
/// `FULFILLED`.
pub proof fn lemma_redemption_fields(o: Seq<(Seq<char>, JsonValue)>)
    requires
        is_channel_points_event_json(o),
    ensures
        ({
            let e = channel_points_event_of_json(o);
            let r = object_property(o, "redemption"@);
            let u = object_property(r, "user"@);
            &&& e.timestamp == text_at(o, "timestamp"@)
            &&& e.id == text_at(r, "id"@)
            &&& crate::text::parse_u32(text_at(u, "id"@)) == Some(e.user.0)
            &&& e.user.1 == text_at(u, "login"@)
            &&& e.user.2 == text_at(u, "display_name"@)
            &&& crate::text::parse_u32(text_at(r, "channel_id"@)) == Some(e.channel_id)
            &&& e.redeemed_at == text_at(r, "redeemed_at"@)
            &&& e.user_input == text_at(r, "user_input"@)
            &&& e.fulfilled == (text_at(r, "status"@) == "FULFILLED"@)
            &&& e.reward == reward_of_json(object_property(r, "reward"@))
        }),
{
}

} // verus!
