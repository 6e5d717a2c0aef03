//! OAuth signatures and tokens, and the header values built from them.

use vstd::prelude::*;

verus! {

/// An OAuth access token as Twitch hands it out.
pub struct Signature {
    value: String,
}

impl View for Signature {
    type V = Seq<char>;

    open spec fn view(&self) -> Seq<char> {
        self.spec_value()
    }
}

impl Signature {
    pub closed spec fn spec_value(&self) -> Seq<char> {
        self.value@
    }

    pub fn new(value: String) -> (signature: Signature)
        ensures
            signature@ == value@,
    {
        Signature { value }
    }

    pub fn get_value(&self) -> (value: String)
        ensures
            value@ == self@,
    {
        self.value.clone()
    }

    pub fn to_string(&self) -> (value: String)
        ensures
            value@ == self@,
    {
        self.value.clone()
    }

    /// Whether the token may stand in an HTTP header value.
    pub fn is_valid_header_text(&self) -> (r: bool)
        ensures
            r == is_header_value_text(self@),
    {
        header_value(self.value.as_str()).is_some()
    }

    /// The value of an `Authorization` header that presents the token with
    /// the `OAuth` scheme. The token must be fit for a header value.
    pub fn get_oauth_oauth_header(&self) -> (value: String)
        requires
            is_header_value_text(self@),
        ensures
            value@ == "OAuth "@ + self@,
    {
        let mut text = String::from_str("OAuth ");
        text.append(self.value.as_str());
        proof {
            reveal_strlit("OAuth ");
            lemma_header_value_concat("OAuth "@, self@);
        }
        match header_value(text.as_str()) {
            Some(value) => value,
            None => text,
        }
    }

    /// The value of an `Authorization` header that presents the token with
    /// the `Bearer` scheme. The token must be fit for a header value.
    pub fn get_oauth_bearer_header(&self) -> (value: String)
        requires
            is_header_value_text(self@),
        ensures
            value@ == "Bearer "@ + self@,
    {
        let mut text = String::from_str("Bearer ");
        text.append(self.value.as_str());
        proof {
            reveal_strlit("Bearer ");
            lemma_header_value_concat("Bearer "@, self@);
        }
        match header_value(text.as_str()) {
            Some(value) => value,
            None => text,
        }
    }
}

/// Text that an HTTP header value may hold: every byte of its UTF-8 form is
/// a tab, or at least 32 and not 127. Characters beyond ASCII pass, as all
/// their bytes are 0x80 or more.
pub open spec fn is_header_value_text(s: Seq<char>) -> bool {
    forall|i: int|
        0 <= i < s.len() ==> (32 <= (#[trigger] s[i] as u32) && (s[i] as u32) != 127) || s[i]
            == '\t'
}

proof fn lemma_header_value_concat(a: Seq<char>, b: Seq<char>)
    requires
        is_header_value_text(a),
        is_header_value_text(b),
    ensures
        is_header_value_text(a + b),
{
    assert forall|i: int| 0 <= i < (a + b).len() implies (32 <= (#[trigger] (a + b)[i] as u32) && (
    (a + b)[i] as u32) != 127) || (a + b)[i] == '\t' by {
        if i < a.len() {
            assert((a + b)[i] == a[i]);
        } else {
            assert((a + b)[i] == b[i - a.len()]);
        }
    }
}

/// Calls `reqwest::header::HeaderValue::from_str` and gives back the text of
/// the value it makes. The function refuses a string holding a byte below
/// 32 other than a tab, or the byte 127, and otherwise keeps the bytes as
/// they are.
#[verifier::external_body]
fn header_value(s: &str) -> (r: Option<String>)
    ensures
        match r {
            Some(v) => is_header_value_text(s@) && v@ == s@,
            None => !is_header_value_text(s@),
        },
{
    match reqwest::header::HeaderValue::from_str(s) {
        Ok(v) => Some(String::from_utf8_lossy(v.as_bytes()).into_owned()),
        Err(_) => None,
    }
}

impl Clone for Signature {
    fn clone(&self) -> (res: Self)
        ensures
            res@ == self@,
    {
        Signature { value: self.value.clone() }
    }
}

/// The name of the header that carries a signature.
pub const AUTHORIZATION_HEADER_NAME: &'static str = "Authorization";

/// A user's OAuth token.
pub struct OauthToken {
    signature: Signature,
}

impl OauthToken {
    pub closed spec fn spec_signature(&self) -> Seq<char> {
        self.signature@
    }

    pub fn new(signature: Signature) -> (token: OauthToken)
        ensures
            token.spec_signature() == signature@,
    {
        OauthToken { signature }
    }

    pub fn get_oauth_signature(&self) -> (signature: Signature)
        ensures
            signature@ == self.spec_signature(),
    {
        self.signature.clone()
    }
}

impl Clone for OauthToken {
    fn clone(&self) -> (res: Self)
        ensures
            res.spec_signature() == self.spec_signature(),
    {
        OauthToken { signature: self.signature.clone() }
    }
}

} // verus!

verus! {

/// What Twitch says of a token when asked to validate it, and when it was
/// asked (Unix time, in seconds).
pub struct ValidationToken {
    pub client_id: crate::credentials::client_id::ClientId,
    pub scopes: Vec<String>,
    pub expires_in: u32,
    pub requested_time: i64,
}

/// A validation answer holds the client id, a non-empty list of scopes and
/// the seconds until the token expires.
pub open spec fn is_validation_json(o: Seq<(Seq<char>, crate::json::json_value::JsonValue)>) -> bool {
    &&& crate::json::json_object::has_string_property(o, "client_id"@)
    &&& crate::json::json_value::lookup(o, "scopes"@) matches Some(
        crate::json::json_value::JsonValue::StrList(_),
    )
    &&& crate::json::json_object::has_u32_property(o, "expires_in"@)
}

impl ValidationToken {
    pub fn new(
        new_id: crate::credentials::client_id::ClientId,
        new_scopes: Vec<String>,
        new_expires_in: u32,
        new_requested_time: i64,
    ) -> (token: ValidationToken)
        ensures
            token.client_id@ == new_id@,
            token.scopes.deep_view() == new_scopes.deep_view(),
            token.expires_in == new_expires_in,
            token.requested_time == new_requested_time,
    {
        ValidationToken {
            client_id: new_id,
            scopes: new_scopes,
            expires_in: new_expires_in,
            requested_time: new_requested_time,
        }
    }

    /// The validation answer `json_object`, received at `requested_time`.
    pub fn from_json_at(json_object: crate::json::json_value::JsonObject, requested_time: i64) -> (token:
        ValidationToken)
        requires
            is_validation_json(json_object@),
        ensures
            token.client_id@ == crate::json::json_object::string_property(
                json_object@,
                "client_id"@,
            ),
            token.scopes.deep_view() == crate::json::json_object::string_list_property(
                json_object@,
                "scopes"@,
            ),
            token.expires_in == crate::json::json_object::u32_property(json_object@, "expires_in"@),
            token.requested_time == requested_time,
    {
        let new_id = crate::credentials::client_id::ClientId::new(
            json_object.get_string_property_value(String::from_str("client_id")),
        );
        let new_scopes = json_object.get_non_empty_string_vector_property_value(
            String::from_str("scopes"),
        );
        let new_expiration = json_object.get_u32_property_value(String::from_str("expires_in"));
        ValidationToken::new(new_id, new_scopes, new_expiration, requested_time)
    }

    /// The validation answer `json_object`, received now: its time is read
    /// from the clock.
    pub fn from_json(json_object: crate::json::json_value::JsonObject) -> (token: ValidationToken)
        requires
            is_validation_json(json_object@),
        ensures
            token.client_id@ == crate::json::json_object::string_property(
                json_object@,
                "client_id"@,
            ),
            token.scopes.deep_view() == crate::json::json_object::string_list_property(
                json_object@,
                "scopes"@,
            ),
            token.expires_in == crate::json::json_object::u32_property(json_object@, "expires_in"@),
    {
        let requested_time = now_unix_seconds();
        ValidationToken::from_json_at(json_object, requested_time)
    }

    /// The validation answer `json_object`, received now, or `None` where it
    /// lacks the client id, a non-empty list of scopes or the seconds until
    /// expiry.
    pub fn try_from_json(json_object: crate::json::json_value::JsonObject) -> (token: Option<ValidationToken>)
        ensures
            match token {
                Some(t) => is_validation_json(json_object@) && t.client_id@
                    == crate::json::json_object::string_property(json_object@, "client_id"@)
                    && t.scopes.deep_view() == crate::json::json_object::string_list_property(
                    json_object@,
                    "scopes"@,
                ) && t.expires_in == crate::json::json_object::u32_property(
                    json_object@,
                    "expires_in"@,
                ),
                None => !is_validation_json(json_object@),
            },
    {
        let requested_time = now_unix_seconds();
        ValidationToken::try_from_json_at(json_object, requested_time)
    }

    /// The validation answer `json_object`, received at `requested_time`, or
    /// `None` where it lacks the client id, a non-empty list of scopes or the
    /// seconds until expiry.
    pub fn try_from_json_at(json_object: crate::json::json_value::JsonObject, requested_time: i64) -> (token: Option<ValidationToken>)
        ensures
            match token {
                Some(t) => is_validation_json(json_object@) && t.client_id@
                    == crate::json::json_object::string_property(json_object@, "client_id"@)
                    && t.scopes.deep_view() == crate::json::json_object::string_list_property(
                    json_object@,
                    "scopes"@,
                ) && t.expires_in == crate::json::json_object::u32_property(
                    json_object@,
                    "expires_in"@,
                ) && t.requested_time == requested_time,
                None => !is_validation_json(json_object@),
            },
    {
        let scopes_listed = match json_object.find_property("scopes") {
            Some(v) => v.get_value_type() == crate::json::json_value::PropertyType::String_List,
            None => false,
        };
        if json_object.has_string_property("client_id") && scopes_listed
            && json_object.has_u32_property("expires_in") {
            Some(ValidationToken::from_json_at(json_object, requested_time))
        } else {
            None
        }
    }
}

/// Calls `chrono::Local::now()` and gives its Unix time in seconds. The
/// value is the clock's: nothing is promised of it.
#[verifier::external_body]
fn now_unix_seconds() -> (seconds: i64) {
    chrono::Local::now().timestamp()
}

/// Something that holds an OAuth signature and can take a fresher one from
/// a validation answer.
pub trait HasOauthSignature {
    fn get_oauth_signature(&self) -> Signature;

    fn update_oauth(&mut self, validation_token: ValidationToken);
}

} // verus!
