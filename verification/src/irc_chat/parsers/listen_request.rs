use crate::oauth::OauthToken;
use vstd::prelude::*;

verus! {

/// The request that subscribes a PubSub connection to `topics`, signed with
/// a token.
#[allow(dead_code)]
pub struct PubsubListenRequest {
    nonce: String,
    topics: Vec<String>,
    auth_token: OauthToken,
}

} // verus!
