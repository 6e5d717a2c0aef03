use vstd::prelude::*;

verus! {

/// The id Twitch gave the bot's application.
pub struct ClientId {
    pub value: String,
}

impl View for ClientId {
    type V = Seq<char>;

    open spec fn view(&self) -> Seq<char> {
        self.value@
    }
}

/// The name of the header that carries the client id.
pub const HEADER_KEY: &'static str = "Client-ID";

impl ClientId {
    pub fn new(new_id: String) -> (id: ClientId)
        ensures
            id@ == new_id@,
    {
        ClientId { value: new_id }
    }

    /// The client id as its `Debug`-like form writes it.
    pub fn to_string(&self) -> (s: String)
        ensures
            s@ == "(Client-ID: "@ + self@ + ")"@,
    {
        let mut s = String::from_str("(Client-ID: ");
        s.append(self.value.as_str());
        s.append(")");
        s
    }

    /// The name and the value of the header that carries the client id.
    pub fn get_header_parts(&self) -> (parts: (String, String))
        ensures
            parts.0@ == HEADER_KEY@,
            parts.1@ == self@,
    {
        (String::from_str(HEADER_KEY), self.value.clone())
    }
}

impl Clone for ClientId {
    fn clone(&self) -> (res: Self)
        ensures
            res@ == self@,
    {
        ClientId { value: self.value.clone() }
    }
}

impl PartialEq for ClientId {
    fn eq(&self, other: &Self) -> (res: bool) {
        self.value == other.value
    }
}

impl vstd::std_specs::cmp::PartialEqSpecImpl for ClientId {
    open spec fn obeys_eq_spec() -> bool {
        true
    }

    open spec fn eq_spec(&self, other: &Self) -> bool {
        self@ == other@
    }
}

} // verus!
