use vstd::prelude::*;

verus! {

/// The secret Twitch gave the bot's application.
#[derive(Copy, Clone)]
pub struct ClientSecret {
    pub value: &'static str,
}

impl ClientSecret {
    pub fn new(new_secret: &'static str) -> (secret: ClientSecret)
        ensures
            secret.value@ == new_secret@,
    {
        ClientSecret { value: new_secret }
    }

    /// Whether two secrets are the same text.
    pub fn equals(&self, other: ClientSecret) -> (r: bool)
        ensures
            r == (self.value@ == other.value@),
    {
        crate::text::str_equal(self.value, other.value)
    }
}

impl PartialEq for ClientSecret {
    fn eq(&self, other: &Self) -> (res: bool) {
        crate::text::str_equal(self.value, other.value)
    }
}

impl vstd::std_specs::cmp::PartialEqSpecImpl for ClientSecret {
    open spec fn obeys_eq_spec() -> bool {
        true
    }

    open spec fn eq_spec(&self, other: &Self) -> bool {
        self.value@ == other.value@
    }
}

} // verus!
