use vstd::prelude::*;

verus! {

/// The lower-case form of a string, as `str::to_lowercase` computes it
/// (Unicode case mapping).
pub uninterp spec fn lowercase(s: Seq<char>) -> Seq<char>;

/// Calls `str::to_lowercase`. The contract names its result: the same
/// characters give the same lower-case string. Unicode's case mapping
/// itself is not stated.
#[verifier::external_body]
pub(crate) fn to_lowercase(s: &str) -> (r: String)
    ensures
        r@ == lowercase(s@),
{
    s.to_lowercase()
}

/// The word after `!` that names a chat command.
pub struct ChatCommandKey {
    value: String,
}

impl View for ChatCommandKey {
    type V = Seq<char>;

    open spec fn view(&self) -> Seq<char> {
        self.spec_value()
    }
}

impl ChatCommandKey {
    pub closed spec fn spec_value(&self) -> Seq<char> {
        self.value@
    }

    pub fn from(value: String) -> (key: ChatCommandKey)
        ensures
            key@ == value@,
    {
        ChatCommandKey { value }
    }

    pub fn get_value(&self) -> (value: String)
        ensures
            value@ == self@,
    {
        self.value.clone()
    }

    pub fn as_str(&self) -> (value: &str)
        ensures
            value@ == self@,
    {
        self.value.as_str()
    }
}

impl Clone for ChatCommandKey {
    fn clone(&self) -> (res: Self)
        ensures
            res@ == self@,
    {
        ChatCommandKey { value: self.value.clone() }
    }
}

impl PartialEq for ChatCommandKey {
    fn eq(&self, other: &Self) -> (res: bool) {
        self.value == other.value
    }
}

impl vstd::std_specs::cmp::PartialEqSpecImpl for ChatCommandKey {
    open spec fn obeys_eq_spec() -> bool {
        true
    }

    open spec fn eq_spec(&self, other: &Self) -> bool {
        self@ == other@
    }
}

} // verus!
