//! Who is who on Twitch: logins, numeric ids and the bot's own account.

use vstd::prelude::*;

verus! {

/// A Twitch login name (the lower-case account name used in IRC).
pub struct UserLogin {
    value: String,
}

impl View for UserLogin {
    type V = Seq<char>;

    open spec fn view(&self) -> Seq<char> {
        self.spec_value()
    }
}

impl UserLogin {
    pub closed spec fn spec_value(&self) -> Seq<char> {
        self.value@
    }

    pub fn new(value: String) -> (login: UserLogin)
        ensures
            login@ == value@,
    {
        UserLogin { value }
    }

    pub fn get_value(&self) -> (value: String)
        ensures
            value@ == self@,
    {
        self.value.clone()
    }

    pub fn as_str(&self) -> (value: &str)
        ensures
            value@ == self@,
    {
        self.value.as_str()
    }
}

impl Clone for UserLogin {
    fn clone(&self) -> (res: Self)
        ensures
            res@ == self@,
    {
        UserLogin { value: self.value.clone() }
    }
}

impl PartialEq for UserLogin {
    fn eq(&self, other: &Self) -> (res: bool) {
        self.value == other.value
    }
}

impl vstd::std_specs::cmp::PartialEqSpecImpl for UserLogin {
    open spec fn obeys_eq_spec() -> bool {
        true
    }

    open spec fn eq_spec(&self, other: &Self) -> bool {
        self@ == other@
    }
}

/// A Twitch numeric user id.
#[derive(Clone, Copy, PartialEq, Eq, Structural, Debug)]
pub struct UserId {
    pub value: u32,
}

impl UserId {
    pub fn new(value: u32) -> (id: UserId)
        ensures
            id.value == value,
    {
        UserId { value }
    }

    pub fn get_value(&self) -> (value: u32)
        ensures
            value == self.value,
    {
        self.value
    }
}

/// The account a session acts for: its login and its numeric id.
pub struct UserData {
    login: UserLogin,
    user_id: UserId,
}

impl UserData {
    pub closed spec fn spec_login(&self) -> Seq<char> {
        self.login@
    }

    pub closed spec fn spec_user_id(&self) -> u32 {
        self.user_id.value
    }

    pub fn new(login: UserLogin, user_id: UserId) -> (data: UserData)
        ensures
            data.spec_login() == login@,
            data.spec_user_id() == user_id.value,
    {
        UserData { login, user_id }
    }

    pub fn get_login(&self) -> (login: UserLogin)
        ensures
            login@ == self.spec_login(),
    {
        self.login.clone()
    }

    pub fn get_user_id(&self) -> (id: UserId)
        ensures
            id.value == self.spec_user_id(),
    {
        self.user_id
    }
}

impl Clone for UserData {
    fn clone(&self) -> (res: Self)
        ensures
            res.spec_login() == self.spec_login(),
            res.spec_user_id() == self.spec_user_id(),
    {
        UserData { login: self.login.clone(), user_id: self.user_id }
    }
}

} // verus!
