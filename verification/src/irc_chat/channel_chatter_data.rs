use crate::json::json_object::{
    has_object_property, has_string_list_property, has_u32_property, object_property,
    string_list_property, u32_property,
};
use crate::json::json_value::{JsonObject, JsonValue};
use crate::user::UserLogin;
use vstd::prelude::*;

verus! {

/// The logins of a list of users.
pub open spec fn logins(v: Seq<UserLogin>) -> Seq<Seq<char>> {
    v.map_values(|u: UserLogin| u@)
}

/// Who is in a channel's chat, by role, as plain values.
pub struct ChatterDataView {
    pub chatter_count: u32,
    pub broadcaster: Seq<Seq<char>>,
    pub vips: Seq<Seq<char>>,
    pub moderators: Seq<Seq<char>>,
    pub staff: Seq<Seq<char>>,
    pub admins: Seq<Seq<char>>,
    pub global_moderators: Seq<Seq<char>>,
    pub viewers: Seq<Seq<char>>,
}

/// Who is in a channel's chat, by role.
pub struct ChatterData {
    chatter_count: u32,
    broadcaster: Vec<UserLogin>,
    vips: Vec<UserLogin>,
    moderators: Vec<UserLogin>,
    staff: Vec<UserLogin>,
    admins: Vec<UserLogin>,
    global_moderators: Vec<UserLogin>,
    viewers: Vec<UserLogin>,
}

impl View for ChatterData {
    type V = ChatterDataView;

    closed spec fn view(&self) -> ChatterDataView {
        ChatterDataView {
            chatter_count: self.chatter_count,
            broadcaster: logins(self.broadcaster@),
            vips: logins(self.vips@),
            moderators: logins(self.moderators@),
            staff: logins(self.staff@),
            admins: logins(self.admins@),
            global_moderators: logins(self.global_moderators@),
            viewers: logins(self.viewers@),
        }
    }
}

/// The document of Twitch's chatters endpoint holds a count and, under
/// `chatters`, a list of logins for each role.
pub open spec fn is_chatters_json(o: Seq<(Seq<char>, JsonValue)>) -> bool {
    &&& has_u32_property(o, "chatter_count"@)
    &&& has_object_property(o, "chatters"@)
    &&& has_string_list_property(object_property(o, "chatters"@), "broadcaster"@)
    &&& has_string_list_property(object_property(o, "chatters"@), "vips"@)
    &&& has_string_list_property(object_property(o, "chatters"@), "moderators"@)
    &&& has_string_list_property(object_property(o, "chatters"@), "staff"@)
    &&& has_string_list_property(object_property(o, "chatters"@), "admins"@)
    &&& has_string_list_property(object_property(o, "chatters"@), "global_mods"@)
    &&& has_string_list_property(object_property(o, "chatters"@), "viewers"@)
}

/// The chatters that the document `o` lists.
pub open spec fn chatters_of_json(o: Seq<(Seq<char>, JsonValue)>) -> ChatterDataView {
    let c = object_property(o, "chatters"@);
    ChatterDataView {
        chatter_count: u32_property(o, "chatter_count"@),
        broadcaster: string_list_property(c, "broadcaster"@),
        vips: string_list_property(c, "vips"@),
        moderators: string_list_property(c, "moderators"@),
        staff: string_list_property(c, "staff"@),
        admins: string_list_property(c, "admins"@),
        global_moderators: string_list_property(c, "global_mods"@),
        viewers: string_list_property(c, "viewers"@),
    }
}

/// Everyone in `d`: the broadcaster and the moderators where asked for,
/// then the VIPs, staff, admins, global moderators and viewers.
pub open spec fn all_viewers(d: ChatterDataView, include_broadcaster: bool, include_mods: bool) -> Seq<Seq<char>> {
    (if include_broadcaster {
        d.broadcaster
    } else {
        Seq::empty()
    }) + (if include_mods {
        d.moderators
    } else {
        Seq::empty()
    }) + d.vips + d.staff + d.admins + d.global_moderators + d.viewers
}

/// The users of `strings`, by login.
fn logins_of(strings: Vec<String>) -> (r: Vec<UserLogin>)
    ensures
        logins(r@) == strings.deep_view(),
{
    let mut r: Vec<UserLogin> = Vec::new();
    let mut i: usize = 0;
    while i < strings.len()
        invariant
            i <= strings.len(),
            logins(r@) == strings.deep_view().take(i as int),
        decreases strings.len() - i,
    {
        let login = UserLogin::new(strings[i].clone());
        let ghost before = r@;
        r.push(login);
        assert(r@ =~= before.push(login));
        assert(logins(r@) =~= logins(before).push(login@));
        assert(strings.deep_view().take(i + 1) =~= strings.deep_view().take(i as int).push(strings[i as int]@));
        assert(logins(r@) =~= strings.deep_view().take(i + 1));
        i = i + 1;
    }
    assert(strings.deep_view().take(i as int) =~= strings.deep_view());
    r
}

/// A copy of a list of users.
fn clone_logins(v: &Vec<UserLogin>) -> (r: Vec<UserLogin>)
    ensures
        logins(r@) == logins(v@),
{
    let mut r: Vec<UserLogin> = Vec::new();
    append_logins(&mut r, v);
    assert(logins(r@) =~= logins(v@));
    r
}

/// Appends copies of the users of `v` to `out`.
fn append_logins(out: &mut Vec<UserLogin>, v: &Vec<UserLogin>)
    ensures
        logins(final(out)@) == logins(old(out)@) + logins(v@),
{
    let mut i: usize = 0;
    while i < v.len()
        invariant
            i <= v.len(),
            logins(out@) == logins(old(out)@) + logins(v@).take(i as int),
        decreases v.len() - i,
    {
        let login = v[i].clone();
        let ghost before = out@;
        out.push(login);
        assert(out@ =~= before.push(login));
        assert(logins(out@) =~= logins(before).push(login@));
        assert(logins(v@).take(i + 1) =~= logins(v@).take(i as int).push(v[i as int]@));
        assert(logins(out@) =~= logins(old(out)@) + logins(v@).take(i + 1));
        i = i + 1;
    }
    assert(logins(v@).take(i as int) =~= logins(v@));
}

impl ChatterData {
    /// Chatters from their count and their logins by role.
    pub fn new(
        chatter_count: u32,
        broadcaster: Vec<UserLogin>,
        vips: Vec<UserLogin>,
        moderators: Vec<UserLogin>,
        staff: Vec<UserLogin>,
        admins: Vec<UserLogin>,
        global_moderators: Vec<UserLogin>,
        viewers: Vec<UserLogin>,
    ) -> (d: ChatterData)
        ensures
            d@ == (ChatterDataView {
                chatter_count,
                broadcaster: logins(broadcaster@),
                vips: logins(vips@),
                moderators: logins(moderators@),
                staff: logins(staff@),
                admins: logins(admins@),
                global_moderators: logins(global_moderators@),
                viewers: logins(viewers@),
            }),
    {
        ChatterData {
            chatter_count,
            broadcaster,
            vips,
            moderators,
            staff,
            admins,
            global_moderators,
            viewers,
        }
    }

    /// The chatters that a document of Twitch's chatters endpoint lists.
    pub fn from_json(json_object: JsonObject) -> (d: ChatterData)
        requires
            is_chatters_json(json_object@),
        ensures
            d@ == chatters_of_json(json_object@),
    {
        let chatter_count = json_object.get_u32_property_value(String::from_str("chatter_count"));
        let json_object = json_object.get_object_property(String::from_str("chatters"));
        let broadcasters = logins_of(
            json_object.get_string_vector_property_value(String::from_str("broadcaster")),
        );
        let vips = logins_of(json_object.get_string_vector_property_value(String::from_str("vips")));
        let moderators = logins_of(
            json_object.get_string_vector_property_value(String::from_str("moderators")),
        );
        let staff = logins_of(json_object.get_string_vector_property_value(String::from_str("staff")));
        let admins = logins_of(
            json_object.get_string_vector_property_value(String::from_str("admins")),
        );
        let global_mods = logins_of(
            json_object.get_string_vector_property_value(String::from_str("global_mods")),
        );
        let viewers = logins_of(
            json_object.get_string_vector_property_value(String::from_str("viewers")),
        );
        ChatterData::new(
            chatter_count,
            broadcasters,
            vips,
            moderators,
            staff,
            admins,
            global_mods,
            viewers,
        )
    }

    /// Whether `json_object` is a document of Twitch's chatters endpoint.
    pub fn is_valid_json(json_object: &JsonObject) -> (r: bool)
        ensures
            r == is_chatters_json(json_object@),
    {
        if !(json_object.has_u32_property("chatter_count") && json_object.has_object_property(
            "chatters",
        )) {
            return false;
        }
        let c = json_object.get_object_property(String::from_str("chatters"));
        c.has_string_list_property("broadcaster") && c.has_string_list_property("vips")
            && c.has_string_list_property("moderators") && c.has_string_list_property("staff")
            && c.has_string_list_property("admins") && c.has_string_list_property("global_mods")
            && c.has_string_list_property("viewers")
    }

    /// The chatters that a document lists, or `None` where it is no document
    /// of Twitch's chatters endpoint.
    pub fn try_from_json(json_object: JsonObject) -> (d: Option<ChatterData>)
        ensures
            match d {
                Some(data) => is_chatters_json(json_object@) && data@ == chatters_of_json(
                    json_object@,
                ),
                None => !is_chatters_json(json_object@),
            },
    {
        if ChatterData::is_valid_json(&json_object) {
            Some(ChatterData::from_json(json_object))
        } else {
            None
        }
    }

    /// The moderators.
    pub fn get_mods(&self) -> (mods: Vec<UserLogin>)
        ensures
            logins(mods@) == self@.moderators,
    {
        clone_logins(&self.moderators)
    }

    /// The broadcaster.
    pub fn get_broadcaster(&self) -> (b: Vec<UserLogin>)
        ensures
            logins(b@) == self@.broadcaster,
    {
        clone_logins(&self.broadcaster)
    }

    /// Everyone in the chat; the broadcaster and the moderators only where
    /// asked for.
    pub fn get_all_viewers(&self, include_broadcaster: bool, include_mods: bool) -> (all: Vec<
        UserLogin,
    >)
        ensures
            logins(all@) == all_viewers(self@, include_broadcaster, include_mods),
    {
        let mut all_viewers_vec: Vec<UserLogin> = Vec::new();
        assert(logins(all_viewers_vec@) =~= Seq::<Seq<char>>::empty());
        if include_broadcaster {
            append_logins(&mut all_viewers_vec, &self.broadcaster);
        }
        if include_mods {
            append_logins(&mut all_viewers_vec, &self.moderators);
        }
        append_logins(&mut all_viewers_vec, &self.vips);
        append_logins(&mut all_viewers_vec, &self.staff);
        append_logins(&mut all_viewers_vec, &self.admins);
        append_logins(&mut all_viewers_vec, &self.global_moderators);
        append_logins(&mut all_viewers_vec, &self.viewers);
        assert(logins(all_viewers_vec@) =~= all_viewers(self@, include_broadcaster, include_mods));
        all_viewers_vec
    }
}

/// `target` is the owner of `channel` or one of its moderators `mods`.
pub open spec fn admin_or_mod(target: Seq<char>, channel: Seq<char>, mods: Seq<Seq<char>>) -> bool {
    target == channel || mods.contains(target)
}

/// Whether `target` may act as a moderator in `channel`: it is the
/// channel's owner or one of the channel's moderators `mods`.
pub fn is_admin_or_mod(target: &UserLogin, channel: &UserLogin, mods: &Vec<UserLogin>) -> (r: bool)
    ensures
        r == admin_or_mod(target@, channel@, logins(mods@)),
{
    if *target == *channel {
        return true;
    }
    let mut i: usize = 0;
    while i < mods.len()
        invariant
            i <= mods.len(),
            forall|j: int| 0 <= j < i ==> logins(mods@)[j] != target@,
        decreases mods.len() - i,
    {
        if mods[i] == *target {
            assert(logins(mods@)[i as int] == target@);
            return true;
        }
        i = i + 1;
    }
    false
}

} // verus!

verus! {

/// Asking for the broadcaster or the moderators only puts them in front of
/// the others, who come in the same order either way.
pub proof fn lemma_all_viewers_prefix(d: ChatterDataView, include_broadcaster: bool, include_mods: bool)
    ensures
        all_viewers(d, include_broadcaster, include_mods) == (if include_broadcaster {
            d.broadcaster
        } else {
            Seq::empty()
        }) + (if include_mods {
            d.moderators
        } else {
            Seq::empty()
        }) + all_viewers(d, false, false),
{
    let b: Seq<Seq<char>> = if include_broadcaster { d.broadcaster } else { Seq::empty() };
    let m: Seq<Seq<char>> = if include_mods { d.moderators } else { Seq::empty() };
    assert(all_viewers(d, include_broadcaster, include_mods) =~= b + m + all_viewers(d, false, false));
}

} // verus!

verus! {

/// The owner of a channel and every one of its listed moderators, wherever
/// it stands in the list, may act as a moderator; nobody else may.
pub proof fn lemma_admin_or_mod_members(target: Seq<char>, channel: Seq<char>, mods: Seq<Seq<char>>)
    ensures
        admin_or_mod(channel, channel, mods),
        forall|i: int| 0 <= i < mods.len() ==> admin_or_mod(#[trigger] mods[i], channel, mods),
        admin_or_mod(target, channel, mods) <==> (target == channel || exists|i: int|
            0 <= i < mods.len() && mods[i] == target),
{
    assert forall|i: int| 0 <= i < mods.len() implies admin_or_mod(#[trigger] mods[i], channel, mods) by {
        assert(mods.contains(mods[i]));
    }
}

} // verus!
