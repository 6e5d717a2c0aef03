use crate::irc_chat::commands::command_key::ChatCommandKey;
use crate::irc_chat::commands::replies::{chat_line, reply_to};
use crate::irc_chat::twitch_user_message::TwitchIrcUserMessage;
use vstd::prelude::*;

verus! {

/// A custom command: the key that runs it and the text it answers.
pub struct CustomCommand {
    key: ChatCommandKey,
    text: String,
}

/// The map that a list of (key, text) entries stands for: a later entry
/// wins over an earlier one with the same key.
pub open spec fn custom_map(e: Seq<(Seq<char>, Seq<char>)>) -> Map<Seq<char>, Seq<char>>
    decreases e.len(),
{
    if e.len() == 0 {
        Map::empty()
    } else {
        custom_map(e.drop_last()).insert(e.last().0, e.last().1)
    }
}

/// The custom commands of a channel: the text each key answers.
pub struct CustomCommands {
    entries: Vec<CustomCommand>,
}

impl CustomCommands {
    /// The (key, text) entries in the order they were added.
    pub closed spec fn spec_entries(&self) -> Seq<(Seq<char>, Seq<char>)> {
        self.entries@.map_values(|c: CustomCommand| (c.key@, c.text@))
    }
}

impl View for CustomCommands {
    type V = Map<Seq<char>, Seq<char>>;

    open spec fn view(&self) -> Map<Seq<char>, Seq<char>> {
        custom_map(self.spec_entries())
    }
}

impl CustomCommands {
    /// No custom commands.
    pub fn new() -> (c: CustomCommands)
        ensures
            c@ == Map::<Seq<char>, Seq<char>>::empty(),
    {
        let c = CustomCommands { entries: Vec::new() };
        assert(c.spec_entries() =~= Seq::<(Seq<char>, Seq<char>)>::empty());
        c
    }

    /// Makes `key` answer `text`, in place of what it answered before.
    pub fn add_command(&mut self, key: ChatCommandKey, text: String)
        ensures
            final(self)@ == old(self)@.insert(key@, text@),
    {
        let ghost k = key@;
        let ghost t = text@;
        let ghost before = self.spec_entries();
        self.entries.push(CustomCommand { key, text });
        assert(self.spec_entries() =~= before.push((k, t)));
        assert(self.spec_entries().drop_last() =~= before);
    }

    /// The text that `key` answers, if any.
    pub fn get(&self, key: &ChatCommandKey) -> (r: Option<String>)
        ensures
            match r {
                Some(t) => self@.dom().contains(key@) && t@ == self@[key@],
                None => !self@.dom().contains(key@),
            },
    {
        let ghost all = self.spec_entries();
        let mut i: usize = self.entries.len();
        assert(all.take(i as int) =~= all);
        while i > 0
            invariant
                i <= self.entries.len(),
                all == self.spec_entries(),
                all.len() == self.entries.len(),
                custom_map(all).dom().contains(key@) == custom_map(all.take(i as int)).dom().contains(
                    key@,
                ),
                custom_map(all).dom().contains(key@) ==> custom_map(all)[key@] == custom_map(
                    all.take(i as int),
                )[key@],
            decreases i,
        {
            let ghost prefix = all.take(i as int);
            assert(prefix.drop_last() =~= all.take(i - 1));
            assert(prefix.last() == (self.entries@[i - 1].key@, self.entries@[i - 1].text@));
            if crate::text::str_equal(self.entries[i - 1].key.as_str(), key.as_str()) {
                return Some(self.entries[i - 1].text.clone());
            }
            i = i - 1;
        }
        None
    }
}

/// Runs the custom command `command` said in `message`: the line that
/// answers its text in the channel it was said in, or `None` where no
/// custom command has that key.
pub fn execute_custom_command(message: &TwitchIrcUserMessage, command: &ChatCommandKey, custom_commands: &CustomCommands) -> (line: Option<String>)
    ensures
        line is Some <==> custom_commands@.dom().contains(command@),
        line matches Some(l) ==> l@ == chat_line(message@.channel, custom_commands@[command@]),
{
    match custom_commands.get(command) {
        Some(text) => Some(reply_to(message, text.as_str())),
        None => None,
    }
}

} // verus!
