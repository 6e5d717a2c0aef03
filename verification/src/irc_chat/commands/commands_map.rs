use crate::irc_chat::commands::command_key::ChatCommandKey;
use vstd::prelude::*;

verus! {

/// The commands that come with the bot.
#[derive(Clone, Copy, PartialEq, Eq, Structural, Debug)]
pub enum NativeCommand {
    AddCustomTextCommand,
    AllCommands,
    BlameRandomUser,
    Flipcoin,
    EnterLurk,
    RandomSelection,
    Shoutout,
    Socials,
}

/// The map that a list of (key, command) entries stands for: a later entry
/// wins over an earlier one with the same key.
pub open spec fn entries_map(e: Seq<(Seq<char>, NativeCommand)>) -> Map<Seq<char>, NativeCommand>
    decreases e.len(),
{
    if e.len() == 0 {
        Map::empty()
    } else {
        entries_map(e.drop_last()).insert(e.last().0, e.last().1)
    }
}

/// No key occurs twice in the entries.
pub open spec fn distinct_keys(e: Seq<(Seq<char>, NativeCommand)>) -> bool {
    forall|i: int, j: int| 0 <= i < j < e.len() ==> e[i].0 != e[j].0
}

proof fn lemma_map_absent(e: Seq<(Seq<char>, NativeCommand)>, k: Seq<char>)
    requires
        forall|i: int| 0 <= i < e.len() ==> e[i].0 != k,
    ensures
        !entries_map(e).dom().contains(k),
    decreases e.len(),
{
    if e.len() > 0 {
        lemma_map_absent(e.drop_last(), k);
    }
}

proof fn lemma_map_present(e: Seq<(Seq<char>, NativeCommand)>, j: int)
    requires
        distinct_keys(e),
        0 <= j < e.len(),
    ensures
        entries_map(e).dom().contains(e[j].0),
        entries_map(e)[e[j].0] == e[j].1,
    decreases e.len(),
{
    if j < e.len() - 1 {
        lemma_map_present(e.drop_last(), j);
    }
}

proof fn lemma_map_update(e: Seq<(Seq<char>, NativeCommand)>, j: int, v: NativeCommand)
    requires
        distinct_keys(e),
        0 <= j < e.len(),
    ensures
        entries_map(e.update(j, (e[j].0, v))) == entries_map(e).insert(e[j].0, v),
    decreases e.len(),
{
    let u = e.update(j, (e[j].0, v));
    if j == e.len() - 1 {
        assert(u.drop_last() =~= e.drop_last());
    } else {
        lemma_map_update(e.drop_last(), j, v);
        assert(u.drop_last() =~= e.drop_last().update(j, (e[j].0, v)));
        assert(entries_map(u) =~= entries_map(e).insert(e[j].0, v));
    }
}

/// The keys of the map that a list of entries stands for are the keys of
/// the entries.
proof fn lemma_entries_dom(e: Seq<(Seq<char>, NativeCommand)>)
    ensures
        entries_map(e).dom() == e.map_values(|x: (Seq<char>, NativeCommand)| x.0).to_set(),
    decreases e.len(),
{
    let ks = e.map_values(|x: (Seq<char>, NativeCommand)| x.0);
    if e.len() == 0 {
        assert(ks.to_set() =~= Set::<Seq<char>>::empty());
    } else {
        lemma_entries_dom(e.drop_last());
        let kl = e.drop_last().map_values(|x: (Seq<char>, NativeCommand)| x.0);
        assert(ks =~= kl.push(e.last().0));
        assert forall|k: Seq<char>| ks.to_set().contains(k) == kl.to_set().insert(e.last().0).contains(
            k,
        ) by {
            if ks.contains(k) {
                let i = choose|i: int| 0 <= i < ks.len() && ks[i] == k;
                if i < kl.len() {
                    assert(kl[i] == k);
                }
            }
            if kl.contains(k) {
                let i = choose|i: int| 0 <= i < kl.len() && kl[i] == k;
                assert(ks[i] == k);
            }
            if k == e.last().0 {
                assert(ks[ks.len() - 1] == k);
            }
        }
        assert(ks.to_set() =~= kl.to_set().insert(e.last().0));
    }
}

/// One key of the map and the command it runs.
pub struct CommandEntry {
    key: ChatCommandKey,
    command: NativeCommand,
}

/// A map from command keys to commands, which remembers the order in which
/// keys were first added.
pub struct UserCommandsMap {
    entries: Vec<CommandEntry>,
}

impl View for UserCommandsMap {
    type V = Map<Seq<char>, NativeCommand>;

    open spec fn view(&self) -> Map<Seq<char>, NativeCommand> {
        entries_map(self.spec_entries())
    }
}

impl UserCommandsMap {
    /// The (key, command) entries in the order their keys were first added.
    pub closed spec fn spec_entries(&self) -> Seq<(Seq<char>, NativeCommand)> {
        self.entries@.map_values(|e: CommandEntry| (e.key@, e.command))
    }

    /// The keys in the order they were first added.
    pub open spec fn spec_keys(&self) -> Seq<Seq<char>> {
        self.spec_entries().map_values(|e: (Seq<char>, NativeCommand)| e.0)
    }

    #[verifier::type_invariant]
    closed spec fn keys_are_distinct(self) -> bool {
        distinct_keys(self.spec_entries())
    }

    pub fn new() -> (map: UserCommandsMap)
        ensures
            map@ == Map::<Seq<char>, NativeCommand>::empty(),
            map.spec_entries() == Seq::<(Seq<char>, NativeCommand)>::empty(),
    {
        let map = UserCommandsMap { entries: Vec::new() };
        assert(map.spec_entries() =~= Seq::<(Seq<char>, NativeCommand)>::empty());
        map
    }

    fn find(&self, key: &str) -> (r: Option<usize>)
        ensures
            r matches Some(j) ==> j < self.spec_entries().len() && self.spec_entries()[j as int].0
                == key@,
            r is None ==> forall|i: int|
                0 <= i < self.spec_entries().len() ==> self.spec_entries()[i].0 != key@,
    {
        let mut i: usize = 0;
        while i < self.entries.len()
            invariant
                i <= self.entries.len(),
                self.spec_entries().len() == self.entries.len(),
                forall|k: int| 0 <= k < i ==> self.spec_entries()[k].0 != key@,
            decreases self.entries.len() - i,
        {
            if crate::text::str_equal(self.entries[i].key.as_str(), key) {
                return Some(i);
            }
            i = i + 1;
        }
        None
    }

    /// Whether a command is stored under `key`.
    pub fn contains_key(&self, key: &ChatCommandKey) -> (r: bool)
        ensures
            r == self@.dom().contains(key@),
    {
        proof {
            use_type_invariant(self);
        }
        match self.find(key.as_str()) {
            Some(j) => {
                proof {
                    lemma_map_present(self.spec_entries(), j as int);
                }
                true
            },
            None => {
                proof {
                    lemma_map_absent(self.spec_entries(), key@);
                }
                false
            },
        }
    }

    /// The command stored under `key`, if any.
    pub fn get(&self, key: &ChatCommandKey) -> (r: Option<NativeCommand>)
        ensures
            r == (if self@.dom().contains(key@) {
                Some(self@[key@])
            } else {
                None
            }),
    {
        proof {
            use_type_invariant(self);
        }
        match self.find(key.as_str()) {
            Some(j) => {
                proof {
                    lemma_map_present(self.spec_entries(), j as int);
                }
                Some(self.entries[j].command)
            },
            None => {
                proof {
                    lemma_map_absent(self.spec_entries(), key@);
                }
                None
            },
        }
    }

    /// Stores `command` under `key`, replacing what was stored there. A key
    /// already present keeps its place in the order; a new key goes last.
    pub fn insert(&mut self, key: ChatCommandKey, command: NativeCommand)
        ensures
            final(self)@ == old(self)@.insert(key@, command),
            old(self)@.dom().contains(key@) ==> final(self).spec_keys() == old(self).spec_keys(),
            !old(self)@.dom().contains(key@) ==> final(self).spec_keys() == old(self).spec_keys().push(
                key@,
            ),
    {
        proof {
            use_type_invariant(&*self);
        }
        let ghost old_entries = self.spec_entries();
        match self.find(key.as_str()) {
            Some(j) => {
                proof {
                    lemma_map_present(old_entries, j as int);
                    lemma_map_update(old_entries, j as int, command);
                }
                let existing_key = self.entries[j].key.clone();
                let mut entries: Vec<CommandEntry> = Vec::new();
                std::mem::swap(&mut entries, &mut self.entries);
                entries.set(j, CommandEntry { key: existing_key, command });
                assert(entries@.map_values(|e: CommandEntry| (e.key@, e.command)) =~= old_entries.update(
                    j as int,
                    (old_entries[j as int].0, command),
                ));
                self.entries = entries;
                assert(self.spec_entries() =~= old_entries.update(
                    j as int,
                    (old_entries[j as int].0, command),
                ));
                assert(self.spec_keys() =~= old(self).spec_keys());
            },
            None => {
                proof {
                    lemma_map_absent(old_entries, key@);
                }
                let ghost k = key@;
                let mut entries: Vec<CommandEntry> = Vec::new();
                std::mem::swap(&mut entries, &mut self.entries);
                entries.push(CommandEntry { key, command });
                assert(entries@.map_values(|e: CommandEntry| (e.key@, e.command)) =~= old_entries.push(
                    (k, command),
                ));
                self.entries = entries;
                assert(self.spec_entries() =~= old_entries.push((k, command)));
                assert(self.spec_entries().drop_last() =~= old_entries);
                assert(self.spec_keys() =~= old(self).spec_keys().push(k));
            },
        }
    }

    /// The keys in the order they were first added.
    pub fn keys(&self) -> (keys: Vec<ChatCommandKey>)
        ensures
            keys@.map_values(|k: ChatCommandKey| k@) == self.spec_keys(),
            self.spec_keys().no_duplicates(),
            self.spec_keys().to_set() == self@.dom(),
    {
        proof {
            use_type_invariant(self);
            lemma_entries_dom(self.spec_entries());
            assert(self.spec_keys().no_duplicates()) by {
                assert forall|i: int, j: int|
                    0 <= i < self.spec_keys().len() && 0 <= j < self.spec_keys().len() && i
                        != j implies self.spec_keys()[i] != self.spec_keys()[j] by {
                    if i < j {
                        assert(self.spec_entries()[i].0 != self.spec_entries()[j].0);
                    } else {
                        assert(self.spec_entries()[j].0 != self.spec_entries()[i].0);
                    }
                }
            }
        }
        let mut keys: Vec<ChatCommandKey> = Vec::new();
        let mut i: usize = 0;
        while i < self.entries.len()
            invariant
                i <= self.entries.len(),
                self.spec_keys().len() == self.entries.len(),
                keys@.map_values(|k: ChatCommandKey| k@) == self.spec_keys().take(i as int),
            decreases self.entries.len() - i,
        {
            let ghost before = keys@;
            let key = self.entries[i].key.clone();
            keys.push(key);
            assert(keys@ =~= before.push(key));
            assert(self.spec_entries()[i as int] == (self.entries@[i as int].key@, self.entries@[i as int].command));
            assert(self.spec_keys()[i as int] == key@);
            assert(keys@.map_values(|k: ChatCommandKey| k@) =~= before.map_values(
                |k: ChatCommandKey| k@,
            ).push(key@));
            assert(self.spec_keys().take(i + 1) =~= self.spec_keys().take(i as int).push(key@));
            i = i + 1;
        }
        assert(self.spec_keys().take(i as int) =~= self.spec_keys());
        keys
    }
}

} // verus!

verus! {

/// `m` with `cmd` stored under each of `keys`, in order.
pub open spec fn insert_all(m: Map<Seq<char>, NativeCommand>, keys: Seq<Seq<char>>, cmd: NativeCommand) -> Map<Seq<char>, NativeCommand>
    decreases keys.len(),
{
    if keys.len() == 0 {
        m
    } else {
        insert_all(m, keys.drop_last(), cmd).insert(keys.last(), cmd)
    }
}

/// Stores `command` under `primary_key` in `commands` and under each of
/// `alternate_keys` in `commands_alternate_keys`.
pub fn add_default_command(
    commands: &mut UserCommandsMap,
    commands_alternate_keys: &mut UserCommandsMap,
    primary_key: &str,
    alternate_keys: Vec<&str>,
    command: NativeCommand,
)
    ensures
        final(commands)@ == old(commands)@.insert(primary_key@, command),
        final(commands_alternate_keys)@ == insert_all(
            old(commands_alternate_keys)@,
            alternate_keys@.map_values(|k: &str| k@),
            command,
        ),
{
    commands.insert(ChatCommandKey::from(String::from_str(primary_key)), command);
    let mut i: usize = 0;
    while i < alternate_keys.len()
        invariant
            i <= alternate_keys.len(),
            commands_alternate_keys@ == insert_all(
                old(commands_alternate_keys)@,
                alternate_keys@.map_values(|k: &str| k@).take(i as int),
                command,
            ),
        decreases alternate_keys.len() - i,
    {
        let key = alternate_keys[i];
        commands_alternate_keys.insert(ChatCommandKey::from(String::from_str(key)), command);
        assert(alternate_keys@.map_values(|k: &str| k@).take(i + 1).drop_last()
            =~= alternate_keys@.map_values(|k: &str| k@).take(i as int));
        i = i + 1;
    }
    assert(alternate_keys@.map_values(|k: &str| k@).take(i as int) =~= alternate_keys@.map_values(
        |k: &str| k@,
    ));
}

/// The keys that run each built-in command.
pub open spec fn spec_primary_commands() -> Map<Seq<char>, NativeCommand> {
    Map::<Seq<char>, NativeCommand>::empty()
        .insert("addcommand"@, NativeCommand::AddCustomTextCommand)
        .insert("commands"@, NativeCommand::AllCommands)
        .insert("blame"@, NativeCommand::BlameRandomUser)
        .insert("flipcoin"@, NativeCommand::Flipcoin)
        .insert("lurk"@, NativeCommand::EnterLurk)
        .insert("random"@, NativeCommand::RandomSelection)
        .insert("shoutout"@, NativeCommand::Shoutout)
        .insert("socials"@, NativeCommand::Socials)
}

/// The other keys that run built-in commands.
pub open spec fn spec_alternate_commands() -> Map<Seq<char>, NativeCommand> {
    Map::<Seq<char>, NativeCommand>::empty()
        .insert("newcommand"@, NativeCommand::AddCustomTextCommand)
        .insert("allcommands"@, NativeCommand::AllCommands)
        .insert("scapegoat"@, NativeCommand::BlameRandomUser)
        .insert("5050"@, NativeCommand::Flipcoin)
        .insert("50-50"@, NativeCommand::Flipcoin)
        .insert("afk"@, NativeCommand::EnterLurk)
        .insert("busy"@, NativeCommand::EnterLurk)
        .insert("select"@, NativeCommand::RandomSelection)
        .insert("shout"@, NativeCommand::Shoutout)
        .insert("so"@, NativeCommand::Shoutout)
        .insert("social"@, NativeCommand::Socials)
}

/// The built-in commands: by their main key, and by their other keys.
pub fn get_user_commands_including_alternates() -> (maps: (UserCommandsMap, UserCommandsMap))
    ensures
        maps.0@ == spec_primary_commands(),
        maps.1@ == spec_alternate_commands(),
{
    let mut primary = UserCommandsMap::new();
    let mut alternate = UserCommandsMap::new();
    add_default_command(&mut primary, &mut alternate, "addcommand", vec!["newcommand"], NativeCommand::AddCustomTextCommand);
    add_default_command(&mut primary, &mut alternate, "commands", vec!["allcommands"], NativeCommand::AllCommands);
    add_default_command(&mut primary, &mut alternate, "blame", vec!["scapegoat"], NativeCommand::BlameRandomUser);
    add_default_command(&mut primary, &mut alternate, "flipcoin", vec!["5050", "50-50"], NativeCommand::Flipcoin);
    add_default_command(&mut primary, &mut alternate, "lurk", vec!["afk", "busy"], NativeCommand::EnterLurk);
    add_default_command(&mut primary, &mut alternate, "random", vec!["select"], NativeCommand::RandomSelection);
    add_default_command(&mut primary, &mut alternate, "shoutout", vec!["shout", "so"], NativeCommand::Shoutout);
    add_default_command(&mut primary, &mut alternate, "socials", vec!["social"], NativeCommand::Socials);
    proof {
        reveal_with_fuel(insert_all, 3);
    }
    assert(primary@ =~= spec_primary_commands());
    assert(alternate@ =~= spec_alternate_commands());
    (primary, alternate)
}

/// Whether the first argument names a built-in command, by its main key or
/// by another key.
pub fn is_built_in_command(args: &Vec<String>) -> (r: bool)
    requires
        args.len() >= 1,
    ensures
        r == (spec_primary_commands().dom().contains(args[0]@)
            || spec_alternate_commands().dom().contains(args[0]@)),
{
    let (commands, alternate_commands) = get_user_commands_including_alternates();
    let key = ChatCommandKey::from(args[0].clone());
    commands.contains_key(&key) || alternate_commands.contains_key(&key)
}

} // verus!

verus! {

/// What `UserCommandsMap::insert` stores, `get` gives back, and every other
/// key keeps the command it had.
pub proof fn lemma_insert_then_get(
    before: Map<Seq<char>, NativeCommand>,
    key: Seq<char>,
    command: NativeCommand,
    other: Seq<char>,
)
    requires
        other != key,
    ensures
        before.insert(key, command).dom().contains(key),
        before.insert(key, command)[key] == command,
        before.insert(key, command).dom().contains(other) == before.dom().contains(other),
        before.dom().contains(other) ==> before.insert(key, command)[other] == before[other],
{
}

/// No key of a built-in command is both a main key and another key, and
/// every other key runs a command that also has a main key.
pub proof fn lemma_built_in_keys()
    ensures
        spec_primary_commands().dom().disjoint(spec_alternate_commands().dom()),
        forall|k: Seq<char>|
            #[trigger] spec_alternate_commands().dom().contains(k) ==> exists|p: Seq<char>|
                spec_primary_commands().dom().contains(p) && spec_primary_commands()[p]
                    == spec_alternate_commands()[k],
{
    reveal_strlit("addcommand");
    reveal_strlit("commands");
    reveal_strlit("blame");
    reveal_strlit("flipcoin");
    reveal_strlit("lurk");
    reveal_strlit("random");
    reveal_strlit("shoutout");
    reveal_strlit("socials");
    reveal_strlit("newcommand");
    reveal_strlit("allcommands");
    reveal_strlit("scapegoat");
    reveal_strlit("5050");
    reveal_strlit("50-50");
    reveal_strlit("afk");
    reveal_strlit("busy");
    reveal_strlit("select");
    reveal_strlit("shout");
    reveal_strlit("so");
    reveal_strlit("social");
    // every two keys differ in their length or in their first two characters
    assert("addcommand"@.len() == 10 && "addcommand"@[0] == 'a');
    assert("commands"@.len() == 8 && "commands"@[0] == 'c');
    assert("blame"@.len() == 5 && "blame"@[0] == 'b');
    assert("flipcoin"@.len() == 8 && "flipcoin"@[0] == 'f');
    assert("lurk"@.len() == 4 && "lurk"@[0] == 'l');
    assert("random"@.len() == 6 && "random"@[0] == 'r');
    assert("shoutout"@.len() == 8 && "shoutout"@[0] == 's');
    assert("socials"@.len() == 7 && "socials"@[0] == 's');
    assert("newcommand"@.len() == 10 && "newcommand"@[0] == 'n');
    assert("allcommands"@.len() == 11 && "allcommands"@[0] == 'a');
    assert("scapegoat"@.len() == 9 && "scapegoat"@[0] == 's');
    assert("5050"@.len() == 4 && "5050"@[0] == '5');
    assert("50-50"@.len() == 5 && "50-50"@[0] == '5');
    assert("afk"@.len() == 3 && "afk"@[0] == 'a');
    assert("busy"@.len() == 4 && "busy"@[0] == 'b');
    assert("select"@.len() == 6 && "select"@[0] == 's');
    assert("shout"@.len() == 5 && "shout"@[0] == 's');
    assert("so"@.len() == 2 && "so"@[0] == 's');
    assert("social"@.len() == 6 && "social"@[0] == 's');
    assert("select"@[1] == 'e' && "social"@[1] == 'o');
    let p = spec_primary_commands();
    let a = spec_alternate_commands();
    assert forall|k: Seq<char>| p.dom().contains(k) implies !a.dom().contains(k) by {
        assert(k.len() > 0 && k[0] != ' ');
    }
    assert forall|k: Seq<char>| #[trigger] a.dom().contains(k) implies exists|q: Seq<char>|
        p.dom().contains(q) && p[q] == a[k] by {
        if a[k] == NativeCommand::AddCustomTextCommand {
            assert(p.dom().contains("addcommand"@) && p["addcommand"@] == a[k]);
        } else if a[k] == NativeCommand::AllCommands {
            assert(p.dom().contains("commands"@) && p["commands"@] == a[k]);
        } else if a[k] == NativeCommand::BlameRandomUser {
            assert(p.dom().contains("blame"@) && p["blame"@] == a[k]);
        } else if a[k] == NativeCommand::Flipcoin {
            assert(p.dom().contains("flipcoin"@) && p["flipcoin"@] == a[k]);
        } else if a[k] == NativeCommand::EnterLurk {
            assert(p.dom().contains("lurk"@) && p["lurk"@] == a[k]);
        } else if a[k] == NativeCommand::RandomSelection {
            assert(p.dom().contains("random"@) && p["random"@] == a[k]);
        } else if a[k] == NativeCommand::Shoutout {
            assert(p.dom().contains("shoutout"@) && p["shoutout"@] == a[k]);
        } else {
            assert(p.dom().contains("socials"@) && p["socials"@] == a[k]);
        }
    }
}

} // verus!
