//! What a chat session sends and how it cuts up what it receives; the
//! socket itself is driven by the program around the library.

use crate::oauth::OauthToken;
use crate::text::{chars_of, string_of};
use crate::user::UserLogin;
use vstd::prelude::*;

verus! {

/// What the token line starts with.
pub const IRC_TOKEN_PREFIX: &'static str = "PASS oauth:";

/// What the login line starts with.
pub const IRC_USERNAME_PREFIX: &'static str = "NICK ";

/// What a join line starts with.
pub const JOIN_PREFIX: &'static str = "JOIN #";

/// Twitch's IRC server over a web socket.
pub const TWITCH_IRC_URL: &'static str = "ws://irc-ws.chat.twitch.tv:80";

/// The two lines that sign the bot in: its token, then its login.
pub fn authentication_lines(token: &OauthToken, login: &UserLogin) -> (lines: (String, String))
    ensures
        lines.0@ == IRC_TOKEN_PREFIX@ + token.spec_signature(),
        lines.1@ == IRC_USERNAME_PREFIX@ + login@,
{
    let mut pass = String::from_str(IRC_TOKEN_PREFIX);
    pass.append(token.get_oauth_signature().get_value().as_str());
    let mut nick = String::from_str(IRC_USERNAME_PREFIX);
    nick.append(login.as_str());
    (pass, nick)
}

/// The line that joins the chat of `channel`.
pub fn join_chat_channel_line(channel: &UserLogin) -> (line: String)
    ensures
        line@ == JOIN_PREFIX@ + channel@,
{
    let mut line = String::from_str(JOIN_PREFIX);
    line.append(channel.as_str());
    line
}

/// `s` cut at every `"\r\n"`, as `str::split("\r\n")` cuts it.
pub open spec fn split_crlf(s: Seq<char>) -> Seq<Seq<char>>
    decreases s.len(),
{
    if s.len() == 0 {
        seq![Seq::<char>::empty()]
    } else {
        let init = split_crlf(s.drop_last());
        let current = init.last();
        if s.last() == '\n' && current.len() > 0 && current.last() == '\r' {
            init.update(init.len() - 1, current.drop_last()).push(Seq::<char>::empty())
        } else {
            init.update(init.len() - 1, current.push(s.last()))
        }
    }
}

proof fn lemma_split_crlf_len(s: Seq<char>)
    ensures
        split_crlf(s).len() >= 1,
    decreases s.len(),
{
    if s.len() > 0 {
        lemma_split_crlf_len(s.drop_last());
    }
}

/// The non-empty pieces of `pieces`, in order.
pub open spec fn non_empty(pieces: Seq<Seq<char>>) -> Seq<Seq<char>>
    decreases pieces.len(),
{
    if pieces.len() == 0 {
        Seq::empty()
    } else if pieces.last().len() == 0 {
        non_empty(pieces.drop_last())
    } else {
        non_empty(pieces.drop_last()).push(pieces.last())
    }
}

/// The lines of what the socket received: the non-empty pieces between
/// `"\r\n"`s.
pub open spec fn received_lines(data: Seq<char>) -> Seq<Seq<char>> {
    non_empty(split_crlf(data))
}

proof fn lemma_non_empty_push(pieces: Seq<Seq<char>>, p: Seq<char>)
    ensures
        non_empty(pieces.push(p)) == (if p.len() == 0 {
            non_empty(pieces)
        } else {
            non_empty(pieces).push(p)
        }),
{
    assert(pieces.push(p).drop_last() =~= pieces);
}

/// The lines of what the socket received, in order, empty ones left out.
pub fn register_received_data(received_data: &str) -> (lines: Vec<String>)
    ensures
        lines.deep_view() == received_lines(received_data@),
{
    let s = chars_of(received_data);
    let mut lines: Vec<String> = Vec::new();
    let mut current: Vec<char> = Vec::new();
    let mut i: usize = 0;
    while i < s.len()
        invariant
            i <= s.len(),
            split_crlf(s@.take(i as int)).len() >= 1,
            split_crlf(s@.take(i as int)).last() == current@,
            lines.deep_view() == non_empty(split_crlf(s@.take(i as int)).drop_last()),
        decreases s.len() - i,
    {
        let ghost prev = split_crlf(s@.take(i as int));
        assert(s@.take(i + 1).drop_last() =~= s@.take(i as int));
        let c = s[i];
        if c == '\n' && current.len() > 0 && current[current.len() - 1] == '\r' {
            current.pop();
            let ghost done = current@;
            if current.len() > 0 {
                let ghost before = lines.deep_view();
                lines.push(string_of(&current));
                assert(lines.deep_view() =~= before.push(done));
            }
            current = Vec::new();
            let ghost next = prev.update(prev.len() - 1, done).push(Seq::<char>::empty());
            assert(split_crlf(s@.take(i + 1)) == next);
            assert(next.drop_last() =~= prev.drop_last().push(done));
            proof {
                lemma_non_empty_push(prev.drop_last(), done);
            }
        } else {
            current.push(c);
            assert(split_crlf(s@.take(i + 1)).drop_last() =~= prev.drop_last());
        }
        i = i + 1;
    }
    assert(s@.take(i as int) =~= s@);
    let ghost all = split_crlf(s@);
    assert(all =~= all.drop_last().push(current@));
    proof {
        lemma_non_empty_push(all.drop_last(), current@);
    }
    if current.len() > 0 {
        let ghost before = lines.deep_view();
        let ghost cur = current@;
        lines.push(string_of(&current));
        assert(lines.deep_view() =~= before.push(cur));
    }
    lines
}

/// `s` holds `pattern` somewhere.
pub open spec fn contains_text(s: Seq<char>, pattern: Seq<char>) -> bool {
    exists|i: int| 0 <= i && i + pattern.len() <= s.len() && #[trigger] s.subrange(i, i + pattern.len()) == pattern
}

/// Whether `s` holds `pattern` somewhere.
pub fn contains(s: &Vec<char>, pattern: &Vec<char>) -> (r: bool)
    ensures
        r == contains_text(s@, pattern@),
{
    if pattern.len() > s.len() {
        return false;
    }
    let mut i: usize = 0;
    while i <= s.len() - pattern.len()
        invariant
            pattern.len() <= s.len(),
            i <= s.len() - pattern.len() + 1,
            forall|k: int| 0 <= k < i ==> #[trigger] s@.subrange(k, k + pattern.len()) != pattern@,
        decreases s.len() - i,
    {
        let mut j: usize = 0;
        let mut same = true;
        while j < pattern.len()
            invariant
                i + pattern.len() <= s.len(),
                j <= pattern.len(),
                same == (forall|k: int| 0 <= k < j ==> s@[i + k] == pattern@[k]),
            decreases pattern.len() - j,
        {
            if s[i + j] != pattern[j] {
                same = false;
            }
            j = j + 1;
        }
        if same {
            assert(s@.subrange(i as int, i + pattern.len()) =~= pattern@);
            return true;
        }
        assert(s@.subrange(i as int, i + pattern.len()) != pattern@) by {
            let k = choose|k: int| 0 <= k < pattern.len() && s@[i + k] != pattern@[k];
            assert(s@.subrange(i as int, i + pattern.len())[k] != pattern@[k]);
        }
        i = i + 1;
    }
    assert forall|k: int| 0 <= k && k + pattern@.len() <= s@.len() implies #[trigger] s@.subrange(k, k + pattern@.len()) != pattern@ by {
        assert(k < i);
    }
    false
}

/// Whether a line carries a secret (a token) and must not be echoed.
pub fn is_secret_line(line: &str) -> (r: bool)
    ensures
        r == (contains_text(line@, "PASS"@) || contains_text(line@, "auth_token:"@)),
{
    let s = chars_of(line);
    contains(&s, &chars_of("PASS")) || contains(&s, &chars_of("auth_token:"))
}

} // verus!

verus! {

/// `lines`, each followed by `"\r\n"`, as the IRC server sends them.
pub open spec fn crlf_framed(lines: Seq<Seq<char>>) -> Seq<char>
    decreases lines.len(),
{
    if lines.len() == 0 {
        Seq::empty()
    } else {
        crlf_framed(lines.drop_last()) + lines.last() + seq!['\r', '\n']
    }
}

/// `s` holds no `"\r\n"`.
pub open spec fn lacks_crlf(s: Seq<char>) -> bool {
    forall|i: int| 0 <= i < s.len() - 1 ==> !(s[i] == '\r' && #[trigger] s[i + 1] == '\n')
}

proof fn lemma_split_crlf_without(s: Seq<char>)
    requires
        lacks_crlf(s),
    ensures
        split_crlf(s) == seq![s],
    decreases s.len(),
{
    if s.len() == 0 {
        assert(s =~= Seq::<char>::empty());
    } else {
        let t = s.drop_last();
        assert(lacks_crlf(t)) by {
            assert forall|i: int| 0 <= i < t.len() - 1 implies !(t[i] == '\r' && #[trigger] t[i + 1]
                == '\n') by {
                assert(t[i] == s[i] && t[i + 1] == s[i + 1]);
            }
        }
        lemma_split_crlf_without(t);
        if t.len() > 0 {
            let j = s.len() - 2;
            assert(!(s[j] == '\r' && s[j + 1] == '\n'));
            assert(t.last() == s[j]);
        }
        assert(t.push(s.last()) =~= s);
        assert(seq![t].update(0, t.push(s.last())) =~= seq![s]);
    }
}

proof fn lemma_split_crlf_at(x: Seq<char>, y: Seq<char>)
    ensures
        split_crlf(x + seq!['\r', '\n'] + y) == split_crlf(x) + split_crlf(y),
    decreases y.len(),
{
    lemma_split_crlf_len(x);
    let s = x + seq!['\r', '\n'] + y;
    if y.len() == 0 {
        let xr = x.push('\r');
        assert(s.drop_last() =~= xr);
        assert(xr.drop_last() =~= x);
        let a = split_crlf(x);
        let init = a.update(a.len() - 1, a.last().push('\r'));
        assert(split_crlf(xr) == init);
        assert(init.last().drop_last() =~= a.last());
        assert(init.update(init.len() - 1, init.last().drop_last()).push(Seq::<char>::empty())
            =~= a + seq![Seq::<char>::empty()]);
    } else {
        let yl = y.drop_last();
        lemma_split_crlf_at(x, yl);
        lemma_split_crlf_len(yl);
        assert(s.drop_last() =~= x + seq!['\r', '\n'] + yl);
        assert(s.last() == y.last());
        let a = split_crlf(x);
        let b = split_crlf(yl);
        assert((a + b).last() == b.last());
        let c = y.last();
        if c == '\n' && b.last().len() > 0 && b.last().last() == '\r' {
            assert((a + b).update((a + b).len() - 1, b.last().drop_last()).push(Seq::<char>::empty())
                =~= a + b.update(b.len() - 1, b.last().drop_last()).push(Seq::<char>::empty()));
        } else {
            assert((a + b).update((a + b).len() - 1, b.last().push(c)) =~= a + b.update(
                b.len() - 1,
                b.last().push(c),
            ));
        }
    }
}

proof fn lemma_split_crlf_framed(lines: Seq<Seq<char>>, y: Seq<char>)
    requires
        forall|i: int| 0 <= i < lines.len() ==> lacks_crlf(#[trigger] lines[i]),
    ensures
        split_crlf(crlf_framed(lines) + y) == lines + split_crlf(y),
    decreases lines.len(),
{
    if lines.len() == 0 {
        assert(crlf_framed(lines) + y =~= y);
        assert(lines + split_crlf(y) =~= split_crlf(y));
    } else {
        let init = lines.drop_last();
        let last = lines.last();
        assert(lacks_crlf(lines[lines.len() - 1]));
        lemma_split_crlf_framed(init, last);
        lemma_split_crlf_without(last);
        assert(crlf_framed(lines) + y =~= (crlf_framed(init) + last) + seq!['\r', '\n'] + y);
        lemma_split_crlf_at(crlf_framed(init) + last, y);
        assert(init + seq![last] + split_crlf(y) =~= lines + split_crlf(y));
    }
}

proof fn lemma_non_empty_all(pieces: Seq<Seq<char>>)
    requires
        forall|i: int| 0 <= i < pieces.len() ==> (#[trigger] pieces[i]).len() > 0,
    ensures
        non_empty(pieces) == pieces,
    decreases pieces.len(),
{
    if pieces.len() > 0 {
        lemma_non_empty_all(pieces.drop_last());
        assert(pieces[pieces.len() - 1].len() > 0);
        assert(pieces.drop_last().push(pieces.last()) =~= pieces);
    } else {
        assert(pieces =~= Seq::<Seq<char>>::empty());
    }
}

/// Non-empty lines without `"\r\n"` inside, each sent with `"\r\n"` after
/// it, are registered as those lines, in order.
pub proof fn lemma_framed_lines_received(lines: Seq<Seq<char>>)
    requires
        forall|i: int| 0 <= i < lines.len() ==> (#[trigger] lines[i]).len() > 0 && lacks_crlf(lines[i]),
    ensures
        received_lines(crlf_framed(lines)) == lines,
{
    lemma_split_crlf_framed(lines, Seq::empty());
    assert(crlf_framed(lines) + Seq::<char>::empty() =~= crlf_framed(lines));
    let pieces = lines + seq![Seq::<char>::empty()];
    assert(split_crlf(crlf_framed(lines)) =~= pieces);
    assert(pieces.drop_last() =~= lines);
    lemma_non_empty_all(lines);
}

} // verus!
