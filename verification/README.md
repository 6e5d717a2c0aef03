# twitch_chat_bot

The logic of a Twitch chat bot, verified with Verus.

- `src/irc_chat/` reads the lines of Twitch's IRC server (PING, numbered
  replies, chat messages, joins), turns chat messages that start with `!`
  into command requests, and builds the bot's answers (`!shoutout`,
  `!socials`, `!lurk`, `!flipcoin`, `!blame`, `!random`, `!commands`,
  `!addcommand`). It also cuts what the socket receives into lines and reads
  channel-points events.
- `src/irc/` holds commands around a reply context that knows the bot's
  account (each queues its reply in it), and the PubSub reader.
- `src/json/` is the JSON crawler that reads Twitch's web answers:
  `crawl_json` follows a grammar of the documents it reads. Beside it stand
  the stacks of objects, names and values of a reader that goes character
  by character, and what a closing brace does to them.
- `src/credentials/`, `src/oauth.rs`, `src/user.rs` hold the bot's
  identities, tokens and the scopes it asks for.
- `app/` is the program around the library: the web socket, the HTTP
  requests, the console and the browser.

Verify with Verus; `tests/` holds the tests that run the library.
