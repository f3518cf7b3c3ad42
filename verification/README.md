# youmubot

The decisions and reply texts of youmubot's osu! commands and of its command
framework, as a Verus library:

- `args`: which player a command is about; the listing style.
- `ranking`: ordering plays by a key, largest first (the `top` listing), with
  laws that the order does not depend on the order the plays arrived in.
- `listing`: which play of a `top`/`recent`/`pinned` listing to show, its
  number, its embed marks and the reply.
- `beatmap`: the `beatmap` command as a machine driven by its caller, with
  proved laws about mode overrides, beatmapset requests and termination.
- `replies`: the `profile`, `save` and `forcesave` texts.
- `errors`: the errors the commands answer with.
- `framework`: prefix, delimiters and the framework's log lines and replies.
- `discord`: the two formatting calls taken from serenity (user mentions and
  `push_bold_safe`), with serenity's text normalization stated as a spec.
- `decimal`: decimal notation of integers.

`app/main.rs` is the bot executable: it reads the token, configures serenity's
standard framework with the library's settings and hooks, and runs the client.
