# kybe_backend

The backend of kybe.xyz: a Discord bot, command and website traces in
Postgres, user accounts, notifications and a few outside services
(Cat as a service, WolframAlpha, Last.fm, a translation server, MaxMind).

- `src/` is the library, verified with Verus: the records and their text
  forms, the settings and their defaults, the bot's decisions (retries of a
  failed start, what each command answers and records in its trace), the
  request URLs of the outside services, login and registration rules, and
  the text and number handling they rest on.  Calls into outside crates
  (`uuid`, `chrono`, `argon2`, `reqwest::Url`, `urlencoding`) sit behind small
  trusted wrappers whose contracts say what the crates promise.
- `app/` is the program around it: configuration files, logging, metrics,
  the database, HTTP clients and the poise framework of the bot.
- `tests/` runs the library on concrete values.
