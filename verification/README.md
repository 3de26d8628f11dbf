# fight_bot

A Discord bot that settles fights between the members of a channel. A member
challenges another by mentioning them; the house champion wins every fight it
takes part in, chance settles the others, and the outcome is posted in the
channel as a finisher that names both fighters.

- `src/` is the library, verified with Verus: the message types, the fight
  context's steps, the fight adapter's decisions, the chat adapters' requests,
  and which chat messages start a fight.
- `app/` runs the bot: the actor system, the Discord gateway and HTTP calls, and
  reading `env.toml`.
- `tests/` exercises the library.
