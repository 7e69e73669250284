# multiworld

The protocol and state logic of Mido's House Multiworld, the multiworld client
for the Ocarina of Time randomizer, as a library verified with Verus.

`src/` holds the library; every function in it carries a contract that Verus
proves:

- `frontend`, `hash_icon`, `hint_area`, `bytes`, `text`: the messages between the
  app and the game's frontends, their byte encodings, and number and word parsing.
- `everdrive`, `flashcart`: the serial and USB protocols spoken with a game on
  flashcart hardware, as state machines from packet to next state and actions.
- `plugin`: the emulator plugin's side of the link to the app (message queue,
  version handshake, read results).
- `relay`: what the app remembers of the player's game between connections, and
  what it sends to the server and the frontend.
- `admin`: admin console commands read from a Rust expression, and its prompt.
- `rando`, `dotted`: randomizer and emulator version numbers.
- `config`, `github`, `localization`, `server_error`: configuration, GitHub API
  addresses and release data, translated texts, server errors.
- `gui`, `updater`, `installer`: the decisions of the app's window, the updater
  and the installer.
- `report`: the bug reports copied when something fails.
- `login`: the sign-in handler's check of the CSRF secret.
- `release_checks`: what the release tool checks before it builds a release, its
  options, and the relabelling of issues once a release is out.

Calls into `url`, `semver` and `serenity` stand behind a few functions whose contracts are
trusted; each says which outside function it calls.

`tests/` runs the library on concrete values. `app/` is a small command-line
front: an admin console reading commands from standard input, the
configuration file, and the check of the Project64 script.
