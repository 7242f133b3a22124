# StarPlatform HUD

A transparent, click-through overlay for a game, and the verified core that decides what it does.

- `src/` is the library, written in Verus. The overlay's decisions stand here with contracts: which
  key fires which action, when the window shows and takes clicks, what a local tool may relay, where
  the bearer token may go, what the media session and the profile show.
- `app/` is the program around it: windows, sockets, the keyring, files, the JSON of the wire types,
  and what is done in floating point, such as whether the pointer is over a panel.
- `tests/` runs the library.

| Module | Decides |
|---|---|
| `protocol` | the wire types, and what a message says |
| `pairing` | who may reach the local API, and its token |
| `local_api` | what a local tool may ask for, and the board it is shown |
| `local_link` | one tool's connection: requests, replies, the op to join |
| `hotkeys` | which combos are legal and what a keystroke fires |
| `hotkey_queue` | presses on their way to the overlay; the life of the keyboard hook |
| `overlay` | modes, visibility, and the acts on the window in their order |
| `tray` | the tray menu |
| `smtc` | the media session |
| `rich_presence` | the card on the member's profile |
| `server` | URLs of the server, and the origin the token is bound to |
| `session` | what the server's answers mean; the life of the member socket |
| `config` | preferences, and which of them are accepted |
| `comms` | messages with a channel id |
| `base64` | cover art as a `data:` URI |
| `text` | string operations over characters |

Laws that span functions are public proof functions named `law_...`, each next to what it speaks of.
