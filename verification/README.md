# kyber_launcher

The decision logic of the Kyber launcher's native side, verified with Verus.

- `src/` — the verified library:
  - `env_block` — decoding a Windows environment block (UTF-16LE, NUL
    separated) and keeping the launcher-related variables;
  - `lan_pid` — picking the real game process after a LAN launch and
    accepting it once two consecutive scans agree;
  - `lsx` — filtering LSX events (challenge responses, requests of a process);
  - `login` — reading a login override (`persona:password` or a token);
  - `game` — library lookups, ownership, installation and launch mode;
  - `player` — service-layer players and the records shown to the UI;
  - `injection_env` — the environment forwarded to an injected game;
  - `error`, `text` — error messages and string helpers.
- `app/` — the I/O around it: the Flutter-facing async API over the Maxima
  core, and the environment dump tool.
- `tests/` — tests of the library on concrete values.
