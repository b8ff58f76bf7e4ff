# app_locker

A Windows application locker. Locked executables are redirected through Image File
Execution Options (IFEO) to an interceptor that asks for a master password; a Windows
service checks the password (Argon2id) over a named pipe and unlocks the executable
for a few seconds.

## Layout

- `src/` — the verified library (Verus):
  - `text` — trimming, lower-casing and substring search on strings;
  - `password` — Argon2id hashing and checking, through the `argon2` crate;
  - `config` — the configuration, its cleaning and its loading (with migration of
    plain-text passwords);
  - `cli` — choosing the mode from the command line;
  - `ifeo` — which registry entries lock an executable, and which to clean up;
  - `ipc` — the service's answer to each pipe request, with the 30-second approval
    window after an unlock;
  - `interceptor` — the unlock request as a state machine (start the service if
    needed, retry once);
  - `panel` — editing the list of locked applications and changing the password;
  - `service`, `process` — the Service Control Manager and process operations as
    protocols: the library says which system call comes next and what the
    outcomes mean.
- `app/` — the executable around it: files, logging, the registry, the Service Control
  Manager, processes, the named pipe and the console front ends.
- `tests/` — tests of the library.

Run as `app_locker --service`, `app_locker --interceptor <path> [args...]`, or with no
arguments for the management panel.
