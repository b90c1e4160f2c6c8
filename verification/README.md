# ps2_host

The SDL3 host backend of the PS2 recompiler runtime, split in two:

- `src/` is a Verus-verified library holding the backend's decisions:
  - `pad`: keyboard and gamepad snapshots mapped to the active-low DualShock2
    bitmask and stick bytes, and the search for a gamepad to open;
  - `audio`: the playback format, submission byte counts and queued frames;
  - `card`: memory-card addressing, range checks, reported card info, the
    save-directory choice and the table of lazily opened card files;
  - `frame`: the record of the GPU texture and upload buffer, which decides
    what to (re)create and keeps the upload buffer large enough for a frame;
  - `host`: window defaults, the wired pad port and C status flags.
- `app/` is the C ABI crate: SDL calls, file I/O, mutexes and panic guards,
  calling the library for every decision.

`tests/` exercises the library on concrete values, including an exhaustive
comparison of the integer stick mapping with the floating-point formula it
stands for.
