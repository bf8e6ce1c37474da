# alcomd

The verified core of the ALCOMD daemon, written in Verus.

`src/` is the library. Every function in it is verified against its
contract; the few calls into outside crates (UUIDs, SHA-256, semantic
versions, Ed25519, Unicode normalization and case mapping, UTF-8 decoding)
go through small trusted wrappers whose contracts name what the crate
returns. The library holds:

- domain values, identifiers, access contexts and exact resource scopes;
- the operation state machine, resource lock order and store error mapping;
- the registry, package, Unity, template, backup, copy, delete and Unity
  migration decisions, with the durable run machines that workers follow
  (backup, restore, copy, delete, template creation and the Unity migration
  run) and the laws they keep (checkpoints only advance, cancellation only
  before the publish intent, and so on);
- the candidate query machine, which orders every read a query makes,
  with its canonical records, fingerprint records and page windows;
- the extension install machine, and the machines that open a Portable UI
  session and dispatch an action to it;
- the official settings file format, with the proof that what
  `serialize_settings` writes `parse_settings` reads back;
- the extension host protocol bounds and frames, UI session bookkeeping,
  the UI bridge checks, and signed extension packages: entry names, the
  archive preflight, the content digest order and the signature check.

`tests/` exercises the library on concrete values. `app/` is the ordinary
Rust around it: archive and file I/O, JSON and TOML encodings, framed
streams, the settings file on disk, the asynchronous lock coordinator, the loops
that perform the effects the library's machines ask for and feed the
answers back, and the UI bridge session, whose token bucket uses floating
point.
