# rdp_man

The core of an RDP connection manager, verified with Verus.

- `src/` is the verified library: connection records and lookups (`db`),
  address text (`text`), server probe results (`health`), the session table
  shared by both session managers (`registry`), external-client sessions and
  their command lines (`rdp`), embedded sessions with input encoding and loop
  decisions (`ironrdp_session`), and framebuffer updates (`framebuffer`).
- `app/` is the desktop application around it: SQLite storage, TCP probes,
  client processes, the ironrdp connection thread, the clipboard backend and
  the Tauri commands.
- `tests/` runs the library on concrete values.
