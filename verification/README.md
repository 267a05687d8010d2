# ruddy

A small render farm: a controller that hands out worker machines and keeps
websocket listeners informed, and workers that run Blender and report the
render time of every frame.

- `src/` — the verified library: Blender output parsing and progress
  tracking, the update stream, the worker and coordinator state machines,
  websocket command handling, DigitalOcean request building, decimal text.
- `tests/` — tests of the library.
- `app/` — the processes around it (`controller`, `worker`, `provision`):
  actix actors, HTTP and websocket servers, the Blender child process and
  the DigitalOcean HTTP calls.

The processes run as `ruddy-app controller`, `ruddy-app worker` and
`ruddy-app provision` (one program with a role argument).
