# rusant

The decisions of the Rusant video-call client, verified with Verus.

- `src/` is the verified library: the call session that the call adapter's callbacks
  share (`call`), the call pane, contacts and contact list, main window and port pool
  models, text helpers (decimal text, `i32` parsing, splitting at `:`, search), the
  libsodium generic hash, and the small property holders of the feed views.
- `app/` is the GTK application around it: the window's widgets, the call adapter's C
  callbacks, the GStreamer pipelines and the saved contacts. It keeps the library's state
  and shows it.
- `tests/` exercise the library.
