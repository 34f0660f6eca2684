# amberol

The logic of the Amberol music player as a verified library.

- `src/` holds the library, verified with Verus: the playback state machine
  and seeking (`player_backend`), the `m:ss / m:ss` time label
  (`time_format`), the scrolling label's sizes and bounce (`marquee_label`),
  queue rows (`queue_row`), folder loading order (`folder`), and the settings
  schema id and cover palettes (`utils`, which calls `color-thief`).
- `app/` holds the GTK widgets and the GStreamer pipeline that perform what
  the library decides.
- `tests/` exercises the library on concrete values.
