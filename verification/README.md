# navrs

A terminal music player for Subsonic servers.

- `src/` is the library, verified with Verus: the play queue and its cursor,
  the provider's moves through the queue, the playback buffer, the keyboard
  handling of every tab, the library browser's sorting and filtering, the
  texts the screen shows, the worker's decisions, the configuration defaults
  and the in-memory log.
- `app/` is the program around it: the terminal, sound output and decoding,
  the Subsonic client, the sample cache, desktop notifications and the MPRIS
  media controls.
- `tests/` runs the library on concrete values.
