# tsukimi pages

The home and movie pages of a GTK client for media servers.

- `src/` is the verified library (Verus). `network` holds the records the
  server sends; `home` lays out the library row, the "latest" shelves and
  what opening a shelf item does; `movie` lays out a movie's backdrop names,
  media sources and streams, links and cast; `text` writes decimal numerals
  and wraps the byte-size formatting of `bytefmt` and `str::to_uppercase`.
- `app/` is the GTK side: the widgets, the requests on the tokio runtime, and
  the signal handlers. It builds its widgets from what the library computes.
  The server requests and image widgets come from the surrounding
  application through `app/backend.rs`.
- `tests/` runs the library on concrete values.
