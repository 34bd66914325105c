# euphonica

The decisions behind Euphonica, a graphical client for the Music Player Daemon,
as a verified library. What the widgets, the metadata providers and the
visualiser decide or compute on plain values is written here in Verus, with
contracts that are proved; windows, sockets, threads and floating-point numbers
are left to the application around it.

## Layout

- `src/` is the library.
  - `text`, `dates`, `paths`, `collections`, `common`: texts and their order,
    dates as they are written and read, file URIs, hash tables, and songs, albums
    and artists as they are tagged.
  - `meta_providers/`: merging what several services know, asking them in turn
    with retries, and what to send to and make of the answers of Last.fm, LRCLIB
    and MusicBrainz.
  - `library/`: queueing and playlists as commands to the server, the sections of
    an artist's discography, folders and their history, the editing of playlists
    with undo and redo, metadata editors and their backup, sorting, searching,
    selections and tags.
  - `player/`: lyrics, outputs, the volume knob, the seek bar, the queue, the
    turning cover, and the sample buffers of the visualiser.
  - `onboarding/`: the window of the first start.
- `tests/` runs the library on concrete values.
- `app/` is the application around it: HTTP, threads, files, sound and widgets.
  The widgets need GTK 4 and libadwaita, the visualiser needs PipeWire.

Functions of other crates that the library calls stand behind small wrappers,
each with a comment on what is taken for granted about it.
