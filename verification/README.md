# coffret_device

What one device keeps for a coffret Library, and the decisions keeping it
takes, written in Verus and proved against its contracts.

- `src/` is the library. Every function in it is verified, but for three
  one-call wrappers around the standard library (`quoted`, `push_char`,
  `is_file`), whose contracts are trusted. It holds where a Library's
  directory and files are (`library_dir`), what a settings document is
  believed to say (`device_settings`), which place names which Library
  (`library_id`, `join`), the order a join and an opening run their steps in
  (`join_flow`, `open_flow`), which folder stands for which part of the
  Library and what a mapped root's marker means (`mapping`, `root_marker`),
  what a run still has to report (`finding`, `findings`), which Entry Paths
  a server is fetching (`entry_fetches`), and what every failure says to a
  person and to a diagnostic event (`error`). The laws the library keeps are
  public proof functions beside the code they are about, named `lemma_…`.
- `app/` is the shell around it: the environment, the settings file as JSON,
  owner-only writes, the descent into a mapped root with `rustix`, the
  per-Entry gates with `tokio`, and the loops that drive a join and an opening
  through whatever reaches Storage.
- `tests/` runs the library on concrete values.
