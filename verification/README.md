# anicli

A terminal anime browser and player launcher whose logic is verified with
Verus.

- `src/` is the verified library: episode selection and ranges, the watch
  history file, stream ranking and quality selection, the decoding of
  AllAnime responses (provider paths, encrypted source lists, provider
  links, HLS playlists), AnimeSchedule pages, AniList and AniSkip helpers,
  configuration, player command lines, and the interface's state machine
  (screens, keys, playback task events, the AniList login and lists). Work that needs the network, the
  disk, a clock or a process is handed back to the caller as plain values.
- `app/` is the program around it: the terminal, HTTP clients, files,
  processes, and the few computations on floating-point numbers.
- `tests/` exercises the library on concrete values.

The outside crates the library calls (`regex`, `sha2`, `base64`, `aes-gcm`,
`ctr`, `urlencoding`) are reached through a handful of small functions whose
contracts are stated in `src/crypto.rs`, `src/pattern.rs` and `src/web.rs`.
