# mp3cd

The verified core of the MP3 CD Burner window: the folder list and the state
around it (ISO image, bitrate, volume label, unsaved changes), the track
editor, the dialogs (volume label, bitrate override, display settings), the
status bar and the burn progress window, and the logic of saving and loading
burn profiles.

- `src/` is the library, written in Verus. Each public function states in its
  contract what it returns and how it changes its arguments; `list_laws.rs`
  and the proof functions beside the operations hold the properties that span
  several calls (moving folders keeps the totals, a toggle undone restores the
  state, and so on).
- `tests/` runs the library on concrete values.
- `app/` holds what only the machine can do: clocks, the documents directory,
  walking directories, background threads for scanning, loading profiles,
  building the ISO and burning, and the channels through which those threads,
  the encoder, the track editor and the dialogs report. Scanning audio files,
  reading profiles and the encoder itself are passed in by the caller.
