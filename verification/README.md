# redbookmaster

Red Book CD mastering: an album and track model with Red Book validation,
ISRC and MCN codes, CD frame timing, WAV format checks, conversion and
concatenation planning, cdrdao command planning and output parsing, the
checks before an export, the steps of the add-tracks and burn wizards, the
playback keys and clock of the command-line preview, and the state machine of
the preview player.

- `src/` is the library, verified with Verus. Each public function states what
  it returns in its contract; laws that relate several calls are public proof
  functions (`law_*` in `add_tracks.rs`, `album.rs`, `burn.rs`, `engine.rs`
  and `metadata.rs`, `lemma_frames_*` in `track.rs`).
- `tests/` runs the library on concrete values.
- `app/` is the command-line program around it: prompts, files, processes,
  the clock, audio output through rodio and sample arithmetic through hound
  and rubato. It carries out what the add-tracks wizard
  (`add_tracks::add_step`), the burn wizard (`burn::burn_step`) and the
  playback step (`playback::playback_step`) decide, one event at a time.

Not included: the graphical editor. With it go its waveform cache (which keeps
the 20 most recently used waveforms and evicts the least recently used) and
its auto-save, which writes the project one second after the last edit. Its
two list rules (where a dropped track lands, and which row stays selected
after a removal) are in `src/track_list.rs`. Writing CUE sheets and TOC files
is not included either: the export plans their names, and the command-line
export reports that no writer is available.
