//! Red Book CD mastering: album and track model, metadata codes, CD timing,
//! WAV format checks, cdrdao command planning, the steps of the add-tracks and burn
//! wizards, the checks before an export, and the preview player's state machine.

pub mod add_tracks;
pub mod album;
pub mod burn;
pub mod cdrdao;
pub mod clock;
pub mod concat;
pub mod convert;
pub mod engine;
pub mod export;
pub mod metadata;
pub mod paths;
pub mod playback;
pub mod project;
pub mod scan;
pub mod text;
pub mod time;
pub mod title;
pub mod track;
pub mod track_list;
pub mod wav;

use vstd::prelude::*;

verus! {

} // verus!
