//! Core state and decision logic of a spatial soundscape editor: sound
//! sources ("tracks") are placed on a plane, a listener walks along
//! waypoints, and each track's controls, progress bar and looping switch
//! are small state machines whose effects the application carries out.

pub mod id;
pub mod audio_cache;
pub mod icon;
pub mod track;
pub mod soundscape;
pub mod scene;
