//! Control logic of a car-stereo audio daemon: source selection, the
//! shairport-sync metadata reader, source activity detection, the control
//! client's key handling and the shared counters of the audio statistics.

pub mod source;
pub mod text;
pub mod metadata;
pub mod track;
pub mod item_format;
pub mod metadata_laws;
pub mod activity;
pub mod playback;
pub mod protocol;
pub mod control;
pub mod display;
pub mod settings;
pub mod stats;
pub mod capture;
