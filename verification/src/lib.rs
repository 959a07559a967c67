//! Live click-sound playback engine: clickpack model and event-to-sound
//! dispatch.
//!
//! The crate models a "clickpack" (a directory tree of categorized audio
//! samples), classifies button presses and releases by inter-event timing
//! into eight click strengths, chooses a sample through a deterministic
//! fallback lattice, and computes per-shot volume and pitch. Time is
//! measured in microseconds and volume/pitch in millionths, so that the
//! whole pipeline is exact integer arithmetic.
//!
//! Reading the filesystem and playing the chosen sample are left to the
//! host process, which hands the engine a plain directory-tree value and
//! receives playback commands back.

pub mod bot;
pub mod category;
pub mod click_type;
pub mod clickpack;
pub mod game;
pub mod pack;
pub mod player_clicks;
pub mod rng;
pub mod sample;
pub mod utils;
pub mod volume;

pub use bot::Bot;
pub use click_type::Button;
pub use click_type::ClickType;
pub use click_type::Timings;
pub use clickpack::Clickpack;
pub use clickpack::LoadClickpackFor;
