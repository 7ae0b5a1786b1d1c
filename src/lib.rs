//! Control-surface driver core: toggle flags, knob and filter state, a
//! model of the three playback queues, and the router that turns hardware
//! or remote input into state changes plus effects for the audio and LED
//! side to carry out.
//!
//! - `toggle_states`: the packed set of toggle flags.
//! - `knob`: encoder ticks and the per-knob value table.
//! - `filter`: per-channel cutoff percentage and the cutoff it maps to.
//! - `queue`: the playback-queue model and its volume and track operations.
//! - `playlist`: tracks, playlists and their sync with a queue.
//! - `runtime`: settings and the state snapshot shared with the front end.
//! - `controls`: control-surface inputs and the keyboard's key layout.
//! - `music_state`: the handlers' state and what each input does to it.
//! - `pad_handler`, `keyboard_handler`: the input routers.
//! - `relay`: commands from the front end.
//! - `explorer`: album folder names and pad labels.
//! - `player_status`: the audio player's flags, progress and view.
//! - `text`: time and prefix formatting.
//! - `effect`: the effects handed to the outside.

pub mod effect;
pub mod toggle_states;
pub mod knob;
pub mod filter;
pub mod queue;
pub mod text;
pub mod playlist;
pub mod runtime;
pub mod controls;
pub mod music_state;
pub mod pad_handler;
pub mod explorer;
pub mod keyboard_handler;
pub mod relay;
pub mod player_status;
