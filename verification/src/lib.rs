//! Verified core of an interactive internet-radio client.
//!
//! The playback/recording engine is modelled as an explicit state machine:
//! every decision (buffering policy, track deduplication, recording branch
//! lifecycle) is a verified function from state and input to new state,
//! emitted events and graph actions.  The surrounding program performs the
//! actions on the real media pipeline and feeds graph messages back in.

pub mod cache;
pub mod config;
pub mod navigation;
pub mod playback;
pub mod screens;
pub mod song_queue;
pub mod stations;
pub mod text;
