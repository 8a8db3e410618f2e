//! Synchronisation and pacing for a minimal media player.
//!
//! A player takes compressed packets from a demultiplexer, decodes them, and
//! hands frames to a display and samples to an audio device. This crate holds
//! what such a player decides, and none of what it touches:
//!
//! - [`pacer`] decides when a decoded video frame is shown, on a schedule that
//!   is anchored at the first frame and does not drift;
//! - [`ring`], [`clock`] and [`audio`] queue decoded samples for an audio
//!   device that pulls them at its own pace, and keep the audio clock;
//! - [`playback`] is the loop that polls for a request to quit, pulls packets
//!   and routes them, as a machine that is driven with events;
//! - [`rational`] is the arithmetic on time bases and frame rates;
//! - [`hwaccel`] names the hardware decoders to look for.
//!
//! Time is counted in nanoseconds of a monotonic clock that the caller reads.
//! Every function is verified against its contract; the contracts are stated
//! over the models that the types have as their views.

use vstd::prelude::*;

pub mod audio;
pub mod clock;
pub mod hwaccel;
pub mod pacer;
pub mod playback;
pub mod rational;
pub mod ring;
