//! A session layer for the x264 video compression engine.
//!
//! The crate holds the part of a session that decides: which pixel-plane
//! layouts are sound for a format, which configuration a builder has
//! accumulated, and how an open session moves through submitting frames,
//! draining the engine's buffered output and releasing its handle. The engine
//! itself is driven by the caller, who hands its answers back as plain values.

pub mod colorspace;
pub mod encoder;
pub mod error;
pub mod image;
pub mod setup;

pub use crate::colorspace::{Colorspace, Encoding, Modifier};
pub use crate::encoder::{Data, Encoder, Flush, Frame, Geometry, Picture, Reply, Stage};
pub use crate::error::Error;
pub use crate::image::{FrameType, Image, Plane, RawImage};
pub use crate::setup::{
    fast_decode_name, zero_latency_name, Base, Directive, Parameters, Preset, Profile, RateControl,
    Setup, Tune,
};
