//! Resizing and re-encoding of raster images and animated image sequences.
//!
//! A request names a size, a mode and an encoding. The pipeline tells the
//! container of the source by its first bytes, decodes it, resolves the
//! target dimensions, resamples every frame to them and encodes the result:
//!
//! - [`dimensions`] resolves the target dimensions of a request;
//! - [`transform`] resamples one frame by the mode of the request;
//! - [`encoder`] encodes one frame;
//! - [`handler`] transcodes a still image or a sequence of frames;
//! - [`pipeline`] dispatches a source to its transcoder.
//!
//! The codecs themselves are the crates `image`, `gif` and `webp`. The
//! modules [`raster`], [`animation`], [`lossy`] and [`clock`] hold the calls
//! into them, each with the contract that the rest of the library is proved
//! against.

pub mod animation;
pub mod clock;
pub mod dimensions;
pub mod encoder;
pub mod encoding;
pub mod error;
pub mod frame;
pub mod handler;
pub mod limits;
pub mod lossy;
pub mod mode;
pub mod pipeline;
pub mod query;
pub mod raster;
pub mod transform;
