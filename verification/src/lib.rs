//! A four-sided pseudo-hologram: one video frame, copied four times around a
//! black square so that a pyramid of glass standing on the picture reflects
//! the same image on each of its faces.
//!
//! The library holds the geometry of the picture, the pixel transform and the
//! decisions of a session that redraws at a fixed rate. It performs no I/O: a
//! driver hands it what the video source reports and carries out the actions
//! that it returns.

pub mod geometry;
pub mod hologram;
pub mod processor;
pub mod session;
pub mod zones;

pub use geometry::{Geometry, GeometryError, HologramConfig, HOLOGRAM_FPS, HOLOGRAM_SIZE};
pub use processor::{Processor, ProcessorState, RenderError};
pub use session::{
    Action, Event, IntervalHandle, PseudoHologram, Session, SessionState, SourceStatus,
};
pub use zones::Zone;
