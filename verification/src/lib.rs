//! A pass-through writer that counts and keeps every byte its sink accepts.
//!
//! [`LengthTrackingWriter`] stands in front of a [`Sink`]. Every write and
//! flush goes on to that sink unchanged; of every write the writer keeps the
//! part that the sink took, so that the caller can ask at any time how many
//! bytes went out and which.

pub mod history;
pub mod sink;
pub mod writer;

pub use sink::Sink;
pub use writer::LengthTrackingWriter;
