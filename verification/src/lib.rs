//! Core of a circular colour picker: the bounded history of saved colours,
//! the colour value with its textual renderings, and the closed gradient
//! that the ring is painted with.

pub mod colors;
pub mod queue;
pub mod text;
