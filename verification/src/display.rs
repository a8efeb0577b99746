//! Presentation-side computations.

pub mod formatter;
