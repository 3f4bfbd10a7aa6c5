//! An interactive grid of cells for a terminal.
//!
//! A pointer event switches a cell on, a timer switches it off again, and once
//! per frame the grid is turned into the text writes that draw it inside a
//! border. The crate holds the rules; the caller owns the terminal and the
//! clock, and hands over events and timestamps as plain values.

pub mod book;
pub mod cell;
pub mod dispatch;
pub mod draw;
pub mod event;
pub mod geometry;
pub mod model;
