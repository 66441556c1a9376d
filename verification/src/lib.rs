//! Core of a terminal satellite tracker: maps ground positions onto a fixed
//! ASCII raster, keeps a bounded trail of visited cells, renders and annotates
//! frames, and drives the periodic live-tracking session as a state machine.

pub mod annotate;
pub mod catalog;
pub mod errors;
pub mod grid;
pub mod menu;
pub mod raster;
pub mod style;
pub mod track;
pub mod trail;
