//! Composition and effect resolution for a bar-crafting narrative game:
//! a bounded glass accumulates ingredients, a classifier names the finished
//! drink, and its ingredients are converted into clamped mood intensities
//! that the dialogue layer reads as named variables.
pub mod ingredient;
pub mod weights;
pub mod tables;
pub mod glass;
pub mod drinks;
pub mod effects;
pub mod registry;
pub mod session;
pub mod intel;
pub mod patrons;
pub mod nodes;
pub mod flow;
pub mod customers;
