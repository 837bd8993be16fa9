//! Decision logic of the Satisfactory start-location optimizer.

pub mod cli;
pub mod data_loader;
pub mod models;
pub mod names;
pub mod optimizer;
pub mod presets;
pub mod sectors;
pub mod server;
pub mod simulation;
pub mod spatial;
pub mod text;
pub mod weights;
