pub mod keypad;
pub mod instruction;
pub mod sprite;
pub mod state;
pub mod cpu;
mod rng;
pub mod laws;
pub mod cycle_laws;
