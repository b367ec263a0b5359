//! A letter-substitution cipher engine in the style of the historical
//! Enigma machine — a fixed stack of rotor permutations through which a
//! letter passes forward and then back in reverse order — together with
//! the state of a small split-pane editor that shows typed text beside
//! its encrypted counterpart.

pub mod app;
pub mod enigma;
