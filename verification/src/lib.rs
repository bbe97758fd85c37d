//! A football match engine: two eleven-a-side squads play one match of two
//! halves, and the engine reports each side's statistics.
//!
//! Every score, weight and probability is an exact integer in a fixed unit
//! that the function computing it documents, so that the contracts can pin
//! each result down.

pub mod action;
pub mod bounds;
pub mod carrier;
pub mod decision;
pub mod defender;
pub mod dice;
pub mod duel;
pub mod event;
pub mod field;
pub mod game;
pub mod lists;
pub mod manager;
pub mod player;
pub mod position;
pub mod sampler;
pub mod squad;
pub mod stats;
pub mod strength;
pub mod style;
pub mod tactics;
pub mod tally;
pub mod text;
pub mod touch;
