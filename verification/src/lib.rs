//! A two-sided, round-based card battle: a player and a computer, each with
//! health, a hand and a three-slot board. Every round the boards are compared
//! column by column, and a card that faces an empty slot damages the other
//! side.
//!
//! The crate holds the simulation only; showing a match and reading the
//! pointer are left to a front end. Drawing a card and ending the round are
//! the actions that a front end requests of a match, and the phase of the
//! match decides which of them is legal.
//!
//! Every type has a mathematical value, its `View`, and every function is
//! verified against a contract over those values:
//!
//! - `card`, `deck`, `hand`, `board`, `side`, `round`: the parts of a match;
//! - `combat`: what two boards do to each other in one round;
//! - `rules`: the match as a state machine over mathematical values;
//! - `game`: the running match and the requests to it;
//! - `invariants`: proofs that the rules keep a match well formed;
//! - `laws`: what holds of every match;
//! - `ui`: how buttons react to the pointer.

pub mod board;
pub mod card;
pub mod combat;
pub mod deck;
pub mod game;
pub mod hand;
pub mod invariants;
pub mod laws;
pub mod round;
pub mod rules;
pub mod side;
pub mod ui;
