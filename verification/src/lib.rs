//! Game-state model for a two-phase Go-style board editor.
//!
//! A square grid of points is edited in two modes. In *setup* mode, clicking
//! a point toggles an unnumbered setup marker for the currently selected
//! player; setup placement is free and unordered. In *play* mode, clicking an
//! empty point places a numbered stone for the current player, increments the
//! move counter, and passes the turn; clicking an occupied point does
//! nothing. Clearing the recorded moves restores exactly the position that
//! was built in setup mode.
//!
//! The crate verifies the board and turn invariants: a move number is only
//! ever carried by a play stone, move numbers are exactly `1..=n` for the `n`
//! recorded moves and are assigned to distinct points, and the counter always
//! equals the number of numbered points on the board. The rendering layer
//! around this crate is expected to forward clicks and commands in, and to
//! read the state back out through the accessors.

pub mod board;
pub mod controls;
pub mod game;
pub mod laws;
