//! Simulation core of a grid snake game: a player-steered snake moves on a
//! bounded board, grows by eating food, collects timed power-ups (speed
//! boost and shield), and dies on walls or on its own body unless shielded.
//! All timing is in integer milliseconds; every state transition is stated
//! and proved against a mathematical model of the game state.

pub mod direction;
pub mod game;
pub mod rng;
pub mod snake;
