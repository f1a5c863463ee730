//! Decision logic of a MIFARE Classic 1K reader simulator: the command frames it sends to
//! the card, how it judges the card's answers, and the polling cycle that drives a status
//! window between yellow (waiting), green (card accepted) and red (card refused).

pub mod card;
pub mod error;
pub mod target;
pub mod reader;
pub mod window;
pub mod laws;
