//! Evolutionary training of small chess policies: board encoding, move
//! selection, breeding plans, tournament bookkeeping and the champion ledger.
pub mod rules;
pub mod nn;
pub mod random;
pub mod genome;
pub mod player;
pub mod scores;
pub mod arena;
pub mod text;
pub mod ledger;
pub mod cli;
pub mod ui;
pub mod sums;
