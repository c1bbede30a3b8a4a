pub mod book;
pub mod chain;
pub mod error;
pub mod instruction;
pub mod laws;
pub mod market;
pub mod processor;
pub mod state;
pub mod trader;
pub mod wire;
