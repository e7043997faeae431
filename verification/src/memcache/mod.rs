pub mod cli;
pub mod decimal;
pub mod error;
pub mod history;
pub mod laws;
pub mod model;
pub mod record;
pub mod sequencer;
pub mod storage;
pub mod store;
pub mod timer;
