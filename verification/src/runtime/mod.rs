pub mod metrics;
pub mod executor;
pub mod state;
pub mod outcome;
pub mod reactor;
pub mod context;
