pub mod config;
pub mod particle;
pub mod coordinator;
pub mod runner;
pub mod training;
