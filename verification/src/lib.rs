pub mod builtins;
pub mod endpoints;
pub mod engine;
pub mod history;
pub mod interrupt;
pub mod jobs;
pub mod stage;
pub mod tokenize;
