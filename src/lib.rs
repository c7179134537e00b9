//! Compilation orchestration for Source-engine map compilers: placeholder resolution, command
//! lines of compiler steps, the per-map step pipeline, and the bounded-concurrency batch that
//! runs it over many maps, as state machines whose outside work the caller performs.

pub mod app;
pub mod compilers;
pub mod config;
pub mod pipeline;
pub mod placeholders;
pub mod runner;
pub mod session;
pub mod settings;
pub mod step;
pub mod text;
pub mod types;
