//! An application container for an entity-component-system engine.
//!
//! The container owns the engine's world and schedule together with a
//! replaceable run strategy. `App::update` advances it by one tick;
//! `App::run` hands it to the strategy, once and for good.

pub mod builder;
pub mod container;
pub mod engine;
pub mod laws;
pub mod strategy;

pub use builder::AppBuilder;
pub use container::{App, AppExit};
pub use strategy::{run_once, FnStrategy, RunOnce, RunStrategy};
