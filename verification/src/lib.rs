//! The boundary between a chain manager and the beacon state-transition engine.
//!
//! A chain manager stores blocks and follows forks without knowing what a block means.
//! It asks this crate for three things: to apply a block to a state, to read from a
//! state what a fork choice weighs, and to tell a block and its parent by identifier.
//! The state transition itself is the work of the engine, which is reached through
//! [`engine`] alone.

pub mod engine;
pub mod identifier;
pub mod block;
pub mod state;
pub mod error;
pub mod executor;

pub use block::Block;
pub use error::Error;
pub use executor::{Executor, ValidatorIndex};
pub use identifier::Identifier;
pub use state::{State, StateExternalities};
