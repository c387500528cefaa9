//! Coroutines for Bevy, built from ordinary one-shot systems.
//!
//! A coroutine is a stack of registered systems. Once per update the system
//! on top of each stack runs; what it returns says whether it runs again and
//! which systems run to completion before it does.

pub mod compose;
pub mod error;
pub mod host;
pub mod laws;
pub mod model;
pub mod registry;
pub mod result;
pub mod stack;
pub mod system_util;
pub mod tuples;
pub mod waiting;

pub use compose::IntoCoroutines;
pub use error::CoroutineError;
pub use host::{BoxedCoroutine, Slot, StepId};
pub use registry::{update_coroutines, Coroutine, Coroutines};
pub use result::CoResult;
pub use stack::CoroutineStack;
pub use system_util::InputAdapter;
pub use waiting::{break_if, UntilMarker, Wait, WhileMarker};
