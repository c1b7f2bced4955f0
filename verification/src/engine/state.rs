//! Embive Engine State
use vstd::prelude::*;

verus! {

/// Embive Engine State
#[derive(Debug, PartialEq, Eq, Clone, Copy, Structural)]
pub enum EngineState {
    /// Engine running. Call [`super::Engine::run`] to continue running.
    Running,
    /// Engine waiting interrupt. Call [`super::Engine::run`] to continue running. (Optionally
    /// call [`super::Engine::interrupt`] prior to trigger an interrupt).
    Waiting,
    /// Engine halted. Call [`super::Engine::reset`] and then [`super::Engine::run`] to run again.
    Halted,
}

impl Default for EngineState {
    fn default() -> (r: Self)
        ensures
            r == EngineState::Running,
    {
        EngineState::Running
    }
}

} // verus!
