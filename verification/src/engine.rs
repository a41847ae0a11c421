//! Public control API for stepping the heater state machine.
//!
//! `HeaterEngine` owns the runtime state and the configuration; the logic is
//! the state machine's.
use vstd::prelude::*;
use crate::config::Config;
use crate::fsm::{self, tick_result};
use crate::types::{CoreState, TickInput, TickOutput};

verus! {

/// A heater controller: its configuration and its state.
#[derive(Debug, Clone)]
pub struct HeaterEngine {
    cfg: Config,
    state: CoreState,
}

impl HeaterEngine {
    /// The configuration the engine steps with.
    pub closed spec fn configuration(self) -> Config {
        self.cfg
    }

    /// The state the engine carries between steps.
    pub closed spec fn core_state(self) -> CoreState {
        self.state
    }

    /// An engine in the power-up state.
    pub fn new(cfg: Config) -> (e: HeaterEngine)
        ensures
            e.configuration() == cfg,
            e.core_state() == CoreState::initial(),
    {
        Self { cfg, state: CoreState::default() }
    }

    /// An engine resuming from a given state.
    pub fn with_state(cfg: Config, state: CoreState) -> (e: HeaterEngine)
        ensures
            e.configuration() == cfg,
            e.core_state() == state,
    {
        Self { cfg, state }
    }

    /// One control step with the engine's configuration.
    pub fn step(&mut self, input: &TickInput) -> (out: TickOutput)
        ensures
            (final(self).core_state(), out) == tick_result(
                *input,
                old(self).core_state(),
                old(self).configuration(),
            ),
            final(self).configuration() == old(self).configuration(),
    {
        fsm::tick(input, &mut self.state, &self.cfg)
    }

    pub fn state(&self) -> (s: &CoreState)
        ensures
            *s == self.core_state(),
    {
        &self.state
    }

    pub fn config(&self) -> (c: &Config)
        ensures
            *c == self.configuration(),
    {
        &self.cfg
    }

    /// Replaces the configuration; the state is kept.
    pub fn set_config(&mut self, cfg: Config)
        ensures
            final(self).configuration() == cfg,
            final(self).core_state() == old(self).core_state(),
    {
        self.cfg = cfg;
    }
}

} // verus!
