//! Render-facing turn state and the identity context of a session.
use vstd::prelude::*;

verus! {

/// Whether a turn is running.
#[derive(Debug, Clone, Copy, PartialEq, Eq, Structural)]
pub enum TurnState {
    Idle,
    Active,
}

impl Default for TurnState {
    fn default() -> (r: Self)
        ensures
            r == TurnState::Idle,
    {
        TurnState::Idle
    }
}

/// Who and where a session runs.
#[derive(Debug, Clone)]
pub struct SessionEvidenceContext {
    pub carrier_session_id: String,
    pub agent_id: String,
    pub site_id: String,
    pub site_root: String,
}

} // verus!
