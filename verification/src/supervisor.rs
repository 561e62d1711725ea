//! Per-agent decisions: the readiness handshake, validation of the agent's
//! own actions, and the reaction to a relayed opponent action.
//!
//! One supervisor exists per agent and exclusively owns that agent's
//! [`PlayerState`]. The byte streams, the process handle and the concurrent
//! relay loop live outside this crate; every decision they need is made here.

use vstd::prelude::*;

use crate::action::Action;
use crate::action::DuelError;
use crate::action::READY_BYTE;
use crate::action::is_action_byte;
use crate::action::spec_from_byte;
use crate::action::spec_to_byte;
use crate::validator::PlayerState;
use crate::validator::initial_state;
use crate::validator::spec_apply;
use crate::validator::spec_connects;

verus! {

/// The state and action a supervisor forwards after its agent produced the
/// wire byte `b` in state `s`: an unrecognized byte (protocol error) or a
/// resource fault becomes the `Dead` sentinel with the state unchanged; a
/// valid action is applied and forwarded as itself.
pub open spec fn spec_own_step(s: PlayerState, b: u8) -> (PlayerState, Action) {
    match spec_from_byte(b) {
        Ok(a) => match spec_apply(s, a) {
            Ok(s2) => (s2, a),
            Err(_) => (s, Action::Dead),
        },
        Err(_) => (s, Action::Dead),
    }
}

/// How a supervisor reacts to a relayed opponent action.
#[derive(Debug, Clone, Copy, PartialEq, Eq, Structural)]
pub struct OpponentReaction {
    /// The fire connected (the matching shield was down): this side dies,
    /// and the supervisor forwards `Dead` to the arbiter.
    pub dies: bool,
    /// The byte to push to the agent's input so it perceives the opponent's
    /// action (fire-and-forget, never a blocking call on the agent).
    pub agent_byte: u8,
}

/// One agent's supervisor: owns that agent's combat state.
#[derive(Debug, Clone, Copy, PartialEq, Eq, Structural)]
pub struct Supervisor {
    /// The supervised agent's combat state, exclusively owned.
    pub state: PlayerState,
}

impl Supervisor {
    /// A supervisor for a freshly attached agent: no ammo, no shields.
    pub fn new() -> (s: Supervisor)
        ensures
            s.state == initial_state(),
            s.state.wf(),
    {
        Supervisor { state: PlayerState::new() }
    }

    /// Check the one readiness byte an agent must send before any action.
    /// Exactly the readiness byte passes; any other byte is a handshake
    /// error carrying that byte, fatal to that agent (a loss, not an abort).
    pub fn check_ready(b: u8) -> (r: Result<(), DuelError>)
        ensures
            r is Ok <==> b == READY_BYTE,
            b != READY_BYTE ==> r == Err::<(), DuelError>(DuelError::Handshake(b)),
    {
        if b == READY_BYTE {
            Ok(())
        } else {
            Err(DuelError::Handshake(b))
        }
    }

    /// Decode and validate one byte the supervised agent produced, and say
    /// which action to forward to the arbiter.
    ///
    /// A valid action is applied to the agent's state and forwarded as
    /// itself; an unrecognized byte or a resource fault leaves the state
    /// unchanged and is forwarded as the `Dead` sentinel, so the arbiter
    /// stays the single place an outcome is produced.
    pub fn process_own_byte(&mut self, b: u8) -> (act: Action)
        requires
            old(self).state.wf(),
            old(self).state.ammo < i32::MAX,
        ensures
            final(self).state.wf(),
            (final(self).state, act) == spec_own_step(old(self).state, b),
            act != Action::Dead ==> spec_from_byte(b) == Ok::<Action, DuelError>(act),
            !is_action_byte(b) ==> act == Action::Dead && *final(self) == *old(self),
            final(self).state.ammo <= old(self).state.ammo + 1,
    {
        match Action::from_byte(b) {
            Ok(a) => match self.state.apply(a) {
                Ok(validated) => validated,
                Err(_) => Action::Dead,
            },
            Err(_) => Action::Dead,
        }
    }

    /// React to an opponent action relayed by the arbiter: decide whether
    /// the fire connects (this side dies) and which byte to deliver to the
    /// agent's input so it may react. Non-fire actions never connect;
    /// shields are only read here, never changed.
    pub fn process_opponent_action(&self, act: Action) -> (r: OpponentReaction)
        requires
            act != Action::Dead,
        ensures
            r.dies == spec_connects(self.state, act),
            r.agent_byte == spec_to_byte(act),
    {
        OpponentReaction { dies: self.state.connects(act), agent_byte: act.to_byte() }
    }
}

} // verus!
