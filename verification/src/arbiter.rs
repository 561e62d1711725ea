//! Duel-level decisions: relaying, win/tie determination, and the fully
//! synchronous simulation mode.
//!
//! The arbiter is the sole place an outcome is produced. In the concurrent
//! deployment, an outer loop polls the two supervisors' outbound queues and
//! a monotonic clock, and feeds each iteration's observations to
//! [`arbiter_poll`]; the queues, threads and clock live outside this crate.
//! In simulation mode, [`run_simulation`] drives two validators directly,
//! round-robin, with no concurrency at all.

use vstd::prelude::*;

use crate::action::Action;
use crate::action::spec_from_byte;
use crate::supervisor::spec_own_step;
use crate::validator::PlayerState;
use crate::validator::initial_state;
use crate::validator::spec_apply;
use crate::validator::spec_connects;

verus! {

/// The final outcome of one duel. Produced exactly once, at duel end.
#[derive(Debug, Clone, Copy, PartialEq, Eq, Structural)]
pub enum DuelOutcome {
    /// Player 1 won: player 2 faulted or was hit.
    Player1Wins,
    /// Player 2 won: player 1 faulted or was hit.
    Player2Wins,
    /// Neither side won before the deadline (or the simulation bound).
    Tie,
}

/// What the arbiter decided for one drive-loop iteration.
#[derive(Debug, Clone, Copy, PartialEq, Eq)]
pub struct PollStep {
    /// A live action of player 1 to relay to player 2's inbound queue.
    pub relay_to_player2: Option<Action>,
    /// A live action of player 2 to relay to player 1's inbound queue.
    pub relay_to_player1: Option<Action>,
    /// `Some` exactly when the duel ends this iteration.
    pub outcome: Option<DuelOutcome>,
}

/// The arbiter's decision for one iteration, given what the poll observed.
///
/// Player 1's `Dead` is examined first, then player 2's, then the deadline;
/// so two `Dead` signals observed in the same iteration deterministically
/// resolve to a win for player 2, whatever order the queues were polled in.
pub open spec fn spec_poll(
    from_player1: Option<Action>,
    from_player2: Option<Action>,
    deadline_reached: bool,
) -> PollStep {
    if from_player1 == Some(Action::Dead) {
        PollStep {
            relay_to_player2: None,
            relay_to_player1: None,
            outcome: Some(DuelOutcome::Player2Wins),
        }
    } else if from_player2 == Some(Action::Dead) {
        PollStep {
            relay_to_player2: from_player1,
            relay_to_player1: None,
            outcome: Some(DuelOutcome::Player1Wins),
        }
    } else {
        PollStep {
            relay_to_player2: from_player1,
            relay_to_player1: from_player2,
            outcome: if deadline_reached {
                Some(DuelOutcome::Tie)
            } else {
                None
            },
        }
    }
}

/// Decide one drive-loop iteration.
///
/// `from_player1` / `from_player2` are the actions the two supervisors'
/// outbound queues yielded this iteration (if any); `deadline_reached` says
/// whether the monotonic clock has reached the 15-second deadline since the
/// synchronized start. A `Dead` from a side is that side's loss; a live
/// action is relayed to the other side; the deadline, reached with neither
/// side dead, is a tie, not an error. Simultaneous `Dead` signals resolve
/// deterministically to a win for player 2 (player 1's `Dead` is examined
/// first). The arbiter validates no content itself: that was already the
/// supervisors' job.
pub fn arbiter_poll(
    from_player1: Option<Action>,
    from_player2: Option<Action>,
    deadline_reached: bool,
) -> (r: PollStep)
    ensures
        r == spec_poll(from_player1, from_player2, deadline_reached),
        r.outcome is Some <==> from_player1 == Some(Action::Dead) || from_player2 == Some(
            Action::Dead,
        ) || deadline_reached,
{
    let player1_dead = match from_player1 {
        Some(Action::Dead) => true,
        _ => false,
    };
    let player2_dead = match from_player2 {
        Some(Action::Dead) => true,
        _ => false,
    };
    if player1_dead {
        PollStep {
            relay_to_player2: None,
            relay_to_player1: None,
            outcome: Some(DuelOutcome::Player2Wins),
        }
    } else if player2_dead {
        PollStep {
            relay_to_player2: from_player1,
            relay_to_player1: None,
            outcome: Some(DuelOutcome::Player1Wins),
        }
    } else if deadline_reached {
        PollStep {
            relay_to_player2: from_player1,
            relay_to_player1: from_player2,
            outcome: Some(DuelOutcome::Tie),
        }
    } else {
        PollStep { relay_to_player2: from_player1, relay_to_player1: from_player2, outcome: None }
    }
}

/// Law: a fault is the issuer's loss. Whenever a byte decodes to an action
/// the issuer's state rejects, the supervisor forwards `Dead` with the state
/// unchanged, and the arbiter then awards the duel to the other side.
pub proof fn lemma_fault_is_issuers_loss(s: PlayerState, b: u8)
    requires
        spec_from_byte(b) is Ok,
        spec_apply(s, spec_from_byte(b)->Ok_0) is Err,
    ensures
        spec_own_step(s, b) == (s, Action::Dead),
        spec_poll(Some(Action::Dead), None, false).outcome == Some(DuelOutcome::Player2Wins),
        spec_poll(None, Some(Action::Dead), false).outcome == Some(DuelOutcome::Player1Wins),
{
}

/// One synchronous round, player 1 acting first: the successor states and
/// the outcome, if the round ends the duel. A resource fault is a loss for
/// the issuer (its state stays as it was); a fire that connects against the
/// unshielded opponent is a loss for that opponent, and ends the round
/// before the opponent acts.
pub open spec fn spec_round(
    s1: PlayerState,
    s2: PlayerState,
    a1: Action,
    a2: Action,
) -> (PlayerState, PlayerState, Option<DuelOutcome>)
    recommends
        a1 != Action::Dead,
        a2 != Action::Dead,
{
    match spec_apply(s1, a1) {
        Err(_) => (s1, s2, Some(DuelOutcome::Player2Wins)),
        Ok(t1) => if spec_connects(s2, a1) {
            (t1, s2, Some(DuelOutcome::Player1Wins))
        } else {
            match spec_apply(s2, a2) {
                Err(_) => (t1, s2, Some(DuelOutcome::Player1Wins)),
                Ok(t2) => if spec_connects(t1, a2) {
                    (t1, t2, Some(DuelOutcome::Player2Wins))
                } else {
                    (t1, t2, None)
                },
            }
        },
    }
}

/// The outcome of the round-robin simulation from states `s1`, `s2` at
/// round `round`, the two agents scripted by `script1` and `script2`:
/// rounds play out as in [`spec_round`] until one ends the duel; if none
/// does before `bound` rounds have been played (or a script has no action
/// left), the duel is a tie.
pub open spec fn spec_simulation(
    s1: PlayerState,
    s2: PlayerState,
    script1: Seq<Action>,
    script2: Seq<Action>,
    round: nat,
    bound: nat,
) -> DuelOutcome
    decreases bound - round,
{
    if round >= bound || round >= script1.len() || round >= script2.len() {
        DuelOutcome::Tie
    } else {
        let (t1, t2, out) = spec_round(s1, s2, script1[round as int], script2[round as int]);
        match out {
            Some(o) => o,
            None => spec_simulation(t1, t2, script1, script2, round + 1, bound),
        }
    }
}

/// The simulation's round bound: a duel nobody has won after this many
/// rounds is a tie.
pub const SIMULATION_ROUNDS: usize = 100;

/// Play one synchronous round, player 1 acting first.
///
/// Player 1's action is applied to player 1's state: a fault is player 2's
/// win. The action is then checked against player 2's shields: a connecting
/// fire is player 1's win, and ends the round before player 2 acts.
/// Otherwise player 2 acts the same way against player 1's updated state
/// (so a shield player 1 raised this round already blocks). `None` means
/// the duel goes on.
pub fn simulate_round(s1: &mut PlayerState, s2: &mut PlayerState, a1: Action, a2: Action) -> (out:
    Option<DuelOutcome>)
    requires
        old(s1).wf(),
        old(s2).wf(),
        old(s1).ammo < i32::MAX,
        old(s2).ammo < i32::MAX,
        a1 != Action::Dead,
        a2 != Action::Dead,
    ensures
        (*final(s1), *final(s2), out) == spec_round(*old(s1), *old(s2), a1, a2),
        final(s1).wf(),
        final(s2).wf(),
        final(s1).ammo <= old(s1).ammo + 1,
        final(s2).ammo <= old(s2).ammo + 1,
{
    if s1.apply(a1).is_err() {
        return Some(DuelOutcome::Player2Wins);
    }
    if s2.connects(a1) {
        return Some(DuelOutcome::Player1Wins);
    }
    if s2.apply(a2).is_err() {
        return Some(DuelOutcome::Player1Wins);
    }
    if s1.connects(a2) {
        return Some(DuelOutcome::Player2Wins);
    }
    None
}

/// Run a whole duel in simulation mode: no processes, no concurrency, a
/// deterministic round-robin between two scripted agents.
///
/// Round `i` plays `script1[i]` against `script2[i]` as in
/// [`simulate_round`]. The duel runs while both scripts still supply an
/// action, at most [`SIMULATION_ROUNDS`] rounds; if no round ended it by
/// then, the outcome is a tie.
pub fn run_simulation(script1: &Vec<Action>, script2: &Vec<Action>) -> (outcome: DuelOutcome)
    requires
        forall|i: int| 0 <= i < script1@.len() ==> script1@[i] != Action::Dead,
        forall|i: int| 0 <= i < script2@.len() ==> script2@[i] != Action::Dead,
    ensures
        outcome == spec_simulation(
            initial_state(),
            initial_state(),
            script1@,
            script2@,
            0,
            SIMULATION_ROUNDS as nat,
        ),
{
    let mut s1 = PlayerState::new();
    let mut s2 = PlayerState::new();
    let mut rounds: usize = if script1.len() < script2.len() {
        script1.len()
    } else {
        script2.len()
    };
    if rounds > SIMULATION_ROUNDS {
        rounds = SIMULATION_ROUNDS;
    }
    let mut i: usize = 0;
    while i < rounds
        invariant
            i <= rounds,
            rounds <= SIMULATION_ROUNDS,
            rounds <= script1@.len(),
            rounds <= script2@.len(),
            rounds == SIMULATION_ROUNDS || rounds == script1@.len() || rounds == script2@.len(),
            s1.wf(),
            s2.wf(),
            s1.ammo <= i,
            s2.ammo <= i,
            forall|j: int| 0 <= j < script1@.len() ==> script1@[j] != Action::Dead,
            forall|j: int| 0 <= j < script2@.len() ==> script2@[j] != Action::Dead,
            spec_simulation(s1, s2, script1@, script2@, i as nat, SIMULATION_ROUNDS as nat)
                == spec_simulation(
                initial_state(),
                initial_state(),
                script1@,
                script2@,
                0,
                SIMULATION_ROUNDS as nat,
            ),
        decreases rounds - i,
    {
        let a1 = script1[i];
        let a2 = script2[i];
        if let Some(outcome) = simulate_round(&mut s1, &mut s2, a1, a2) {
            return outcome;
        }
        i = i + 1;
    }
    DuelOutcome::Tie
}

} // verus!
