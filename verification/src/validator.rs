//! Per-player state and the pure rule validator.

use vstd::prelude::*;

use crate::action::Action;
use crate::action::DuelError;

verus! {

/// One player's combat state: loaded ammo and the two shields.
///
/// Shields persist until overwritten by a later action of the same player;
/// they are not reset each turn. Ammo never remains negative: an action that
/// would make it negative is rejected as a fault and the state is left
/// unchanged.
#[derive(Debug, Clone, Copy, PartialEq, Eq, Structural)]
pub struct PlayerState {
    /// Loaded ammo; never negative.
    pub ammo: i32,
    /// Metal shield raised: blocks bullets.
    pub metal_shield: bool,
    /// Thermal shield raised: blocks plasma.
    pub thermal_shield: bool,
}

/// The state a player starts the duel with: no ammo, no shields.
pub open spec fn initial_state() -> PlayerState {
    PlayerState { ammo: 0, metal_shield: false, thermal_shield: false }
}

/// What applying `a` to state `s` yields: the successor state, or the
/// resource fault that ends the duel for the issuer.
pub open spec fn spec_apply(s: PlayerState, a: Action) -> Result<PlayerState, DuelError>
    recommends
        a != Action::Dead,
{
    match a {
        Action::LoadAmmo => Ok(PlayerState { ammo: (s.ammo + 1) as i32, ..s }),
        Action::FireBullet => if s.ammo >= 1 {
            Ok(PlayerState { ammo: (s.ammo - 1) as i32, ..s })
        } else {
            Err(DuelError::InsufficientAmmoForBullet)
        },
        Action::FirePlasma => if s.ammo >= 2 {
            Ok(PlayerState { ammo: (s.ammo - 2) as i32, ..s })
        } else {
            Err(DuelError::InsufficientAmmoForPlasma)
        },
        Action::DefendBullet => Ok(PlayerState { metal_shield: true, ..s }),
        Action::DefendPlasma => Ok(PlayerState { thermal_shield: true, ..s }),
        Action::Dead => arbitrary(),
    }
}

/// Whether an incoming fire action `a` connects against state `s`:
/// a bullet connects unless the metal shield is up, a plasma burst unless
/// the thermal shield is up; non-fire actions never connect.
pub open spec fn spec_connects(s: PlayerState, a: Action) -> bool {
    match a {
        Action::FireBullet => !s.metal_shield,
        Action::FirePlasma => !s.thermal_shield,
        _ => false,
    }
}

/// Law: whether a fire connects depends on the receiver's shields alone,
/// never on the receiver's ammo. A connecting fire is the receiver's loss
/// whatever its ammo state.
pub proof fn lemma_connects_ignores_ammo(s1: PlayerState, s2: PlayerState, a: Action)
    requires
        s1.metal_shield == s2.metal_shield,
        s1.thermal_shield == s2.thermal_shield,
    ensures
        spec_connects(s1, a) == spec_connects(s2, a),
{
}

impl PlayerState {
    /// Ammo is never negative in a persisted state.
    pub open spec fn wf(self) -> bool {
        self.ammo >= 0
    }

    /// The state a player is created with when attached to the engine.
    pub fn new() -> (s: PlayerState)
        ensures
            s == initial_state(),
            s.wf(),
    {
        PlayerState { ammo: 0, metal_shield: false, thermal_shield: false }
    }

    /// Apply one of the player's own actions to its state.
    ///
    /// Loading always succeeds and adds 1 ammo; raising a shield always
    /// succeeds; firing spends 1 (bullet) or 2 (plasma) ammo and faults if
    /// the ammo is not there. On success the action itself is returned and
    /// the state updated; on a fault the state is unchanged and the fault
    /// ends the duel as a loss for the issuer.
    pub fn apply(&mut self, a: Action) -> (r: Result<Action, DuelError>)
        requires
            old(self).wf(),
            old(self).ammo < i32::MAX,
            a != Action::Dead,
        ensures
            final(self).wf(),
            match spec_apply(*old(self), a) {
                Ok(s2) => r == Ok::<Action, DuelError>(a) && *final(self) == s2,
                Err(e) => r == Err::<Action, DuelError>(e) && *final(self) == *old(self),
            },
            a == Action::FireBullet ==> (r is Ok <==> old(self).ammo >= 1),
            a == Action::FirePlasma ==> (r is Ok <==> old(self).ammo >= 2),
            final(self).ammo <= old(self).ammo + 1,
    {
        match a {
            Action::LoadAmmo => {
                self.ammo = self.ammo + 1;
                Ok(a)
            },
            Action::FireBullet => {
                if self.ammo >= 1 {
                    self.ammo = self.ammo - 1;
                    Ok(a)
                } else {
                    Err(DuelError::InsufficientAmmoForBullet)
                }
            },
            Action::FirePlasma => {
                if self.ammo >= 2 {
                    self.ammo = self.ammo - 2;
                    Ok(a)
                } else {
                    Err(DuelError::InsufficientAmmoForPlasma)
                }
            },
            Action::DefendBullet => {
                self.metal_shield = true;
                Ok(a)
            },
            Action::DefendPlasma => {
                self.thermal_shield = true;
                Ok(a)
            },
            Action::Dead => {
                proof {
                    assert(false);
                }
                Err(DuelError::Protocol(0))
            },
        }
    }

    /// Whether an incoming fire action connects against this state
    /// (the matching shield is not up). A connecting fire ends the duel as
    /// a loss for the receiver, whatever the receiver's ammo.
    pub fn connects(&self, a: Action) -> (r: bool)
        ensures
            r == spec_connects(*self, a),
    {
        match a {
            Action::FireBullet => !self.metal_shield,
            Action::FirePlasma => !self.thermal_shield,
            _ => false,
        }
    }
}

} // verus!
