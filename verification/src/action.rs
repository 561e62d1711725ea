//! The combat actions and their single-byte wire encoding.

use vstd::prelude::*;

verus! {

/// Wire byte for `LoadAmmo`.
pub const LOAD_AMMO_BYTE: u8 = 0x30;
/// Wire byte for `FireBullet`.
pub const FIRE_BULLET_BYTE: u8 = 0x31;
/// Wire byte for `FirePlasma`.
pub const FIRE_PLASMA_BYTE: u8 = 0x32;
/// Wire byte for `DefendBullet`.
pub const DEFEND_BULLET_BYTE: u8 = 0x33;
/// Wire byte for `DefendPlasma`.
pub const DEFEND_PLASMA_BYTE: u8 = 0x34;
/// The readiness byte each agent must send once, before any action byte.
/// Distinct from all five action bytes.
pub const READY_BYTE: u8 = 0x72;

/// One combat action.
#[derive(Debug, Clone, Copy, PartialEq, Eq, Structural)]
pub enum Action {
    /// Load 1 ammo into the player's gun. Always succeeds.
    LoadAmmo,
    /// Spend 1 ammo and fire a bullet at the opponent. With no ammo loaded
    /// the gun explodes and the issuer dies.
    FireBullet,
    /// Spend 2 ammo and fire a plasma burst at the opponent. With 0 or 1
    /// ammo loaded the gun explodes and the issuer dies.
    FirePlasma,
    /// Raise a metal shield: blocks bullets, not plasma.
    DefendBullet,
    /// Raise a thermal shield: blocks plasma, not bullets.
    DefendPlasma,
    /// Internal terminal sentinel: an agent that faulted or was hit.
    /// Never transmitted on the wire.
    Dead,
}

/// Every way a duel can fail.
#[derive(Debug, Clone, Copy, PartialEq, Eq, Structural)]
pub enum DuelError {
    /// A wire byte that is none of the five action bytes. Fatal to that
    /// agent's channel: a loss for that side, never a program abort.
    Protocol(u8),
    /// `FireBullet` issued with no ammo loaded: a loss for the issuer.
    InsufficientAmmoForBullet,
    /// `FirePlasma` issued with fewer than 2 ammo loaded: a loss for the issuer.
    InsufficientAmmoForPlasma,
    /// The first byte an agent sent was not the readiness byte; the payload
    /// is the byte seen. Fatal to that agent: a loss for that side.
    Handshake(u8),
    /// An agent's executable could not be started. Fatal to the whole duel,
    /// surfaced to the caller.
    ProcessSpawn,
}

/// Whether `b` is one of the five action bytes.
pub open spec fn is_action_byte(b: u8) -> bool {
    b == LOAD_AMMO_BYTE || b == FIRE_BULLET_BYTE || b == FIRE_PLASMA_BYTE
        || b == DEFEND_BULLET_BYTE || b == DEFEND_PLASMA_BYTE
}

/// The action a wire byte decodes to, or the protocol error it raises.
pub open spec fn spec_from_byte(b: u8) -> Result<Action, DuelError> {
    if b == LOAD_AMMO_BYTE {
        Ok(Action::LoadAmmo)
    } else if b == FIRE_BULLET_BYTE {
        Ok(Action::FireBullet)
    } else if b == FIRE_PLASMA_BYTE {
        Ok(Action::FirePlasma)
    } else if b == DEFEND_BULLET_BYTE {
        Ok(Action::DefendBullet)
    } else if b == DEFEND_PLASMA_BYTE {
        Ok(Action::DefendPlasma)
    } else {
        Err(DuelError::Protocol(b))
    }
}

/// The wire byte a transmittable action encodes to.
pub open spec fn spec_to_byte(a: Action) -> u8
    recommends
        a != Action::Dead,
{
    match a {
        Action::LoadAmmo => LOAD_AMMO_BYTE,
        Action::FireBullet => FIRE_BULLET_BYTE,
        Action::FirePlasma => FIRE_PLASMA_BYTE,
        Action::DefendBullet => DEFEND_BULLET_BYTE,
        Action::DefendPlasma => DEFEND_PLASMA_BYTE,
        Action::Dead => arbitrary(),
    }
}

impl Action {
    /// Decode one wire byte. Exactly the five action bytes decode to the
    /// five transmittable actions; every other byte fails with a
    /// protocol error carrying that byte.
    pub fn from_byte(b: u8) -> (r: Result<Action, DuelError>)
        ensures
            r == spec_from_byte(b),
            r is Ok <==> is_action_byte(b),
            !is_action_byte(b) ==> r == Err::<Action, DuelError>(DuelError::Protocol(b)),
    {
        if b == LOAD_AMMO_BYTE {
            Ok(Action::LoadAmmo)
        } else if b == FIRE_BULLET_BYTE {
            Ok(Action::FireBullet)
        } else if b == FIRE_PLASMA_BYTE {
            Ok(Action::FirePlasma)
        } else if b == DEFEND_BULLET_BYTE {
            Ok(Action::DefendBullet)
        } else if b == DEFEND_PLASMA_BYTE {
            Ok(Action::DefendPlasma)
        } else {
            Err(DuelError::Protocol(b))
        }
    }

    /// Encode a transmittable action as its wire byte. `Dead` is internal
    /// only and never put on the wire, so callers must exclude it.
    pub fn to_byte(&self) -> (b: u8)
        requires
            *self != Action::Dead,
        ensures
            b == spec_to_byte(*self),
            is_action_byte(b),
    {
        match *self {
            Action::LoadAmmo => LOAD_AMMO_BYTE,
            Action::FireBullet => FIRE_BULLET_BYTE,
            Action::FirePlasma => FIRE_PLASMA_BYTE,
            Action::DefendBullet => DEFEND_BULLET_BYTE,
            Action::DefendPlasma => DEFEND_PLASMA_BYTE,
            Action::Dead => {
                proof {
                    assert(false);
                }
                LOAD_AMMO_BYTE
            },
        }
    }
}

/// Law: encoding the action a valid byte decodes to gives back that byte.
pub proof fn lemma_byte_round_trip(b: u8)
    requires
        is_action_byte(b),
    ensures
        spec_from_byte(b) is Ok,
        spec_to_byte(spec_from_byte(b)->Ok_0) == b,
{
}

/// Law: decoding the byte a non-`Dead` action encodes to gives back that action.
pub proof fn lemma_action_round_trip(a: Action)
    requires
        a != Action::Dead,
    ensures
        spec_from_byte(spec_to_byte(a)) == Ok::<Action, DuelError>(a),
{
}

} // verus!
