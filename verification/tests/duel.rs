use future_duel::action::Action;
use future_duel::arbiter::arbiter_poll;
use future_duel::arbiter::run_simulation;
use future_duel::arbiter::simulate_round;
use future_duel::arbiter::DuelOutcome;
use future_duel::arbiter::SIMULATION_ROUNDS;
use future_duel::supervisor::Supervisor;
use future_duel::validator::PlayerState;

fn script(actions: &[Action], fill_to: usize) -> Vec<Action> {
    let mut v = actions.to_vec();
    while v.len() < fill_to {
        v.push(Action::LoadAmmo);
    }
    v
}

#[test]
fn supervisor_forwards_a_validated_action() {
    let mut sup = Supervisor::new();
    assert_eq!(sup.process_own_byte(0x30), Action::LoadAmmo);
    assert_eq!(sup.state.ammo, 1);
    assert_eq!(sup.process_own_byte(0x31), Action::FireBullet);
    assert_eq!(sup.state.ammo, 0);
}

#[test]
fn supervisor_turns_a_protocol_error_into_dead() {
    let mut sup = Supervisor::new();
    assert_eq!(sup.process_own_byte(0x29), Action::Dead);
    assert_eq!(sup.process_own_byte(0x35), Action::Dead);
    assert_eq!(sup.state, PlayerState::new(), "a faulting byte changes no state");
}

#[test]
fn supervisor_turns_a_resource_fault_into_dead() {
    let mut sup = Supervisor::new();
    assert_eq!(sup.process_own_byte(0x31), Action::Dead, "firing a bullet with no ammo");
    assert_eq!(sup.state.ammo, 0);
    assert_eq!(sup.process_own_byte(0x32), Action::Dead, "firing plasma with no ammo");
    sup.process_own_byte(0x30);
    assert_eq!(sup.process_own_byte(0x32), Action::Dead, "firing plasma with one ammo");
    assert_eq!(sup.state.ammo, 1);
}

#[test]
fn supervisor_reports_a_connecting_fire_as_death() {
    let sup = Supervisor::new();
    let reaction = sup.process_opponent_action(Action::FireBullet);
    assert!(reaction.dies);
    assert_eq!(reaction.agent_byte, 0x31);

    let mut shielded = Supervisor::new();
    shielded.process_own_byte(0x33);
    let blocked = shielded.process_opponent_action(Action::FireBullet);
    assert!(!blocked.dies);
    assert_eq!(blocked.agent_byte, 0x31, "the agent still perceives the blocked fire");

    let harmless = sup.process_opponent_action(Action::LoadAmmo);
    assert!(!harmless.dies);
    assert_eq!(harmless.agent_byte, 0x30);
}

#[test]
fn arbiter_gives_the_win_to_the_survivor() {
    let r = arbiter_poll(Some(Action::Dead), None, false);
    assert_eq!(r.outcome, Some(DuelOutcome::Player2Wins));
    assert_eq!(r.relay_to_player2, None);

    let r = arbiter_poll(None, Some(Action::Dead), false);
    assert_eq!(r.outcome, Some(DuelOutcome::Player1Wins));
}

#[test]
fn arbiter_relays_live_actions_and_keeps_running() {
    let r = arbiter_poll(Some(Action::LoadAmmo), Some(Action::DefendPlasma), false);
    assert_eq!(r.outcome, None);
    assert_eq!(r.relay_to_player2, Some(Action::LoadAmmo));
    assert_eq!(r.relay_to_player1, Some(Action::DefendPlasma));

    let quiet = arbiter_poll(None, None, false);
    assert_eq!(quiet.outcome, None);
    assert_eq!(quiet.relay_to_player2, None);
    assert_eq!(quiet.relay_to_player1, None);
}

#[test]
fn arbiter_declares_a_tie_at_the_deadline() {
    let r = arbiter_poll(None, None, true);
    assert_eq!(r.outcome, Some(DuelOutcome::Tie));
}

#[test]
fn a_dead_side_outranks_the_deadline() {
    let r = arbiter_poll(Some(Action::Dead), None, true);
    assert_eq!(r.outcome, Some(DuelOutcome::Player2Wins));
}

#[test]
fn simultaneous_deaths_resolve_to_player2() {
    let r = arbiter_poll(Some(Action::Dead), Some(Action::Dead), false);
    assert_eq!(r.outcome, Some(DuelOutcome::Player2Wins));
}

#[test]
fn a_loaded_fire_against_an_unshielded_opponent_wins() {
    let outcome = run_simulation(
        &script(&[Action::LoadAmmo, Action::FireBullet], 2),
        &script(&[], 2),
    );
    assert_eq!(outcome, DuelOutcome::Player1Wins);
}

#[test]
fn an_unloaded_first_fire_faults_and_loses() {
    let outcome = run_simulation(
        &script(&[Action::FireBullet], 1),
        &script(&[], 1),
    );
    assert_eq!(outcome, DuelOutcome::Player2Wins);
}

#[test]
fn a_raised_metal_shield_keeps_the_duel_going() {
    let mut s1 = PlayerState::new();
    let mut s2 = PlayerState::new();
    assert_eq!(simulate_round(&mut s1, &mut s2, Action::LoadAmmo, Action::DefendBullet), None);
    assert_eq!(
        simulate_round(&mut s1, &mut s2, Action::FireBullet, Action::LoadAmmo),
        None,
        "the earlier shield blocks the bullet; the duel continues"
    );
    assert_eq!(s1.ammo, 0);
    assert_eq!(s2.ammo, 1);
}

#[test]
fn a_shield_raised_the_same_round_blocks_the_second_mover() {
    let mut s1 = PlayerState::new();
    let mut s2 = PlayerState::new();
    simulate_round(&mut s1, &mut s2, Action::LoadAmmo, Action::LoadAmmo);
    assert_eq!(
        simulate_round(&mut s1, &mut s2, Action::DefendBullet, Action::FireBullet),
        None,
        "player 1 acts first, so its shield is already up"
    );
}

#[test]
fn plasma_passes_a_metal_shield() {
    let mut s1 = PlayerState::new();
    let mut s2 = PlayerState::new();
    simulate_round(&mut s1, &mut s2, Action::LoadAmmo, Action::DefendBullet);
    simulate_round(&mut s1, &mut s2, Action::LoadAmmo, Action::DefendBullet);
    assert_eq!(
        simulate_round(&mut s1, &mut s2, Action::FirePlasma, Action::LoadAmmo),
        Some(DuelOutcome::Player1Wins)
    );
}

#[test]
fn only_loading_for_all_rounds_is_a_tie() {
    let outcome = run_simulation(
        &script(&[], SIMULATION_ROUNDS),
        &script(&[], SIMULATION_ROUNDS),
    );
    assert_eq!(outcome, DuelOutcome::Tie);
}

#[test]
fn the_round_bound_cuts_a_longer_script_off() {
    let mut late_fire = script(&[], 150);
    late_fire[120] = Action::FireBullet;
    let outcome = run_simulation(&late_fire, &script(&[], 150));
    assert_eq!(outcome, DuelOutcome::Tie, "round 120 is never played");
}

#[test]
fn an_exhausted_script_ends_the_duel_in_a_tie() {
    let outcome = run_simulation(&script(&[], 3), &script(&[], 7));
    assert_eq!(outcome, DuelOutcome::Tie);
}

#[test]
fn empty_scripts_are_a_tie() {
    let outcome = run_simulation(&Vec::new(), &Vec::new());
    assert_eq!(outcome, DuelOutcome::Tie);
}

#[test]
fn a_fire_connects_whatever_the_receiver_has_loaded() {
    let mut loaded = Supervisor::new();
    for _ in 0..4 {
        loaded.process_own_byte(0x30);
    }
    assert!(loaded.process_opponent_action(Action::FireBullet).dies);
    assert!(loaded.process_opponent_action(Action::FirePlasma).dies);
}
