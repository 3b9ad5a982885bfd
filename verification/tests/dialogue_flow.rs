use gorb_transporter::dialogue::{handle_gamepad_input, CurrentDialogue, DialogueEffect, DialogueReply};
use gorb_transporter::game::{check_for_player_on_target, handle_gamepad_input_menu, timer_update, GameState};
use gorb_transporter::player::Player;
use gorb_transporter::ui::update_gorb_count;
use DialogueEffect::{BonusTime, GameOver, GorbEmpty, IncreaseBlood, ResetTargetLoc};

fn arrival(gorbs: i32) -> CurrentDialogue {
    let mut d = CurrentDialogue::empty();
    assert_eq!(check_for_player_on_target(true, gorbs, &mut d), Some(GameState::Dialogue));
    d
}

#[test]
fn empty_dialogue_has_nothing() {
    let d = CurrentDialogue::empty();
    assert_eq!(d.message, "");
    assert!(d.effects.is_empty());
}

#[test]
fn game_starts_in_the_main_menu() {
    assert_eq!(GameState::default(), GameState::MainMenu);
}

#[test]
fn menu_confirm_starts_play() {
    assert_eq!(handle_gamepad_input_menu(true, false), Some(GameState::Movement));
    assert_eq!(handle_gamepad_input_menu(false, true), Some(GameState::Movement));
    assert_eq!(handle_gamepad_input_menu(true, true), Some(GameState::Movement));
    assert_eq!(handle_gamepad_input_menu(false, false), None);
}

#[test]
fn arrival_dialogues_by_gorb_count() {
    let d = arrival(0);
    assert_eq!(d.message, "you come bearing no gorbs, the children will perish, scoundrel");
    assert_eq!(d.effects, vec![IncreaseBlood(300), ResetTargetLoc]);
    let d = arrival(1);
    assert_eq!(d.message, "one gorb does not a savior make, how can we choose who will live?");
    assert_eq!(d.effects, vec![IncreaseBlood(250), ResetTargetLoc, GorbEmpty]);
    let d = arrival(2);
    assert_eq!(d.message, "you did all you could to get these two gorbs - and it sucks, you suck");
    assert_eq!(d.effects, vec![IncreaseBlood(100), ResetTargetLoc, GorbEmpty]);
    let d = arrival(3);
    assert_eq!(d.message, "they will fight each other for these gorbs...");
    assert_eq!(d.effects, vec![IncreaseBlood(136), GorbEmpty, ResetTargetLoc]);
    let d = arrival(4);
    assert_eq!(d.message, "meager gorbage this is not, many thanks for your transport");
    assert_eq!(d.effects, vec![IncreaseBlood(70), GorbEmpty, ResetTargetLoc, BonusTime]);
    let d = arrival(5);
    assert_eq!(d.message, "a wealth of gorbs! some chirldren will live!");
    assert_eq!(d.effects, vec![IncreaseBlood(15), GorbEmpty, ResetTargetLoc, BonusTime]);
    for odd in [6, -1, 100] {
        let d = arrival(odd);
        assert_eq!(d.message, "we know not how many gorbs were recieved");
        assert_eq!(d.effects, vec![IncreaseBlood(5), GorbEmpty, ResetTargetLoc]);
    }
}

#[test]
fn away_from_target_nothing_changes() {
    let mut d = arrival(3);
    assert_eq!(check_for_player_on_target(false, 0, &mut d), None);
    assert_eq!(d.message, "they will fight each other for these gorbs...");
}

#[test]
fn timeout_names_the_blood() {
    let mut d = CurrentDialogue::empty();
    assert_eq!(timer_update(true, 741, &mut d), Some(GameState::Dialogue));
    assert_eq!(
        d.message,
        "worthless gorb transporter, blood of 741 gorbless is on your hands. try again."
    );
    assert_eq!(d.effects, vec![GorbEmpty, GameOver]);
    for (blood, text) in [(0, "0"), (9, "9"), (10, "10"), (-42, "-42"), (i32::MAX, "2147483647"), (i32::MIN, "-2147483648")] {
        let mut d = CurrentDialogue::empty();
        timer_update(true, blood, &mut d);
        assert_eq!(d.message, format!("worthless gorb transporter, blood of {} gorbless is on your hands. try again.", text));
    }
}

#[test]
fn running_timer_changes_nothing() {
    let mut d = CurrentDialogue::empty();
    assert_eq!(timer_update(false, 5, &mut d), None);
    assert_eq!(d.message, "");
    assert!(d.effects.is_empty());
}

#[test]
fn timeout_confirm_returns_to_menu() {
    let mut d = CurrentDialogue::empty();
    timer_update(true, 3, &mut d);
    let quiet = DialogueReply { next_state: Some(GameState::MainMenu), apply_effects: false, reset_timer: false, reset_target: false };
    assert_eq!(handle_gamepad_input(&d, false, true), quiet);
    assert_eq!(handle_gamepad_input(&d, true, false), quiet);
}

#[test]
fn keyboard_confirm_of_a_delivery_applies_its_effects() {
    let d = arrival(4);
    let r = handle_gamepad_input(&d, false, true);
    assert_eq!(r, DialogueReply { next_state: Some(GameState::Movement), apply_effects: true, reset_timer: true, reset_target: true });
    let mut p = Player { gorb_count: 4, blood_on_your_hands: 100 };
    p.apply_effects(&d.effects);
    assert_eq!(p, Player { gorb_count: 0, blood_on_your_hands: 170 });
}

#[test]
fn empty_handed_delivery_costs_300_blood() {
    let d = arrival(0);
    let r = handle_gamepad_input(&d, false, true);
    assert_eq!(r, DialogueReply { next_state: Some(GameState::Movement), apply_effects: true, reset_timer: false, reset_target: true });
    let mut p = Player { gorb_count: 0, blood_on_your_hands: 0 };
    p.apply_effects(&d.effects);
    assert_eq!(p, Player { gorb_count: 0, blood_on_your_hands: 300 });
}

#[test]
fn gamepad_confirm_only_changes_state() {
    let d = arrival(5);
    let r = handle_gamepad_input(&d, true, false);
    assert_eq!(r, DialogueReply { next_state: Some(GameState::Movement), apply_effects: false, reset_timer: false, reset_target: false });
}

#[test]
fn no_confirm_no_reply() {
    let d = arrival(2);
    let r = handle_gamepad_input(&d, false, false);
    assert_eq!(r, DialogueReply { next_state: None, apply_effects: false, reset_timer: false, reset_target: false });
}

#[test]
fn gorb_icons_redraw_when_counts_differ() {
    assert_eq!(update_gorb_count(5, 5), None);
    assert_eq!(update_gorb_count(5, 4), Some(4));
    assert_eq!(update_gorb_count(0, 5), Some(5));
    assert_eq!(update_gorb_count(3, 0), Some(0));
    assert_eq!(update_gorb_count(0, -2), Some(0));
    assert_eq!(update_gorb_count(4, 4), None);
}

#[test]
fn gorb_icons_settle_after_one_redraw() {
    for ui in 0..7 {
        for gorbs in 0..6 {
            if let Some(n) = update_gorb_count(ui, gorbs) {
                assert_eq!(update_gorb_count(n as i32, gorbs), None);
            }
        }
    }
}

#[test]
fn every_delivery_resumes_play_and_empties_the_chamber() {
    let charges = [300, 250, 100, 136, 70, 15, 5];
    for gorbs in 0..=6 {
        let d = arrival(gorbs);
        let r = handle_gamepad_input(&d, false, true);
        assert_eq!(r.next_state, Some(GameState::Movement));
        assert!(r.apply_effects);
        assert!(r.reset_target);
        assert_eq!(r.reset_timer, gorbs == 4 || gorbs == 5);
        let mut p = Player { gorb_count: gorbs, blood_on_your_hands: 7 };
        p.apply_effects(&d.effects);
        assert_eq!(p.gorb_count, 0);
        assert_eq!(p.blood_on_your_hands, 7 + charges[gorbs as usize]);
    }
}

#[test]
fn timeout_effects_charge_no_blood() {
    let mut d = CurrentDialogue::empty();
    timer_update(true, 99, &mut d);
    let mut p = Player { gorb_count: 3, blood_on_your_hands: 99 };
    p.apply_effects(&d.effects);
    assert_eq!(p, Player { gorb_count: 0, blood_on_your_hands: 99 });
}

#[test]
fn chamber_stays_between_empty_and_full() {
    let mut p = Player::new();
    for step in 0..40 {
        match step % 4 {
            0 => {
                p.land();
            }
            1 => {
                gorb_transporter::player::check_for_player_on_gorb_hole(step % 8 == 1, &mut p);
            }
            2 => p.apply_effects(&arrival(p.gorb_count).effects),
            _ => {
                p.land();
            }
        }
        assert!(0 <= p.gorb_count && p.gorb_count <= 5);
    }
}
