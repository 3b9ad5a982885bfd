use crate::dialogue::{
    CurrentDialogue, DialogueEffect, DialogueReply, append_int_decimal, dialogue_reply, int_decimal,
};
use crate::player::{blood_fits, blood_total, gorbs_after};
use vstd::prelude::*;

verus! {

/// The screens the game moves between.
#[derive(Clone, Copy, PartialEq, Eq, Structural, Hash, Debug)]
pub enum GameState {
    MainMenu,
    Dialogue,
    Movement,
}

impl Default for GameState {
    /// The game starts in the main menu.
    fn default() -> (r: Self)
        ensures
            r == GameState::MainMenu,
    {
        GameState::MainMenu
    }
}

/// In the main menu, a confirm press on a gamepad or the keyboard starts a
/// run; otherwise the state stays.
pub fn handle_gamepad_input_menu(gamepad_confirm: bool, keyboard_confirm: bool) -> (next: Option<
    GameState,
>)
    ensures
        next == (if gamepad_confirm || keyboard_confirm {
            Some(GameState::Movement)
        } else {
            None
        }),
{
    if gamepad_confirm || keyboard_confirm {
        Some(GameState::Movement)
    } else {
        None
    }
}

/// What the receivers say when the player arrives carrying `gorb_count` gorbs.
pub open spec fn arrival_message(gorb_count: i32) -> Seq<char> {
    if gorb_count == 0 {
        "you come bearing no gorbs, the children will perish, scoundrel"@
    } else if gorb_count == 1 {
        "one gorb does not a savior make, how can we choose who will live?"@
    } else if gorb_count == 2 {
        "you did all you could to get these two gorbs - and it sucks, you suck"@
    } else if gorb_count == 3 {
        "they will fight each other for these gorbs..."@
    } else if gorb_count == 4 {
        "meager gorbage this is not, many thanks for your transport"@
    } else if gorb_count == 5 {
        "a wealth of gorbs! some chirldren will live!"@
    } else {
        "we know not how many gorbs were recieved"@
    }
}

/// The blood charged for arriving with `gorb_count` gorbs.
pub open spec fn arrival_blood(gorb_count: i32) -> i32 {
    if gorb_count == 0 {
        300
    } else if gorb_count == 1 {
        250
    } else if gorb_count == 2 {
        100
    } else if gorb_count == 3 {
        136
    } else if gorb_count == 4 {
        70
    } else if gorb_count == 5 {
        15
    } else {
        5
    }
}

/// The effects of the arrival dialogue for `gorb_count` gorbs, in order.
pub open spec fn arrival_effects(gorb_count: i32) -> Seq<DialogueEffect> {
    let blood = DialogueEffect::IncreaseBlood(arrival_blood(gorb_count));
    if gorb_count == 0 {
        seq![blood, DialogueEffect::ResetTargetLoc]
    } else if gorb_count == 1 || gorb_count == 2 {
        seq![blood, DialogueEffect::ResetTargetLoc, DialogueEffect::GorbEmpty]
    } else if gorb_count == 4 || gorb_count == 5 {
        seq![
            blood,
            DialogueEffect::GorbEmpty,
            DialogueEffect::ResetTargetLoc,
            DialogueEffect::BonusTime,
        ]
    } else {
        seq![blood, DialogueEffect::GorbEmpty, DialogueEffect::ResetTargetLoc]
    }
}

/// The verdict when time runs out with `blood` on the player's hands.
pub open spec fn timeout_message(blood: i32) -> Seq<char> {
    "worthless gorb transporter, blood of "@ + int_decimal(blood as int)
        + " gorbless is on your hands. try again."@
}

/// The effects of the timeout dialogue.
pub open spec fn timeout_effects() -> Seq<DialogueEffect> {
    seq![DialogueEffect::GorbEmpty, DialogueEffect::GameOver]
}

/// Reaching the delivery target opens the arrival dialogue for the gorbs
/// carried; otherwise nothing changes.
pub fn check_for_player_on_target(
    on_target: bool,
    gorb_count: i32,
    current_dialogue: &mut CurrentDialogue,
) -> (next: Option<GameState>)
    ensures
        on_target ==> {
            &&& final(current_dialogue).message@ == arrival_message(gorb_count)
            &&& final(current_dialogue).effects@ == arrival_effects(gorb_count)
            &&& next == Some(GameState::Dialogue)
        },
        !on_target ==> {
            &&& final(current_dialogue).message@ == old(current_dialogue).message@
            &&& final(current_dialogue).effects@ == old(current_dialogue).effects@
            &&& next is None
        },
{
    if !on_target {
        return None;
    }
    match gorb_count {
        0 => {
            current_dialogue.message = String::from_str(
                "you come bearing no gorbs, the children will perish, scoundrel",
            );
            current_dialogue.effects = vec![
                DialogueEffect::IncreaseBlood(300),
                DialogueEffect::ResetTargetLoc,
            ];
        },
        1 => {
            current_dialogue.message = String::from_str(
                "one gorb does not a savior make, how can we choose who will live?",
            );
            current_dialogue.effects = vec![
                DialogueEffect::IncreaseBlood(250),
                DialogueEffect::ResetTargetLoc,
                DialogueEffect::GorbEmpty,
            ];
        },
        2 => {
            current_dialogue.message = String::from_str(
                "you did all you could to get these two gorbs - and it sucks, you suck",
            );
            current_dialogue.effects = vec![
                DialogueEffect::IncreaseBlood(100),
                DialogueEffect::ResetTargetLoc,
                DialogueEffect::GorbEmpty,
            ];
        },
        3 => {
            current_dialogue.message = String::from_str(
                "they will fight each other for these gorbs...",
            );
            current_dialogue.effects = vec![
                DialogueEffect::IncreaseBlood(136),
                DialogueEffect::GorbEmpty,
                DialogueEffect::ResetTargetLoc,
            ];
        },
        4 => {
            current_dialogue.message = String::from_str(
                "meager gorbage this is not, many thanks for your transport",
            );
            current_dialogue.effects = vec![
                DialogueEffect::IncreaseBlood(70),
                DialogueEffect::GorbEmpty,
                DialogueEffect::ResetTargetLoc,
                DialogueEffect::BonusTime,
            ];
        },
        5 => {
            current_dialogue.message = String::from_str(
                "a wealth of gorbs! some chirldren will live!",
            );
            current_dialogue.effects = vec![
                DialogueEffect::IncreaseBlood(15),
                DialogueEffect::GorbEmpty,
                DialogueEffect::ResetTargetLoc,
                DialogueEffect::BonusTime,
            ];
        },
        _ => {
            current_dialogue.message = String::from_str(
                "we know not how many gorbs were recieved",
            );
            current_dialogue.effects = vec![
                DialogueEffect::IncreaseBlood(5),
                DialogueEffect::GorbEmpty,
                DialogueEffect::ResetTargetLoc,
            ];
        },
    }
    Some(GameState::Dialogue)
}

/// When the countdown has finished, the timeout dialogue naming the blood on
/// the player's hands opens; otherwise nothing changes.
pub fn timer_update(
    timer_finished: bool,
    player_blood: i32,
    current_dialogue: &mut CurrentDialogue,
) -> (next: Option<GameState>)
    ensures
        timer_finished ==> {
            &&& final(current_dialogue).message@ == timeout_message(player_blood)
            &&& final(current_dialogue).effects@ == timeout_effects()
            &&& next == Some(GameState::Dialogue)
        },
        !timer_finished ==> {
            &&& final(current_dialogue).message@ == old(current_dialogue).message@
            &&& final(current_dialogue).effects@ == old(current_dialogue).effects@
            &&& next is None
        },
{
    if !timer_finished {
        return None;
    }
    let mut message = String::from_str("worthless gorb transporter, blood of ");
    append_int_decimal(&mut message, player_blood);
    message.append(" gorbless is on your hands. try again.");
    current_dialogue.message = message;
    current_dialogue.effects = vec![DialogueEffect::GorbEmpty, DialogueEffect::GameOver];
    Some(GameState::Dialogue)
}

/// Confirming the timeout dialogue, from a gamepad or the keyboard, always
/// returns to the main menu and carries out none of its effects.
pub proof fn lemma_timeout_returns_to_menu(gamepad_confirm: bool, keyboard_confirm: bool)
    requires
        gamepad_confirm || keyboard_confirm,
    ensures
        dialogue_reply(timeout_effects(), gamepad_confirm, keyboard_confirm) == (DialogueReply {
            next_state: Some(GameState::MainMenu),
            apply_effects: false,
            reset_timer: false,
            reset_target: false,
        }),
{
    assert(timeout_effects()[1] == DialogueEffect::GameOver);
}

/// Confirming an arrival dialogue returns to play. From the keyboard it
/// moves the target, and restarts the countdown exactly when four or five
/// gorbs were delivered.
pub proof fn lemma_arrival_resumes_play(
    gorb_count: i32,
    gamepad_confirm: bool,
    keyboard_confirm: bool,
)
    requires
        gamepad_confirm || keyboard_confirm,
    ensures
        dialogue_reply(arrival_effects(gorb_count), gamepad_confirm, keyboard_confirm).next_state
            == Some(GameState::Movement),
        dialogue_reply(arrival_effects(gorb_count), gamepad_confirm, keyboard_confirm).apply_effects
            == keyboard_confirm,
        keyboard_confirm ==> dialogue_reply(
            arrival_effects(gorb_count),
            gamepad_confirm,
            keyboard_confirm,
        ).reset_target,
        keyboard_confirm ==> (dialogue_reply(
            arrival_effects(gorb_count),
            gamepad_confirm,
            keyboard_confirm,
        ).reset_timer <==> (gorb_count == 4 || gorb_count == 5)),
{
    let effects = arrival_effects(gorb_count);
    assert(!effects.contains(DialogueEffect::GameOver)) by {
        if effects.contains(DialogueEffect::GameOver) {
            let j = choose|j: int| 0 <= j < effects.len() && effects[j] == DialogueEffect::GameOver;
            assert(effects[j] != DialogueEffect::GameOver);
        }
    }
    if gorb_count == 0 {
        assert(effects[1] == DialogueEffect::ResetTargetLoc);
    } else if gorb_count == 1 || gorb_count == 2 {
        assert(effects[1] == DialogueEffect::ResetTargetLoc);
    } else {
        assert(effects[2] == DialogueEffect::ResetTargetLoc);
    }
    if gorb_count == 4 || gorb_count == 5 {
        assert(effects[3] == DialogueEffect::BonusTime);
    } else {
        assert(!effects.contains(DialogueEffect::BonusTime)) by {
            if effects.contains(DialogueEffect::BonusTime) {
                let j = choose|j: int|
                    0 <= j < effects.len() && effects[j] == DialogueEffect::BonusTime;
                assert(effects[j] != DialogueEffect::BonusTime);
            }
        }
    }
}

/// Carrying out a delivery's effects always leaves the chamber empty and
/// adds the delivery's blood charge, which is between 5 and 300; the charge
/// fits whenever the blood so far is non-negative and room remains for it.
pub proof fn lemma_delivery_empties_chamber(gorb_count: i32, blood: i32)
    ensures
        gorbs_after(gorb_count, arrival_effects(gorb_count)) == 0,
        blood_total(arrival_effects(gorb_count)) == arrival_blood(gorb_count),
        5 <= arrival_blood(gorb_count) <= 300,
        0 <= blood <= i32::MAX - arrival_blood(gorb_count) ==> blood_fits(
            blood,
            arrival_effects(gorb_count),
        ),
{
    let effects = arrival_effects(gorb_count);
    if gorb_count != 0 {
        if gorb_count == 1 || gorb_count == 2 {
            assert(effects[2] == DialogueEffect::GorbEmpty);
        } else {
            assert(effects[1] == DialogueEffect::GorbEmpty);
        }
    }
    reveal_with_fuel(blood_total, 5);
    assert forall|k: int| 0 <= k <= effects.len() implies blood_total(#[trigger] effects.take(k))
        == if k == 0 {
        0
    } else {
        arrival_blood(gorb_count) as int
    } by {
        if k > 0 {
            lemma_blood_total_tail_free(effects.take(k));
        }
    }
    assert(effects.take(effects.len() as int) =~= effects);
}

/// A sequence whose effects after the first add no blood totals the blood
/// of its first effect.
proof fn lemma_blood_total_tail_free(effects: Seq<DialogueEffect>)
    requires
        effects.len() > 0,
        forall|j: int| 1 <= j < effects.len() ==> blood_of_zero(#[trigger] effects[j]),
    ensures
        blood_total(effects) == crate::player::blood_of(effects[0]),
    decreases effects.len(),
{
    assert(blood_total(effects) == blood_total(effects.drop_last()) + crate::player::blood_of(
        effects.last(),
    ));
    if effects.len() > 1 {
        assert(blood_of_zero(effects[effects.len() - 1]));
        assert(effects.drop_last()[0] == effects[0]);
        lemma_blood_total_tail_free(effects.drop_last());
    } else {
        assert(effects.drop_last() =~= Seq::<DialogueEffect>::empty());
        assert(blood_total(Seq::<DialogueEffect>::empty()) == 0);
    }
}

spec fn blood_of_zero(e: DialogueEffect) -> bool {
    crate::player::blood_of(e) == 0
}

/// The timeout dialogue charges no blood and empties the chamber.
pub proof fn lemma_timeout_charges_nothing(gorb_count: i32, blood: i32)
    ensures
        blood_total(timeout_effects()) == 0,
        gorbs_after(gorb_count, timeout_effects()) == 0,
        blood_fits(blood, timeout_effects()),
{
    let effects = timeout_effects();
    reveal_with_fuel(blood_total, 3);
    assert(effects[0] == DialogueEffect::GorbEmpty);
    assert forall|k: int| 0 <= k <= effects.len() implies blood_total(#[trigger] effects.take(k))
        == 0 by {
        if k == 1 {
            assert(effects.take(1).drop_last() =~= Seq::<DialogueEffect>::empty());
        } else if k == 2 {
            assert(effects.take(2) =~= effects);
            assert(effects.drop_last() =~= seq![DialogueEffect::GorbEmpty]);
            assert(effects.drop_last().drop_last() =~= Seq::<DialogueEffect>::empty());
        }
    }
    assert(effects.take(2) =~= effects);
}

} // verus!
