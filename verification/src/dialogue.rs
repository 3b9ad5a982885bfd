use crate::game::GameState;
use vstd::prelude::*;

verus! {

/// What confirming a dialogue does to the game.
#[derive(Clone, Copy, Debug, PartialEq, Eq, Structural, PartialOrd, Ord)]
pub enum DialogueEffect {
    /// The gorb chamber is emptied.
    GorbEmpty,
    /// The run is over: confirming returns to the main menu.
    GameOver,
    /// The given amount is added to the blood on the player's hands.
    IncreaseBlood(i32),
    /// The delivery target moves to a new place.
    ResetTargetLoc,
    /// The countdown starts over.
    BonusTime,
}

/// The dialogue on screen: its text and the effects that confirming it has.
#[derive(Clone, Debug)]
pub struct CurrentDialogue {
    pub message: String,
    pub effects: Vec<DialogueEffect>,
}

impl CurrentDialogue {
    /// A dialogue with no text and no effects.
    pub fn empty() -> (r: Self)
        ensures
            r.message@ == Seq::<char>::empty(),
            r.effects@ == Seq::<DialogueEffect>::empty(),
    {
        CurrentDialogue { message: String::new(), effects: Vec::new() }
    }
}

/// Whether `effects` holds `e`.
pub(crate) fn contains_effect(effects: &Vec<DialogueEffect>, e: DialogueEffect) -> (r: bool)
    ensures
        r == effects@.contains(e),
{
    let mut i: usize = 0;
    while i < effects.len()
        invariant
            i <= effects@.len(),
            forall|j: int| 0 <= j < i ==> effects@[j] != e,
        decreases effects@.len() - i,
    {
        if effects[i] == e {
            return true;
        }
        i = i + 1;
    }
    false
}

/// What confirming the dialogue on screen asks of the game.
#[derive(Clone, Copy, Debug, PartialEq, Eq, Structural)]
pub struct DialogueReply {
    /// The state to move to, if any confirm was pressed.
    pub next_state: Option<GameState>,
    /// Whether the players' share of the effects is to be applied
    /// (`Player::apply_effects`).
    pub apply_effects: bool,
    /// Whether the countdown starts over.
    pub reset_timer: bool,
    /// Whether the delivery target moves.
    pub reset_target: bool,
}

/// The reply to a dialogue with `effects`. A confirm from a gamepad or the
/// keyboard leaves the dialogue, for the main menu when the run is over and
/// for play otherwise; only the keyboard confirm of a dialogue that does not
/// end the run carries out its effects.
pub open spec fn dialogue_reply(
    effects: Seq<DialogueEffect>,
    gamepad_confirm: bool,
    keyboard_confirm: bool,
) -> DialogueReply {
    let game_over = effects.contains(DialogueEffect::GameOver);
    let apply = keyboard_confirm && !game_over;
    DialogueReply {
        next_state: if gamepad_confirm || keyboard_confirm {
            Some(
                if game_over {
                    GameState::MainMenu
                } else {
                    GameState::Movement
                },
            )
        } else {
            None
        },
        apply_effects: apply,
        reset_timer: apply && effects.contains(DialogueEffect::BonusTime),
        reset_target: apply && effects.contains(DialogueEffect::ResetTargetLoc),
    }
}

/// Handles the confirm presses while a dialogue is on screen.
pub fn handle_gamepad_input(
    current_dialogue: &CurrentDialogue,
    gamepad_confirm: bool,
    keyboard_confirm: bool,
) -> (r: DialogueReply)
    ensures
        r == dialogue_reply(current_dialogue.effects@, gamepad_confirm, keyboard_confirm),
{
    let game_over = contains_effect(&current_dialogue.effects, DialogueEffect::GameOver);
    let next_state = if gamepad_confirm || keyboard_confirm {
        if game_over {
            Some(GameState::MainMenu)
        } else {
            Some(GameState::Movement)
        }
    } else {
        None
    };
    let apply = keyboard_confirm && !game_over;
    let bonus = contains_effect(&current_dialogue.effects, DialogueEffect::BonusTime);
    let reset = contains_effect(&current_dialogue.effects, DialogueEffect::ResetTargetLoc);
    DialogueReply {
        next_state,
        apply_effects: apply,
        reset_timer: apply && bonus,
        reset_target: apply && reset,
    }
}

/// Decimal digit `d` (`0 <= d <= 9`) as a character.
pub open spec fn digit_char(d: nat) -> char {
    if d == 0 {
        '0'
    } else if d == 1 {
        '1'
    } else if d == 2 {
        '2'
    } else if d == 3 {
        '3'
    } else if d == 4 {
        '4'
    } else if d == 5 {
        '5'
    } else if d == 6 {
        '6'
    } else if d == 7 {
        '7'
    } else if d == 8 {
        '8'
    } else {
        '9'
    }
}

/// The decimal digits of `n`, most significant first, without leading zeros
/// (`0` is written `"0"`).
pub open spec fn nat_decimal(n: nat) -> Seq<char>
    decreases n,
{
    if n < 10 {
        seq![digit_char(n)]
    } else {
        nat_decimal(n / 10).push(digit_char(n % 10))
    }
}

/// The decimal notation of `i`, with a leading `-` when it is negative.
pub open spec fn int_decimal(i: int) -> Seq<char> {
    if i < 0 {
        seq!['-'] + nat_decimal((-i) as nat)
    } else {
        nat_decimal(i as nat)
    }
}

/// The value of a decimal digit character: its code minus the code of `'0'`.
pub open spec fn digit_value(c: char) -> int {
    (c as u32) - ('0' as u32)
}

/// The number that a string of decimal digits denotes.
pub open spec fn decimal_value(s: Seq<char>) -> int
    decreases s.len(),
{
    if s.len() == 0 {
        0
    } else {
        decimal_value(s.drop_last()) * 10 + digit_value(s.last())
    }
}

/// Each decimal digit is the character whose code is that of `'0'` plus the
/// digit.
pub proof fn lemma_digit_char_code(d: nat)
    requires
        d < 10,
    ensures
        digit_char(d) as u32 == '0' as u32 + d,
        digit_value(digit_char(d)) == d,
{
}

/// `nat_decimal(n)` is the decimal notation of `n`: it is made of digits
/// only, it denotes `n`, and it has no leading zero.
pub proof fn lemma_nat_decimal_denotes(n: nat)
    ensures
        nat_decimal(n).len() >= 1,
        forall|i: int|
            0 <= i < nat_decimal(n).len() ==> 0 <= #[trigger] digit_value(nat_decimal(n)[i]) <= 9,
        decimal_value(nat_decimal(n)) == n,
        n >= 10 ==> nat_decimal(n)[0] != '0',
    decreases n,
{
    if n < 10 {
        lemma_digit_char_code(n);
        let s = nat_decimal(n);
        assert(s.drop_last() =~= Seq::<char>::empty());
        assert(decimal_value(Seq::<char>::empty()) == 0);
        assert(decimal_value(s) == decimal_value(s.drop_last()) * 10 + digit_value(s.last()));
    } else {
        lemma_nat_decimal_denotes(n / 10);
        lemma_digit_char_code(n % 10);
        let s = nat_decimal(n);
        let prefix = nat_decimal(n / 10);
        assert(s.drop_last() =~= prefix);
        assert(s.last() == digit_char(n % 10));
        vstd::arithmetic::div_mod::lemma_fundamental_div_mod(n as int, 10);
        assert(decimal_value(s) == decimal_value(prefix) * 10 + digit_value(s.last()));
        assert(prefix[0] == s[0]);
        if n / 10 < 10 {
            assert(n / 10 >= 1);
            lemma_digit_char_code(n / 10);
        }
        assert forall|i: int| 0 <= i < s.len() implies 0 <= #[trigger] digit_value(s[i]) <= 9 by {
            if i < prefix.len() {
                assert(s[i] == prefix[i]);
            }
        }
    }
}

/// `int_decimal(i)` is the decimal notation of `i`: the notation of its
/// magnitude, after a `-` exactly when `i` is negative.
pub proof fn lemma_int_decimal_denotes(i: int)
    ensures
        i >= 0 ==> decimal_value(int_decimal(i)) == i,
        i < 0 ==> int_decimal(i)[0] == '-' && decimal_value(int_decimal(i).drop_first()) == -i,
{
    if i >= 0 {
        lemma_nat_decimal_denotes(i as nat);
    } else {
        lemma_nat_decimal_denotes((-i) as nat);
        assert(int_decimal(i).drop_first() =~= nat_decimal((-i) as nat));
    }
}

fn digit_str(d: u64) -> (r: &'static str)
    requires
        d < 10,
    ensures
        r@ == seq![digit_char(d as nat)],
{
    proof {
        reveal_strlit("0");
        reveal_strlit("1");
        reveal_strlit("2");
        reveal_strlit("3");
        reveal_strlit("4");
        reveal_strlit("5");
        reveal_strlit("6");
        reveal_strlit("7");
        reveal_strlit("8");
        reveal_strlit("9");
    }
    if d == 0 {
        "0"
    } else if d == 1 {
        "1"
    } else if d == 2 {
        "2"
    } else if d == 3 {
        "3"
    } else if d == 4 {
        "4"
    } else if d == 5 {
        "5"
    } else if d == 6 {
        "6"
    } else if d == 7 {
        "7"
    } else if d == 8 {
        "8"
    } else {
        "9"
    }
}

fn append_nat_decimal(s: &mut String, n: u64)
    ensures
        final(s)@ == old(s)@ + nat_decimal(n as nat),
    decreases n,
{
    if n >= 10 {
        append_nat_decimal(s, n / 10);
        let d = digit_str(n % 10);
        s.append(d);
    } else {
        let d = digit_str(n);
        s.append(d);
    }
}

/// Appends the decimal notation of `i` to `s`.
pub(crate) fn append_int_decimal(s: &mut String, i: i32)
    ensures
        final(s)@ == old(s)@ + int_decimal(i as int),
{
    if i < 0 {
        proof {
            reveal_strlit("-");
        }
        s.append("-");
        let magnitude: i64 = -(i as i64);
        append_nat_decimal(s, magnitude as u64);
        assert(final(s)@ =~= old(s)@ + int_decimal(i as int));
    } else {
        append_nat_decimal(s, i as u64);
    }
}

} // verus!
