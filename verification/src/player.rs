use crate::dialogue::DialogueEffect;
use vstd::prelude::*;

verus! {

/// Gorbs in a full chamber.
pub const DEFAULT_GORB_COUNT: i32 = 5;

/// What the game rules count of the player: the gorbs in the chamber and the
/// blood on the player's hands. Position and motion are floating-point and
/// are kept by the renderer beside this record.
#[derive(Clone, Copy, Debug, PartialEq, Eq, Structural)]
pub struct Player {
    pub gorb_count: i32,
    pub blood_on_your_hands: i32,
}

/// The chamber holds between none and a full load of gorbs.
pub open spec fn chamber_in_range(p: Player) -> bool {
    0 <= p.gorb_count <= DEFAULT_GORB_COUNT
}

/// The blood that effect `e` adds.
pub open spec fn blood_of(e: DialogueEffect) -> int {
    match e {
        DialogueEffect::IncreaseBlood(n) => n as int,
        _ => 0,
    }
}

/// The blood that all of `effects` add together.
pub open spec fn blood_total(effects: Seq<DialogueEffect>) -> int
    decreases effects.len(),
{
    if effects.len() == 0 {
        0
    } else {
        blood_total(effects.drop_last()) + blood_of(effects.last())
    }
}

/// Applying `effects` one by one to `blood` never leaves the range of `i32`.
pub open spec fn blood_fits(blood: i32, effects: Seq<DialogueEffect>) -> bool {
    forall|k: int|
        0 <= k <= effects.len() ==> i32::MIN <= blood + #[trigger] blood_total(effects.take(k))
            <= i32::MAX
}

/// The gorb count after `effects`: zero if any of them empties the chamber.
pub open spec fn gorbs_after(gorb_count: i32, effects: Seq<DialogueEffect>) -> i32 {
    if effects.contains(DialogueEffect::GorbEmpty) {
        0
    } else {
        gorb_count
    }
}

/// The gorb count after a jump ends: one gorb fewer, never below zero.
pub open spec fn gorbs_after_landing(gorb_count: i32) -> int {
    if gorb_count == 0 {
        0
    } else {
        gorb_count - 1
    }
}

/// The floating text shown when a jump ends with `gorb_count` gorbs aboard.
pub open spec fn landing_text(gorb_count: i32) -> Seq<char> {
    if gorb_count != 0 {
        "gorb borked"@
    } else {
        "gorbless"@
    }
}

impl Player {
    /// A player with a full chamber and clean hands.
    pub fn new() -> (r: Self)
        ensures
            r.gorb_count == DEFAULT_GORB_COUNT,
            r.blood_on_your_hands == 0,
    {
        Player { gorb_count: DEFAULT_GORB_COUNT, blood_on_your_hands: 0 }
    }

    /// Ends a jump: a gorb breaks if there is one aboard. Returns the text to
    /// float above the player.
    pub fn land(&mut self) -> (text: String)
        requires
            old(self).gorb_count != i32::MIN,
        ensures
            final(self).gorb_count == gorbs_after_landing(old(self).gorb_count),
            final(self).blood_on_your_hands == old(self).blood_on_your_hands,
            text@ == landing_text(old(self).gorb_count),
            chamber_in_range(*old(self)) ==> chamber_in_range(*final(self)),
    {
        let text = if self.gorb_count != 0 {
            String::from_str("gorb borked")
        } else {
            String::from_str("gorbless")
        };
        self.gorb_count = if self.gorb_count == 0 {
            0
        } else {
            self.gorb_count - 1
        };
        text
    }

    /// Applies the player's share of a confirmed dialogue's effects, in
    /// order: blood is added, the chamber may be emptied.
    pub fn apply_effects(&mut self, effects: &Vec<DialogueEffect>)
        requires
            blood_fits(old(self).blood_on_your_hands, effects@),
        ensures
            final(self).gorb_count == gorbs_after(old(self).gorb_count, effects@),
            final(self).blood_on_your_hands == old(self).blood_on_your_hands + blood_total(
                effects@,
            ),
            chamber_in_range(*old(self)) ==> chamber_in_range(*final(self)),
    {
        let ghost start = *self;
        let mut i: usize = 0;
        while i < effects.len()
            invariant
                i <= effects@.len(),
                blood_fits(start.blood_on_your_hands, effects@),
                self.blood_on_your_hands == start.blood_on_your_hands + blood_total(
                    effects@.take(i as int),
                ),
                self.gorb_count == gorbs_after(start.gorb_count, effects@.take(i as int)),
            decreases effects@.len() - i,
        {
            let e = effects[i];
            proof {
                let next = effects@.take(i + 1);
                assert(next.drop_last() =~= effects@.take(i as int));
                assert(next.last() == e);
                assert(i32::MIN <= start.blood_on_your_hands + blood_total(next) <= i32::MAX);
                assert(next =~= effects@.take(i as int).push(e));
                if next.contains(DialogueEffect::GorbEmpty) {
                    let j = choose|j: int| 0 <= j < next.len() && next[j] == DialogueEffect::GorbEmpty;
                    if j < i {
                        assert(effects@.take(i as int)[j] == DialogueEffect::GorbEmpty);
                    }
                }
                if effects@.take(i as int).contains(DialogueEffect::GorbEmpty) {
                    let j = choose|j: int| 0 <= j < i && effects@.take(i as int)[j] == DialogueEffect::GorbEmpty;
                    assert(next[j] == DialogueEffect::GorbEmpty);
                }
                if e == DialogueEffect::GorbEmpty {
                    assert(next[i as int] == DialogueEffect::GorbEmpty);
                }
            }
            match e {
                DialogueEffect::IncreaseBlood(blood_add) => {
                    self.blood_on_your_hands = self.blood_on_your_hands + blood_add;
                },
                DialogueEffect::GorbEmpty => {
                    self.gorb_count = 0;
                },
                _ => {},
            }
            i = i + 1;
        }
        proof {
            assert(effects@.take(effects@.len() as int) =~= effects@);
        }
    }
}

impl Default for Player {
    /// The same as `Player::new()`.
    fn default() -> (r: Self)
        ensures
            r.gorb_count == DEFAULT_GORB_COUNT,
            r.blood_on_your_hands == 0,
    {
        Player { gorb_count: DEFAULT_GORB_COUNT, blood_on_your_hands: 0 }
    }
}

/// Whether standing (or not) on the gorb hole refills the chamber: it does
/// when the player stands there and the chamber is not full.
pub open spec fn refills_at_gorb_hole(p: Player, on_gorb_hole: bool) -> bool {
    on_gorb_hole && p.gorb_count != DEFAULT_GORB_COUNT
}

/// The player after the gorb hole check.
pub open spec fn after_gorb_hole(p: Player, on_gorb_hole: bool) -> Player {
    if refills_at_gorb_hole(p, on_gorb_hole) {
        Player { gorb_count: DEFAULT_GORB_COUNT, ..p }
    } else {
        p
    }
}

/// Standing on the gorb hole refills a chamber that is not full and returns
/// the text to float up; otherwise nothing happens.
pub fn check_for_player_on_gorb_hole(on_gorb_hole: bool, player: &mut Player) -> (text: Option<
    String,
>)
    ensures
        *final(player) == after_gorb_hole(*old(player), on_gorb_hole),
        refills_at_gorb_hole(*old(player), on_gorb_hole) ==> (text matches Some(t) && t@
            == "gorbs chamber refill"@),
        !refills_at_gorb_hole(*old(player), on_gorb_hole) ==> text is None,
        chamber_in_range(*old(player)) ==> chamber_in_range(*final(player)),
{
    if on_gorb_hole && player.gorb_count != DEFAULT_GORB_COUNT {
        player.gorb_count = DEFAULT_GORB_COUNT;
        Some(String::from_str("gorbs chamber refill"))
    } else {
        None
    }
}

/// Standing on the gorb hole always leaves a full chamber and the blood as
/// it was; a chamber that is not full (an empty one included) is refilled
/// there, with the refill text. Away from the hole nothing changes.
pub proof fn lemma_gorb_hole_fills_chamber(p: Player)
    ensures
        after_gorb_hole(p, true).gorb_count == DEFAULT_GORB_COUNT,
        after_gorb_hole(p, true).blood_on_your_hands == p.blood_on_your_hands,
        p.gorb_count != DEFAULT_GORB_COUNT ==> refills_at_gorb_hole(p, true),
        after_gorb_hole(p, false) == p,
        !refills_at_gorb_hole(p, false),
{
}

/// A landing loses at most one gorb, never goes below zero, loses one
/// whenever one is aboard, and says "gorb borked" exactly when a gorb was
/// lost and "gorbless" otherwise.
pub proof fn lemma_landing_text_tells_loss(gorb_count: i32)
    requires
        gorb_count >= 0,
    ensures
        0 <= gorbs_after_landing(gorb_count) <= gorb_count,
        gorb_count - gorbs_after_landing(gorb_count) <= 1,
        gorb_count > 0 ==> gorbs_after_landing(gorb_count) < gorb_count,
        landing_text(gorb_count) == (if gorbs_after_landing(gorb_count) < gorb_count {
            "gorb borked"@
        } else {
            "gorbless"@
        }),
{
}

/// A refill is done once: checking the gorb hole again right after changes
/// nothing and shows no text.
pub proof fn lemma_refill_once(p: Player, on_gorb_hole: bool)
    ensures
        !refills_at_gorb_hole(after_gorb_hole(p, on_gorb_hole), on_gorb_hole),
        after_gorb_hole(after_gorb_hole(p, on_gorb_hole), on_gorb_hole) == after_gorb_hole(
            p,
            on_gorb_hole,
        ),
{
}

/// Every rule that touches the chamber keeps it between empty and full:
/// a jump's landing, the effects of a dialogue, and the gorb hole.
pub proof fn lemma_chamber_stays_in_range(
    p: Player,
    effects: Seq<DialogueEffect>,
    on_gorb_hole: bool,
)
    requires
        chamber_in_range(p),
    ensures
        0 <= gorbs_after_landing(p.gorb_count) <= DEFAULT_GORB_COUNT,
        0 <= gorbs_after(p.gorb_count, effects) <= DEFAULT_GORB_COUNT,
        chamber_in_range(after_gorb_hole(p, on_gorb_hole)),
{
}

} // verus!
