use vstd::prelude::*;

verus! {

/// How the gorb icons in the chamber display must change: `None` when the
/// display already shows `gorb_count` icons, else the number of icons to
/// draw after clearing it (none for a negative count).
pub open spec fn gorb_icons_needed(ui_gorb_count: i32, gorb_count: i32) -> Option<u32> {
    if ui_gorb_count == gorb_count {
        None
    } else if gorb_count < 0 {
        Some(0)
    } else {
        Some(gorb_count as u32)
    }
}

/// Compares the icons on display with the gorbs in the chamber and says how
/// many icons to redraw, if any.
pub fn update_gorb_count(ui_gorb_count: i32, gorb_count: i32) -> (r: Option<u32>)
    ensures
        r == gorb_icons_needed(ui_gorb_count, gorb_count),
{
    if gorb_count != ui_gorb_count {
        if gorb_count < 0 {
            Some(0)
        } else {
            Some(gorb_count as u32)
        }
    } else {
        None
    }
}

/// The display is left alone exactly when it already shows as many icons as
/// the chamber holds gorbs; when it is redrawn for a non-negative count, it
/// is redrawn with exactly that many icons.
pub proof fn lemma_redraw_matches_chamber(ui_gorb_count: i32, gorb_count: i32)
    ensures
        (gorb_icons_needed(ui_gorb_count, gorb_count) is None) == (ui_gorb_count == gorb_count),
        gorb_count >= 0 ==> (gorb_icons_needed(ui_gorb_count, gorb_count) matches Some(n) ==> n
            == gorb_count),
{
}

/// Once the display is redrawn for a non-negative gorb count, it is left
/// alone until the count changes again.
pub proof fn lemma_redraw_settles(ui_gorb_count: i32, gorb_count: i32)
    requires
        gorb_count >= 0,
    ensures
        gorb_icons_needed(ui_gorb_count, gorb_count) matches Some(n) ==> gorb_icons_needed(
            n as i32,
            gorb_count,
        ) is None,
{
}

} // verus!
