//! What a change to the picture on screen leaves of the frame it replaces.
//!
//! Whether a definition can be hidden, shown or isolated is the picture's
//! answer. What follows from that answer is decided here: whether there is
//! anything to draw, whether what is chosen stays chosen, and whether what the
//! pointer was over (with any click, question or gesture still in flight) is
//! forgotten because it describes pixels that now mean something else.
use vstd::prelude::*;

verus! {

/// What follows a change to what is drawn, or to how it is drawn.
#[derive(Debug, Clone, Copy, PartialEq, Eq, Structural)]
pub struct Aftermath {
    /// Something changed on screen, which is a reason to draw.
    pub changed: bool,
    /// What is chosen is chosen no longer.
    pub unchoose: bool,
    /// What the pointer was over, and any click, question or gesture in
    /// flight, are forgotten: they belong to the frame being replaced.
    pub forget_frame: bool,
}

/// The aftermath of a change that either happened or did not, and that
/// unchooses when `unchoose` holds and it happened.
pub open spec fn aftermath_of(happened: bool, unchoose: bool) -> Aftermath {
    Aftermath { changed: happened, unchoose: happened && unchoose, forget_frame: happened }
}

/// Nothing happened: nothing to draw, and nothing is forgotten.
pub open spec fn nothing_happened() -> Aftermath {
    Aftermath { changed: false, unchoose: false, forget_frame: false }
}

fn aftermath(happened: bool, unchoose: bool) -> (after: Aftermath)
    ensures
        after == aftermath_of(happened, unchoose),
{
    Aftermath { changed: happened, unchoose: happened && unchoose, forget_frame: happened }
}

/// After hiding what is chosen: geometry nobody can see cannot remain chosen,
/// so the choice goes with it.
pub fn hide_selected(hidden: bool) -> (after: Aftermath)
    ensures
        after == aftermath_of(hidden, true),
        after.changed == hidden && after.unchoose == hidden && after.forget_frame == hidden,
{
    aftermath(hidden, true)
}

/// After drawing nothing but what is chosen: the choice is kept exactly, which
/// is the whole point of looking at the thing already chosen.
pub fn isolate_selected(isolated: bool) -> (after: Aftermath)
    ensures
        after == aftermath_of(isolated, false),
        after.changed == isolated && !after.unchoose && after.forget_frame == isolated,
{
    aftermath(isolated, false)
}

/// After switching projection: a change of view, which cannot decide what is
/// chosen.
pub fn change_projection(switched: bool) -> (after: Aftermath)
    ensures
        after == aftermath_of(switched, false),
        after.changed == switched && !after.unchoose && after.forget_frame == switched,
{
    aftermath(switched, false)
}

/// After taking back the last change to what is drawn.
///
/// `chosen_drawn` is whether the definition that owns the choice is drawn
/// once the change is taken back (`None` when nothing in this picture is
/// chosen). A choice still drawn survives exactly; one whose definition went
/// back off screen is cleared, for the same reason hiding it clears it.
/// Nothing is put back: there is no old choice to restore.
pub fn undo_visibility(undone: bool, chosen_drawn: Option<bool>) -> (after: Aftermath)
    ensures
        after == aftermath_of(undone, chosen_drawn == Some(false)),
        after.changed == undone && after.forget_frame == undone,
        after.unchoose == (undone && chosen_drawn == Some(false)),
{
    let gone = match chosen_drawn {
        Some(drawn) => !drawn,
        None => false,
    };
    aftermath(undone, gone)
}

/// After hiding one definition named by its row.
///
/// `hides_the_chosen` is whether the choice belongs to that definition: a
/// choice on another definition is untouched, and one on this definition goes
/// with it.
pub fn hide_one(hidden: bool, hides_the_chosen: bool) -> (after: Aftermath)
    ensures
        after == aftermath_of(hidden, hides_the_chosen),
        after.changed == hidden && after.forget_frame == hidden,
        after.unchoose == (hidden && hides_the_chosen),
{
    aftermath(hidden, hides_the_chosen)
}

/// After drawing one hidden definition again: returning to the screen is not
/// a decision about what the user is working on.
pub fn show_one(shown: bool) -> (after: Aftermath)
    ensures
        after == aftermath_of(shown, false),
        after.changed == shown && !after.unchoose && after.forget_frame == shown,
{
    aftermath(shown, false)
}

/// After drawing every definition again: putting things back is not choosing
/// them, and the choice is kept.
pub fn show_all(shown: bool) -> (after: Aftermath)
    ensures
        after == aftermath_of(shown, false),
        after.changed == shown && !after.unchoose && after.forget_frame == shown,
{
    aftermath(shown, false)
}

/// What a row of the list offers about whether its definition is drawn.
#[derive(Debug, Clone, Copy, PartialEq, Eq)]
pub enum RowOffer<P> {
    Hide(P),
    Show(P),
    Neither,
}

/// The one offer a row makes.
pub open spec fn offer_for<P>(pick: Option<P>, can_hide: bool, can_show: bool) -> RowOffer<P> {
    match pick {
        None => RowOffer::Neither,
        Some(pick) => if can_hide {
            RowOffer::Hide(pick)
        } else if can_show {
            RowOffer::Show(pick)
        } else {
            RowOffer::Neither
        },
    }
}

/// What one row of the list can offer, from what the picture says about it.
///
/// `pick` is the identity the picture gives the row (none for a row it does
/// not know), and the two answers are whether hiding or showing it would
/// change a pixel. One offer per row: a definition is either drawn or it is
/// not, and a row that draws nothing wherever it is offers neither.
pub fn row_offer<P>(pick: Option<P>, can_hide: bool, can_show: bool) -> (offer: RowOffer<P>)
    ensures
        offer == offer_for(pick, can_hide, can_show),
        pick is None ==> offer == RowOffer::<P>::Neither,
        pick is Some && can_hide ==> offer == RowOffer::Hide(pick.unwrap()),
        pick is Some && !can_hide && can_show ==> offer == RowOffer::Show(pick.unwrap()),
        pick is Some && !can_hide && !can_show ==> offer == RowOffer::<P>::Neither,
{
    match pick {
        None => RowOffer::Neither,
        Some(pick) => {
            if can_hide {
                RowOffer::Hide(pick)
            } else if can_show {
                RowOffer::Show(pick)
            } else {
                RowOffer::Neither
            }
        },
    }
}

/// An action with nothing to do asks for nothing: no frame, no forgotten
/// choice, and the frame it would have replaced is still the frame.
pub proof fn nothing_to_do_asks_for_nothing(unchoose: bool)
    ensures
        aftermath_of(false, unchoose) == nothing_happened(),
{
}

/// Every change that happened is a reason to draw and forgets the frame it
/// replaces; only hiding what is chosen, or taking back what made it drawn,
/// can unchoose.
pub proof fn every_change_forgets_the_old_frame(unchoose: bool)
    ensures
        aftermath_of(true, unchoose).changed,
        aftermath_of(true, unchoose).forget_frame,
        aftermath_of(true, unchoose).unchoose == unchoose,
{
}

} // verus!
