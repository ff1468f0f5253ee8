use ferritecad_app::picture::{
    change_projection, hide_one, hide_selected, isolate_selected, row_offer, show_all, show_one,
    undo_visibility, Aftermath, RowOffer,
};

const NOTHING: Aftermath = Aftermath {
    changed: false,
    unchoose: false,
    forget_frame: false,
};

#[test]
fn nothing_to_do_is_no_reason_to_draw() {
    assert_eq!(hide_selected(false), NOTHING);
    assert_eq!(isolate_selected(false), NOTHING);
    assert_eq!(change_projection(false), NOTHING);
    assert_eq!(undo_visibility(false, Some(false)), NOTHING);
    assert_eq!(hide_one(false, true), NOTHING);
    assert_eq!(show_one(false), NOTHING);
    assert_eq!(show_all(false), NOTHING);
}

#[test]
fn hiding_the_choice_unchooses_and_forgets_the_frame() {
    assert_eq!(
        hide_selected(true),
        Aftermath {
            changed: true,
            unchoose: true,
            forget_frame: true,
        }
    );
}

#[test]
fn showing_and_isolating_keep_the_choice_and_forget_the_old_frame() {
    let kept = Aftermath {
        changed: true,
        unchoose: false,
        forget_frame: true,
    };
    assert_eq!(isolate_selected(true), kept);
    assert_eq!(show_one(true), kept);
    assert_eq!(show_all(true), kept);
    assert_eq!(change_projection(true), kept);
}

#[test]
fn hiding_a_row_unchooses_only_its_own_definition() {
    assert!(hide_one(true, true).unchoose, "the hidden definition stayed chosen");
    assert!(!hide_one(true, false).unchoose, "a choice on another definition was lost");
    assert!(hide_one(true, false).forget_frame);
}

#[test]
fn taking_back_a_change_unchooses_only_what_went_off_screen() {
    assert!(undo_visibility(true, Some(false)).unchoose);
    assert!(!undo_visibility(true, Some(true)).unchoose, "a choice still drawn was lost");
    assert!(!undo_visibility(true, None).unchoose);
    assert!(undo_visibility(true, Some(true)).forget_frame);
    assert!(undo_visibility(true, None).changed);
}

#[test]
fn a_row_offers_hide_before_show_and_nothing_without_a_pick() {
    assert_eq!(row_offer(Some(7u32), true, false), RowOffer::Hide(7));
    assert_eq!(row_offer(Some(7u32), false, true), RowOffer::Show(7));
    assert_eq!(row_offer(Some(7u32), false, false), RowOffer::Neither);
    assert_eq!(row_offer(Some(7u32), true, true), RowOffer::Hide(7));
    assert_eq!(row_offer(None::<u32>, true, true), RowOffer::Neither);
}
