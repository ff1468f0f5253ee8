use ferritecad_app::loads::{
    finish_answer, ConflictFacts, LoadGeneration, Loads, Refusal, Status, WHOLE,
};
use ferritecad_app::paths::short_name;
use ferritecad_app::words::{ConstraintRule, StoredConstraint};

/// A refusal that is only a sentence.
fn refusal(message: &str) -> Refusal {
    Refusal {
        message: message.to_string(),
        conflict: None,
    }
}

/// A refusal that is a conflict between two sizes of one sketch.
fn conflict(message: &str) -> Refusal {
    let size = |id: &str, distance: &str| StoredConstraint {
        id: id.to_string(),
        rule: ConstraintRule::Distance {
            a: "c1.start".to_string(),
            b: "c1.end".to_string(),
            distance: distance.to_string(),
        },
    };
    Refusal {
        message: message.to_string(),
        conflict: Some(ConflictFacts {
            sketch: "sketch-7".to_string(),
            constraints: vec![size("k9", "60"), size("k10", "40")],
        }),
    }
}

#[test]
fn every_request_gets_its_own_generation() {
    let mut loads: Loads<()> = Loads::default();

    let mut generations = Vec::new();
    for _ in 0..3 {
        generations.push(
            loads
                .open(Some("a.fcad"), ())
                .expect("a document was named, so a load started"),
        );
    }

    // Monotonic, so a late answer can be recognised as late rather than as
    // coincidentally equal to something started afterwards.
    assert!(generations[0] < generations[1] && generations[1] < generations[2]);
    assert!(loads.accepts(generations[2]));
    assert!(
        !loads.accepts(generations[0]),
        "an abandoned load is current"
    );

    loads.stop_all();
}

#[test]
fn a_closed_dialog_changes_nothing() {
    let mut loads: Loads<()> = Loads::default();
    let a = loads.open(Some("a.fcad"), ()).expect("a document was named");
    finish_answer(&mut loads, a, Err(conflict("invalid input: cannot be solved")));
    let before = loads.status().clone();

    assert_eq!(loads.open(None, ()), None);
    assert_eq!(*loads.status(), before);
    assert!(loads.conflict().is_some(), "closing a dialog took down the account");
    assert_eq!(loads.issued(), 1, "closing a dialog spent a generation");
}

#[test]
fn the_line_names_the_file_being_opened_and_then_the_one_that_opened() {
    let mut loads: Loads<()> = Loads::default();
    assert_eq!(*loads.status(), Status::Idle);
    assert_eq!(loads.status().line(), "No document");
    assert_eq!(loads.status().fraction(), None);

    let a = loads
        .open(Some("/models/bracket.fcad"), ())
        .expect("a document was named");
    assert_eq!(
        *loads.status(),
        Status::Loading {
            generation: a,
            file: "bracket.fcad".to_owned(),
            fraction: 0,
        }
    );
    assert_eq!(loads.status().line(), "Opening bracket.fcad… 0%");
    assert_eq!(loads.status().fraction(), Some(0));

    let effect = finish_answer(&mut loads, a, Ok(()));
    assert!(effect.status_changed, "the line changed and no frame was owed");
    assert_eq!(effect.error, None);
    assert_eq!(
        *loads.status(),
        Status::Ready {
            file: "bracket.fcad".to_owned()
        }
    );
    assert_eq!(loads.status().line(), "bracket.fcad");
    assert!(!loads.accepts(a), "an answered request is still current");
}

#[test]
fn a_failure_says_why_and_reaches_the_diagnostic_stream_once() {
    let mut loads: Loads<()> = Loads::default();
    let a = loads.open(Some("good.fcad"), ()).expect("a document was named");
    finish_answer(&mut loads, a, Ok(()));

    let b = loads.open(Some("broken.fcad"), ()).expect("a document was named");
    let effect = finish_answer(
        &mut loads,
        b,
        Err(refusal("invalid input: this is not a document")),
    );
    assert!(effect.status_changed);
    assert_eq!(
        effect.error.as_deref(),
        Some("invalid input: this is not a document"),
        "the current failure was hidden from the diagnostic stream"
    );
    assert_eq!(
        *loads.status(),
        Status::Failed {
            file: "broken.fcad".to_owned(),
            message: "invalid input: this is not a document".to_owned(),
        }
    );
    assert_eq!(
        loads.status().line(),
        "broken.fcad: invalid input: this is not a document"
    );
    assert!(loads.conflict().is_none(), "a failure with no parts left an account");

    // Giving up on nothing: the failure already ended the request.
    assert!(!loads.cancel_current());
}

#[test]
fn the_answer_to_the_older_request_changes_neither_line_nor_diagnostics() {
    let mut loads: Loads<()> = Loads::default();
    let a = loads.open(Some("a.fcad"), ()).expect("a document was named");
    let b = loads.open(Some("b.fcad"), ()).expect("a document was named");

    let waiting_for_b = loads.status().clone();
    assert!(!finish_answer(&mut loads, a, Ok(())).status_changed);
    assert_eq!(*loads.status(), waiting_for_b);
    assert_eq!(loads.status().line(), "Opening b.fcad… 0%");
    assert!(loads.accepts(b), "a stale answer ended the current request");

    assert!(finish_answer(&mut loads, b, Ok(())).status_changed);
    let stale = finish_answer(&mut loads, a, Err(conflict("A was unreadable")));
    assert!(!stale.status_changed, "an abandoned failure asked for a frame");
    assert_eq!(stale.error, None, "an abandoned failure escaped to the diagnostic stream");
    assert!(loads.conflict().is_none(), "an abandoned failure left an account");
    assert_eq!(
        *loads.status(),
        Status::Ready {
            file: "b.fcad".to_owned()
        }
    );
}

#[test]
fn progress_moves_the_line_only_by_what_can_be_seen() {
    let mut loads: Loads<()> = Loads::default();
    let a = loads.open(Some("part.fcad"), ()).expect("a document was named");

    assert!(loads.progressed(a, 5000));
    assert_eq!(loads.status().line(), "Opening part.fcad… 50%");
    assert_eq!(loads.status().fraction(), Some(5000));

    // A difference nobody could see is not worth a frame.
    assert!(!loads.progressed(a, 5020));
    assert!(!loads.progressed(a, 4951));
    assert_eq!(loads.status().fraction(), Some(5000));
    assert!(loads.progressed(a, 5050));

    // More than the whole is the whole.
    assert!(loads.progressed(a, WHOLE + 7));
    assert_eq!(loads.status().fraction(), Some(WHOLE));
    assert_eq!(loads.status().line(), "Opening part.fcad… 100%");
}

#[test]
fn the_line_rounds_to_the_nearest_per_cent() {
    let loading = |fraction: u32| Status::Loading {
        generation: LoadGeneration(1),
        file: "p".to_owned(),
        fraction,
    };
    assert_eq!(loading(0).line(), "Opening p… 0%");
    assert_eq!(loading(49).line(), "Opening p… 0%");
    assert_eq!(loading(51).line(), "Opening p… 1%");
    assert_eq!(loading(2500).line(), "Opening p… 25%");
    assert_eq!(loading(4949).line(), "Opening p… 49%");
    // Halfway between two, the even one, as a number is printed.
    assert_eq!(loading(4950).line(), "Opening p… 50%");
    assert_eq!(loading(4850).line(), "Opening p… 48%");
    assert_eq!(loading(9999).line(), "Opening p… 100%");
    assert_eq!(loading(WHOLE).line(), "Opening p… 100%");
}

#[test]
fn progress_from_an_abandoned_reading_is_ignored() {
    let mut loads: Loads<&str> = Loads::default();
    let a = loads.open(Some("a.fcad"), "relay of a").expect("a document was named");
    assert_eq!(loads.relay(a), Some(&"relay of a"));

    let b = loads.open(Some("b.fcad"), "relay of b").expect("a document was named");
    assert_eq!(loads.relay(a), None, "an abandoned reading still has somewhere to report");
    assert_eq!(loads.relay(b), Some(&"relay of b"));

    assert!(!loads.progressed(a, 9000));
    assert_eq!(loads.status().line(), "Opening b.fcad… 0%");

    assert!(loads.progressed(b, 2500), "the current reading was ignored");
    assert_eq!(loads.status().line(), "Opening b.fcad… 25%");
}

#[test]
fn giving_up_on_a_reading_goes_back_to_naming_what_is_drawn() {
    let mut loads: Loads<()> = Loads::default();
    let a = loads.open(Some("first.fcad"), ()).expect("a document was named");
    finish_answer(&mut loads, a, Ok(()));

    let b = loads.open(Some("second.fcad"), ()).expect("a document was named");
    assert!(loads.cancel_current());
    assert_eq!(
        *loads.status(),
        Status::Ready {
            file: "first.fcad".to_owned()
        }
    );
    assert_eq!(loads.relay(b), None);

    // The reading that was given up on still answers, and is discarded.
    assert!(!finish_answer(&mut loads, b, Ok(())).status_changed);
    assert!(!loads.progressed(b, 5000));
    assert_eq!(loads.status().line(), "first.fcad");

    // Nothing left to give up on.
    assert!(!loads.cancel_current());
}

#[test]
fn giving_up_on_the_first_reading_says_there_is_no_document() {
    let mut loads: Loads<()> = Loads::default();
    loads.open(Some("only.fcad"), ()).expect("a document was named");
    assert!(loads.cancel_current());
    assert_eq!(*loads.status(), Status::Idle);
    assert_eq!(loads.status().line(), "No document");
}

#[test]
fn a_conflict_leaves_an_account_of_that_attempt_until_the_next_request() {
    let mut loads: Loads<()> = Loads::default();
    let a = loads.open(Some("plate.fcad"), ()).expect("a document was named");
    finish_answer(&mut loads, a, Ok(()));

    let b = loads
        .open(Some("/tmp/impossible.fcad"), ())
        .expect("a document was named");
    let effect = finish_answer(&mut loads, b, Err(conflict("the sketch cannot be solved")));
    assert_eq!(effect.error.as_deref(), Some("the sketch cannot be solved"));

    let account = loads.conflict().expect("a conflict leaves an account");
    assert_eq!(account.file, "impossible.fcad");
    assert_eq!(account.sketch, "sketch-7");
    let said: Vec<(&str, &str)> = account
        .constraints
        .iter()
        .map(|words| (words.identifier.as_str(), words.says.as_str()))
        .collect();
    assert_eq!(
        said,
        vec![
            ("k9", "Distance: c1.start and c1.end are 60 mm apart"),
            ("k10", "Distance: c1.start and c1.end are 40 mm apart"),
        ]
    );
    // The picture on screen is still the one that opened.
    assert_eq!(
        loads.status().line(),
        "impossible.fcad: the sketch cannot be solved"
    );

    // Asking for another document takes the account down at once.
    let c = loads.open(Some("other.fcad"), ()).expect("a document was named");
    assert!(loads.conflict().is_none());
    // And giving up on that one does not bring it back.
    assert!(loads.cancel_current());
    assert!(loads.conflict().is_none());
    assert_eq!(loads.status().line(), "plate.fcad");
    assert!(!loads.accepts(c));
}

#[test]
fn the_name_on_the_line_is_the_end_of_the_path() {
    assert_eq!(short_name("/models/bracket.fcad"), "bracket.fcad");
    assert_eq!(short_name("bracket.fcad"), "bracket.fcad");
    assert_eq!(short_name("models/parts/"), "parts");
    // A path with no final component is named whole.
    assert_eq!(short_name("/"), "/");
    assert_eq!(short_name("models/.."), "models/..");
}

#[test]
fn a_plain_path_is_named_by_its_last_part_on_the_line() {
    let mut loads: Loads<()> = Loads::default();
    for (path, name) in [
        ("/models/bracket.fcad", "bracket.fcad"),
        ("models/parts/plate.fcad", "plate.fcad"),
        ("plate.fcad", "plate.fcad"),
    ] {
        let g = loads.open(Some(path), ()).expect("a document was named");
        assert_eq!(
            *loads.status(),
            Status::Loading {
                generation: g,
                file: name.to_owned(),
                fraction: 0,
            }
        );
    }
}
