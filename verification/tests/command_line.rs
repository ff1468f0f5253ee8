use ferritecad_app::command_line::{document_argument, request, Request, SOLVER_INFO, USAGE};

fn line(words: &[&str]) -> Vec<String> {
    words.iter().map(|word| word.to_string()).collect()
}

#[test]
fn the_two_commands_are_told_apart() {
    assert_eq!(
        request(&line(&[SOLVER_INFO])).expect("the diagnostic is a command"),
        Request::SolverInfo
    );
    assert_eq!(
        request(&line(&["part.fcad"])).expect("a document is still a document"),
        Request::Document("part.fcad".to_string())
    );

    // Not an option that modifies opening a document. A line naming both a
    // document and this flag has asked for two different things.
    for words in [
        [SOLVER_INFO, "part.fcad"],
        [SOLVER_INFO, SOLVER_INFO],
        ["part.fcad", SOLVER_INFO],
    ] {
        let refused = request(&line(&words))
            .expect_err("two requests on one line are not one request");
        assert!(
            refused.message().contains("usage"),
            "{words:?}: {}",
            refused.message()
        );
    }

    // And everything the document route refused, it still refuses. The flag
    // is recognised as itself and not as a prefix or a spelling.
    assert!(request(&line(&[])).is_err());
    for flag in [
        "--help",
        "-h",
        "--version",
        "--solver-Info",
        "--solver-info=1",
    ] {
        assert!(
            request(&line(&[flag])).is_err(),
            "{flag} was taken for a command"
        );
    }
}

#[test]
fn one_document_is_asked_for_and_one_is_accepted() {
    let path = document_argument(&line(&["part.fcad"])).expect("one path is enough");
    assert_eq!(path, "part.fcad");

    let missing = document_argument(&line(&[])).expect_err("no document was named");
    assert!(missing.message().contains("usage"), "{}", missing.message());

    // Two files is a request this viewer cannot honour, and opening the first
    // silently would be honouring half of it.
    let extra = document_argument(&line(&["a.fcad", "b.fcad"]))
        .expect_err("two documents must not be taken as one");
    assert!(
        extra.message().contains("one document at a time"),
        "{}",
        extra.message()
    );

    // A question about usage, answered as one rather than as a document
    // called `--help` that could not be found.
    for flag in ["--help", "-h", "--version"] {
        let asked = document_argument(&line(&[flag])).expect_err("an option is not a document");
        assert!(asked.message().contains("usage"), "{flag}: {}", asked.message());
    }
}

#[test]
fn each_refusal_says_exactly_what_was_wrong() {
    assert_eq!(request(&line(&[])).unwrap_err().message(), USAGE);
    assert_eq!(
        request(&line(&["a.fcad", "b.fcad"])).unwrap_err().message(),
        format!("{USAGE}; one document at a time")
    );
    assert_eq!(
        request(&line(&[SOLVER_INFO, "part.fcad"])).unwrap_err().message(),
        format!("{USAGE}; {SOLVER_INFO} takes no arguments")
    );
    assert_eq!(request(&line(&["-"])).unwrap_err().message(), USAGE);
}

#[test]
fn a_file_whose_name_merely_contains_a_dash_is_a_document() {
    assert_eq!(
        request(&line(&["my-part.fcad"])),
        Ok(Request::Document("my-part.fcad".to_string()))
    );
    assert_eq!(
        request(&line(&["./-part.fcad"])),
        Ok(Request::Document("./-part.fcad".to_string()))
    );
}
