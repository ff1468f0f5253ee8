use ferritecad_app::words::{
    describe_constraint, describe_role, describe_rule, segment, solve_words_of, topology_words,
    CapSide, ConstraintRule, ConstraintWords, Segment, SelectionRule, SemanticRole, SolveFacts,
    StoredConstraint, TopologyMeaning,
};

/// Two curves of one sketch, by the identifiers a document stores.
fn two_curves() -> (String, String) {
    (
        "6f1d2c3b-4a59-4e86-9d7c-0b1a2f3e4d5c".to_string(),
        "a0b1c2d3-e4f5-4a6b-8c7d-9e0f1a2b3c4d".to_string(),
    )
}

/// A point of a curve, as the document spells it.
fn point(curve: &str, which: &str) -> String {
    format!("{curve}.{which}")
}

fn run(from: String, to: String) -> Segment {
    Segment { from, to }
}

/// The eight families the document stores, each with the one sentence the
/// window is to say for it. Sizes are as the document wrote them.
fn eight_families(first: &str, second: &str) -> Vec<(ConstraintRule, String)> {
    let families = vec![
        (
            ConstraintRule::Coincident {
                a: point(first, "end"),
                b: point(second, "start"),
            },
            format!("Coincident: {first}.end and {second}.start are the same point"),
        ),
        (
            ConstraintRule::Fixed {
                point: point(first, "at"),
                x: "-4.5".to_string(),
                y: "12".to_string(),
            },
            format!("Fixed: {first}.at is pinned at x -4.5 mm, y 12 mm"),
        ),
        (
            ConstraintRule::Distance {
                a: point(first, "start"),
                b: point(first, "end"),
                distance: "12.7".to_string(),
            },
            format!("Distance: {first}.start and {first}.end are 12.7 mm apart"),
        ),
        (
            ConstraintRule::Horizontal {
                a: point(first, "start"),
                b: point(second, "end"),
            },
            format!("Horizontal: {first}.start and {second}.end share a y coordinate"),
        ),
        (
            ConstraintRule::Vertical {
                a: point(first, "start"),
                b: point(second, "end"),
            },
            format!("Vertical: {first}.start and {second}.end share an x coordinate"),
        ),
        (
            ConstraintRule::EqualLength {
                a: run(point(first, "start"), point(first, "end")),
                b: run(point(second, "start"), point(second, "end")),
            },
            format!(
                "Equal length: {first}.start to {first}.end is as long as {second}.start to \
                 {second}.end"
            ),
        ),
        (
            ConstraintRule::Perpendicular {
                a: run(point(first, "start"), point(first, "end")),
                b: run(point(second, "start"), point(second, "end")),
            },
            format!(
                "Perpendicular: {first}.start to {first}.end meets {second}.start to \
                 {second}.end at a right angle"
            ),
        ),
        (
            ConstraintRule::Parallel {
                a: run(point(first, "start"), point(first, "end")),
                b: run(point(second, "start"), point(second, "end")),
            },
            format!(
                "Parallel: {first}.start to {first}.end runs in the same direction as \
                 {second}.start to {second}.end"
            ),
        ),
    ];
    assert_eq!(families.len(), 8, "the document stores eight families");
    families
}

#[test]
fn every_family_the_document_can_store_is_said_as_a_finished_sentence() {
    let (first, second) = two_curves();
    let cases = eight_families(&first, &second);

    let mut said: Vec<String> = Vec::new();
    for (rule, expected) in cases {
        let sentence = describe_constraint(&rule);
        assert_eq!(sentence, expected);
        said.push(sentence);
    }
    // No two families are described the same way, so a match arm answering
    // for its neighbour cannot pass by saying something plausible.
    let mut distinct = said.clone();
    distinct.sort();
    distinct.dedup();
    assert_eq!(
        distinct.len(),
        said.len(),
        "two families are described identically: {said:?}"
    );
    // And nothing in any of them is a shape a programmer prints.
    for sentence in &said {
        for forbidden in [
            "SketchConstraintRule",
            "SketchPointRef",
            "SketchSegmentRef",
            "ConstraintId",
            "PointId",
            "StableEntityId",
            "{",
            "}",
            "(",
            "[",
            "Some",
            "planegcs",
            "index",
            "ordinal",
        ] {
            assert!(
                !sentence.contains(forbidden),
                "a description printed {forbidden:?} instead of saying something: {sentence}"
            );
        }
    }
}

#[test]
fn a_description_reads_the_rule_out_in_the_order_the_document_stores_it() {
    let (first, second) = two_curves();

    // Coincident says the same thing either way round. The document does not,
    // and neither may the window.
    let forwards = describe_constraint(&ConstraintRule::Coincident {
        a: point(&first, "end"),
        b: point(&second, "start"),
    });
    let backwards = describe_constraint(&ConstraintRule::Coincident {
        a: point(&second, "start"),
        b: point(&first, "end"),
    });
    assert_ne!(
        forwards, backwards,
        "the two arguments of a constraint were reordered into a house style"
    );
    assert!(forwards.find(&format!("{first}.end")) < forwards.find(&format!("{second}.start")));

    // The two ends of one segment, likewise: start then end, because that is
    // what is written down.
    let parallel = describe_constraint(&ConstraintRule::Parallel {
        a: run(point(&first, "start"), point(&first, "end")),
        b: run(point(&second, "end"), point(&second, "start")),
    });
    assert!(
        parallel.contains(&format!("{first}.start to {first}.end"))
            && parallel.contains(&format!("{second}.end to {second}.start")),
        "a segment was read out from whichever end looked tidier: {parallel}"
    );
}

#[test]
fn a_family_without_words_says_so_in_words() {
    assert_eq!(
        describe_constraint(&ConstraintRule::Unknown),
        "A kind of relationship this build has no words for"
    );
}

#[test]
fn a_segment_is_read_from_its_first_end_to_its_second() {
    assert_eq!(
        segment(&run("p.start".to_string(), "p.end".to_string())),
        "p.start to p.end"
    );
}

#[test]
fn the_two_cap_edges_of_a_segment_are_said_differently() {
    let edge = |side: CapSide| SemanticRole::ExtrudeCapEdge {
        side,
        profile_segment: "seg-1".to_string(),
    };
    let start = describe_role(&edge(CapSide::Start));
    let end = describe_role(&edge(CapSide::End));
    assert_eq!(start, "Start cap edge of profile segment seg-1");
    assert_eq!(end, "End cap edge of profile segment seg-1");
    assert_ne!(start, end);
    // A side this build has no words for is said the way the document prints
    // it, and only the side.
    assert_eq!(
        describe_role(&edge(CapSide::Other("Middle".to_string()))),
        "Middle cap edge of profile segment seg-1"
    );
}

#[test]
fn every_role_is_said_with_every_identifier_it_names() {
    let said = |role: SemanticRole| describe_role(&role);
    assert_eq!(
        said(SemanticRole::ExtrudeCap { side: CapSide::Start }),
        "Extrusion cap, start"
    );
    assert_eq!(
        said(SemanticRole::ExtrudeCap { side: CapSide::End }),
        "Extrusion cap, end"
    );
    assert_eq!(
        said(SemanticRole::ExtrudeCap {
            side: CapSide::Other("Middle".to_string())
        }),
        "Extrusion cap, Middle"
    );
    assert_eq!(
        said(SemanticRole::ExtrudeSide {
            profile_segment: "s1".to_string()
        }),
        "Side raised from profile segment s1"
    );
    assert_eq!(
        said(SemanticRole::ExtrudeCapVertex {
            side: CapSide::End,
            one: "s1".to_string(),
            another: "s2".to_string()
        }),
        "End cap vertex at the joint of profile segments s1 and s2"
    );
    assert_eq!(
        said(SemanticRole::ExtrudeCapVertex {
            side: CapSide::Start,
            one: "s1".to_string(),
            another: "s2".to_string()
        }),
        "Start cap vertex at the joint of profile segments s1 and s2"
    );
    assert_eq!(
        said(SemanticRole::ExtrudeSweepEdge {
            one: "s1".to_string(),
            other: "s2".to_string()
        }),
        "Sweep edge at the joint of profile segments s1 and s2"
    );
    assert_eq!(
        said(SemanticRole::SketchSegment {
            segment: "s3".to_string()
        }),
        "Sketch segment s3"
    );
    assert_eq!(
        said(SemanticRole::FilletFace {
            source_edge: "e4".to_string()
        }),
        "Fillet of edge e4"
    );
    assert_eq!(
        said(SemanticRole::Other("Chamfer { edge: e5 }".to_string())),
        "Chamfer { edge: e5 }"
    );
}

#[test]
fn a_selection_rule_is_said_in_words() {
    assert_eq!(describe_rule(&SelectionRule::Exact), "Exactly this one");
    assert_eq!(
        describe_rule(&SelectionRule::AllDerivedFrom {
            ancestor: "f1".to_string()
        }),
        "Everything derived from f1"
    );
    assert_eq!(
        describe_rule(&SelectionRule::Other("Nearest".to_string())),
        "Nearest"
    );
}

#[test]
fn a_stored_reference_is_said_in_the_documents_own_terms() {
    let words = topology_words(&TopologyMeaning {
        reference: "r1".to_string(),
        owner: "o1".to_string(),
        producer_feature: "extrude-1".to_string(),
        expected_kind: "face".to_string(),
        output_role: SemanticRole::ExtrudeSide {
            profile_segment: "s1".to_string(),
        },
        selection: SelectionRule::Exact,
    });
    assert_eq!(words.reference, "r1");
    assert_eq!(words.owner, "o1");
    assert_eq!(words.producer_feature, "extrude-1");
    assert_eq!(words.expected_kind, "face");
    assert_eq!(words.role, "Side raised from profile segment s1");
    assert_eq!(words.rule, "Exactly this one");
}

#[test]
fn each_sketch_is_said_with_its_own_name_and_account() {
    let repeated = |id: &str, distance: &str| StoredConstraint {
        id: id.to_string(),
        rule: ConstraintRule::Distance {
            a: "c.start".to_string(),
            b: "c.end".to_string(),
            distance: distance.to_string(),
        },
    };
    let solves = vec![
        SolveFacts {
            name: Some("Profile".to_string()),
            sketch: "sk-1".to_string(),
            degrees_of_freedom: 0,
            redundant: vec![repeated("k1", "60"), repeated("k2", "60")],
        },
        SolveFacts {
            name: None,
            sketch: "sk-2".to_string(),
            degrees_of_freedom: 3,
            redundant: Vec::new(),
        },
    ];
    let words = solve_words_of(&solves);
    assert_eq!(words.len(), 2);
    assert_eq!(words[0].name.as_deref(), Some("Profile"));
    assert_eq!(words[0].object, "sk-1");
    assert_eq!(words[0].degrees_of_freedom, 0);
    assert_eq!(
        words[0].redundant,
        vec![
            ConstraintWords {
                identifier: "k1".to_string(),
                says: "Distance: c.start and c.end are 60 mm apart".to_string(),
            },
            ConstraintWords {
                identifier: "k2".to_string(),
                says: "Distance: c.start and c.end are 60 mm apart".to_string(),
            },
        ],
        "two constraints that say the same thing were folded together"
    );
    assert_eq!(words[1].name, None);
    assert_eq!(words[1].object, "sk-2");
    assert_eq!(words[1].degrees_of_freedom, 3);
    assert!(words[1].redundant.is_empty(), "a sketch was given its neighbour's account");

    assert!(solve_words_of(&Vec::new()).is_empty());
}

#[test]
fn a_constraint_is_named_and_said_by_one_road() {
    let words = ConstraintWords::of(
        "k7",
        &ConstraintRule::Horizontal {
            a: "c.start".to_string(),
            b: "c.end".to_string(),
        },
    );
    assert_eq!(words.identifier, "k7");
    assert_eq!(words.says, "Horizontal: c.start and c.end share a y coordinate");
}
